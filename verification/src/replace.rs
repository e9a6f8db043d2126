//! Inlining of constants over a whole tree: the rules of [`crate::inline_vars`],
//! applied to every node once its parts have been rewritten.

use vstd::prelude::*;
use crate::ast::{
    BlockStmtOrExpr, CatchClause, Class, ClassMember, Decl, DefaultDecl, Expr, ExprOrSpread,
    ExprOrSuper, Function, MemberProp, Module, ModuleDecl, ModuleItem, ObjectPatProp, Pat,
    PatOrExpr, Prop, PropName, PropOrSpread, Stmt, SwitchCase, Tpl, VarDecl, VarDeclOrExpr,
    VarDeclOrPat, VarDeclarator,
};
use crate::model::{
    BlockStmtOrExprV, CatchClauseV, ClassMemberV, ClassV, DeclV, DefaultDeclV, ExprOrSpreadV,
    ExprOrSuperV, ExprV, FunctionV, MemberPropV, ModuleDeclV, ModuleItemV, ModuleV, ObjectPatPropV,
    PatOrExprV, PatV, PropNameV, PropOrSpreadV, PropV, StmtV, SwitchCaseV, TplV, VarDeclOrExprV,
    VarDeclOrPatV, VarDeclV, VarDeclaratorV,
};
use crate::view::{
    class_member_view, class_members_view, expr_or_spread_view, expr_or_spreads_view, expr_view,
    exprs_view, lemma_block_stmt_or_expr_view, lemma_catch_clause_view, lemma_class_member_view,
    lemma_class_members_view, lemma_class_members_view_push, lemma_class_view, lemma_decl_view,
    lemma_default_decl_view, lemma_expr_or_spread_view, lemma_expr_or_spreads_view,
    lemma_expr_or_spreads_view_push, lemma_expr_or_super_view, lemma_expr_view, lemma_exprs_view,
    lemma_exprs_view_push, lemma_function_view, lemma_member_prop_view, lemma_module_decl_view,
    lemma_module_item_view, lemma_module_items_view, lemma_module_items_view_push,
    lemma_module_view, lemma_object_pat_prop_view, lemma_object_pat_props_view,
    lemma_object_pat_props_view_push, lemma_opt_expr_or_spreads_view,
    lemma_opt_expr_or_spreads_view_push, lemma_opt_pats_view, lemma_opt_pats_view_push,
    lemma_pat_or_expr_view, lemma_pat_view, lemma_pats_view, lemma_pats_view_push,
    lemma_prop_name_view, lemma_prop_or_spread_view, lemma_prop_or_spreads_view,
    lemma_prop_or_spreads_view_push, lemma_prop_view, lemma_stmt_view, lemma_switch_case_view,
    lemma_switch_cases_view, lemma_switch_cases_view_push, lemma_tpl_view,
    lemma_var_decl_or_expr_view, lemma_var_decl_or_pat_view, lemma_var_decl_view,
    lemma_var_declarator_view, lemma_var_declarators_view, lemma_var_declarators_view_push,
    module_item_view, module_items_view, object_pat_prop_view, object_pat_props_view,
    opt_expr_or_spreads_view, opt_pats_view, pat_view, pats_view, prop_or_spread_view,
    prop_or_spreads_view, switch_case_view, switch_cases_view, var_declarator_view,
    var_declarators_view,
};
use crate::inline_vars::{
    Constant, ConstantV, constants, constants_view, inlined, replace_bindings, replace_body,
    replace_shorthand, replace_stmts, replace_use, replaced_bindings, replaced_body,
    replaced_shorthand, replaced_use, without_emptied,
};

verus! {

/// A [`Tpl`] with the constants of `env` inlined.
#[verifier::opaque]
pub open spec fn replaced_tpl(x: TplV, env: Seq<ConstantV>) -> TplV
    decreases x,
{
    TplV {
        exprs: replaced_exprs(x.exprs, env),
        quasis: x.quasis,
    }
}

/// A [`ExprOrSpread`] with the constants of `env` inlined.
#[verifier::opaque]
pub open spec fn replaced_expr_or_spread(x: ExprOrSpreadV, env: Seq<ConstantV>) -> ExprOrSpreadV
    decreases x,
{
    ExprOrSpreadV {
        spread: x.spread,
        expr: replaced_expr(x.expr, env),
    }
}

/// A [`ExprOrSuper`] with the constants of `env` inlined.
#[verifier::opaque]
pub open spec fn replaced_expr_or_super(x: ExprOrSuperV, env: Seq<ConstantV>) -> ExprOrSuperV
    decreases x,
{
    match x {
        ExprOrSuperV::Super => ExprOrSuperV::Super,
        ExprOrSuperV::Expr(a) => ExprOrSuperV::Expr(Box::new(replaced_expr(*a, env))),
    }
}

/// A [`MemberProp`] with the constants of `env` inlined.
#[verifier::opaque]
pub open spec fn replaced_member_prop(x: MemberPropV, env: Seq<ConstantV>) -> MemberPropV
    decreases x,
{
    match x {
        MemberPropV::Ident(a) => MemberPropV::Ident(a),
        MemberPropV::Computed(a) => MemberPropV::Computed(Box::new(replaced_expr(*a, env))),
    }
}

/// A [`PatOrExpr`] with the constants of `env` inlined.
#[verifier::opaque]
pub open spec fn replaced_pat_or_expr(x: PatOrExprV, env: Seq<ConstantV>) -> PatOrExprV
    decreases x,
{
    match x {
        PatOrExprV::Expr(a) => PatOrExprV::Expr(Box::new(replaced_expr(*a, env))),
        PatOrExprV::Pat(a) => PatOrExprV::Pat(Box::new(replaced_pat(*a, env))),
    }
}

/// A [`PropName`] with the constants of `env` inlined.
#[verifier::opaque]
pub open spec fn replaced_prop_name(x: PropNameV, env: Seq<ConstantV>) -> PropNameV
    decreases x,
{
    match x {
        PropNameV::Ident(a) => PropNameV::Ident(a),
        PropNameV::Str(a) => PropNameV::Str(a),
        PropNameV::Num(a) => PropNameV::Num(a),
        PropNameV::Computed(a) => PropNameV::Computed(Box::new(replaced_expr(*a, env))),
    }
}

/// A [`Prop`] with the constants of `env` inlined.
#[verifier::opaque]
pub open spec fn replaced_prop(x: PropV, env: Seq<ConstantV>) -> PropV
    decreases x,
{
    replaced_shorthand(
        match x {
            PropV::Shorthand(a) => PropV::Shorthand(a),
            PropV::KeyValue { key, value } => (PropV::KeyValue {
                key: replaced_prop_name(key, env),
                value: Box::new(replaced_expr(*value, env)),
            }),
            PropV::Getter { key, body } => (PropV::Getter {
                key: replaced_prop_name(key, env),
                body: match body {
                    Some(x) => Some(replaced_stmts(x, env)),
                    None => None,
                },
            }),
            PropV::Setter { key, param, body } => (PropV::Setter {
                key: replaced_prop_name(key, env),
                param: replaced_pat(param, env),
                body: match body {
                    Some(x) => Some(replaced_stmts(x, env)),
                    None => None,
                },
            }),
            PropV::Method { key, function } => (PropV::Method {
                key: replaced_prop_name(key, env),
                function: replaced_function(function, env),
            }),
        },
        env,
    )
}

/// A [`PropOrSpread`] with the constants of `env` inlined.
#[verifier::opaque]
pub open spec fn replaced_prop_or_spread(x: PropOrSpreadV, env: Seq<ConstantV>) -> PropOrSpreadV
    decreases x,
{
    match x {
        PropOrSpreadV::Spread(a) => PropOrSpreadV::Spread(Box::new(replaced_expr(*a, env))),
        PropOrSpreadV::Prop(a) => PropOrSpreadV::Prop(Box::new(replaced_prop(*a, env))),
    }
}

/// A [`Function`] with the constants of `env` inlined.
#[verifier::opaque]
pub open spec fn replaced_function(x: FunctionV, env: Seq<ConstantV>) -> FunctionV
    decreases x,
{
    FunctionV {
        params: replaced_pats(x.params, env),
        body: match x.body {
            Some(x) => Some(replaced_stmts(x, env)),
            None => None,
        },
        is_generator: x.is_generator,
        is_async: x.is_async,
    }
}

/// A [`Class`] with the constants of `env` inlined.
#[verifier::opaque]
pub open spec fn replaced_class(x: ClassV, env: Seq<ConstantV>) -> ClassV
    decreases x,
{
    ClassV {
        super_class: match x.super_class {
            Some(x) => Some(Box::new(replaced_expr(*x, env))),
            None => None,
        },
        body: replaced_class_members(x.body, env),
    }
}

/// A [`ClassMember`] with the constants of `env` inlined.
#[verifier::opaque]
pub open spec fn replaced_class_member(x: ClassMemberV, env: Seq<ConstantV>) -> ClassMemberV
    decreases x,
{
    match x {
        ClassMemberV::Constructor { key, params, body } => (ClassMemberV::Constructor {
            key: replaced_prop_name(key, env),
            params: replaced_pats(params, env),
            body: match body {
                Some(x) => Some(replaced_stmts(x, env)),
                None => None,
            },
        }),
        ClassMemberV::Method { key, function, kind, is_static } => (ClassMemberV::Method {
            key: replaced_prop_name(key, env),
            function: replaced_function(function, env),
            kind: kind,
            is_static: is_static,
        }),
        ClassMemberV::Prop { key, value, is_static, computed } => (ClassMemberV::Prop {
            key: Box::new(replaced_expr(*key, env)),
            value: match value {
                Some(x) => Some(Box::new(replaced_expr(*x, env))),
                None => None,
            },
            is_static: is_static,
            computed: computed,
        }),
    }
}

/// A [`BlockStmtOrExpr`] with the constants of `env` inlined.
#[verifier::opaque]
pub open spec fn replaced_block_stmt_or_expr(x: BlockStmtOrExprV, env: Seq<ConstantV>) -> BlockStmtOrExprV
    decreases x,
{
    match x {
        BlockStmtOrExprV::Block(a) => BlockStmtOrExprV::Block(replaced_stmts(a, env)),
        BlockStmtOrExprV::Expr(a) => BlockStmtOrExprV::Expr(Box::new(replaced_expr(*a, env))),
    }
}

/// A [`Expr`] with the constants of `env` inlined.
#[verifier::opaque]
pub open spec fn replaced_expr(x: ExprV, env: Seq<ConstantV>) -> ExprV
    decreases x,
{
    replaced_use(
        match x {
            ExprV::This => ExprV::This,
            ExprV::Array(a) => ExprV::Array(replaced_opt_expr_or_spreads(a, env)),
            ExprV::Object(a) => ExprV::Object(replaced_prop_or_spreads(a, env)),
            ExprV::Fn { ident, function } => (ExprV::Fn {
                ident: ident,
                function: Box::new(replaced_function(*function, env)),
            }),
            ExprV::Unary { op, arg } => (ExprV::Unary {
                op: op,
                arg: Box::new(replaced_expr(*arg, env)),
            }),
            ExprV::Update { op, prefix, arg } => (ExprV::Update {
                op: op,
                prefix: prefix,
                arg: Box::new(replaced_expr(*arg, env)),
            }),
            ExprV::Bin { op, left, right } => (ExprV::Bin {
                op: op,
                left: Box::new(replaced_expr(*left, env)),
                right: Box::new(replaced_expr(*right, env)),
            }),
            ExprV::Assign { op, left, right } => (ExprV::Assign {
                op: op,
                left: replaced_pat_or_expr(left, env),
                right: Box::new(replaced_expr(*right, env)),
            }),
            ExprV::Member { obj, prop } => (ExprV::Member {
                obj: replaced_expr_or_super(obj, env),
                prop: replaced_member_prop(prop, env),
            }),
            ExprV::Cond { test, cons, alt } => (ExprV::Cond {
                test: Box::new(replaced_expr(*test, env)),
                cons: Box::new(replaced_expr(*cons, env)),
                alt: Box::new(replaced_expr(*alt, env)),
            }),
            ExprV::Call { callee, args } => (ExprV::Call {
                callee: replaced_expr_or_super(callee, env),
                args: replaced_expr_or_spreads(args, env),
            }),
            ExprV::New { callee, args } => (ExprV::New {
                callee: Box::new(replaced_expr(*callee, env)),
                args: match args {
                    Some(x) => Some(replaced_expr_or_spreads(x, env)),
                    None => None,
                },
            }),
            ExprV::Sequence { init, last } => (ExprV::Sequence {
                init: replaced_exprs(init, env),
                last: Box::new(replaced_expr(*last, env)),
            }),
            ExprV::Ident(a) => ExprV::Ident(a),
            ExprV::Lit(a) => ExprV::Lit(a),
            ExprV::Tpl(a) => ExprV::Tpl(replaced_tpl(a, env)),
            ExprV::TaggedTpl { tag, tpl } => (ExprV::TaggedTpl {
                tag: Box::new(replaced_expr(*tag, env)),
                tpl: replaced_tpl(tpl, env),
            }),
            ExprV::Arrow { params, body, is_async, is_generator } => (ExprV::Arrow {
                params: replaced_pats(params, env),
                body: replaced_block_stmt_or_expr(body, env),
                is_async: is_async,
                is_generator: is_generator,
            }),
            ExprV::Class { ident, class } => (ExprV::Class {
                ident: ident,
                class: Box::new(replaced_class(*class, env)),
            }),
            ExprV::Yield { arg, delegate } => (ExprV::Yield {
                arg: match arg {
                    Some(x) => Some(Box::new(replaced_expr(*x, env))),
                    None => None,
                },
                delegate: delegate,
            }),
            ExprV::MetaProp { meta, prop } => (ExprV::MetaProp {
                meta: meta,
                prop: prop,
            }),
            ExprV::Await(a) => ExprV::Await(Box::new(replaced_expr(*a, env))),
            ExprV::Paren(a) => ExprV::Paren(Box::new(replaced_expr(*a, env))),
            ExprV::Ts { cast, expr } => (ExprV::Ts {
                cast: cast,
                expr: Box::new(replaced_expr(*expr, env)),
            }),
            ExprV::OptChain(a) => ExprV::OptChain(Box::new(replaced_expr(*a, env))),
            ExprV::PrivateName(a) => ExprV::PrivateName(a),
        },
        env,
    )
}

/// A [`Pat`] with the constants of `env` inlined.
#[verifier::opaque]
pub open spec fn replaced_pat(x: PatV, env: Seq<ConstantV>) -> PatV
    decreases x,
{
    match x {
        PatV::Ident(a) => PatV::Ident(a),
        PatV::Array(a) => PatV::Array(replaced_opt_pats(a, env)),
        PatV::Rest(a) => PatV::Rest(Box::new(replaced_pat(*a, env))),
        PatV::Object(a) => PatV::Object(replaced_object_pat_props(a, env)),
        PatV::Assign { left, right } => (PatV::Assign {
            left: Box::new(replaced_pat(*left, env)),
            right: Box::new(replaced_expr(*right, env)),
        }),
        PatV::Expr(a) => PatV::Expr(Box::new(replaced_expr(*a, env))),
    }
}

/// A [`ObjectPatProp`] with the constants of `env` inlined.
#[verifier::opaque]
pub open spec fn replaced_object_pat_prop(x: ObjectPatPropV, env: Seq<ConstantV>) -> ObjectPatPropV
    decreases x,
{
    match x {
        ObjectPatPropV::KeyValue { key, value } => (ObjectPatPropV::KeyValue {
            key: replaced_prop_name(key, env),
            value: Box::new(replaced_pat(*value, env)),
        }),
        ObjectPatPropV::Assign { key, value } => (ObjectPatPropV::Assign {
            key: key,
            value: match value {
                Some(x) => Some(Box::new(replaced_expr(*x, env))),
                None => None,
            },
        }),
        ObjectPatPropV::Rest(a) => ObjectPatPropV::Rest(Box::new(replaced_pat(*a, env))),
    }
}

/// A [`VarDeclarator`] with the constants of `env` inlined.
#[verifier::opaque]
pub open spec fn replaced_var_declarator(x: VarDeclaratorV, env: Seq<ConstantV>) -> VarDeclaratorV
    decreases x,
{
    VarDeclaratorV {
        name: replaced_pat(x.name, env),
        init: match x.init {
            Some(x) => Some(Box::new(replaced_expr(*x, env))),
            None => None,
        },
    }
}

/// A [`VarDecl`] with the constants of `env` inlined.
#[verifier::opaque]
pub open spec fn replaced_var_decl(x: VarDeclV, env: Seq<ConstantV>) -> VarDeclV
    decreases x,
{
    replaced_bindings(
        VarDeclV {
            kind: x.kind,
            annotation: x.annotation,
            decls: replaced_var_declarators(x.decls, env),
        },
        env,
    )
}

/// A [`Decl`] with the constants of `env` inlined.
#[verifier::opaque]
pub open spec fn replaced_decl(x: DeclV, env: Seq<ConstantV>) -> DeclV
    decreases x,
{
    match x {
        DeclV::Class { ident, class } => (DeclV::Class {
            ident: ident,
            class: replaced_class(class, env),
        }),
        DeclV::Fn { ident, function } => (DeclV::Fn {
            ident: ident,
            function: replaced_function(function, env),
        }),
        DeclV::Var(a) => DeclV::Var(replaced_var_decl(a, env)),
    }
}

/// A [`VarDeclOrExpr`] with the constants of `env` inlined.
#[verifier::opaque]
pub open spec fn replaced_var_decl_or_expr(x: VarDeclOrExprV, env: Seq<ConstantV>) -> VarDeclOrExprV
    decreases x,
{
    match x {
        VarDeclOrExprV::VarDecl(a) => VarDeclOrExprV::VarDecl(replaced_var_decl(a, env)),
        VarDeclOrExprV::Expr(a) => VarDeclOrExprV::Expr(Box::new(replaced_expr(*a, env))),
    }
}

/// A [`VarDeclOrPat`] with the constants of `env` inlined.
#[verifier::opaque]
pub open spec fn replaced_var_decl_or_pat(x: VarDeclOrPatV, env: Seq<ConstantV>) -> VarDeclOrPatV
    decreases x,
{
    match x {
        VarDeclOrPatV::VarDecl(a) => VarDeclOrPatV::VarDecl(replaced_var_decl(a, env)),
        VarDeclOrPatV::Pat(a) => VarDeclOrPatV::Pat(replaced_pat(a, env)),
    }
}

/// A [`SwitchCase`] with the constants of `env` inlined.
#[verifier::opaque]
pub open spec fn replaced_switch_case(x: SwitchCaseV, env: Seq<ConstantV>) -> SwitchCaseV
    decreases x,
{
    SwitchCaseV {
        test: match x.test {
            Some(x) => Some(Box::new(replaced_expr(*x, env))),
            None => None,
        },
        cons: replaced_stmts(x.cons, env),
    }
}

/// A [`CatchClause`] with the constants of `env` inlined.
#[verifier::opaque]
pub open spec fn replaced_catch_clause(x: CatchClauseV, env: Seq<ConstantV>) -> CatchClauseV
    decreases x,
{
    CatchClauseV {
        param: match x.param {
            Some(x) => Some(replaced_pat(x, env)),
            None => None,
        },
        body: replaced_stmts(x.body, env),
    }
}

/// A [`Stmt`] with the constants of `env` inlined.
#[verifier::opaque]
pub open spec fn replaced_stmt(x: StmtV, env: Seq<ConstantV>) -> StmtV
    decreases x,
{
    replaced_body(
        match x {
            StmtV::Block(a) => StmtV::Block(replaced_stmts(a, env)),
            StmtV::Empty => StmtV::Empty,
            StmtV::Debugger => StmtV::Debugger,
            StmtV::With { obj, body } => (StmtV::With {
                obj: Box::new(replaced_expr(*obj, env)),
                body: Box::new(replaced_stmt(*body, env)),
            }),
            StmtV::Return(a) => StmtV::Return(match a {
                Some(x) => Some(Box::new(replaced_expr(*x, env))),
                None => None,
            }),
            StmtV::Labeled { label, body } => (StmtV::Labeled {
                label: label,
                body: Box::new(replaced_stmt(*body, env)),
            }),
            StmtV::Break(a) => StmtV::Break(a),
            StmtV::Continue(a) => StmtV::Continue(a),
            StmtV::If { test, cons, alt } => (StmtV::If {
                test: Box::new(replaced_expr(*test, env)),
                cons: Box::new(replaced_stmt(*cons, env)),
                alt: match alt {
                    Some(x) => Some(Box::new(replaced_stmt(*x, env))),
                    None => None,
                },
            }),
            StmtV::Switch { discriminant, cases } => (StmtV::Switch {
                discriminant: Box::new(replaced_expr(*discriminant, env)),
                cases: replaced_switch_cases(cases, env),
            }),
            StmtV::Throw(a) => StmtV::Throw(Box::new(replaced_expr(*a, env))),
            StmtV::Try { block, handler, finalizer } => (StmtV::Try {
                block: replaced_stmts(block, env),
                handler: match handler {
                    Some(x) => Some(replaced_catch_clause(x, env)),
                    None => None,
                },
                finalizer: match finalizer {
                    Some(x) => Some(replaced_stmts(x, env)),
                    None => None,
                },
            }),
            StmtV::While { test, body } => (StmtV::While {
                test: Box::new(replaced_expr(*test, env)),
                body: Box::new(replaced_stmt(*body, env)),
            }),
            StmtV::DoWhile { test, body } => (StmtV::DoWhile {
                test: Box::new(replaced_expr(*test, env)),
                body: Box::new(replaced_stmt(*body, env)),
            }),
            StmtV::For { init, test, update, body } => (StmtV::For {
                init: match init {
                    Some(x) => Some(replaced_var_decl_or_expr(x, env)),
                    None => None,
                },
                test: match test {
                    Some(x) => Some(Box::new(replaced_expr(*x, env))),
                    None => None,
                },
                update: match update {
                    Some(x) => Some(Box::new(replaced_expr(*x, env))),
                    None => None,
                },
                body: Box::new(replaced_stmt(*body, env)),
            }),
            StmtV::ForIn { left, right, body } => (StmtV::ForIn {
                left: replaced_var_decl_or_pat(left, env),
                right: Box::new(replaced_expr(*right, env)),
                body: Box::new(replaced_stmt(*body, env)),
            }),
            StmtV::ForOf { is_await, left, right, body } => (StmtV::ForOf {
                is_await: is_await,
                left: replaced_var_decl_or_pat(left, env),
                right: Box::new(replaced_expr(*right, env)),
                body: Box::new(replaced_stmt(*body, env)),
            }),
            StmtV::Decl(a) => StmtV::Decl(replaced_decl(a, env)),
            StmtV::Expr(a) => StmtV::Expr(Box::new(replaced_expr(*a, env))),
        },
        env,
    )
}

/// A [`DefaultDecl`] with the constants of `env` inlined.
#[verifier::opaque]
pub open spec fn replaced_default_decl(x: DefaultDeclV, env: Seq<ConstantV>) -> DefaultDeclV
    decreases x,
{
    match x {
        DefaultDeclV::Class { ident, class } => (DefaultDeclV::Class {
            ident: ident,
            class: replaced_class(class, env),
        }),
        DefaultDeclV::Fn { ident, function } => (DefaultDeclV::Fn {
            ident: ident,
            function: replaced_function(function, env),
        }),
    }
}

/// A [`ModuleDecl`] with the constants of `env` inlined.
#[verifier::opaque]
pub open spec fn replaced_module_decl(x: ModuleDeclV, env: Seq<ConstantV>) -> ModuleDeclV
    decreases x,
{
    match x {
        ModuleDeclV::Import { specifiers, src } => (ModuleDeclV::Import {
            specifiers: specifiers,
            src: src,
        }),
        ModuleDeclV::ExportDecl(a) => ModuleDeclV::ExportDecl(replaced_decl(a, env)),
        ModuleDeclV::ExportNamed { specifiers, src } => (ModuleDeclV::ExportNamed {
            specifiers: specifiers,
            src: src,
        }),
        ModuleDeclV::ExportDefaultDecl(a) =>
            ModuleDeclV::ExportDefaultDecl(replaced_default_decl(a, env)),
        ModuleDeclV::ExportDefaultExpr(a) =>
            ModuleDeclV::ExportDefaultExpr(Box::new(replaced_expr(*a, env))),
        ModuleDeclV::ExportAll { src } => (ModuleDeclV::ExportAll {
            src: src,
        }),
    }
}

/// A [`ModuleItem`] with the constants of `env` inlined.
#[verifier::opaque]
pub open spec fn replaced_module_item(x: ModuleItemV, env: Seq<ConstantV>) -> ModuleItemV
    decreases x,
{
    match x {
        ModuleItemV::ModuleDecl(a) => ModuleItemV::ModuleDecl(replaced_module_decl(a, env)),
        ModuleItemV::Stmt(a) => ModuleItemV::Stmt(replaced_stmt(a, env)),
    }
}

/// A [`Module`] with the constants of `env` inlined.
#[verifier::opaque]
pub open spec fn replaced_module(x: ModuleV, env: Seq<ConstantV>) -> ModuleV
    decreases x,
{
    ModuleV {
        body: replaced_module_items(x.body, env),
    }
}

/// Each item of a list with the constants of `env` inlined.
#[verifier::opaque]
pub open spec fn replaced_class_members(s: Seq<ClassMemberV>, env: Seq<ConstantV>) -> Seq<ClassMemberV>
    decreases s,
{
    Seq::new(
        s.len(),
        |i: int|
            if 0 <= i < s.len() {
                replaced_class_member(s[i], env)
            } else {
                arbitrary()
            },
    )
}

/// Each item of a list with the constants of `env` inlined.
#[verifier::opaque]
pub open spec fn replaced_expr_or_spreads(s: Seq<ExprOrSpreadV>, env: Seq<ConstantV>) -> Seq<ExprOrSpreadV>
    decreases s,
{
    Seq::new(
        s.len(),
        |i: int|
            if 0 <= i < s.len() {
                replaced_expr_or_spread(s[i], env)
            } else {
                arbitrary()
            },
    )
}

/// Each item of a list with the constants of `env` inlined.
#[verifier::opaque]
pub open spec fn replaced_exprs(s: Seq<ExprV>, env: Seq<ConstantV>) -> Seq<ExprV>
    decreases s,
{
    Seq::new(
        s.len(),
        |i: int|
            if 0 <= i < s.len() {
                replaced_expr(s[i], env)
            } else {
                arbitrary()
            },
    )
}

/// Each item of a list with the constants of `env` inlined.
#[verifier::opaque]
pub open spec fn replaced_module_items(s: Seq<ModuleItemV>, env: Seq<ConstantV>) -> Seq<ModuleItemV>
    decreases s,
{
    Seq::new(
        s.len(),
        |i: int|
            if 0 <= i < s.len() {
                replaced_module_item(s[i], env)
            } else {
                arbitrary()
            },
    )
}

/// Each item of a list with the constants of `env` inlined.
#[verifier::opaque]
pub open spec fn replaced_object_pat_props(s: Seq<ObjectPatPropV>, env: Seq<ConstantV>) -> Seq<ObjectPatPropV>
    decreases s,
{
    Seq::new(
        s.len(),
        |i: int|
            if 0 <= i < s.len() {
                replaced_object_pat_prop(s[i], env)
            } else {
                arbitrary()
            },
    )
}

/// Each item of a list with the constants of `env` inlined.
#[verifier::opaque]
pub open spec fn replaced_opt_expr_or_spreads(s: Seq<Option<ExprOrSpreadV>>, env: Seq<ConstantV>) -> Seq<Option<ExprOrSpreadV>>
    decreases s,
{
    Seq::new(
        s.len(),
        |i: int|
            if 0 <= i < s.len() {
                match s[i] {
                    Some(x) => Some(replaced_expr_or_spread(x, env)),
                    None => None,
                }
            } else {
                arbitrary()
            },
    )
}

/// Each item of a list with the constants of `env` inlined.
#[verifier::opaque]
pub open spec fn replaced_opt_pats(s: Seq<Option<PatV>>, env: Seq<ConstantV>) -> Seq<Option<PatV>>
    decreases s,
{
    Seq::new(
        s.len(),
        |i: int|
            if 0 <= i < s.len() {
                match s[i] {
                    Some(x) => Some(replaced_pat(x, env)),
                    None => None,
                }
            } else {
                arbitrary()
            },
    )
}

/// Each item of a list with the constants of `env` inlined.
#[verifier::opaque]
pub open spec fn replaced_pats(s: Seq<PatV>, env: Seq<ConstantV>) -> Seq<PatV>
    decreases s,
{
    Seq::new(
        s.len(),
        |i: int|
            if 0 <= i < s.len() {
                replaced_pat(s[i], env)
            } else {
                arbitrary()
            },
    )
}

/// Each item of a list with the constants of `env` inlined.
#[verifier::opaque]
pub open spec fn replaced_prop_or_spreads(s: Seq<PropOrSpreadV>, env: Seq<ConstantV>) -> Seq<PropOrSpreadV>
    decreases s,
{
    Seq::new(
        s.len(),
        |i: int|
            if 0 <= i < s.len() {
                replaced_prop_or_spread(s[i], env)
            } else {
                arbitrary()
            },
    )
}

/// Each item of a list with the constants of `env` inlined.
#[verifier::opaque]
pub open spec fn replaced_each_stmts(s: Seq<StmtV>, env: Seq<ConstantV>) -> Seq<StmtV>
    decreases s, 0nat,
{
    Seq::new(
        s.len(),
        |i: int|
            if 0 <= i < s.len() {
                replaced_stmt(s[i], env)
            } else {
                arbitrary()
            },
    )
}

/// A list with the constants of `env` inlined, less the declarations that this empties.
#[verifier::opaque]
pub open spec fn replaced_stmts(s: Seq<StmtV>, env: Seq<ConstantV>) -> Seq<StmtV>
    decreases s, 1nat,
{
    without_emptied(replaced_each_stmts(s, env), env)
}

/// Each item of a list with the constants of `env` inlined.
#[verifier::opaque]
pub open spec fn replaced_switch_cases(s: Seq<SwitchCaseV>, env: Seq<ConstantV>) -> Seq<SwitchCaseV>
    decreases s,
{
    Seq::new(
        s.len(),
        |i: int|
            if 0 <= i < s.len() {
                replaced_switch_case(s[i], env)
            } else {
                arbitrary()
            },
    )
}

/// Each item of a list with the constants of `env` inlined.
#[verifier::opaque]
pub open spec fn replaced_var_declarators(s: Seq<VarDeclaratorV>, env: Seq<ConstantV>) -> Seq<VarDeclaratorV>
    decreases s,
{
    Seq::new(
        s.len(),
        |i: int|
            if 0 <= i < s.len() {
                replaced_var_declarator(s[i], env)
            } else {
                arbitrary()
            },
    )
}

/// What [`replaced_tpl`] is, one level down.
pub proof fn lemma_replaced_tpl(x: TplV, env: Seq<ConstantV>)
    ensures
        replaced_tpl(x, env) == (TplV {
            exprs: replaced_exprs(x.exprs, env),
            quasis: x.quasis,
        }),
{
    reveal(replaced_tpl);
    reveal(replaced_exprs);
}

/// What [`replaced_expr_or_spread`] is, one level down.
pub proof fn lemma_replaced_expr_or_spread(x: ExprOrSpreadV, env: Seq<ConstantV>)
    ensures
        replaced_expr_or_spread(x, env) == (ExprOrSpreadV {
            spread: x.spread,
            expr: replaced_expr(x.expr, env),
        }),
{
    reveal(replaced_expr_or_spread);
    reveal(replaced_expr);
}

/// What [`replaced_expr_or_super`] is, one level down.
pub proof fn lemma_replaced_expr_or_super(x: ExprOrSuperV, env: Seq<ConstantV>)
    ensures
        replaced_expr_or_super(x, env) == (match x {
            ExprOrSuperV::Super => ExprOrSuperV::Super,
            ExprOrSuperV::Expr(a) => ExprOrSuperV::Expr(Box::new(replaced_expr(*a, env))),
        }),
{
    reveal(replaced_expr_or_super);
    reveal(replaced_expr);
}

/// What [`replaced_member_prop`] is, one level down.
pub proof fn lemma_replaced_member_prop(x: MemberPropV, env: Seq<ConstantV>)
    ensures
        replaced_member_prop(x, env) == (match x {
            MemberPropV::Ident(a) => MemberPropV::Ident(a),
            MemberPropV::Computed(a) => MemberPropV::Computed(Box::new(replaced_expr(*a, env))),
        }),
{
    reveal(replaced_member_prop);
    reveal(replaced_expr);
}

/// What [`replaced_pat_or_expr`] is, one level down.
pub proof fn lemma_replaced_pat_or_expr(x: PatOrExprV, env: Seq<ConstantV>)
    ensures
        replaced_pat_or_expr(x, env) == (match x {
            PatOrExprV::Expr(a) => PatOrExprV::Expr(Box::new(replaced_expr(*a, env))),
            PatOrExprV::Pat(a) => PatOrExprV::Pat(Box::new(replaced_pat(*a, env))),
        }),
{
    reveal(replaced_pat_or_expr);
    reveal(replaced_expr);
    reveal(replaced_pat);
}

/// What [`replaced_prop_name`] is, one level down.
pub proof fn lemma_replaced_prop_name(x: PropNameV, env: Seq<ConstantV>)
    ensures
        replaced_prop_name(x, env) == (match x {
            PropNameV::Ident(a) => PropNameV::Ident(a),
            PropNameV::Str(a) => PropNameV::Str(a),
            PropNameV::Num(a) => PropNameV::Num(a),
            PropNameV::Computed(a) => PropNameV::Computed(Box::new(replaced_expr(*a, env))),
        }),
{
    reveal(replaced_prop_name);
    reveal(replaced_expr);
}

/// What [`replaced_prop`] is, one level down.
pub proof fn lemma_replaced_prop(x: PropV, env: Seq<ConstantV>)
    ensures
        replaced_prop(x, env) == replaced_shorthand(
            match x {
                PropV::Shorthand(a) => PropV::Shorthand(a),
                PropV::KeyValue { key, value } => (PropV::KeyValue {
                    key: replaced_prop_name(key, env),
                    value: Box::new(replaced_expr(*value, env)),
                }),
                PropV::Getter { key, body } => (PropV::Getter {
                    key: replaced_prop_name(key, env),
                    body: match body {
                        Some(x) => Some(replaced_stmts(x, env)),
                        None => None,
                    },
                }),
                PropV::Setter { key, param, body } => (PropV::Setter {
                    key: replaced_prop_name(key, env),
                    param: replaced_pat(param, env),
                    body: match body {
                        Some(x) => Some(replaced_stmts(x, env)),
                        None => None,
                    },
                }),
                PropV::Method { key, function } => (PropV::Method {
                    key: replaced_prop_name(key, env),
                    function: replaced_function(function, env),
                }),
            },
            env,
        ),
{
    reveal(replaced_prop);
    reveal(replaced_prop_name);
    reveal(replaced_expr);
    reveal(replaced_stmts);
    reveal(replaced_pat);
    reveal(replaced_function);
}

/// What [`replaced_prop_or_spread`] is, one level down.
pub proof fn lemma_replaced_prop_or_spread(x: PropOrSpreadV, env: Seq<ConstantV>)
    ensures
        replaced_prop_or_spread(x, env) == (match x {
            PropOrSpreadV::Spread(a) => PropOrSpreadV::Spread(Box::new(replaced_expr(*a, env))),
            PropOrSpreadV::Prop(a) => PropOrSpreadV::Prop(Box::new(replaced_prop(*a, env))),
        }),
{
    reveal(replaced_prop_or_spread);
    reveal(replaced_expr);
    reveal(replaced_prop);
}

/// What [`replaced_function`] is, one level down.
pub proof fn lemma_replaced_function(x: FunctionV, env: Seq<ConstantV>)
    ensures
        replaced_function(x, env) == (FunctionV {
            params: replaced_pats(x.params, env),
            body: match x.body {
                Some(x) => Some(replaced_stmts(x, env)),
                None => None,
            },
            is_generator: x.is_generator,
            is_async: x.is_async,
        }),
{
    reveal(replaced_function);
    reveal(replaced_pats);
    reveal(replaced_stmts);
}

/// What [`replaced_class`] is, one level down.
pub proof fn lemma_replaced_class(x: ClassV, env: Seq<ConstantV>)
    ensures
        replaced_class(x, env) == (ClassV {
            super_class: match x.super_class {
                Some(x) => Some(Box::new(replaced_expr(*x, env))),
                None => None,
            },
            body: replaced_class_members(x.body, env),
        }),
{
    reveal(replaced_class);
    reveal(replaced_expr);
    reveal(replaced_class_members);
}

/// What [`replaced_class_member`] is, one level down.
pub proof fn lemma_replaced_class_member(x: ClassMemberV, env: Seq<ConstantV>)
    ensures
        replaced_class_member(x, env) == (match x {
            ClassMemberV::Constructor { key, params, body } => (ClassMemberV::Constructor {
                key: replaced_prop_name(key, env),
                params: replaced_pats(params, env),
                body: match body {
                    Some(x) => Some(replaced_stmts(x, env)),
                    None => None,
                },
            }),
            ClassMemberV::Method { key, function, kind, is_static } => (ClassMemberV::Method {
                key: replaced_prop_name(key, env),
                function: replaced_function(function, env),
                kind: kind,
                is_static: is_static,
            }),
            ClassMemberV::Prop { key, value, is_static, computed } => (ClassMemberV::Prop {
                key: Box::new(replaced_expr(*key, env)),
                value: match value {
                    Some(x) => Some(Box::new(replaced_expr(*x, env))),
                    None => None,
                },
                is_static: is_static,
                computed: computed,
            }),
        }),
{
    reveal(replaced_class_member);
    reveal(replaced_prop_name);
    reveal(replaced_pats);
    reveal(replaced_stmts);
    reveal(replaced_function);
    reveal(replaced_expr);
}

/// What [`replaced_block_stmt_or_expr`] is, one level down.
pub proof fn lemma_replaced_block_stmt_or_expr(x: BlockStmtOrExprV, env: Seq<ConstantV>)
    ensures
        replaced_block_stmt_or_expr(x, env) == (match x {
            BlockStmtOrExprV::Block(a) => BlockStmtOrExprV::Block(replaced_stmts(a, env)),
            BlockStmtOrExprV::Expr(a) => BlockStmtOrExprV::Expr(Box::new(replaced_expr(*a, env))),
        }),
{
    reveal(replaced_block_stmt_or_expr);
    reveal(replaced_stmts);
    reveal(replaced_expr);
}

/// What [`replaced_expr`] is, one level down.
pub proof fn lemma_replaced_expr(x: ExprV, env: Seq<ConstantV>)
    ensures
        replaced_expr(x, env) == replaced_use(
            match x {
                ExprV::This => ExprV::This,
                ExprV::Array(a) => ExprV::Array(replaced_opt_expr_or_spreads(a, env)),
                ExprV::Object(a) => ExprV::Object(replaced_prop_or_spreads(a, env)),
                ExprV::Fn { ident, function } => (ExprV::Fn {
                    ident: ident,
                    function: Box::new(replaced_function(*function, env)),
                }),
                ExprV::Unary { op, arg } => (ExprV::Unary {
                    op: op,
                    arg: Box::new(replaced_expr(*arg, env)),
                }),
                ExprV::Update { op, prefix, arg } => (ExprV::Update {
                    op: op,
                    prefix: prefix,
                    arg: Box::new(replaced_expr(*arg, env)),
                }),
                ExprV::Bin { op, left, right } => (ExprV::Bin {
                    op: op,
                    left: Box::new(replaced_expr(*left, env)),
                    right: Box::new(replaced_expr(*right, env)),
                }),
                ExprV::Assign { op, left, right } => (ExprV::Assign {
                    op: op,
                    left: replaced_pat_or_expr(left, env),
                    right: Box::new(replaced_expr(*right, env)),
                }),
                ExprV::Member { obj, prop } => (ExprV::Member {
                    obj: replaced_expr_or_super(obj, env),
                    prop: replaced_member_prop(prop, env),
                }),
                ExprV::Cond { test, cons, alt } => (ExprV::Cond {
                    test: Box::new(replaced_expr(*test, env)),
                    cons: Box::new(replaced_expr(*cons, env)),
                    alt: Box::new(replaced_expr(*alt, env)),
                }),
                ExprV::Call { callee, args } => (ExprV::Call {
                    callee: replaced_expr_or_super(callee, env),
                    args: replaced_expr_or_spreads(args, env),
                }),
                ExprV::New { callee, args } => (ExprV::New {
                    callee: Box::new(replaced_expr(*callee, env)),
                    args: match args {
                        Some(x) => Some(replaced_expr_or_spreads(x, env)),
                        None => None,
                    },
                }),
                ExprV::Sequence { init, last } => (ExprV::Sequence {
                    init: replaced_exprs(init, env),
                    last: Box::new(replaced_expr(*last, env)),
                }),
                ExprV::Ident(a) => ExprV::Ident(a),
                ExprV::Lit(a) => ExprV::Lit(a),
                ExprV::Tpl(a) => ExprV::Tpl(replaced_tpl(a, env)),
                ExprV::TaggedTpl { tag, tpl } => (ExprV::TaggedTpl {
                    tag: Box::new(replaced_expr(*tag, env)),
                    tpl: replaced_tpl(tpl, env),
                }),
                ExprV::Arrow { params, body, is_async, is_generator } => (ExprV::Arrow {
                    params: replaced_pats(params, env),
                    body: replaced_block_stmt_or_expr(body, env),
                    is_async: is_async,
                    is_generator: is_generator,
                }),
                ExprV::Class { ident, class } => (ExprV::Class {
                    ident: ident,
                    class: Box::new(replaced_class(*class, env)),
                }),
                ExprV::Yield { arg, delegate } => (ExprV::Yield {
                    arg: match arg {
                        Some(x) => Some(Box::new(replaced_expr(*x, env))),
                        None => None,
                    },
                    delegate: delegate,
                }),
                ExprV::MetaProp { meta, prop } => (ExprV::MetaProp {
                    meta: meta,
                    prop: prop,
                }),
                ExprV::Await(a) => ExprV::Await(Box::new(replaced_expr(*a, env))),
                ExprV::Paren(a) => ExprV::Paren(Box::new(replaced_expr(*a, env))),
                ExprV::Ts { cast, expr } => (ExprV::Ts {
                    cast: cast,
                    expr: Box::new(replaced_expr(*expr, env)),
                }),
                ExprV::OptChain(a) => ExprV::OptChain(Box::new(replaced_expr(*a, env))),
                ExprV::PrivateName(a) => ExprV::PrivateName(a),
            },
            env,
        ),
{
    reveal(replaced_expr);
    reveal(replaced_opt_expr_or_spreads);
    reveal(replaced_prop_or_spreads);
    reveal(replaced_function);
    reveal(replaced_pat_or_expr);
    reveal(replaced_expr_or_super);
    reveal(replaced_member_prop);
    reveal(replaced_expr_or_spreads);
    reveal(replaced_exprs);
    reveal(replaced_tpl);
    reveal(replaced_pats);
    reveal(replaced_block_stmt_or_expr);
    reveal(replaced_class);
}

/// What [`replaced_pat`] is, one level down.
pub proof fn lemma_replaced_pat(x: PatV, env: Seq<ConstantV>)
    ensures
        replaced_pat(x, env) == (match x {
            PatV::Ident(a) => PatV::Ident(a),
            PatV::Array(a) => PatV::Array(replaced_opt_pats(a, env)),
            PatV::Rest(a) => PatV::Rest(Box::new(replaced_pat(*a, env))),
            PatV::Object(a) => PatV::Object(replaced_object_pat_props(a, env)),
            PatV::Assign { left, right } => (PatV::Assign {
                left: Box::new(replaced_pat(*left, env)),
                right: Box::new(replaced_expr(*right, env)),
            }),
            PatV::Expr(a) => PatV::Expr(Box::new(replaced_expr(*a, env))),
        }),
{
    reveal(replaced_pat);
    reveal(replaced_opt_pats);
    reveal(replaced_object_pat_props);
    reveal(replaced_expr);
}

/// What [`replaced_object_pat_prop`] is, one level down.
pub proof fn lemma_replaced_object_pat_prop(x: ObjectPatPropV, env: Seq<ConstantV>)
    ensures
        replaced_object_pat_prop(x, env) == (match x {
            ObjectPatPropV::KeyValue { key, value } => (ObjectPatPropV::KeyValue {
                key: replaced_prop_name(key, env),
                value: Box::new(replaced_pat(*value, env)),
            }),
            ObjectPatPropV::Assign { key, value } => (ObjectPatPropV::Assign {
                key: key,
                value: match value {
                    Some(x) => Some(Box::new(replaced_expr(*x, env))),
                    None => None,
                },
            }),
            ObjectPatPropV::Rest(a) => ObjectPatPropV::Rest(Box::new(replaced_pat(*a, env))),
        }),
{
    reveal(replaced_object_pat_prop);
    reveal(replaced_prop_name);
    reveal(replaced_pat);
    reveal(replaced_expr);
}

/// What [`replaced_var_declarator`] is, one level down.
pub proof fn lemma_replaced_var_declarator(x: VarDeclaratorV, env: Seq<ConstantV>)
    ensures
        replaced_var_declarator(x, env) == (VarDeclaratorV {
            name: replaced_pat(x.name, env),
            init: match x.init {
                Some(x) => Some(Box::new(replaced_expr(*x, env))),
                None => None,
            },
        }),
{
    reveal(replaced_var_declarator);
    reveal(replaced_pat);
    reveal(replaced_expr);
}

/// What [`replaced_var_decl`] is, one level down.
pub proof fn lemma_replaced_var_decl(x: VarDeclV, env: Seq<ConstantV>)
    ensures
        replaced_var_decl(x, env) == replaced_bindings(
            VarDeclV {
                kind: x.kind,
                annotation: x.annotation,
                decls: replaced_var_declarators(x.decls, env),
            },
            env,
        ),
{
    reveal(replaced_var_decl);
    reveal(replaced_var_declarators);
}

/// What [`replaced_decl`] is, one level down.
pub proof fn lemma_replaced_decl(x: DeclV, env: Seq<ConstantV>)
    ensures
        replaced_decl(x, env) == (match x {
            DeclV::Class { ident, class } => (DeclV::Class {
                ident: ident,
                class: replaced_class(class, env),
            }),
            DeclV::Fn { ident, function } => (DeclV::Fn {
                ident: ident,
                function: replaced_function(function, env),
            }),
            DeclV::Var(a) => DeclV::Var(replaced_var_decl(a, env)),
        }),
{
    reveal(replaced_decl);
    reveal(replaced_class);
    reveal(replaced_function);
    reveal(replaced_var_decl);
}

/// What [`replaced_var_decl_or_expr`] is, one level down.
pub proof fn lemma_replaced_var_decl_or_expr(x: VarDeclOrExprV, env: Seq<ConstantV>)
    ensures
        replaced_var_decl_or_expr(x, env) == (match x {
            VarDeclOrExprV::VarDecl(a) => VarDeclOrExprV::VarDecl(replaced_var_decl(a, env)),
            VarDeclOrExprV::Expr(a) => VarDeclOrExprV::Expr(Box::new(replaced_expr(*a, env))),
        }),
{
    reveal(replaced_var_decl_or_expr);
    reveal(replaced_var_decl);
    reveal(replaced_expr);
}

/// What [`replaced_var_decl_or_pat`] is, one level down.
pub proof fn lemma_replaced_var_decl_or_pat(x: VarDeclOrPatV, env: Seq<ConstantV>)
    ensures
        replaced_var_decl_or_pat(x, env) == (match x {
            VarDeclOrPatV::VarDecl(a) => VarDeclOrPatV::VarDecl(replaced_var_decl(a, env)),
            VarDeclOrPatV::Pat(a) => VarDeclOrPatV::Pat(replaced_pat(a, env)),
        }),
{
    reveal(replaced_var_decl_or_pat);
    reveal(replaced_var_decl);
    reveal(replaced_pat);
}

/// What [`replaced_switch_case`] is, one level down.
pub proof fn lemma_replaced_switch_case(x: SwitchCaseV, env: Seq<ConstantV>)
    ensures
        replaced_switch_case(x, env) == (SwitchCaseV {
            test: match x.test {
                Some(x) => Some(Box::new(replaced_expr(*x, env))),
                None => None,
            },
            cons: replaced_stmts(x.cons, env),
        }),
{
    reveal(replaced_switch_case);
    reveal(replaced_expr);
    reveal(replaced_stmts);
}

/// What [`replaced_catch_clause`] is, one level down.
pub proof fn lemma_replaced_catch_clause(x: CatchClauseV, env: Seq<ConstantV>)
    ensures
        replaced_catch_clause(x, env) == (CatchClauseV {
            param: match x.param {
                Some(x) => Some(replaced_pat(x, env)),
                None => None,
            },
            body: replaced_stmts(x.body, env),
        }),
{
    reveal(replaced_catch_clause);
    reveal(replaced_pat);
    reveal(replaced_stmts);
}

/// What [`replaced_stmt`] is, one level down.
pub proof fn lemma_replaced_stmt(x: StmtV, env: Seq<ConstantV>)
    ensures
        replaced_stmt(x, env) == replaced_body(
            match x {
                StmtV::Block(a) => StmtV::Block(replaced_stmts(a, env)),
                StmtV::Empty => StmtV::Empty,
                StmtV::Debugger => StmtV::Debugger,
                StmtV::With { obj, body } => (StmtV::With {
                    obj: Box::new(replaced_expr(*obj, env)),
                    body: Box::new(replaced_stmt(*body, env)),
                }),
                StmtV::Return(a) => StmtV::Return(match a {
                    Some(x) => Some(Box::new(replaced_expr(*x, env))),
                    None => None,
                }),
                StmtV::Labeled { label, body } => (StmtV::Labeled {
                    label: label,
                    body: Box::new(replaced_stmt(*body, env)),
                }),
                StmtV::Break(a) => StmtV::Break(a),
                StmtV::Continue(a) => StmtV::Continue(a),
                StmtV::If { test, cons, alt } => (StmtV::If {
                    test: Box::new(replaced_expr(*test, env)),
                    cons: Box::new(replaced_stmt(*cons, env)),
                    alt: match alt {
                        Some(x) => Some(Box::new(replaced_stmt(*x, env))),
                        None => None,
                    },
                }),
                StmtV::Switch { discriminant, cases } => (StmtV::Switch {
                    discriminant: Box::new(replaced_expr(*discriminant, env)),
                    cases: replaced_switch_cases(cases, env),
                }),
                StmtV::Throw(a) => StmtV::Throw(Box::new(replaced_expr(*a, env))),
                StmtV::Try { block, handler, finalizer } => (StmtV::Try {
                    block: replaced_stmts(block, env),
                    handler: match handler {
                        Some(x) => Some(replaced_catch_clause(x, env)),
                        None => None,
                    },
                    finalizer: match finalizer {
                        Some(x) => Some(replaced_stmts(x, env)),
                        None => None,
                    },
                }),
                StmtV::While { test, body } => (StmtV::While {
                    test: Box::new(replaced_expr(*test, env)),
                    body: Box::new(replaced_stmt(*body, env)),
                }),
                StmtV::DoWhile { test, body } => (StmtV::DoWhile {
                    test: Box::new(replaced_expr(*test, env)),
                    body: Box::new(replaced_stmt(*body, env)),
                }),
                StmtV::For { init, test, update, body } => (StmtV::For {
                    init: match init {
                        Some(x) => Some(replaced_var_decl_or_expr(x, env)),
                        None => None,
                    },
                    test: match test {
                        Some(x) => Some(Box::new(replaced_expr(*x, env))),
                        None => None,
                    },
                    update: match update {
                        Some(x) => Some(Box::new(replaced_expr(*x, env))),
                        None => None,
                    },
                    body: Box::new(replaced_stmt(*body, env)),
                }),
                StmtV::ForIn { left, right, body } => (StmtV::ForIn {
                    left: replaced_var_decl_or_pat(left, env),
                    right: Box::new(replaced_expr(*right, env)),
                    body: Box::new(replaced_stmt(*body, env)),
                }),
                StmtV::ForOf { is_await, left, right, body } => (StmtV::ForOf {
                    is_await: is_await,
                    left: replaced_var_decl_or_pat(left, env),
                    right: Box::new(replaced_expr(*right, env)),
                    body: Box::new(replaced_stmt(*body, env)),
                }),
                StmtV::Decl(a) => StmtV::Decl(replaced_decl(a, env)),
                StmtV::Expr(a) => StmtV::Expr(Box::new(replaced_expr(*a, env))),
            },
            env,
        ),
{
    reveal(replaced_stmt);
    reveal(replaced_stmts);
    reveal(replaced_expr);
    reveal(replaced_switch_cases);
    reveal(replaced_catch_clause);
    reveal(replaced_var_decl_or_expr);
    reveal(replaced_var_decl_or_pat);
    reveal(replaced_decl);
}

/// What [`replaced_default_decl`] is, one level down.
pub proof fn lemma_replaced_default_decl(x: DefaultDeclV, env: Seq<ConstantV>)
    ensures
        replaced_default_decl(x, env) == (match x {
            DefaultDeclV::Class { ident, class } => (DefaultDeclV::Class {
                ident: ident,
                class: replaced_class(class, env),
            }),
            DefaultDeclV::Fn { ident, function } => (DefaultDeclV::Fn {
                ident: ident,
                function: replaced_function(function, env),
            }),
        }),
{
    reveal(replaced_default_decl);
    reveal(replaced_class);
    reveal(replaced_function);
}

/// What [`replaced_module_decl`] is, one level down.
pub proof fn lemma_replaced_module_decl(x: ModuleDeclV, env: Seq<ConstantV>)
    ensures
        replaced_module_decl(x, env) == (match x {
            ModuleDeclV::Import { specifiers, src } => (ModuleDeclV::Import {
                specifiers: specifiers,
                src: src,
            }),
            ModuleDeclV::ExportDecl(a) => ModuleDeclV::ExportDecl(replaced_decl(a, env)),
            ModuleDeclV::ExportNamed { specifiers, src } => (ModuleDeclV::ExportNamed {
                specifiers: specifiers,
                src: src,
            }),
            ModuleDeclV::ExportDefaultDecl(a) =>
                ModuleDeclV::ExportDefaultDecl(replaced_default_decl(a, env)),
            ModuleDeclV::ExportDefaultExpr(a) =>
                ModuleDeclV::ExportDefaultExpr(Box::new(replaced_expr(*a, env))),
            ModuleDeclV::ExportAll { src } => (ModuleDeclV::ExportAll {
                src: src,
            }),
        }),
{
    reveal(replaced_module_decl);
    reveal(replaced_decl);
    reveal(replaced_default_decl);
    reveal(replaced_expr);
}

/// What [`replaced_module_item`] is, one level down.
pub proof fn lemma_replaced_module_item(x: ModuleItemV, env: Seq<ConstantV>)
    ensures
        replaced_module_item(x, env) == (match x {
            ModuleItemV::ModuleDecl(a) => ModuleItemV::ModuleDecl(replaced_module_decl(a, env)),
            ModuleItemV::Stmt(a) => ModuleItemV::Stmt(replaced_stmt(a, env)),
        }),
{
    reveal(replaced_module_item);
    reveal(replaced_module_decl);
    reveal(replaced_stmt);
}

/// What [`replaced_module`] is, one level down.
pub proof fn lemma_replaced_module(x: ModuleV, env: Seq<ConstantV>)
    ensures
        replaced_module(x, env) == (ModuleV {
            body: replaced_module_items(x.body, env),
        }),
{
    reveal(replaced_module);
    reveal(replaced_module_items);
}

/// The rewritten list holds the rewritten items, in their order.
pub proof fn lemma_replaced_class_members(s: Seq<ClassMemberV>, env: Seq<ConstantV>)
    ensures
        replaced_class_members(s, env).len() == s.len(),
        forall|i: int|
            0 <= i < s.len() ==> (#[trigger] replaced_class_members(s, env)[i])
                == replaced_class_member(s[i], env),
{
    reveal(replaced_class_members);
    reveal(replaced_class_member);
}

/// The rewritten list holds the rewritten items, in their order.
pub proof fn lemma_replaced_expr_or_spreads(s: Seq<ExprOrSpreadV>, env: Seq<ConstantV>)
    ensures
        replaced_expr_or_spreads(s, env).len() == s.len(),
        forall|i: int|
            0 <= i < s.len() ==> (#[trigger] replaced_expr_or_spreads(s, env)[i])
                == replaced_expr_or_spread(s[i], env),
{
    reveal(replaced_expr_or_spreads);
    reveal(replaced_expr_or_spread);
}

/// The rewritten list holds the rewritten items, in their order.
pub proof fn lemma_replaced_exprs(s: Seq<ExprV>, env: Seq<ConstantV>)
    ensures
        replaced_exprs(s, env).len() == s.len(),
        forall|i: int|
            0 <= i < s.len() ==> (#[trigger] replaced_exprs(s, env)[i]) == replaced_expr(s[i], env),
{
    reveal(replaced_exprs);
    reveal(replaced_expr);
}

/// The rewritten list holds the rewritten items, in their order.
pub proof fn lemma_replaced_module_items(s: Seq<ModuleItemV>, env: Seq<ConstantV>)
    ensures
        replaced_module_items(s, env).len() == s.len(),
        forall|i: int|
            0 <= i < s.len() ==> (#[trigger] replaced_module_items(s, env)[i])
                == replaced_module_item(s[i], env),
{
    reveal(replaced_module_items);
    reveal(replaced_module_item);
}

/// The rewritten list holds the rewritten items, in their order.
pub proof fn lemma_replaced_object_pat_props(s: Seq<ObjectPatPropV>, env: Seq<ConstantV>)
    ensures
        replaced_object_pat_props(s, env).len() == s.len(),
        forall|i: int|
            0 <= i < s.len() ==> (#[trigger] replaced_object_pat_props(s, env)[i])
                == replaced_object_pat_prop(s[i], env),
{
    reveal(replaced_object_pat_props);
    reveal(replaced_object_pat_prop);
}

/// The rewritten list holds the rewritten items, in their order.
pub proof fn lemma_replaced_opt_expr_or_spreads(s: Seq<Option<ExprOrSpreadV>>, env: Seq<ConstantV>)
    ensures
        replaced_opt_expr_or_spreads(s, env).len() == s.len(),
        forall|i: int|
            0 <= i < s.len() ==> (#[trigger] replaced_opt_expr_or_spreads(s, env)[i])
                == match s[i] {
                Some(x) => Some(replaced_expr_or_spread(x, env)),
                None => None,
            },
{
    reveal(replaced_opt_expr_or_spreads);
    reveal(replaced_expr_or_spread);
}

/// The rewritten list holds the rewritten items, in their order.
pub proof fn lemma_replaced_opt_pats(s: Seq<Option<PatV>>, env: Seq<ConstantV>)
    ensures
        replaced_opt_pats(s, env).len() == s.len(),
        forall|i: int|
            0 <= i < s.len() ==> (#[trigger] replaced_opt_pats(s, env)[i]) == match s[i] {
                Some(x) => Some(replaced_pat(x, env)),
                None => None,
            },
{
    reveal(replaced_opt_pats);
    reveal(replaced_pat);
}

/// The rewritten list holds the rewritten items, in their order.
pub proof fn lemma_replaced_pats(s: Seq<PatV>, env: Seq<ConstantV>)
    ensures
        replaced_pats(s, env).len() == s.len(),
        forall|i: int|
            0 <= i < s.len() ==> (#[trigger] replaced_pats(s, env)[i]) == replaced_pat(s[i], env),
{
    reveal(replaced_pats);
    reveal(replaced_pat);
}

/// The rewritten list holds the rewritten items, in their order.
pub proof fn lemma_replaced_prop_or_spreads(s: Seq<PropOrSpreadV>, env: Seq<ConstantV>)
    ensures
        replaced_prop_or_spreads(s, env).len() == s.len(),
        forall|i: int|
            0 <= i < s.len() ==> (#[trigger] replaced_prop_or_spreads(s, env)[i])
                == replaced_prop_or_spread(s[i], env),
{
    reveal(replaced_prop_or_spreads);
    reveal(replaced_prop_or_spread);
}

/// The rewritten list holds the rewritten items, in their order.
pub proof fn lemma_replaced_each_stmts(s: Seq<StmtV>, env: Seq<ConstantV>)
    ensures
        replaced_each_stmts(s, env).len() == s.len(),
        forall|i: int|
            0 <= i < s.len() ==> (#[trigger] replaced_each_stmts(s, env)[i])
                == replaced_stmt(s[i], env),
{
    reveal(replaced_each_stmts);
    reveal(replaced_stmt);
}

/// What [`replaced_stmts`] is, one level down.
pub proof fn lemma_replaced_stmts(s: Seq<StmtV>, env: Seq<ConstantV>)
    ensures
        replaced_stmts(s, env) == without_emptied(replaced_each_stmts(s, env), env),
{
    reveal(replaced_stmts);
    reveal(replaced_each_stmts);
}

/// The rewritten list holds the rewritten items, in their order.
pub proof fn lemma_replaced_switch_cases(s: Seq<SwitchCaseV>, env: Seq<ConstantV>)
    ensures
        replaced_switch_cases(s, env).len() == s.len(),
        forall|i: int|
            0 <= i < s.len() ==> (#[trigger] replaced_switch_cases(s, env)[i])
                == replaced_switch_case(s[i], env),
{
    reveal(replaced_switch_cases);
    reveal(replaced_switch_case);
}

/// The rewritten list holds the rewritten items, in their order.
pub proof fn lemma_replaced_var_declarators(s: Seq<VarDeclaratorV>, env: Seq<ConstantV>)
    ensures
        replaced_var_declarators(s, env).len() == s.len(),
        forall|i: int|
            0 <= i < s.len() ==> (#[trigger] replaced_var_declarators(s, env)[i])
                == replaced_var_declarator(s[i], env),
{
    reveal(replaced_var_declarators);
    reveal(replaced_var_declarator);
}

/// Inlines the constants of `env` in a [`Tpl`].
pub fn replace_tpl(x: Tpl, env: &Vec<Constant>) -> (r: Tpl)
    ensures
        r@ == replaced_tpl(x@, constants_view(env@)),
    decreases x,
{
    proof {
        lemma_tpl_view(x);
        lemma_replaced_tpl(x@, constants_view(env@));
    }
    let exprs = replace_exprs(x.exprs, env);
    let quasis = x.quasis;
    let y = Tpl { exprs, quasis };
    proof {
        lemma_tpl_view(y);
    }
    y
}

/// Inlines the constants of `env` in a [`ExprOrSpread`].
pub fn replace_expr_or_spread(x: ExprOrSpread, env: &Vec<Constant>) -> (r: ExprOrSpread)
    ensures
        r@ == replaced_expr_or_spread(x@, constants_view(env@)),
    decreases x,
{
    proof {
        lemma_expr_or_spread_view(x);
        lemma_replaced_expr_or_spread(x@, constants_view(env@));
    }
    let spread = x.spread;
    let expr = replace_expr(x.expr, env);
    let y = ExprOrSpread { spread, expr };
    proof {
        lemma_expr_or_spread_view(y);
    }
    y
}

/// Inlines the constants of `env` in a [`ExprOrSuper`].
pub fn replace_expr_or_super(x: ExprOrSuper, env: &Vec<Constant>) -> (r: ExprOrSuper)
    ensures
        r@ == replaced_expr_or_super(x@, constants_view(env@)),
    decreases x,
{
    proof {
        lemma_expr_or_super_view(x);
        lemma_replaced_expr_or_super(x@, constants_view(env@));
    }
    let y = match x {
        ExprOrSuper::Super => ExprOrSuper::Super,
        ExprOrSuper::Expr(a) => {
            let a = Box::new(replace_expr(*a, env));
            let y = ExprOrSuper::Expr(a);
            proof {
                lemma_expr_or_super_view(y);
            }
            y
        },
    };
    y
}

/// Inlines the constants of `env` in a [`MemberProp`].
pub fn replace_member_prop(x: MemberProp, env: &Vec<Constant>) -> (r: MemberProp)
    ensures
        r@ == replaced_member_prop(x@, constants_view(env@)),
    decreases x,
{
    proof {
        lemma_member_prop_view(x);
        lemma_replaced_member_prop(x@, constants_view(env@));
    }
    let y = match x {
        MemberProp::Ident(a) => MemberProp::Ident(a),
        MemberProp::Computed(a) => {
            let a = Box::new(replace_expr(*a, env));
            let y = MemberProp::Computed(a);
            proof {
                lemma_member_prop_view(y);
            }
            y
        },
    };
    y
}

/// Inlines the constants of `env` in a [`PatOrExpr`].
pub fn replace_pat_or_expr(x: PatOrExpr, env: &Vec<Constant>) -> (r: PatOrExpr)
    ensures
        r@ == replaced_pat_or_expr(x@, constants_view(env@)),
    decreases x,
{
    proof {
        lemma_pat_or_expr_view(x);
        lemma_replaced_pat_or_expr(x@, constants_view(env@));
    }
    let y = match x {
        PatOrExpr::Expr(a) => {
            let a = Box::new(replace_expr(*a, env));
            let y = PatOrExpr::Expr(a);
            proof {
                lemma_pat_or_expr_view(y);
            }
            y
        },
        PatOrExpr::Pat(a) => {
            let a = Box::new(replace_pat(*a, env));
            let y = PatOrExpr::Pat(a);
            proof {
                lemma_pat_or_expr_view(y);
            }
            y
        },
    };
    y
}

/// Inlines the constants of `env` in a [`PropName`].
pub fn replace_prop_name(x: PropName, env: &Vec<Constant>) -> (r: PropName)
    ensures
        r@ == replaced_prop_name(x@, constants_view(env@)),
    decreases x,
{
    proof {
        lemma_prop_name_view(x);
        lemma_replaced_prop_name(x@, constants_view(env@));
    }
    let y = match x {
        PropName::Ident(a) => PropName::Ident(a),
        PropName::Str(a) => PropName::Str(a),
        PropName::Num(a) => PropName::Num(a),
        PropName::Computed(a) => {
            let a = Box::new(replace_expr(*a, env));
            let y = PropName::Computed(a);
            proof {
                lemma_prop_name_view(y);
            }
            y
        },
    };
    y
}

/// Inlines the constants of `env` in a [`Prop`].
pub fn replace_prop(x: Prop, env: &Vec<Constant>) -> (r: Prop)
    ensures
        r@ == replaced_prop(x@, constants_view(env@)),
    decreases x,
{
    proof {
        lemma_prop_view(x);
        lemma_replaced_prop(x@, constants_view(env@));
    }
    let y = match x {
        Prop::Shorthand(a) => Prop::Shorthand(a),
        Prop::KeyValue { key, value } => {
            let key = replace_prop_name(key, env);
            let value = Box::new(replace_expr(*value, env));
            let y = Prop::KeyValue { key, value };
            proof {
                lemma_prop_view(y);
            }
            y
        },
        Prop::Getter { key, body } => {
            let key = replace_prop_name(key, env);
            let body = match body {
                Some(x) => Some(replace_stmts(x, env)),
                None => None,
            };
            let y = Prop::Getter { key, body };
            proof {
                lemma_prop_view(y);
            }
            y
        },
        Prop::Setter { key, param, body } => {
            let key = replace_prop_name(key, env);
            let param = replace_pat(param, env);
            let body = match body {
                Some(x) => Some(replace_stmts(x, env)),
                None => None,
            };
            let y = Prop::Setter { key, param, body };
            proof {
                lemma_prop_view(y);
            }
            y
        },
        Prop::Method { key, function } => {
            let key = replace_prop_name(key, env);
            let function = replace_function(function, env);
            let y = Prop::Method { key, function };
            proof {
                lemma_prop_view(y);
            }
            y
        },
    };
    replace_shorthand(y, env)
}

/// Inlines the constants of `env` in a [`PropOrSpread`].
pub fn replace_prop_or_spread(x: PropOrSpread, env: &Vec<Constant>) -> (r: PropOrSpread)
    ensures
        r@ == replaced_prop_or_spread(x@, constants_view(env@)),
    decreases x,
{
    proof {
        lemma_prop_or_spread_view(x);
        lemma_replaced_prop_or_spread(x@, constants_view(env@));
    }
    let y = match x {
        PropOrSpread::Spread(a) => {
            let a = Box::new(replace_expr(*a, env));
            let y = PropOrSpread::Spread(a);
            proof {
                lemma_prop_or_spread_view(y);
            }
            y
        },
        PropOrSpread::Prop(a) => {
            let a = Box::new(replace_prop(*a, env));
            let y = PropOrSpread::Prop(a);
            proof {
                lemma_prop_or_spread_view(y);
            }
            y
        },
    };
    y
}

/// Inlines the constants of `env` in a [`Function`].
pub fn replace_function(x: Function, env: &Vec<Constant>) -> (r: Function)
    ensures
        r@ == replaced_function(x@, constants_view(env@)),
    decreases x,
{
    proof {
        lemma_function_view(x);
        lemma_replaced_function(x@, constants_view(env@));
    }
    let params = replace_pats(x.params, env);
    let body = match x.body {
        Some(x) => Some(replace_stmts(x, env)),
        None => None,
    };
    let is_generator = x.is_generator;
    let is_async = x.is_async;
    let y = Function { params, body, is_generator, is_async };
    proof {
        lemma_function_view(y);
    }
    y
}

/// Inlines the constants of `env` in a [`Class`].
pub fn replace_class(x: Class, env: &Vec<Constant>) -> (r: Class)
    ensures
        r@ == replaced_class(x@, constants_view(env@)),
    decreases x,
{
    proof {
        lemma_class_view(x);
        lemma_replaced_class(x@, constants_view(env@));
    }
    let super_class = match x.super_class {
        Some(x) => Some(Box::new(replace_expr(*x, env))),
        None => None,
    };
    let body = replace_class_members(x.body, env);
    let y = Class { super_class, body };
    proof {
        lemma_class_view(y);
    }
    y
}

/// Inlines the constants of `env` in a [`ClassMember`].
pub fn replace_class_member(x: ClassMember, env: &Vec<Constant>) -> (r: ClassMember)
    ensures
        r@ == replaced_class_member(x@, constants_view(env@)),
    decreases x,
{
    proof {
        lemma_class_member_view(x);
        lemma_replaced_class_member(x@, constants_view(env@));
    }
    let y = match x {
        ClassMember::Constructor { key, params, body } => {
            let key = replace_prop_name(key, env);
            let params = replace_pats(params, env);
            let body = match body {
                Some(x) => Some(replace_stmts(x, env)),
                None => None,
            };
            let y = ClassMember::Constructor { key, params, body };
            proof {
                lemma_class_member_view(y);
            }
            y
        },
        ClassMember::Method { key, function, kind, is_static } => {
            let key = replace_prop_name(key, env);
            let function = replace_function(function, env);
            let y = ClassMember::Method { key, function, kind, is_static };
            proof {
                lemma_class_member_view(y);
            }
            y
        },
        ClassMember::Prop { key, value, is_static, computed } => {
            let key = Box::new(replace_expr(*key, env));
            let value = match value {
                Some(x) => Some(Box::new(replace_expr(*x, env))),
                None => None,
            };
            let y = ClassMember::Prop { key, value, is_static, computed };
            proof {
                lemma_class_member_view(y);
            }
            y
        },
    };
    y
}

/// Inlines the constants of `env` in a [`BlockStmtOrExpr`].
pub fn replace_block_stmt_or_expr(x: BlockStmtOrExpr, env: &Vec<Constant>) -> (r: BlockStmtOrExpr)
    ensures
        r@ == replaced_block_stmt_or_expr(x@, constants_view(env@)),
    decreases x,
{
    proof {
        lemma_block_stmt_or_expr_view(x);
        lemma_replaced_block_stmt_or_expr(x@, constants_view(env@));
    }
    let y = match x {
        BlockStmtOrExpr::Block(a) => {
            let a = replace_stmts(a, env);
            let y = BlockStmtOrExpr::Block(a);
            proof {
                lemma_block_stmt_or_expr_view(y);
            }
            y
        },
        BlockStmtOrExpr::Expr(a) => {
            let a = Box::new(replace_expr(*a, env));
            let y = BlockStmtOrExpr::Expr(a);
            proof {
                lemma_block_stmt_or_expr_view(y);
            }
            y
        },
    };
    y
}

/// Inlines the constants of `env` in a [`Expr`].
pub fn replace_expr(x: Expr, env: &Vec<Constant>) -> (r: Expr)
    ensures
        r@ == replaced_expr(x@, constants_view(env@)),
    decreases x,
{
    proof {
        lemma_expr_view(x);
        lemma_replaced_expr(x@, constants_view(env@));
    }
    let y = match x {
        Expr::This => Expr::This,
        Expr::Array(a) => {
            let a = replace_opt_expr_or_spreads(a, env);
            let y = Expr::Array(a);
            proof {
                lemma_expr_view(y);
            }
            y
        },
        Expr::Object(a) => {
            let a = replace_prop_or_spreads(a, env);
            let y = Expr::Object(a);
            proof {
                lemma_expr_view(y);
            }
            y
        },
        Expr::Fn { ident, function } => {
            let function = Box::new(replace_function(*function, env));
            let y = Expr::Fn { ident, function };
            proof {
                lemma_expr_view(y);
            }
            y
        },
        Expr::Unary { op, arg } => {
            let arg = Box::new(replace_expr(*arg, env));
            let y = Expr::Unary { op, arg };
            proof {
                lemma_expr_view(y);
            }
            y
        },
        Expr::Update { op, prefix, arg } => {
            let arg = Box::new(replace_expr(*arg, env));
            let y = Expr::Update { op, prefix, arg };
            proof {
                lemma_expr_view(y);
            }
            y
        },
        Expr::Bin { op, left, right } => {
            let left = Box::new(replace_expr(*left, env));
            let right = Box::new(replace_expr(*right, env));
            let y = Expr::Bin { op, left, right };
            proof {
                lemma_expr_view(y);
            }
            y
        },
        Expr::Assign { op, left, right } => {
            let left = replace_pat_or_expr(left, env);
            let right = Box::new(replace_expr(*right, env));
            let y = Expr::Assign { op, left, right };
            proof {
                lemma_expr_view(y);
            }
            y
        },
        Expr::Member { obj, prop } => {
            let obj = replace_expr_or_super(obj, env);
            let prop = replace_member_prop(prop, env);
            let y = Expr::Member { obj, prop };
            proof {
                lemma_expr_view(y);
            }
            y
        },
        Expr::Cond { test, cons, alt } => {
            let test = Box::new(replace_expr(*test, env));
            let cons = Box::new(replace_expr(*cons, env));
            let alt = Box::new(replace_expr(*alt, env));
            let y = Expr::Cond { test, cons, alt };
            proof {
                lemma_expr_view(y);
            }
            y
        },
        Expr::Call { callee, args } => {
            let callee = replace_expr_or_super(callee, env);
            let args = replace_expr_or_spreads(args, env);
            let y = Expr::Call { callee, args };
            proof {
                lemma_expr_view(y);
            }
            y
        },
        Expr::New { callee, args } => {
            let callee = Box::new(replace_expr(*callee, env));
            let args = match args {
                Some(x) => Some(replace_expr_or_spreads(x, env)),
                None => None,
            };
            let y = Expr::New { callee, args };
            proof {
                lemma_expr_view(y);
            }
            y
        },
        Expr::Sequence { init, last } => {
            let init = replace_exprs(init, env);
            let last = Box::new(replace_expr(*last, env));
            let y = Expr::Sequence { init, last };
            proof {
                lemma_expr_view(y);
            }
            y
        },
        Expr::Ident(a) => Expr::Ident(a),
        Expr::Lit(a) => Expr::Lit(a),
        Expr::Tpl(a) => {
            let a = replace_tpl(a, env);
            let y = Expr::Tpl(a);
            proof {
                lemma_expr_view(y);
            }
            y
        },
        Expr::TaggedTpl { tag, tpl } => {
            let tag = Box::new(replace_expr(*tag, env));
            let tpl = replace_tpl(tpl, env);
            let y = Expr::TaggedTpl { tag, tpl };
            proof {
                lemma_expr_view(y);
            }
            y
        },
        Expr::Arrow { params, body, is_async, is_generator } => {
            let params = replace_pats(params, env);
            let body = replace_block_stmt_or_expr(body, env);
            let y = Expr::Arrow { params, body, is_async, is_generator };
            proof {
                lemma_expr_view(y);
            }
            y
        },
        Expr::Class { ident, class } => {
            let class = Box::new(replace_class(*class, env));
            let y = Expr::Class { ident, class };
            proof {
                lemma_expr_view(y);
            }
            y
        },
        Expr::Yield { arg, delegate } => {
            let arg = match arg {
                Some(x) => Some(Box::new(replace_expr(*x, env))),
                None => None,
            };
            let y = Expr::Yield { arg, delegate };
            proof {
                lemma_expr_view(y);
            }
            y
        },
        Expr::MetaProp { meta, prop } => Expr::MetaProp { meta, prop },
        Expr::Await(a) => {
            let a = Box::new(replace_expr(*a, env));
            let y = Expr::Await(a);
            proof {
                lemma_expr_view(y);
            }
            y
        },
        Expr::Paren(a) => {
            let a = Box::new(replace_expr(*a, env));
            let y = Expr::Paren(a);
            proof {
                lemma_expr_view(y);
            }
            y
        },
        Expr::Ts { cast, expr } => {
            let expr = Box::new(replace_expr(*expr, env));
            let y = Expr::Ts { cast, expr };
            proof {
                lemma_expr_view(y);
            }
            y
        },
        Expr::OptChain(a) => {
            let a = Box::new(replace_expr(*a, env));
            let y = Expr::OptChain(a);
            proof {
                lemma_expr_view(y);
            }
            y
        },
        Expr::PrivateName(a) => Expr::PrivateName(a),
    };
    replace_use(y, env)
}

/// Inlines the constants of `env` in a [`Pat`].
pub fn replace_pat(x: Pat, env: &Vec<Constant>) -> (r: Pat)
    ensures
        r@ == replaced_pat(x@, constants_view(env@)),
    decreases x,
{
    proof {
        lemma_pat_view(x);
        lemma_replaced_pat(x@, constants_view(env@));
    }
    let y = match x {
        Pat::Ident(a) => Pat::Ident(a),
        Pat::Array(a) => {
            let a = replace_opt_pats(a, env);
            let y = Pat::Array(a);
            proof {
                lemma_pat_view(y);
            }
            y
        },
        Pat::Rest(a) => {
            let a = Box::new(replace_pat(*a, env));
            let y = Pat::Rest(a);
            proof {
                lemma_pat_view(y);
            }
            y
        },
        Pat::Object(a) => {
            let a = replace_object_pat_props(a, env);
            let y = Pat::Object(a);
            proof {
                lemma_pat_view(y);
            }
            y
        },
        Pat::Assign { left, right } => {
            let left = Box::new(replace_pat(*left, env));
            let right = Box::new(replace_expr(*right, env));
            let y = Pat::Assign { left, right };
            proof {
                lemma_pat_view(y);
            }
            y
        },
        Pat::Expr(a) => {
            let a = Box::new(replace_expr(*a, env));
            let y = Pat::Expr(a);
            proof {
                lemma_pat_view(y);
            }
            y
        },
    };
    y
}

/// Inlines the constants of `env` in a [`ObjectPatProp`].
pub fn replace_object_pat_prop(x: ObjectPatProp, env: &Vec<Constant>) -> (r: ObjectPatProp)
    ensures
        r@ == replaced_object_pat_prop(x@, constants_view(env@)),
    decreases x,
{
    proof {
        lemma_object_pat_prop_view(x);
        lemma_replaced_object_pat_prop(x@, constants_view(env@));
    }
    let y = match x {
        ObjectPatProp::KeyValue { key, value } => {
            let key = replace_prop_name(key, env);
            let value = Box::new(replace_pat(*value, env));
            let y = ObjectPatProp::KeyValue { key, value };
            proof {
                lemma_object_pat_prop_view(y);
            }
            y
        },
        ObjectPatProp::Assign { key, value } => {
            let value = match value {
                Some(x) => Some(Box::new(replace_expr(*x, env))),
                None => None,
            };
            let y = ObjectPatProp::Assign { key, value };
            proof {
                lemma_object_pat_prop_view(y);
            }
            y
        },
        ObjectPatProp::Rest(a) => {
            let a = Box::new(replace_pat(*a, env));
            let y = ObjectPatProp::Rest(a);
            proof {
                lemma_object_pat_prop_view(y);
            }
            y
        },
    };
    y
}

/// Inlines the constants of `env` in a [`VarDeclarator`].
pub fn replace_var_declarator(x: VarDeclarator, env: &Vec<Constant>) -> (r: VarDeclarator)
    ensures
        r@ == replaced_var_declarator(x@, constants_view(env@)),
    decreases x,
{
    proof {
        lemma_var_declarator_view(x);
        lemma_replaced_var_declarator(x@, constants_view(env@));
    }
    let name = replace_pat(x.name, env);
    let init = match x.init {
        Some(x) => Some(Box::new(replace_expr(*x, env))),
        None => None,
    };
    let y = VarDeclarator { name, init };
    proof {
        lemma_var_declarator_view(y);
    }
    y
}

/// Inlines the constants of `env` in a [`VarDecl`].
pub fn replace_var_decl(x: VarDecl, env: &Vec<Constant>) -> (r: VarDecl)
    ensures
        r@ == replaced_var_decl(x@, constants_view(env@)),
    decreases x,
{
    proof {
        lemma_var_decl_view(x);
        lemma_replaced_var_decl(x@, constants_view(env@));
    }
    let kind = x.kind;
    let annotation = x.annotation;
    let decls = replace_var_declarators(x.decls, env);
    let y = VarDecl { kind, annotation, decls };
    proof {
        lemma_var_decl_view(y);
    }
    replace_bindings(y, env)
}

/// Inlines the constants of `env` in a [`Decl`].
pub fn replace_decl(x: Decl, env: &Vec<Constant>) -> (r: Decl)
    ensures
        r@ == replaced_decl(x@, constants_view(env@)),
    decreases x,
{
    proof {
        lemma_decl_view(x);
        lemma_replaced_decl(x@, constants_view(env@));
    }
    let y = match x {
        Decl::Class { ident, class } => {
            let class = replace_class(class, env);
            let y = Decl::Class { ident, class };
            proof {
                lemma_decl_view(y);
            }
            y
        },
        Decl::Fn { ident, function } => {
            let function = replace_function(function, env);
            let y = Decl::Fn { ident, function };
            proof {
                lemma_decl_view(y);
            }
            y
        },
        Decl::Var(a) => {
            let a = replace_var_decl(a, env);
            let y = Decl::Var(a);
            proof {
                lemma_decl_view(y);
            }
            y
        },
    };
    y
}

/// Inlines the constants of `env` in a [`VarDeclOrExpr`].
pub fn replace_var_decl_or_expr(x: VarDeclOrExpr, env: &Vec<Constant>) -> (r: VarDeclOrExpr)
    ensures
        r@ == replaced_var_decl_or_expr(x@, constants_view(env@)),
    decreases x,
{
    proof {
        lemma_var_decl_or_expr_view(x);
        lemma_replaced_var_decl_or_expr(x@, constants_view(env@));
    }
    let y = match x {
        VarDeclOrExpr::VarDecl(a) => {
            let a = replace_var_decl(a, env);
            let y = VarDeclOrExpr::VarDecl(a);
            proof {
                lemma_var_decl_or_expr_view(y);
            }
            y
        },
        VarDeclOrExpr::Expr(a) => {
            let a = Box::new(replace_expr(*a, env));
            let y = VarDeclOrExpr::Expr(a);
            proof {
                lemma_var_decl_or_expr_view(y);
            }
            y
        },
    };
    y
}

/// Inlines the constants of `env` in a [`VarDeclOrPat`].
pub fn replace_var_decl_or_pat(x: VarDeclOrPat, env: &Vec<Constant>) -> (r: VarDeclOrPat)
    ensures
        r@ == replaced_var_decl_or_pat(x@, constants_view(env@)),
    decreases x,
{
    proof {
        lemma_var_decl_or_pat_view(x);
        lemma_replaced_var_decl_or_pat(x@, constants_view(env@));
    }
    let y = match x {
        VarDeclOrPat::VarDecl(a) => {
            let a = replace_var_decl(a, env);
            let y = VarDeclOrPat::VarDecl(a);
            proof {
                lemma_var_decl_or_pat_view(y);
            }
            y
        },
        VarDeclOrPat::Pat(a) => {
            let a = replace_pat(a, env);
            let y = VarDeclOrPat::Pat(a);
            proof {
                lemma_var_decl_or_pat_view(y);
            }
            y
        },
    };
    y
}

/// Inlines the constants of `env` in a [`SwitchCase`].
pub fn replace_switch_case(x: SwitchCase, env: &Vec<Constant>) -> (r: SwitchCase)
    ensures
        r@ == replaced_switch_case(x@, constants_view(env@)),
    decreases x,
{
    proof {
        lemma_switch_case_view(x);
        lemma_replaced_switch_case(x@, constants_view(env@));
    }
    let test = match x.test {
        Some(x) => Some(Box::new(replace_expr(*x, env))),
        None => None,
    };
    let cons = replace_stmts(x.cons, env);
    let y = SwitchCase { test, cons };
    proof {
        lemma_switch_case_view(y);
    }
    y
}

/// Inlines the constants of `env` in a [`CatchClause`].
pub fn replace_catch_clause(x: CatchClause, env: &Vec<Constant>) -> (r: CatchClause)
    ensures
        r@ == replaced_catch_clause(x@, constants_view(env@)),
    decreases x,
{
    proof {
        lemma_catch_clause_view(x);
        lemma_replaced_catch_clause(x@, constants_view(env@));
    }
    let param = match x.param {
        Some(x) => Some(replace_pat(x, env)),
        None => None,
    };
    let body = replace_stmts(x.body, env);
    let y = CatchClause { param, body };
    proof {
        lemma_catch_clause_view(y);
    }
    y
}

/// Inlines the constants of `env` in a [`Stmt`].
pub fn replace_stmt(x: Stmt, env: &Vec<Constant>) -> (r: Stmt)
    ensures
        r@ == replaced_stmt(x@, constants_view(env@)),
    decreases x,
{
    proof {
        lemma_stmt_view(x);
        lemma_replaced_stmt(x@, constants_view(env@));
    }
    let y = match x {
        Stmt::Block(a) => {
            let a = replace_stmts(a, env);
            let y = Stmt::Block(a);
            proof {
                lemma_stmt_view(y);
            }
            y
        },
        Stmt::Empty => Stmt::Empty,
        Stmt::Debugger => Stmt::Debugger,
        Stmt::With { obj, body } => {
            let obj = Box::new(replace_expr(*obj, env));
            let body = Box::new(replace_stmt(*body, env));
            let y = Stmt::With { obj, body };
            proof {
                lemma_stmt_view(y);
            }
            y
        },
        Stmt::Return(a) => {
            let a = match a {
                Some(x) => Some(Box::new(replace_expr(*x, env))),
                None => None,
            };
            let y = Stmt::Return(a);
            proof {
                lemma_stmt_view(y);
            }
            y
        },
        Stmt::Labeled { label, body } => {
            let body = Box::new(replace_stmt(*body, env));
            let y = Stmt::Labeled { label, body };
            proof {
                lemma_stmt_view(y);
            }
            y
        },
        Stmt::Break(a) => Stmt::Break(a),
        Stmt::Continue(a) => Stmt::Continue(a),
        Stmt::If { test, cons, alt } => {
            let test = Box::new(replace_expr(*test, env));
            let cons = Box::new(replace_stmt(*cons, env));
            let alt = match alt {
                Some(x) => Some(Box::new(replace_stmt(*x, env))),
                None => None,
            };
            let y = Stmt::If { test, cons, alt };
            proof {
                lemma_stmt_view(y);
            }
            y
        },
        Stmt::Switch { discriminant, cases } => {
            let discriminant = Box::new(replace_expr(*discriminant, env));
            let cases = replace_switch_cases(cases, env);
            let y = Stmt::Switch { discriminant, cases };
            proof {
                lemma_stmt_view(y);
            }
            y
        },
        Stmt::Throw(a) => {
            let a = Box::new(replace_expr(*a, env));
            let y = Stmt::Throw(a);
            proof {
                lemma_stmt_view(y);
            }
            y
        },
        Stmt::Try { block, handler, finalizer } => {
            let block = replace_stmts(block, env);
            let handler = match handler {
                Some(x) => Some(replace_catch_clause(x, env)),
                None => None,
            };
            let finalizer = match finalizer {
                Some(x) => Some(replace_stmts(x, env)),
                None => None,
            };
            let y = Stmt::Try { block, handler, finalizer };
            proof {
                lemma_stmt_view(y);
            }
            y
        },
        Stmt::While { test, body } => {
            let test = Box::new(replace_expr(*test, env));
            let body = Box::new(replace_stmt(*body, env));
            let y = Stmt::While { test, body };
            proof {
                lemma_stmt_view(y);
            }
            y
        },
        Stmt::DoWhile { test, body } => {
            let test = Box::new(replace_expr(*test, env));
            let body = Box::new(replace_stmt(*body, env));
            let y = Stmt::DoWhile { test, body };
            proof {
                lemma_stmt_view(y);
            }
            y
        },
        Stmt::For { init, test, update, body } => {
            let init = match init {
                Some(x) => Some(replace_var_decl_or_expr(x, env)),
                None => None,
            };
            let test = match test {
                Some(x) => Some(Box::new(replace_expr(*x, env))),
                None => None,
            };
            let update = match update {
                Some(x) => Some(Box::new(replace_expr(*x, env))),
                None => None,
            };
            let body = Box::new(replace_stmt(*body, env));
            let y = Stmt::For { init, test, update, body };
            proof {
                lemma_stmt_view(y);
            }
            y
        },
        Stmt::ForIn { left, right, body } => {
            let left = replace_var_decl_or_pat(left, env);
            let right = Box::new(replace_expr(*right, env));
            let body = Box::new(replace_stmt(*body, env));
            let y = Stmt::ForIn { left, right, body };
            proof {
                lemma_stmt_view(y);
            }
            y
        },
        Stmt::ForOf { is_await, left, right, body } => {
            let left = replace_var_decl_or_pat(left, env);
            let right = Box::new(replace_expr(*right, env));
            let body = Box::new(replace_stmt(*body, env));
            let y = Stmt::ForOf { is_await, left, right, body };
            proof {
                lemma_stmt_view(y);
            }
            y
        },
        Stmt::Decl(a) => {
            let a = replace_decl(a, env);
            let y = Stmt::Decl(a);
            proof {
                lemma_stmt_view(y);
            }
            y
        },
        Stmt::Expr(a) => {
            let a = Box::new(replace_expr(*a, env));
            let y = Stmt::Expr(a);
            proof {
                lemma_stmt_view(y);
            }
            y
        },
    };
    replace_body(y, env)
}

/// Inlines the constants of `env` in a [`DefaultDecl`].
pub fn replace_default_decl(x: DefaultDecl, env: &Vec<Constant>) -> (r: DefaultDecl)
    ensures
        r@ == replaced_default_decl(x@, constants_view(env@)),
    decreases x,
{
    proof {
        lemma_default_decl_view(x);
        lemma_replaced_default_decl(x@, constants_view(env@));
    }
    let y = match x {
        DefaultDecl::Class { ident, class } => {
            let class = replace_class(class, env);
            let y = DefaultDecl::Class { ident, class };
            proof {
                lemma_default_decl_view(y);
            }
            y
        },
        DefaultDecl::Fn { ident, function } => {
            let function = replace_function(function, env);
            let y = DefaultDecl::Fn { ident, function };
            proof {
                lemma_default_decl_view(y);
            }
            y
        },
    };
    y
}

/// Inlines the constants of `env` in a [`ModuleDecl`].
pub fn replace_module_decl(x: ModuleDecl, env: &Vec<Constant>) -> (r: ModuleDecl)
    ensures
        r@ == replaced_module_decl(x@, constants_view(env@)),
    decreases x,
{
    proof {
        lemma_module_decl_view(x);
        lemma_replaced_module_decl(x@, constants_view(env@));
    }
    let y = match x {
        ModuleDecl::Import { specifiers, src } => ModuleDecl::Import { specifiers, src },
        ModuleDecl::ExportDecl(a) => {
            let a = replace_decl(a, env);
            let y = ModuleDecl::ExportDecl(a);
            proof {
                lemma_module_decl_view(y);
            }
            y
        },
        ModuleDecl::ExportNamed { specifiers, src } => ModuleDecl::ExportNamed { specifiers, src },
        ModuleDecl::ExportDefaultDecl(a) => {
            let a = replace_default_decl(a, env);
            let y = ModuleDecl::ExportDefaultDecl(a);
            proof {
                lemma_module_decl_view(y);
            }
            y
        },
        ModuleDecl::ExportDefaultExpr(a) => {
            let a = Box::new(replace_expr(*a, env));
            let y = ModuleDecl::ExportDefaultExpr(a);
            proof {
                lemma_module_decl_view(y);
            }
            y
        },
        ModuleDecl::ExportAll { src } => ModuleDecl::ExportAll { src },
    };
    y
}

/// Inlines the constants of `env` in a [`ModuleItem`].
pub fn replace_module_item(x: ModuleItem, env: &Vec<Constant>) -> (r: ModuleItem)
    ensures
        r@ == replaced_module_item(x@, constants_view(env@)),
    decreases x,
{
    proof {
        lemma_module_item_view(x);
        lemma_replaced_module_item(x@, constants_view(env@));
    }
    let y = match x {
        ModuleItem::ModuleDecl(a) => {
            let a = replace_module_decl(a, env);
            let y = ModuleItem::ModuleDecl(a);
            proof {
                lemma_module_item_view(y);
            }
            y
        },
        ModuleItem::Stmt(a) => {
            let a = replace_stmt(a, env);
            let y = ModuleItem::Stmt(a);
            proof {
                lemma_module_item_view(y);
            }
            y
        },
    };
    y
}

/// Inlines the constants of `env` in a [`Module`].
pub fn replace_module(x: Module, env: &Vec<Constant>) -> (r: Module)
    ensures
        r@ == replaced_module(x@, constants_view(env@)),
    decreases x,
{
    proof {
        lemma_module_view(x);
        lemma_replaced_module(x@, constants_view(env@));
    }
    let body = replace_module_items(x.body, env);
    let y = Module { body };
    proof {
        lemma_module_view(y);
    }
    y
}

/// Inlines the constants of `env` in each item of a list.
pub fn replace_class_members(v: Vec<ClassMember>, env: &Vec<Constant>) -> (r: Vec<ClassMember>)
    ensures
        class_members_view(r@)
            == replaced_class_members(class_members_view(v@), constants_view(env@)),
    decreases v,
{
    let ghost all = v@;
    let ghost items = class_members_view(all);
    proof {
        lemma_class_members_view(all);
        lemma_replaced_class_members(items, constants_view(env@));
    }
    let mut out: Vec<ClassMember> = Vec::new();
    proof {
        lemma_class_members_view(out@);
    }
    for x in it: v
        invariant
            it.seq() == all,
            v@ == all,
            out@.len() == it.index(),
            class_members_view(out@).len() == out@.len(),
            items.len() == all.len(),
            replaced_class_members(items, constants_view(env@)).len() == items.len(),
            forall|j: int|
                0 <= j < all.len() ==> (#[trigger] items[j]) == class_member_view(all[j]),
            forall|j: int|
                0 <= j < all.len() ==> (#[trigger] replaced_class_members(items, constants_view(env@))[j])
                    == replaced_class_member(items[j], constants_view(env@)),
            forall|j: int|
                0 <= j < out@.len() ==> (#[trigger] class_members_view(out@)[j])
                    == replaced_class_members(items, constants_view(env@))[j],
    {
        let ghost before = out@;
        let y = replace_class_member(x, env);
        proof {
            lemma_class_members_view_push(before, y);
        }
        out.push(y);
    }
    assert(class_members_view(out@) =~= replaced_class_members(items, constants_view(env@)));
    out
}

/// Inlines the constants of `env` in each item of a list.
pub fn replace_expr_or_spreads(v: Vec<ExprOrSpread>, env: &Vec<Constant>) -> (r: Vec<ExprOrSpread>)
    ensures
        expr_or_spreads_view(r@)
            == replaced_expr_or_spreads(expr_or_spreads_view(v@), constants_view(env@)),
    decreases v,
{
    let ghost all = v@;
    let ghost items = expr_or_spreads_view(all);
    proof {
        lemma_expr_or_spreads_view(all);
        lemma_replaced_expr_or_spreads(items, constants_view(env@));
    }
    let mut out: Vec<ExprOrSpread> = Vec::new();
    proof {
        lemma_expr_or_spreads_view(out@);
    }
    for x in it: v
        invariant
            it.seq() == all,
            v@ == all,
            out@.len() == it.index(),
            expr_or_spreads_view(out@).len() == out@.len(),
            items.len() == all.len(),
            replaced_expr_or_spreads(items, constants_view(env@)).len() == items.len(),
            forall|j: int|
                0 <= j < all.len() ==> (#[trigger] items[j]) == expr_or_spread_view(all[j]),
            forall|j: int|
                0 <= j < all.len() ==> (#[trigger] replaced_expr_or_spreads(items, constants_view(env@))[j])
                    == replaced_expr_or_spread(items[j], constants_view(env@)),
            forall|j: int|
                0 <= j < out@.len() ==> (#[trigger] expr_or_spreads_view(out@)[j])
                    == replaced_expr_or_spreads(items, constants_view(env@))[j],
    {
        let ghost before = out@;
        let y = replace_expr_or_spread(x, env);
        proof {
            lemma_expr_or_spreads_view_push(before, y);
        }
        out.push(y);
    }
    assert(expr_or_spreads_view(out@) =~= replaced_expr_or_spreads(items, constants_view(env@)));
    out
}

/// Inlines the constants of `env` in each item of a list.
pub fn replace_exprs(v: Vec<Expr>, env: &Vec<Constant>) -> (r: Vec<Expr>)
    ensures
        exprs_view(r@) == replaced_exprs(exprs_view(v@), constants_view(env@)),
    decreases v,
{
    let ghost all = v@;
    let ghost items = exprs_view(all);
    proof {
        lemma_exprs_view(all);
        lemma_replaced_exprs(items, constants_view(env@));
    }
    let mut out: Vec<Expr> = Vec::new();
    proof {
        lemma_exprs_view(out@);
    }
    for x in it: v
        invariant
            it.seq() == all,
            v@ == all,
            out@.len() == it.index(),
            exprs_view(out@).len() == out@.len(),
            items.len() == all.len(),
            replaced_exprs(items, constants_view(env@)).len() == items.len(),
            forall|j: int|
                0 <= j < all.len() ==> (#[trigger] items[j]) == expr_view(all[j]),
            forall|j: int|
                0 <= j < all.len() ==> (#[trigger] replaced_exprs(items, constants_view(env@))[j])
                    == replaced_expr(items[j], constants_view(env@)),
            forall|j: int|
                0 <= j < out@.len() ==> (#[trigger] exprs_view(out@)[j])
                    == replaced_exprs(items, constants_view(env@))[j],
    {
        let ghost before = out@;
        let y = replace_expr(x, env);
        proof {
            lemma_exprs_view_push(before, y);
        }
        out.push(y);
    }
    assert(exprs_view(out@) =~= replaced_exprs(items, constants_view(env@)));
    out
}

/// Inlines the constants of `env` in each item of a list.
pub fn replace_module_items(v: Vec<ModuleItem>, env: &Vec<Constant>) -> (r: Vec<ModuleItem>)
    ensures
        module_items_view(r@) == replaced_module_items(module_items_view(v@), constants_view(env@)),
    decreases v,
{
    let ghost all = v@;
    let ghost items = module_items_view(all);
    proof {
        lemma_module_items_view(all);
        lemma_replaced_module_items(items, constants_view(env@));
    }
    let mut out: Vec<ModuleItem> = Vec::new();
    proof {
        lemma_module_items_view(out@);
    }
    for x in it: v
        invariant
            it.seq() == all,
            v@ == all,
            out@.len() == it.index(),
            module_items_view(out@).len() == out@.len(),
            items.len() == all.len(),
            replaced_module_items(items, constants_view(env@)).len() == items.len(),
            forall|j: int|
                0 <= j < all.len() ==> (#[trigger] items[j]) == module_item_view(all[j]),
            forall|j: int|
                0 <= j < all.len() ==> (#[trigger] replaced_module_items(items, constants_view(env@))[j])
                    == replaced_module_item(items[j], constants_view(env@)),
            forall|j: int|
                0 <= j < out@.len() ==> (#[trigger] module_items_view(out@)[j])
                    == replaced_module_items(items, constants_view(env@))[j],
    {
        let ghost before = out@;
        let y = replace_module_item(x, env);
        proof {
            lemma_module_items_view_push(before, y);
        }
        out.push(y);
    }
    assert(module_items_view(out@) =~= replaced_module_items(items, constants_view(env@)));
    out
}

/// Inlines the constants of `env` in each item of a list.
pub fn replace_object_pat_props(v: Vec<ObjectPatProp>, env: &Vec<Constant>) -> (r: Vec<ObjectPatProp>)
    ensures
        object_pat_props_view(r@)
            == replaced_object_pat_props(object_pat_props_view(v@), constants_view(env@)),
    decreases v,
{
    let ghost all = v@;
    let ghost items = object_pat_props_view(all);
    proof {
        lemma_object_pat_props_view(all);
        lemma_replaced_object_pat_props(items, constants_view(env@));
    }
    let mut out: Vec<ObjectPatProp> = Vec::new();
    proof {
        lemma_object_pat_props_view(out@);
    }
    for x in it: v
        invariant
            it.seq() == all,
            v@ == all,
            out@.len() == it.index(),
            object_pat_props_view(out@).len() == out@.len(),
            items.len() == all.len(),
            replaced_object_pat_props(items, constants_view(env@)).len() == items.len(),
            forall|j: int|
                0 <= j < all.len() ==> (#[trigger] items[j]) == object_pat_prop_view(all[j]),
            forall|j: int|
                0 <= j < all.len() ==> (#[trigger] replaced_object_pat_props(items, constants_view(env@))[j])
                    == replaced_object_pat_prop(items[j], constants_view(env@)),
            forall|j: int|
                0 <= j < out@.len() ==> (#[trigger] object_pat_props_view(out@)[j])
                    == replaced_object_pat_props(items, constants_view(env@))[j],
    {
        let ghost before = out@;
        let y = replace_object_pat_prop(x, env);
        proof {
            lemma_object_pat_props_view_push(before, y);
        }
        out.push(y);
    }
    assert(object_pat_props_view(out@) =~= replaced_object_pat_props(items, constants_view(env@)));
    out
}

/// Inlines the constants of `env` in each item of a list.
pub fn replace_opt_expr_or_spreads(v: Vec<Option<ExprOrSpread>>, env: &Vec<Constant>) -> (r: Vec<Option<ExprOrSpread>>)
    ensures
        opt_expr_or_spreads_view(r@)
            == replaced_opt_expr_or_spreads(opt_expr_or_spreads_view(v@), constants_view(env@)),
    decreases v,
{
    let ghost all = v@;
    let ghost items = opt_expr_or_spreads_view(all);
    proof {
        lemma_opt_expr_or_spreads_view(all);
        lemma_replaced_opt_expr_or_spreads(items, constants_view(env@));
    }
    let mut out: Vec<Option<ExprOrSpread>> = Vec::new();
    proof {
        lemma_opt_expr_or_spreads_view(out@);
    }
    for x in it: v
        invariant
            it.seq() == all,
            v@ == all,
            out@.len() == it.index(),
            opt_expr_or_spreads_view(out@).len() == out@.len(),
            items.len() == all.len(),
            replaced_opt_expr_or_spreads(items, constants_view(env@)).len() == items.len(),
            forall|j: int|
                0 <= j < all.len() ==> (#[trigger] items[j]) == match all[j] {
                    Some(x) => Some(expr_or_spread_view(x)),
                    None => None,
                },
            forall|j: int|
                0 <= j < all.len() ==> (#[trigger] replaced_opt_expr_or_spreads(items, constants_view(env@))[j])
                    == match items[j] {
                    Some(x) => Some(replaced_expr_or_spread(x, constants_view(env@))),
                    None => None,
                },
            forall|j: int|
                0 <= j < out@.len() ==> (#[trigger] opt_expr_or_spreads_view(out@)[j])
                    == replaced_opt_expr_or_spreads(items, constants_view(env@))[j],
    {
        let ghost before = out@;
        let y = match x {
            Some(x) => Some(replace_expr_or_spread(x, env)),
            None => None,
        };
        proof {
            lemma_opt_expr_or_spreads_view_push(before, y);
        }
        out.push(y);
    }
    assert(opt_expr_or_spreads_view(out@) =~= replaced_opt_expr_or_spreads(items, constants_view(env@)));
    out
}

/// Inlines the constants of `env` in each item of a list.
pub fn replace_opt_pats(v: Vec<Option<Pat>>, env: &Vec<Constant>) -> (r: Vec<Option<Pat>>)
    ensures
        opt_pats_view(r@) == replaced_opt_pats(opt_pats_view(v@), constants_view(env@)),
    decreases v,
{
    let ghost all = v@;
    let ghost items = opt_pats_view(all);
    proof {
        lemma_opt_pats_view(all);
        lemma_replaced_opt_pats(items, constants_view(env@));
    }
    let mut out: Vec<Option<Pat>> = Vec::new();
    proof {
        lemma_opt_pats_view(out@);
    }
    for x in it: v
        invariant
            it.seq() == all,
            v@ == all,
            out@.len() == it.index(),
            opt_pats_view(out@).len() == out@.len(),
            items.len() == all.len(),
            replaced_opt_pats(items, constants_view(env@)).len() == items.len(),
            forall|j: int|
                0 <= j < all.len() ==> (#[trigger] items[j]) == match all[j] {
                    Some(x) => Some(pat_view(x)),
                    None => None,
                },
            forall|j: int|
                0 <= j < all.len() ==> (#[trigger] replaced_opt_pats(items, constants_view(env@))[j])
                    == match items[j] {
                    Some(x) => Some(replaced_pat(x, constants_view(env@))),
                    None => None,
                },
            forall|j: int|
                0 <= j < out@.len() ==> (#[trigger] opt_pats_view(out@)[j])
                    == replaced_opt_pats(items, constants_view(env@))[j],
    {
        let ghost before = out@;
        let y = match x {
            Some(x) => Some(replace_pat(x, env)),
            None => None,
        };
        proof {
            lemma_opt_pats_view_push(before, y);
        }
        out.push(y);
    }
    assert(opt_pats_view(out@) =~= replaced_opt_pats(items, constants_view(env@)));
    out
}

/// Inlines the constants of `env` in each item of a list.
pub fn replace_pats(v: Vec<Pat>, env: &Vec<Constant>) -> (r: Vec<Pat>)
    ensures
        pats_view(r@) == replaced_pats(pats_view(v@), constants_view(env@)),
    decreases v,
{
    let ghost all = v@;
    let ghost items = pats_view(all);
    proof {
        lemma_pats_view(all);
        lemma_replaced_pats(items, constants_view(env@));
    }
    let mut out: Vec<Pat> = Vec::new();
    proof {
        lemma_pats_view(out@);
    }
    for x in it: v
        invariant
            it.seq() == all,
            v@ == all,
            out@.len() == it.index(),
            pats_view(out@).len() == out@.len(),
            items.len() == all.len(),
            replaced_pats(items, constants_view(env@)).len() == items.len(),
            forall|j: int|
                0 <= j < all.len() ==> (#[trigger] items[j]) == pat_view(all[j]),
            forall|j: int|
                0 <= j < all.len() ==> (#[trigger] replaced_pats(items, constants_view(env@))[j])
                    == replaced_pat(items[j], constants_view(env@)),
            forall|j: int|
                0 <= j < out@.len() ==> (#[trigger] pats_view(out@)[j])
                    == replaced_pats(items, constants_view(env@))[j],
    {
        let ghost before = out@;
        let y = replace_pat(x, env);
        proof {
            lemma_pats_view_push(before, y);
        }
        out.push(y);
    }
    assert(pats_view(out@) =~= replaced_pats(items, constants_view(env@)));
    out
}

/// Inlines the constants of `env` in each item of a list.
pub fn replace_prop_or_spreads(v: Vec<PropOrSpread>, env: &Vec<Constant>) -> (r: Vec<PropOrSpread>)
    ensures
        prop_or_spreads_view(r@)
            == replaced_prop_or_spreads(prop_or_spreads_view(v@), constants_view(env@)),
    decreases v,
{
    let ghost all = v@;
    let ghost items = prop_or_spreads_view(all);
    proof {
        lemma_prop_or_spreads_view(all);
        lemma_replaced_prop_or_spreads(items, constants_view(env@));
    }
    let mut out: Vec<PropOrSpread> = Vec::new();
    proof {
        lemma_prop_or_spreads_view(out@);
    }
    for x in it: v
        invariant
            it.seq() == all,
            v@ == all,
            out@.len() == it.index(),
            prop_or_spreads_view(out@).len() == out@.len(),
            items.len() == all.len(),
            replaced_prop_or_spreads(items, constants_view(env@)).len() == items.len(),
            forall|j: int|
                0 <= j < all.len() ==> (#[trigger] items[j]) == prop_or_spread_view(all[j]),
            forall|j: int|
                0 <= j < all.len() ==> (#[trigger] replaced_prop_or_spreads(items, constants_view(env@))[j])
                    == replaced_prop_or_spread(items[j], constants_view(env@)),
            forall|j: int|
                0 <= j < out@.len() ==> (#[trigger] prop_or_spreads_view(out@)[j])
                    == replaced_prop_or_spreads(items, constants_view(env@))[j],
    {
        let ghost before = out@;
        let y = replace_prop_or_spread(x, env);
        proof {
            lemma_prop_or_spreads_view_push(before, y);
        }
        out.push(y);
    }
    assert(prop_or_spreads_view(out@) =~= replaced_prop_or_spreads(items, constants_view(env@)));
    out
}

/// Inlines the constants of `env` in each item of a list.
pub fn replace_switch_cases(v: Vec<SwitchCase>, env: &Vec<Constant>) -> (r: Vec<SwitchCase>)
    ensures
        switch_cases_view(r@) == replaced_switch_cases(switch_cases_view(v@), constants_view(env@)),
    decreases v,
{
    let ghost all = v@;
    let ghost items = switch_cases_view(all);
    proof {
        lemma_switch_cases_view(all);
        lemma_replaced_switch_cases(items, constants_view(env@));
    }
    let mut out: Vec<SwitchCase> = Vec::new();
    proof {
        lemma_switch_cases_view(out@);
    }
    for x in it: v
        invariant
            it.seq() == all,
            v@ == all,
            out@.len() == it.index(),
            switch_cases_view(out@).len() == out@.len(),
            items.len() == all.len(),
            replaced_switch_cases(items, constants_view(env@)).len() == items.len(),
            forall|j: int|
                0 <= j < all.len() ==> (#[trigger] items[j]) == switch_case_view(all[j]),
            forall|j: int|
                0 <= j < all.len() ==> (#[trigger] replaced_switch_cases(items, constants_view(env@))[j])
                    == replaced_switch_case(items[j], constants_view(env@)),
            forall|j: int|
                0 <= j < out@.len() ==> (#[trigger] switch_cases_view(out@)[j])
                    == replaced_switch_cases(items, constants_view(env@))[j],
    {
        let ghost before = out@;
        let y = replace_switch_case(x, env);
        proof {
            lemma_switch_cases_view_push(before, y);
        }
        out.push(y);
    }
    assert(switch_cases_view(out@) =~= replaced_switch_cases(items, constants_view(env@)));
    out
}

/// Inlines the constants of `env` in each item of a list.
pub fn replace_var_declarators(v: Vec<VarDeclarator>, env: &Vec<Constant>) -> (r: Vec<VarDeclarator>)
    ensures
        var_declarators_view(r@)
            == replaced_var_declarators(var_declarators_view(v@), constants_view(env@)),
    decreases v,
{
    let ghost all = v@;
    let ghost items = var_declarators_view(all);
    proof {
        lemma_var_declarators_view(all);
        lemma_replaced_var_declarators(items, constants_view(env@));
    }
    let mut out: Vec<VarDeclarator> = Vec::new();
    proof {
        lemma_var_declarators_view(out@);
    }
    for x in it: v
        invariant
            it.seq() == all,
            v@ == all,
            out@.len() == it.index(),
            var_declarators_view(out@).len() == out@.len(),
            items.len() == all.len(),
            replaced_var_declarators(items, constants_view(env@)).len() == items.len(),
            forall|j: int|
                0 <= j < all.len() ==> (#[trigger] items[j]) == var_declarator_view(all[j]),
            forall|j: int|
                0 <= j < all.len() ==> (#[trigger] replaced_var_declarators(items, constants_view(env@))[j])
                    == replaced_var_declarator(items[j], constants_view(env@)),
            forall|j: int|
                0 <= j < out@.len() ==> (#[trigger] var_declarators_view(out@)[j])
                    == replaced_var_declarators(items, constants_view(env@))[j],
    {
        let ghost before = out@;
        let y = replace_var_declarator(x, env);
        proof {
            lemma_var_declarators_view_push(before, y);
        }
        out.push(y);
    }
    assert(var_declarators_view(out@) =~= replaced_var_declarators(items, constants_view(env@)));
    out
}

} // verus!
