//! Dead-code removal over a whole tree: the rules of [`crate::simplify`], applied
//! to every node once its parts have been simplified.

use vstd::prelude::*;
use crate::ast::{
    BlockStmtOrExpr, CatchClause, Class, ClassMember, Decl, DefaultDecl, Expr, ExprOrSpread,
    ExprOrSuper, Function, MemberProp, Module, ModuleDecl, ModuleItem, ObjectPatProp, Pat,
    PatOrExpr, Prop, PropName, PropOrSpread, Stmt, SwitchCase, Tpl, VarDecl, VarDeclOrExpr,
    VarDeclOrPat, VarDeclarator,
};
use crate::model::{
    BlockStmtOrExprV, CatchClauseV, ClassMemberV, ClassV, DeclV, DefaultDeclV, ExprOrSpreadV,
    ExprOrSuperV, ExprV, FunctionV, MemberPropV, ModuleDeclV, ModuleItemV, ModuleV, ObjectPatPropV,
    PatOrExprV, PatV, PropNameV, PropOrSpreadV, PropV, StmtV, SwitchCaseV, TplV, VarDeclOrExprV,
    VarDeclOrPatV, VarDeclV, VarDeclaratorV,
};
use crate::view::{
    class_member_view, class_members_view, expr_or_spread_view, expr_or_spreads_view, expr_view,
    exprs_view, lemma_block_stmt_or_expr_view, lemma_catch_clause_view, lemma_class_member_view,
    lemma_class_members_view, lemma_class_members_view_push, lemma_class_view, lemma_decl_view,
    lemma_default_decl_view, lemma_expr_or_spread_view, lemma_expr_or_spreads_view,
    lemma_expr_or_spreads_view_push, lemma_expr_or_super_view, lemma_expr_view, lemma_exprs_view,
    lemma_exprs_view_push, lemma_function_view, lemma_member_prop_view, lemma_module_decl_view,
    lemma_module_item_view, lemma_module_view, lemma_object_pat_prop_view,
    lemma_object_pat_props_view, lemma_object_pat_props_view_push, lemma_opt_expr_or_spreads_view,
    lemma_opt_expr_or_spreads_view_push, lemma_opt_pats_view, lemma_opt_pats_view_push,
    lemma_pat_or_expr_view, lemma_pat_view, lemma_pats_view, lemma_pats_view_push,
    lemma_prop_name_view, lemma_prop_or_spread_view, lemma_prop_or_spreads_view,
    lemma_prop_or_spreads_view_push, lemma_prop_view, lemma_stmt_view, lemma_switch_case_view,
    lemma_switch_cases_view, lemma_switch_cases_view_push, lemma_tpl_view,
    lemma_var_decl_or_expr_view, lemma_var_decl_or_pat_view, lemma_var_decl_view,
    lemma_var_declarator_view, lemma_var_declarators_view, lemma_var_declarators_view_push,
    object_pat_prop_view, object_pat_props_view, opt_expr_or_spreads_view, opt_pats_view, pat_view,
    pats_view, prop_or_spread_view, prop_or_spreads_view, switch_case_view, switch_cases_view,
    var_declarator_view, var_declarators_view,
};
use crate::simplify::{
    fold_module_items, fold_stmts, simplified_expr, simplified_items, simplified_list,
    simplified_object_pat_prop, simplified_pat, simplified_stmt, simplify_expr,
    simplify_object_pat_prop, simplify_pat, simplify_stmt,
};

verus! {

/// A [`Tpl`] without its dead code.
#[verifier::opaque]
pub open spec fn folded_tpl(x: TplV) -> TplV
    decreases x,
{
    TplV {
        exprs: folded_exprs(x.exprs),
        quasis: x.quasis,
    }
}

/// A [`ExprOrSpread`] without its dead code.
#[verifier::opaque]
pub open spec fn folded_expr_or_spread(x: ExprOrSpreadV) -> ExprOrSpreadV
    decreases x,
{
    ExprOrSpreadV {
        spread: x.spread,
        expr: folded_expr(x.expr),
    }
}

/// A [`ExprOrSuper`] without its dead code.
#[verifier::opaque]
pub open spec fn folded_expr_or_super(x: ExprOrSuperV) -> ExprOrSuperV
    decreases x,
{
    match x {
        ExprOrSuperV::Super => ExprOrSuperV::Super,
        ExprOrSuperV::Expr(a) => ExprOrSuperV::Expr(Box::new(folded_expr(*a))),
    }
}

/// A [`MemberProp`] without its dead code.
#[verifier::opaque]
pub open spec fn folded_member_prop(x: MemberPropV) -> MemberPropV
    decreases x,
{
    match x {
        MemberPropV::Ident(a) => MemberPropV::Ident(a),
        MemberPropV::Computed(a) => MemberPropV::Computed(Box::new(folded_expr(*a))),
    }
}

/// A [`PatOrExpr`] without its dead code.
#[verifier::opaque]
pub open spec fn folded_pat_or_expr(x: PatOrExprV) -> PatOrExprV
    decreases x,
{
    match x {
        PatOrExprV::Expr(a) => PatOrExprV::Expr(Box::new(folded_expr(*a))),
        PatOrExprV::Pat(a) => PatOrExprV::Pat(Box::new(folded_pat(*a))),
    }
}

/// A [`PropName`] without its dead code.
#[verifier::opaque]
pub open spec fn folded_prop_name(x: PropNameV) -> PropNameV
    decreases x,
{
    match x {
        PropNameV::Ident(a) => PropNameV::Ident(a),
        PropNameV::Str(a) => PropNameV::Str(a),
        PropNameV::Num(a) => PropNameV::Num(a),
        PropNameV::Computed(a) => PropNameV::Computed(Box::new(folded_expr(*a))),
    }
}

/// A [`Prop`] without its dead code.
#[verifier::opaque]
pub open spec fn folded_prop(x: PropV) -> PropV
    decreases x,
{
    match x {
        PropV::Shorthand(a) => PropV::Shorthand(a),
        PropV::KeyValue { key, value } => (PropV::KeyValue {
            key: folded_prop_name(key),
            value: Box::new(folded_expr(*value)),
        }),
        PropV::Getter { key, body } => (PropV::Getter {
            key: folded_prop_name(key),
            body: match body {
                Some(x) => Some(folded_stmts(x)),
                None => None,
            },
        }),
        PropV::Setter { key, param, body } => (PropV::Setter {
            key: folded_prop_name(key),
            param: folded_pat(param),
            body: match body {
                Some(x) => Some(folded_stmts(x)),
                None => None,
            },
        }),
        PropV::Method { key, function } => (PropV::Method {
            key: folded_prop_name(key),
            function: folded_function(function),
        }),
    }
}

/// A [`PropOrSpread`] without its dead code.
#[verifier::opaque]
pub open spec fn folded_prop_or_spread(x: PropOrSpreadV) -> PropOrSpreadV
    decreases x,
{
    match x {
        PropOrSpreadV::Spread(a) => PropOrSpreadV::Spread(Box::new(folded_expr(*a))),
        PropOrSpreadV::Prop(a) => PropOrSpreadV::Prop(Box::new(folded_prop(*a))),
    }
}

/// A [`Function`] without its dead code.
#[verifier::opaque]
pub open spec fn folded_function(x: FunctionV) -> FunctionV
    decreases x,
{
    FunctionV {
        params: folded_pats(x.params),
        body: match x.body {
            Some(x) => Some(folded_stmts(x)),
            None => None,
        },
        is_generator: x.is_generator,
        is_async: x.is_async,
    }
}

/// A [`Class`] without its dead code.
#[verifier::opaque]
pub open spec fn folded_class(x: ClassV) -> ClassV
    decreases x,
{
    ClassV {
        super_class: match x.super_class {
            Some(x) => Some(Box::new(folded_expr(*x))),
            None => None,
        },
        body: folded_class_members(x.body),
    }
}

/// A [`ClassMember`] without its dead code.
#[verifier::opaque]
pub open spec fn folded_class_member(x: ClassMemberV) -> ClassMemberV
    decreases x,
{
    match x {
        ClassMemberV::Constructor { key, params, body } => (ClassMemberV::Constructor {
            key: folded_prop_name(key),
            params: folded_pats(params),
            body: match body {
                Some(x) => Some(folded_stmts(x)),
                None => None,
            },
        }),
        ClassMemberV::Method { key, function, kind, is_static } => (ClassMemberV::Method {
            key: folded_prop_name(key),
            function: folded_function(function),
            kind: kind,
            is_static: is_static,
        }),
        ClassMemberV::Prop { key, value, is_static, computed } => (ClassMemberV::Prop {
            key: Box::new(folded_expr(*key)),
            value: match value {
                Some(x) => Some(Box::new(folded_expr(*x))),
                None => None,
            },
            is_static: is_static,
            computed: computed,
        }),
    }
}

/// A [`BlockStmtOrExpr`] without its dead code.
#[verifier::opaque]
pub open spec fn folded_block_stmt_or_expr(x: BlockStmtOrExprV) -> BlockStmtOrExprV
    decreases x,
{
    match x {
        BlockStmtOrExprV::Block(a) => BlockStmtOrExprV::Block(folded_stmts(a)),
        BlockStmtOrExprV::Expr(a) => BlockStmtOrExprV::Expr(Box::new(folded_expr(*a))),
    }
}

/// A [`Expr`] without its dead code.
#[verifier::opaque]
pub open spec fn folded_expr(x: ExprV) -> ExprV
    decreases x,
{
    simplified_expr(
        match x {
            ExprV::This => ExprV::This,
            ExprV::Array(a) => ExprV::Array(folded_opt_expr_or_spreads(a)),
            ExprV::Object(a) => ExprV::Object(folded_prop_or_spreads(a)),
            ExprV::Fn { ident, function } => (ExprV::Fn {
                ident: ident,
                function: Box::new(folded_function(*function)),
            }),
            ExprV::Unary { op, arg } => (ExprV::Unary {
                op: op,
                arg: Box::new(folded_expr(*arg)),
            }),
            ExprV::Update { op, prefix, arg } => (ExprV::Update {
                op: op,
                prefix: prefix,
                arg: Box::new(folded_expr(*arg)),
            }),
            ExprV::Bin { op, left, right } => (ExprV::Bin {
                op: op,
                left: Box::new(folded_expr(*left)),
                right: Box::new(folded_expr(*right)),
            }),
            ExprV::Assign { op, left, right } => (ExprV::Assign {
                op: op,
                left: folded_pat_or_expr(left),
                right: Box::new(folded_expr(*right)),
            }),
            ExprV::Member { obj, prop } => (ExprV::Member {
                obj: folded_expr_or_super(obj),
                prop: folded_member_prop(prop),
            }),
            ExprV::Cond { test, cons, alt } => (ExprV::Cond {
                test: Box::new(folded_expr(*test)),
                cons: Box::new(folded_expr(*cons)),
                alt: Box::new(folded_expr(*alt)),
            }),
            ExprV::Call { callee, args } => (ExprV::Call {
                callee: folded_expr_or_super(callee),
                args: folded_expr_or_spreads(args),
            }),
            ExprV::New { callee, args } => (ExprV::New {
                callee: Box::new(folded_expr(*callee)),
                args: match args {
                    Some(x) => Some(folded_expr_or_spreads(x)),
                    None => None,
                },
            }),
            ExprV::Sequence { init, last } => (ExprV::Sequence {
                init: folded_exprs(init),
                last: Box::new(folded_expr(*last)),
            }),
            ExprV::Ident(a) => ExprV::Ident(a),
            ExprV::Lit(a) => ExprV::Lit(a),
            ExprV::Tpl(a) => ExprV::Tpl(folded_tpl(a)),
            ExprV::TaggedTpl { tag, tpl } => (ExprV::TaggedTpl {
                tag: Box::new(folded_expr(*tag)),
                tpl: folded_tpl(tpl),
            }),
            ExprV::Arrow { params, body, is_async, is_generator } => (ExprV::Arrow {
                params: folded_pats(params),
                body: folded_block_stmt_or_expr(body),
                is_async: is_async,
                is_generator: is_generator,
            }),
            ExprV::Class { ident, class } => (ExprV::Class {
                ident: ident,
                class: Box::new(folded_class(*class)),
            }),
            ExprV::Yield { arg, delegate } => (ExprV::Yield {
                arg: match arg {
                    Some(x) => Some(Box::new(folded_expr(*x))),
                    None => None,
                },
                delegate: delegate,
            }),
            ExprV::MetaProp { meta, prop } => (ExprV::MetaProp {
                meta: meta,
                prop: prop,
            }),
            ExprV::Await(a) => ExprV::Await(Box::new(folded_expr(*a))),
            ExprV::Paren(a) => ExprV::Paren(Box::new(folded_expr(*a))),
            ExprV::Ts { cast, expr } => (ExprV::Ts {
                cast: cast,
                expr: Box::new(folded_expr(*expr)),
            }),
            ExprV::OptChain(a) => ExprV::OptChain(Box::new(folded_expr(*a))),
            ExprV::PrivateName(a) => ExprV::PrivateName(a),
        },
    )
}

/// A [`Pat`] without its dead code.
#[verifier::opaque]
pub open spec fn folded_pat(x: PatV) -> PatV
    decreases x,
{
    simplified_pat(
        match x {
            PatV::Ident(a) => PatV::Ident(a),
            PatV::Array(a) => PatV::Array(folded_opt_pats(a)),
            PatV::Rest(a) => PatV::Rest(Box::new(folded_pat(*a))),
            PatV::Object(a) => PatV::Object(folded_object_pat_props(a)),
            PatV::Assign { left, right } => (PatV::Assign {
                left: Box::new(folded_pat(*left)),
                right: Box::new(folded_expr(*right)),
            }),
            PatV::Expr(a) => PatV::Expr(Box::new(folded_expr(*a))),
        },
    )
}

/// A [`ObjectPatProp`] without its dead code.
#[verifier::opaque]
pub open spec fn folded_object_pat_prop(x: ObjectPatPropV) -> ObjectPatPropV
    decreases x,
{
    simplified_object_pat_prop(
        match x {
            ObjectPatPropV::KeyValue { key, value } => (ObjectPatPropV::KeyValue {
                key: folded_prop_name(key),
                value: Box::new(folded_pat(*value)),
            }),
            ObjectPatPropV::Assign { key, value } => (ObjectPatPropV::Assign {
                key: key,
                value: match value {
                    Some(x) => Some(Box::new(folded_expr(*x))),
                    None => None,
                },
            }),
            ObjectPatPropV::Rest(a) => ObjectPatPropV::Rest(Box::new(folded_pat(*a))),
        },
    )
}

/// A [`VarDeclarator`] without its dead code.
#[verifier::opaque]
pub open spec fn folded_var_declarator(x: VarDeclaratorV) -> VarDeclaratorV
    decreases x,
{
    VarDeclaratorV {
        name: folded_pat(x.name),
        init: match x.init {
            Some(x) => Some(Box::new(folded_expr(*x))),
            None => None,
        },
    }
}

/// A [`VarDecl`] without its dead code.
#[verifier::opaque]
pub open spec fn folded_var_decl(x: VarDeclV) -> VarDeclV
    decreases x,
{
    VarDeclV {
        kind: x.kind,
        annotation: x.annotation,
        decls: folded_var_declarators(x.decls),
    }
}

/// A [`Decl`] without its dead code.
#[verifier::opaque]
pub open spec fn folded_decl(x: DeclV) -> DeclV
    decreases x,
{
    match x {
        DeclV::Class { ident, class } => (DeclV::Class {
            ident: ident,
            class: folded_class(class),
        }),
        DeclV::Fn { ident, function } => (DeclV::Fn {
            ident: ident,
            function: folded_function(function),
        }),
        DeclV::Var(a) => DeclV::Var(folded_var_decl(a)),
    }
}

/// A [`VarDeclOrExpr`] without its dead code.
#[verifier::opaque]
pub open spec fn folded_var_decl_or_expr(x: VarDeclOrExprV) -> VarDeclOrExprV
    decreases x,
{
    match x {
        VarDeclOrExprV::VarDecl(a) => VarDeclOrExprV::VarDecl(folded_var_decl(a)),
        VarDeclOrExprV::Expr(a) => VarDeclOrExprV::Expr(Box::new(folded_expr(*a))),
    }
}

/// A [`VarDeclOrPat`] without its dead code.
#[verifier::opaque]
pub open spec fn folded_var_decl_or_pat(x: VarDeclOrPatV) -> VarDeclOrPatV
    decreases x,
{
    match x {
        VarDeclOrPatV::VarDecl(a) => VarDeclOrPatV::VarDecl(folded_var_decl(a)),
        VarDeclOrPatV::Pat(a) => VarDeclOrPatV::Pat(folded_pat(a)),
    }
}

/// A [`SwitchCase`] without its dead code.
#[verifier::opaque]
pub open spec fn folded_switch_case(x: SwitchCaseV) -> SwitchCaseV
    decreases x,
{
    SwitchCaseV {
        test: match x.test {
            Some(x) => Some(Box::new(folded_expr(*x))),
            None => None,
        },
        cons: folded_stmts(x.cons),
    }
}

/// A [`CatchClause`] without its dead code.
#[verifier::opaque]
pub open spec fn folded_catch_clause(x: CatchClauseV) -> CatchClauseV
    decreases x,
{
    CatchClauseV {
        param: match x.param {
            Some(x) => Some(folded_pat(x)),
            None => None,
        },
        body: folded_stmts(x.body),
    }
}

/// A [`Stmt`] without its dead code.
#[verifier::opaque]
pub open spec fn folded_stmt(x: StmtV) -> StmtV
    decreases x,
{
    simplified_stmt(
        match x {
            StmtV::Block(a) => StmtV::Block(folded_stmts(a)),
            StmtV::Empty => StmtV::Empty,
            StmtV::Debugger => StmtV::Debugger,
            StmtV::With { obj, body } => (StmtV::With {
                obj: Box::new(folded_expr(*obj)),
                body: Box::new(folded_stmt(*body)),
            }),
            StmtV::Return(a) => StmtV::Return(match a {
                Some(x) => Some(Box::new(folded_expr(*x))),
                None => None,
            }),
            StmtV::Labeled { label, body } => (StmtV::Labeled {
                label: label,
                body: Box::new(folded_stmt(*body)),
            }),
            StmtV::Break(a) => StmtV::Break(a),
            StmtV::Continue(a) => StmtV::Continue(a),
            StmtV::If { test, cons, alt } => (StmtV::If {
                test: Box::new(folded_expr(*test)),
                cons: Box::new(folded_stmt(*cons)),
                alt: match alt {
                    Some(x) => Some(Box::new(folded_stmt(*x))),
                    None => None,
                },
            }),
            StmtV::Switch { discriminant, cases } => (StmtV::Switch {
                discriminant: Box::new(folded_expr(*discriminant)),
                cases: folded_switch_cases(cases),
            }),
            StmtV::Throw(a) => StmtV::Throw(Box::new(folded_expr(*a))),
            StmtV::Try { block, handler, finalizer } => (StmtV::Try {
                block: folded_stmts(block),
                handler: match handler {
                    Some(x) => Some(folded_catch_clause(x)),
                    None => None,
                },
                finalizer: match finalizer {
                    Some(x) => Some(folded_stmts(x)),
                    None => None,
                },
            }),
            StmtV::While { test, body } => (StmtV::While {
                test: Box::new(folded_expr(*test)),
                body: Box::new(folded_stmt(*body)),
            }),
            StmtV::DoWhile { test, body } => (StmtV::DoWhile {
                test: Box::new(folded_expr(*test)),
                body: Box::new(folded_stmt(*body)),
            }),
            StmtV::For { init, test, update, body } => (StmtV::For {
                init: match init {
                    Some(x) => Some(folded_var_decl_or_expr(x)),
                    None => None,
                },
                test: match test {
                    Some(x) => Some(Box::new(folded_expr(*x))),
                    None => None,
                },
                update: match update {
                    Some(x) => Some(Box::new(folded_expr(*x))),
                    None => None,
                },
                body: Box::new(folded_stmt(*body)),
            }),
            StmtV::ForIn { left, right, body } => (StmtV::ForIn {
                left: folded_var_decl_or_pat(left),
                right: Box::new(folded_expr(*right)),
                body: Box::new(folded_stmt(*body)),
            }),
            StmtV::ForOf { is_await, left, right, body } => (StmtV::ForOf {
                is_await: is_await,
                left: folded_var_decl_or_pat(left),
                right: Box::new(folded_expr(*right)),
                body: Box::new(folded_stmt(*body)),
            }),
            StmtV::Decl(a) => StmtV::Decl(folded_decl(a)),
            StmtV::Expr(a) => StmtV::Expr(Box::new(folded_expr(*a))),
        },
    )
}

/// A [`DefaultDecl`] without its dead code.
#[verifier::opaque]
pub open spec fn folded_default_decl(x: DefaultDeclV) -> DefaultDeclV
    decreases x,
{
    match x {
        DefaultDeclV::Class { ident, class } => (DefaultDeclV::Class {
            ident: ident,
            class: folded_class(class),
        }),
        DefaultDeclV::Fn { ident, function } => (DefaultDeclV::Fn {
            ident: ident,
            function: folded_function(function),
        }),
    }
}

/// A [`ModuleDecl`] without its dead code.
#[verifier::opaque]
pub open spec fn folded_module_decl(x: ModuleDeclV) -> ModuleDeclV
    decreases x,
{
    match x {
        ModuleDeclV::Import { specifiers, src } => (ModuleDeclV::Import {
            specifiers: specifiers,
            src: src,
        }),
        ModuleDeclV::ExportDecl(a) => ModuleDeclV::ExportDecl(folded_decl(a)),
        ModuleDeclV::ExportNamed { specifiers, src } => (ModuleDeclV::ExportNamed {
            specifiers: specifiers,
            src: src,
        }),
        ModuleDeclV::ExportDefaultDecl(a) => ModuleDeclV::ExportDefaultDecl(folded_default_decl(a)),
        ModuleDeclV::ExportDefaultExpr(a) =>
            ModuleDeclV::ExportDefaultExpr(Box::new(folded_expr(*a))),
        ModuleDeclV::ExportAll { src } => (ModuleDeclV::ExportAll {
            src: src,
        }),
    }
}

/// A [`ModuleItem`] without its dead code.
#[verifier::opaque]
pub open spec fn folded_module_item(x: ModuleItemV) -> ModuleItemV
    decreases x,
{
    match x {
        ModuleItemV::ModuleDecl(a) => ModuleItemV::ModuleDecl(folded_module_decl(a)),
        ModuleItemV::Stmt(a) => ModuleItemV::Stmt(folded_stmt(a)),
    }
}

/// A [`Module`] without its dead code.
#[verifier::opaque]
pub open spec fn folded_module(x: ModuleV) -> ModuleV
    decreases x,
{
    ModuleV {
        body: folded_module_items(x.body),
    }
}

/// Each item of a list without its dead code.
#[verifier::opaque]
pub open spec fn folded_class_members(s: Seq<ClassMemberV>) -> Seq<ClassMemberV>
    decreases s,
{
    Seq::new(
        s.len(),
        |i: int|
            if 0 <= i < s.len() {
                folded_class_member(s[i])
            } else {
                arbitrary()
            },
    )
}

/// Each item of a list without its dead code.
#[verifier::opaque]
pub open spec fn folded_expr_or_spreads(s: Seq<ExprOrSpreadV>) -> Seq<ExprOrSpreadV>
    decreases s,
{
    Seq::new(
        s.len(),
        |i: int|
            if 0 <= i < s.len() {
                folded_expr_or_spread(s[i])
            } else {
                arbitrary()
            },
    )
}

/// Each item of a list without its dead code.
#[verifier::opaque]
pub open spec fn folded_exprs(s: Seq<ExprV>) -> Seq<ExprV>
    decreases s,
{
    Seq::new(
        s.len(),
        |i: int|
            if 0 <= i < s.len() {
                folded_expr(s[i])
            } else {
                arbitrary()
            },
    )
}

/// Each item of a list without its dead code.
#[verifier::opaque]
pub open spec fn folded_each_module_items(s: Seq<ModuleItemV>) -> Seq<ModuleItemV>
    decreases s, 0nat,
{
    Seq::new(
        s.len(),
        |i: int|
            if 0 <= i < s.len() {
                folded_module_item(s[i])
            } else {
                arbitrary()
            },
    )
}

/// A list without its dead code: the rules for lists hold of its simplified items.
#[verifier::opaque]
pub open spec fn folded_module_items(s: Seq<ModuleItemV>) -> Seq<ModuleItemV>
    decreases s, 1nat,
{
    simplified_items(folded_each_module_items(s))
}

/// Each item of a list without its dead code.
#[verifier::opaque]
pub open spec fn folded_object_pat_props(s: Seq<ObjectPatPropV>) -> Seq<ObjectPatPropV>
    decreases s,
{
    Seq::new(
        s.len(),
        |i: int|
            if 0 <= i < s.len() {
                folded_object_pat_prop(s[i])
            } else {
                arbitrary()
            },
    )
}

/// Each item of a list without its dead code.
#[verifier::opaque]
pub open spec fn folded_opt_expr_or_spreads(s: Seq<Option<ExprOrSpreadV>>) -> Seq<Option<ExprOrSpreadV>>
    decreases s,
{
    Seq::new(
        s.len(),
        |i: int|
            if 0 <= i < s.len() {
                match s[i] {
                    Some(x) => Some(folded_expr_or_spread(x)),
                    None => None,
                }
            } else {
                arbitrary()
            },
    )
}

/// Each item of a list without its dead code.
#[verifier::opaque]
pub open spec fn folded_opt_pats(s: Seq<Option<PatV>>) -> Seq<Option<PatV>>
    decreases s,
{
    Seq::new(
        s.len(),
        |i: int|
            if 0 <= i < s.len() {
                match s[i] {
                    Some(x) => Some(folded_pat(x)),
                    None => None,
                }
            } else {
                arbitrary()
            },
    )
}

/// Each item of a list without its dead code.
#[verifier::opaque]
pub open spec fn folded_pats(s: Seq<PatV>) -> Seq<PatV>
    decreases s,
{
    Seq::new(
        s.len(),
        |i: int|
            if 0 <= i < s.len() {
                folded_pat(s[i])
            } else {
                arbitrary()
            },
    )
}

/// Each item of a list without its dead code.
#[verifier::opaque]
pub open spec fn folded_prop_or_spreads(s: Seq<PropOrSpreadV>) -> Seq<PropOrSpreadV>
    decreases s,
{
    Seq::new(
        s.len(),
        |i: int|
            if 0 <= i < s.len() {
                folded_prop_or_spread(s[i])
            } else {
                arbitrary()
            },
    )
}

/// Each item of a list without its dead code.
#[verifier::opaque]
pub open spec fn folded_each_stmts(s: Seq<StmtV>) -> Seq<StmtV>
    decreases s, 0nat,
{
    Seq::new(
        s.len(),
        |i: int|
            if 0 <= i < s.len() {
                folded_stmt(s[i])
            } else {
                arbitrary()
            },
    )
}

/// A list without its dead code: the rules for lists hold of its simplified items.
#[verifier::opaque]
pub open spec fn folded_stmts(s: Seq<StmtV>) -> Seq<StmtV>
    decreases s, 1nat,
{
    simplified_list(folded_each_stmts(s))
}

/// Each item of a list without its dead code.
#[verifier::opaque]
pub open spec fn folded_switch_cases(s: Seq<SwitchCaseV>) -> Seq<SwitchCaseV>
    decreases s,
{
    Seq::new(
        s.len(),
        |i: int|
            if 0 <= i < s.len() {
                folded_switch_case(s[i])
            } else {
                arbitrary()
            },
    )
}

/// Each item of a list without its dead code.
#[verifier::opaque]
pub open spec fn folded_var_declarators(s: Seq<VarDeclaratorV>) -> Seq<VarDeclaratorV>
    decreases s,
{
    Seq::new(
        s.len(),
        |i: int|
            if 0 <= i < s.len() {
                folded_var_declarator(s[i])
            } else {
                arbitrary()
            },
    )
}

/// What [`folded_tpl`] is, one level down.
pub proof fn lemma_folded_tpl(x: TplV)
    ensures
        folded_tpl(x) == (TplV {
            exprs: folded_exprs(x.exprs),
            quasis: x.quasis,
        }),
{
    reveal(folded_tpl);
    reveal(folded_exprs);
}

/// What [`folded_expr_or_spread`] is, one level down.
pub proof fn lemma_folded_expr_or_spread(x: ExprOrSpreadV)
    ensures
        folded_expr_or_spread(x) == (ExprOrSpreadV {
            spread: x.spread,
            expr: folded_expr(x.expr),
        }),
{
    reveal(folded_expr_or_spread);
    reveal(folded_expr);
}

/// What [`folded_expr_or_super`] is, one level down.
pub proof fn lemma_folded_expr_or_super(x: ExprOrSuperV)
    ensures
        folded_expr_or_super(x) == (match x {
            ExprOrSuperV::Super => ExprOrSuperV::Super,
            ExprOrSuperV::Expr(a) => ExprOrSuperV::Expr(Box::new(folded_expr(*a))),
        }),
{
    reveal(folded_expr_or_super);
    reveal(folded_expr);
}

/// What [`folded_member_prop`] is, one level down.
pub proof fn lemma_folded_member_prop(x: MemberPropV)
    ensures
        folded_member_prop(x) == (match x {
            MemberPropV::Ident(a) => MemberPropV::Ident(a),
            MemberPropV::Computed(a) => MemberPropV::Computed(Box::new(folded_expr(*a))),
        }),
{
    reveal(folded_member_prop);
    reveal(folded_expr);
}

/// What [`folded_pat_or_expr`] is, one level down.
pub proof fn lemma_folded_pat_or_expr(x: PatOrExprV)
    ensures
        folded_pat_or_expr(x) == (match x {
            PatOrExprV::Expr(a) => PatOrExprV::Expr(Box::new(folded_expr(*a))),
            PatOrExprV::Pat(a) => PatOrExprV::Pat(Box::new(folded_pat(*a))),
        }),
{
    reveal(folded_pat_or_expr);
    reveal(folded_expr);
    reveal(folded_pat);
}

/// What [`folded_prop_name`] is, one level down.
pub proof fn lemma_folded_prop_name(x: PropNameV)
    ensures
        folded_prop_name(x) == (match x {
            PropNameV::Ident(a) => PropNameV::Ident(a),
            PropNameV::Str(a) => PropNameV::Str(a),
            PropNameV::Num(a) => PropNameV::Num(a),
            PropNameV::Computed(a) => PropNameV::Computed(Box::new(folded_expr(*a))),
        }),
{
    reveal(folded_prop_name);
    reveal(folded_expr);
}

/// What [`folded_prop`] is, one level down.
pub proof fn lemma_folded_prop(x: PropV)
    ensures
        folded_prop(x) == (match x {
            PropV::Shorthand(a) => PropV::Shorthand(a),
            PropV::KeyValue { key, value } => (PropV::KeyValue {
                key: folded_prop_name(key),
                value: Box::new(folded_expr(*value)),
            }),
            PropV::Getter { key, body } => (PropV::Getter {
                key: folded_prop_name(key),
                body: match body {
                    Some(x) => Some(folded_stmts(x)),
                    None => None,
                },
            }),
            PropV::Setter { key, param, body } => (PropV::Setter {
                key: folded_prop_name(key),
                param: folded_pat(param),
                body: match body {
                    Some(x) => Some(folded_stmts(x)),
                    None => None,
                },
            }),
            PropV::Method { key, function } => (PropV::Method {
                key: folded_prop_name(key),
                function: folded_function(function),
            }),
        }),
{
    reveal(folded_prop);
    reveal(folded_prop_name);
    reveal(folded_expr);
    reveal(folded_stmts);
    reveal(folded_pat);
    reveal(folded_function);
}

/// What [`folded_prop_or_spread`] is, one level down.
pub proof fn lemma_folded_prop_or_spread(x: PropOrSpreadV)
    ensures
        folded_prop_or_spread(x) == (match x {
            PropOrSpreadV::Spread(a) => PropOrSpreadV::Spread(Box::new(folded_expr(*a))),
            PropOrSpreadV::Prop(a) => PropOrSpreadV::Prop(Box::new(folded_prop(*a))),
        }),
{
    reveal(folded_prop_or_spread);
    reveal(folded_expr);
    reveal(folded_prop);
}

/// What [`folded_function`] is, one level down.
pub proof fn lemma_folded_function(x: FunctionV)
    ensures
        folded_function(x) == (FunctionV {
            params: folded_pats(x.params),
            body: match x.body {
                Some(x) => Some(folded_stmts(x)),
                None => None,
            },
            is_generator: x.is_generator,
            is_async: x.is_async,
        }),
{
    reveal(folded_function);
    reveal(folded_pats);
    reveal(folded_stmts);
}

/// What [`folded_class`] is, one level down.
pub proof fn lemma_folded_class(x: ClassV)
    ensures
        folded_class(x) == (ClassV {
            super_class: match x.super_class {
                Some(x) => Some(Box::new(folded_expr(*x))),
                None => None,
            },
            body: folded_class_members(x.body),
        }),
{
    reveal(folded_class);
    reveal(folded_expr);
    reveal(folded_class_members);
}

/// What [`folded_class_member`] is, one level down.
pub proof fn lemma_folded_class_member(x: ClassMemberV)
    ensures
        folded_class_member(x) == (match x {
            ClassMemberV::Constructor { key, params, body } => (ClassMemberV::Constructor {
                key: folded_prop_name(key),
                params: folded_pats(params),
                body: match body {
                    Some(x) => Some(folded_stmts(x)),
                    None => None,
                },
            }),
            ClassMemberV::Method { key, function, kind, is_static } => (ClassMemberV::Method {
                key: folded_prop_name(key),
                function: folded_function(function),
                kind: kind,
                is_static: is_static,
            }),
            ClassMemberV::Prop { key, value, is_static, computed } => (ClassMemberV::Prop {
                key: Box::new(folded_expr(*key)),
                value: match value {
                    Some(x) => Some(Box::new(folded_expr(*x))),
                    None => None,
                },
                is_static: is_static,
                computed: computed,
            }),
        }),
{
    reveal(folded_class_member);
    reveal(folded_prop_name);
    reveal(folded_pats);
    reveal(folded_stmts);
    reveal(folded_function);
    reveal(folded_expr);
}

/// What [`folded_block_stmt_or_expr`] is, one level down.
pub proof fn lemma_folded_block_stmt_or_expr(x: BlockStmtOrExprV)
    ensures
        folded_block_stmt_or_expr(x) == (match x {
            BlockStmtOrExprV::Block(a) => BlockStmtOrExprV::Block(folded_stmts(a)),
            BlockStmtOrExprV::Expr(a) => BlockStmtOrExprV::Expr(Box::new(folded_expr(*a))),
        }),
{
    reveal(folded_block_stmt_or_expr);
    reveal(folded_stmts);
    reveal(folded_expr);
}

/// What [`folded_expr`] is, one level down.
pub proof fn lemma_folded_expr(x: ExprV)
    ensures
        folded_expr(x) == simplified_expr(
            match x {
                ExprV::This => ExprV::This,
                ExprV::Array(a) => ExprV::Array(folded_opt_expr_or_spreads(a)),
                ExprV::Object(a) => ExprV::Object(folded_prop_or_spreads(a)),
                ExprV::Fn { ident, function } => (ExprV::Fn {
                    ident: ident,
                    function: Box::new(folded_function(*function)),
                }),
                ExprV::Unary { op, arg } => (ExprV::Unary {
                    op: op,
                    arg: Box::new(folded_expr(*arg)),
                }),
                ExprV::Update { op, prefix, arg } => (ExprV::Update {
                    op: op,
                    prefix: prefix,
                    arg: Box::new(folded_expr(*arg)),
                }),
                ExprV::Bin { op, left, right } => (ExprV::Bin {
                    op: op,
                    left: Box::new(folded_expr(*left)),
                    right: Box::new(folded_expr(*right)),
                }),
                ExprV::Assign { op, left, right } => (ExprV::Assign {
                    op: op,
                    left: folded_pat_or_expr(left),
                    right: Box::new(folded_expr(*right)),
                }),
                ExprV::Member { obj, prop } => (ExprV::Member {
                    obj: folded_expr_or_super(obj),
                    prop: folded_member_prop(prop),
                }),
                ExprV::Cond { test, cons, alt } => (ExprV::Cond {
                    test: Box::new(folded_expr(*test)),
                    cons: Box::new(folded_expr(*cons)),
                    alt: Box::new(folded_expr(*alt)),
                }),
                ExprV::Call { callee, args } => (ExprV::Call {
                    callee: folded_expr_or_super(callee),
                    args: folded_expr_or_spreads(args),
                }),
                ExprV::New { callee, args } => (ExprV::New {
                    callee: Box::new(folded_expr(*callee)),
                    args: match args {
                        Some(x) => Some(folded_expr_or_spreads(x)),
                        None => None,
                    },
                }),
                ExprV::Sequence { init, last } => (ExprV::Sequence {
                    init: folded_exprs(init),
                    last: Box::new(folded_expr(*last)),
                }),
                ExprV::Ident(a) => ExprV::Ident(a),
                ExprV::Lit(a) => ExprV::Lit(a),
                ExprV::Tpl(a) => ExprV::Tpl(folded_tpl(a)),
                ExprV::TaggedTpl { tag, tpl } => (ExprV::TaggedTpl {
                    tag: Box::new(folded_expr(*tag)),
                    tpl: folded_tpl(tpl),
                }),
                ExprV::Arrow { params, body, is_async, is_generator } => (ExprV::Arrow {
                    params: folded_pats(params),
                    body: folded_block_stmt_or_expr(body),
                    is_async: is_async,
                    is_generator: is_generator,
                }),
                ExprV::Class { ident, class } => (ExprV::Class {
                    ident: ident,
                    class: Box::new(folded_class(*class)),
                }),
                ExprV::Yield { arg, delegate } => (ExprV::Yield {
                    arg: match arg {
                        Some(x) => Some(Box::new(folded_expr(*x))),
                        None => None,
                    },
                    delegate: delegate,
                }),
                ExprV::MetaProp { meta, prop } => (ExprV::MetaProp {
                    meta: meta,
                    prop: prop,
                }),
                ExprV::Await(a) => ExprV::Await(Box::new(folded_expr(*a))),
                ExprV::Paren(a) => ExprV::Paren(Box::new(folded_expr(*a))),
                ExprV::Ts { cast, expr } => (ExprV::Ts {
                    cast: cast,
                    expr: Box::new(folded_expr(*expr)),
                }),
                ExprV::OptChain(a) => ExprV::OptChain(Box::new(folded_expr(*a))),
                ExprV::PrivateName(a) => ExprV::PrivateName(a),
            },
        ),
{
    reveal(folded_expr);
    reveal(folded_opt_expr_or_spreads);
    reveal(folded_prop_or_spreads);
    reveal(folded_function);
    reveal(folded_pat_or_expr);
    reveal(folded_expr_or_super);
    reveal(folded_member_prop);
    reveal(folded_expr_or_spreads);
    reveal(folded_exprs);
    reveal(folded_tpl);
    reveal(folded_pats);
    reveal(folded_block_stmt_or_expr);
    reveal(folded_class);
}

/// What [`folded_pat`] is, one level down.
pub proof fn lemma_folded_pat(x: PatV)
    ensures
        folded_pat(x) == simplified_pat(
            match x {
                PatV::Ident(a) => PatV::Ident(a),
                PatV::Array(a) => PatV::Array(folded_opt_pats(a)),
                PatV::Rest(a) => PatV::Rest(Box::new(folded_pat(*a))),
                PatV::Object(a) => PatV::Object(folded_object_pat_props(a)),
                PatV::Assign { left, right } => (PatV::Assign {
                    left: Box::new(folded_pat(*left)),
                    right: Box::new(folded_expr(*right)),
                }),
                PatV::Expr(a) => PatV::Expr(Box::new(folded_expr(*a))),
            },
        ),
{
    reveal(folded_pat);
    reveal(folded_opt_pats);
    reveal(folded_object_pat_props);
    reveal(folded_expr);
}

/// What [`folded_object_pat_prop`] is, one level down.
pub proof fn lemma_folded_object_pat_prop(x: ObjectPatPropV)
    ensures
        folded_object_pat_prop(x) == simplified_object_pat_prop(
            match x {
                ObjectPatPropV::KeyValue { key, value } => (ObjectPatPropV::KeyValue {
                    key: folded_prop_name(key),
                    value: Box::new(folded_pat(*value)),
                }),
                ObjectPatPropV::Assign { key, value } => (ObjectPatPropV::Assign {
                    key: key,
                    value: match value {
                        Some(x) => Some(Box::new(folded_expr(*x))),
                        None => None,
                    },
                }),
                ObjectPatPropV::Rest(a) => ObjectPatPropV::Rest(Box::new(folded_pat(*a))),
            },
        ),
{
    reveal(folded_object_pat_prop);
    reveal(folded_prop_name);
    reveal(folded_pat);
    reveal(folded_expr);
}

/// What [`folded_var_declarator`] is, one level down.
pub proof fn lemma_folded_var_declarator(x: VarDeclaratorV)
    ensures
        folded_var_declarator(x) == (VarDeclaratorV {
            name: folded_pat(x.name),
            init: match x.init {
                Some(x) => Some(Box::new(folded_expr(*x))),
                None => None,
            },
        }),
{
    reveal(folded_var_declarator);
    reveal(folded_pat);
    reveal(folded_expr);
}

/// What [`folded_var_decl`] is, one level down.
pub proof fn lemma_folded_var_decl(x: VarDeclV)
    ensures
        folded_var_decl(x) == (VarDeclV {
            kind: x.kind,
            annotation: x.annotation,
            decls: folded_var_declarators(x.decls),
        }),
{
    reveal(folded_var_decl);
    reveal(folded_var_declarators);
}

/// What [`folded_decl`] is, one level down.
pub proof fn lemma_folded_decl(x: DeclV)
    ensures
        folded_decl(x) == (match x {
            DeclV::Class { ident, class } => (DeclV::Class {
                ident: ident,
                class: folded_class(class),
            }),
            DeclV::Fn { ident, function } => (DeclV::Fn {
                ident: ident,
                function: folded_function(function),
            }),
            DeclV::Var(a) => DeclV::Var(folded_var_decl(a)),
        }),
{
    reveal(folded_decl);
    reveal(folded_class);
    reveal(folded_function);
    reveal(folded_var_decl);
}

/// What [`folded_var_decl_or_expr`] is, one level down.
pub proof fn lemma_folded_var_decl_or_expr(x: VarDeclOrExprV)
    ensures
        folded_var_decl_or_expr(x) == (match x {
            VarDeclOrExprV::VarDecl(a) => VarDeclOrExprV::VarDecl(folded_var_decl(a)),
            VarDeclOrExprV::Expr(a) => VarDeclOrExprV::Expr(Box::new(folded_expr(*a))),
        }),
{
    reveal(folded_var_decl_or_expr);
    reveal(folded_var_decl);
    reveal(folded_expr);
}

/// What [`folded_var_decl_or_pat`] is, one level down.
pub proof fn lemma_folded_var_decl_or_pat(x: VarDeclOrPatV)
    ensures
        folded_var_decl_or_pat(x) == (match x {
            VarDeclOrPatV::VarDecl(a) => VarDeclOrPatV::VarDecl(folded_var_decl(a)),
            VarDeclOrPatV::Pat(a) => VarDeclOrPatV::Pat(folded_pat(a)),
        }),
{
    reveal(folded_var_decl_or_pat);
    reveal(folded_var_decl);
    reveal(folded_pat);
}

/// What [`folded_switch_case`] is, one level down.
pub proof fn lemma_folded_switch_case(x: SwitchCaseV)
    ensures
        folded_switch_case(x) == (SwitchCaseV {
            test: match x.test {
                Some(x) => Some(Box::new(folded_expr(*x))),
                None => None,
            },
            cons: folded_stmts(x.cons),
        }),
{
    reveal(folded_switch_case);
    reveal(folded_expr);
    reveal(folded_stmts);
}

/// What [`folded_catch_clause`] is, one level down.
pub proof fn lemma_folded_catch_clause(x: CatchClauseV)
    ensures
        folded_catch_clause(x) == (CatchClauseV {
            param: match x.param {
                Some(x) => Some(folded_pat(x)),
                None => None,
            },
            body: folded_stmts(x.body),
        }),
{
    reveal(folded_catch_clause);
    reveal(folded_pat);
    reveal(folded_stmts);
}

/// What [`folded_stmt`] is, one level down.
pub proof fn lemma_folded_stmt(x: StmtV)
    ensures
        folded_stmt(x) == simplified_stmt(
            match x {
                StmtV::Block(a) => StmtV::Block(folded_stmts(a)),
                StmtV::Empty => StmtV::Empty,
                StmtV::Debugger => StmtV::Debugger,
                StmtV::With { obj, body } => (StmtV::With {
                    obj: Box::new(folded_expr(*obj)),
                    body: Box::new(folded_stmt(*body)),
                }),
                StmtV::Return(a) => StmtV::Return(match a {
                    Some(x) => Some(Box::new(folded_expr(*x))),
                    None => None,
                }),
                StmtV::Labeled { label, body } => (StmtV::Labeled {
                    label: label,
                    body: Box::new(folded_stmt(*body)),
                }),
                StmtV::Break(a) => StmtV::Break(a),
                StmtV::Continue(a) => StmtV::Continue(a),
                StmtV::If { test, cons, alt } => (StmtV::If {
                    test: Box::new(folded_expr(*test)),
                    cons: Box::new(folded_stmt(*cons)),
                    alt: match alt {
                        Some(x) => Some(Box::new(folded_stmt(*x))),
                        None => None,
                    },
                }),
                StmtV::Switch { discriminant, cases } => (StmtV::Switch {
                    discriminant: Box::new(folded_expr(*discriminant)),
                    cases: folded_switch_cases(cases),
                }),
                StmtV::Throw(a) => StmtV::Throw(Box::new(folded_expr(*a))),
                StmtV::Try { block, handler, finalizer } => (StmtV::Try {
                    block: folded_stmts(block),
                    handler: match handler {
                        Some(x) => Some(folded_catch_clause(x)),
                        None => None,
                    },
                    finalizer: match finalizer {
                        Some(x) => Some(folded_stmts(x)),
                        None => None,
                    },
                }),
                StmtV::While { test, body } => (StmtV::While {
                    test: Box::new(folded_expr(*test)),
                    body: Box::new(folded_stmt(*body)),
                }),
                StmtV::DoWhile { test, body } => (StmtV::DoWhile {
                    test: Box::new(folded_expr(*test)),
                    body: Box::new(folded_stmt(*body)),
                }),
                StmtV::For { init, test, update, body } => (StmtV::For {
                    init: match init {
                        Some(x) => Some(folded_var_decl_or_expr(x)),
                        None => None,
                    },
                    test: match test {
                        Some(x) => Some(Box::new(folded_expr(*x))),
                        None => None,
                    },
                    update: match update {
                        Some(x) => Some(Box::new(folded_expr(*x))),
                        None => None,
                    },
                    body: Box::new(folded_stmt(*body)),
                }),
                StmtV::ForIn { left, right, body } => (StmtV::ForIn {
                    left: folded_var_decl_or_pat(left),
                    right: Box::new(folded_expr(*right)),
                    body: Box::new(folded_stmt(*body)),
                }),
                StmtV::ForOf { is_await, left, right, body } => (StmtV::ForOf {
                    is_await: is_await,
                    left: folded_var_decl_or_pat(left),
                    right: Box::new(folded_expr(*right)),
                    body: Box::new(folded_stmt(*body)),
                }),
                StmtV::Decl(a) => StmtV::Decl(folded_decl(a)),
                StmtV::Expr(a) => StmtV::Expr(Box::new(folded_expr(*a))),
            },
        ),
{
    reveal(folded_stmt);
    reveal(folded_stmts);
    reveal(folded_expr);
    reveal(folded_switch_cases);
    reveal(folded_catch_clause);
    reveal(folded_var_decl_or_expr);
    reveal(folded_var_decl_or_pat);
    reveal(folded_decl);
}

/// What [`folded_default_decl`] is, one level down.
pub proof fn lemma_folded_default_decl(x: DefaultDeclV)
    ensures
        folded_default_decl(x) == (match x {
            DefaultDeclV::Class { ident, class } => (DefaultDeclV::Class {
                ident: ident,
                class: folded_class(class),
            }),
            DefaultDeclV::Fn { ident, function } => (DefaultDeclV::Fn {
                ident: ident,
                function: folded_function(function),
            }),
        }),
{
    reveal(folded_default_decl);
    reveal(folded_class);
    reveal(folded_function);
}

/// What [`folded_module_decl`] is, one level down.
pub proof fn lemma_folded_module_decl(x: ModuleDeclV)
    ensures
        folded_module_decl(x) == (match x {
            ModuleDeclV::Import { specifiers, src } => (ModuleDeclV::Import {
                specifiers: specifiers,
                src: src,
            }),
            ModuleDeclV::ExportDecl(a) => ModuleDeclV::ExportDecl(folded_decl(a)),
            ModuleDeclV::ExportNamed { specifiers, src } => (ModuleDeclV::ExportNamed {
                specifiers: specifiers,
                src: src,
            }),
            ModuleDeclV::ExportDefaultDecl(a) =>
                ModuleDeclV::ExportDefaultDecl(folded_default_decl(a)),
            ModuleDeclV::ExportDefaultExpr(a) =>
                ModuleDeclV::ExportDefaultExpr(Box::new(folded_expr(*a))),
            ModuleDeclV::ExportAll { src } => (ModuleDeclV::ExportAll {
                src: src,
            }),
        }),
{
    reveal(folded_module_decl);
    reveal(folded_decl);
    reveal(folded_default_decl);
    reveal(folded_expr);
}

/// What [`folded_module_item`] is, one level down.
pub proof fn lemma_folded_module_item(x: ModuleItemV)
    ensures
        folded_module_item(x) == (match x {
            ModuleItemV::ModuleDecl(a) => ModuleItemV::ModuleDecl(folded_module_decl(a)),
            ModuleItemV::Stmt(a) => ModuleItemV::Stmt(folded_stmt(a)),
        }),
{
    reveal(folded_module_item);
    reveal(folded_module_decl);
    reveal(folded_stmt);
}

/// What [`folded_module`] is, one level down.
pub proof fn lemma_folded_module(x: ModuleV)
    ensures
        folded_module(x) == (ModuleV {
            body: folded_module_items(x.body),
        }),
{
    reveal(folded_module);
    reveal(folded_module_items);
}

/// The rewritten list holds the rewritten items, in their order.
pub proof fn lemma_folded_class_members(s: Seq<ClassMemberV>)
    ensures
        folded_class_members(s).len() == s.len(),
        forall|i: int|
            0 <= i < s.len() ==> (#[trigger] folded_class_members(s)[i])
                == folded_class_member(s[i]),
{
    reveal(folded_class_members);
    reveal(folded_class_member);
}

/// The rewritten list holds the rewritten items, in their order.
pub proof fn lemma_folded_expr_or_spreads(s: Seq<ExprOrSpreadV>)
    ensures
        folded_expr_or_spreads(s).len() == s.len(),
        forall|i: int|
            0 <= i < s.len() ==> (#[trigger] folded_expr_or_spreads(s)[i])
                == folded_expr_or_spread(s[i]),
{
    reveal(folded_expr_or_spreads);
    reveal(folded_expr_or_spread);
}

/// The rewritten list holds the rewritten items, in their order.
pub proof fn lemma_folded_exprs(s: Seq<ExprV>)
    ensures
        folded_exprs(s).len() == s.len(),
        forall|i: int|
            0 <= i < s.len() ==> (#[trigger] folded_exprs(s)[i]) == folded_expr(s[i]),
{
    reveal(folded_exprs);
    reveal(folded_expr);
}

/// The rewritten list holds the rewritten items, in their order.
pub proof fn lemma_folded_each_module_items(s: Seq<ModuleItemV>)
    ensures
        folded_each_module_items(s).len() == s.len(),
        forall|i: int|
            0 <= i < s.len() ==> (#[trigger] folded_each_module_items(s)[i])
                == folded_module_item(s[i]),
{
    reveal(folded_each_module_items);
    reveal(folded_module_item);
}

/// What [`folded_module_items`] is, one level down.
pub proof fn lemma_folded_module_items(s: Seq<ModuleItemV>)
    ensures
        folded_module_items(s) == simplified_items(folded_each_module_items(s)),
{
    reveal(folded_module_items);
    reveal(folded_each_module_items);
}

/// The rewritten list holds the rewritten items, in their order.
pub proof fn lemma_folded_object_pat_props(s: Seq<ObjectPatPropV>)
    ensures
        folded_object_pat_props(s).len() == s.len(),
        forall|i: int|
            0 <= i < s.len() ==> (#[trigger] folded_object_pat_props(s)[i])
                == folded_object_pat_prop(s[i]),
{
    reveal(folded_object_pat_props);
    reveal(folded_object_pat_prop);
}

/// The rewritten list holds the rewritten items, in their order.
pub proof fn lemma_folded_opt_expr_or_spreads(s: Seq<Option<ExprOrSpreadV>>)
    ensures
        folded_opt_expr_or_spreads(s).len() == s.len(),
        forall|i: int|
            0 <= i < s.len() ==> (#[trigger] folded_opt_expr_or_spreads(s)[i]) == match s[i] {
                Some(x) => Some(folded_expr_or_spread(x)),
                None => None,
            },
{
    reveal(folded_opt_expr_or_spreads);
    reveal(folded_expr_or_spread);
}

/// The rewritten list holds the rewritten items, in their order.
pub proof fn lemma_folded_opt_pats(s: Seq<Option<PatV>>)
    ensures
        folded_opt_pats(s).len() == s.len(),
        forall|i: int|
            0 <= i < s.len() ==> (#[trigger] folded_opt_pats(s)[i]) == match s[i] {
                Some(x) => Some(folded_pat(x)),
                None => None,
            },
{
    reveal(folded_opt_pats);
    reveal(folded_pat);
}

/// The rewritten list holds the rewritten items, in their order.
pub proof fn lemma_folded_pats(s: Seq<PatV>)
    ensures
        folded_pats(s).len() == s.len(),
        forall|i: int|
            0 <= i < s.len() ==> (#[trigger] folded_pats(s)[i]) == folded_pat(s[i]),
{
    reveal(folded_pats);
    reveal(folded_pat);
}

/// The rewritten list holds the rewritten items, in their order.
pub proof fn lemma_folded_prop_or_spreads(s: Seq<PropOrSpreadV>)
    ensures
        folded_prop_or_spreads(s).len() == s.len(),
        forall|i: int|
            0 <= i < s.len() ==> (#[trigger] folded_prop_or_spreads(s)[i])
                == folded_prop_or_spread(s[i]),
{
    reveal(folded_prop_or_spreads);
    reveal(folded_prop_or_spread);
}

/// The rewritten list holds the rewritten items, in their order.
pub proof fn lemma_folded_each_stmts(s: Seq<StmtV>)
    ensures
        folded_each_stmts(s).len() == s.len(),
        forall|i: int|
            0 <= i < s.len() ==> (#[trigger] folded_each_stmts(s)[i]) == folded_stmt(s[i]),
{
    reveal(folded_each_stmts);
    reveal(folded_stmt);
}

/// What [`folded_stmts`] is, one level down.
pub proof fn lemma_folded_stmts(s: Seq<StmtV>)
    ensures
        folded_stmts(s) == simplified_list(folded_each_stmts(s)),
{
    reveal(folded_stmts);
    reveal(folded_each_stmts);
}

/// The rewritten list holds the rewritten items, in their order.
pub proof fn lemma_folded_switch_cases(s: Seq<SwitchCaseV>)
    ensures
        folded_switch_cases(s).len() == s.len(),
        forall|i: int|
            0 <= i < s.len() ==> (#[trigger] folded_switch_cases(s)[i]) == folded_switch_case(s[i]),
{
    reveal(folded_switch_cases);
    reveal(folded_switch_case);
}

/// The rewritten list holds the rewritten items, in their order.
pub proof fn lemma_folded_var_declarators(s: Seq<VarDeclaratorV>)
    ensures
        folded_var_declarators(s).len() == s.len(),
        forall|i: int|
            0 <= i < s.len() ==> (#[trigger] folded_var_declarators(s)[i])
                == folded_var_declarator(s[i]),
{
    reveal(folded_var_declarators);
    reveal(folded_var_declarator);
}

/// Removes the dead code of a [`Tpl`].
pub fn fold_tpl(x: Tpl) -> (r: Tpl)
    ensures
        r@ == folded_tpl(x@),
    decreases x,
{
    proof {
        lemma_tpl_view(x);
        lemma_folded_tpl(x@);
    }
    let exprs = fold_exprs(x.exprs);
    let quasis = x.quasis;
    let y = Tpl { exprs, quasis };
    proof {
        lemma_tpl_view(y);
    }
    y
}

/// Removes the dead code of a [`ExprOrSpread`].
pub fn fold_expr_or_spread(x: ExprOrSpread) -> (r: ExprOrSpread)
    ensures
        r@ == folded_expr_or_spread(x@),
    decreases x,
{
    proof {
        lemma_expr_or_spread_view(x);
        lemma_folded_expr_or_spread(x@);
    }
    let spread = x.spread;
    let expr = fold_expr(x.expr);
    let y = ExprOrSpread { spread, expr };
    proof {
        lemma_expr_or_spread_view(y);
    }
    y
}

/// Removes the dead code of a [`ExprOrSuper`].
pub fn fold_expr_or_super(x: ExprOrSuper) -> (r: ExprOrSuper)
    ensures
        r@ == folded_expr_or_super(x@),
    decreases x,
{
    proof {
        lemma_expr_or_super_view(x);
        lemma_folded_expr_or_super(x@);
    }
    let y = match x {
        ExprOrSuper::Super => ExprOrSuper::Super,
        ExprOrSuper::Expr(a) => {
            let a = Box::new(fold_expr(*a));
            let y = ExprOrSuper::Expr(a);
            proof {
                lemma_expr_or_super_view(y);
            }
            y
        },
    };
    y
}

/// Removes the dead code of a [`MemberProp`].
pub fn fold_member_prop(x: MemberProp) -> (r: MemberProp)
    ensures
        r@ == folded_member_prop(x@),
    decreases x,
{
    proof {
        lemma_member_prop_view(x);
        lemma_folded_member_prop(x@);
    }
    let y = match x {
        MemberProp::Ident(a) => MemberProp::Ident(a),
        MemberProp::Computed(a) => {
            let a = Box::new(fold_expr(*a));
            let y = MemberProp::Computed(a);
            proof {
                lemma_member_prop_view(y);
            }
            y
        },
    };
    y
}

/// Removes the dead code of a [`PatOrExpr`].
pub fn fold_pat_or_expr(x: PatOrExpr) -> (r: PatOrExpr)
    ensures
        r@ == folded_pat_or_expr(x@),
    decreases x,
{
    proof {
        lemma_pat_or_expr_view(x);
        lemma_folded_pat_or_expr(x@);
    }
    let y = match x {
        PatOrExpr::Expr(a) => {
            let a = Box::new(fold_expr(*a));
            let y = PatOrExpr::Expr(a);
            proof {
                lemma_pat_or_expr_view(y);
            }
            y
        },
        PatOrExpr::Pat(a) => {
            let a = Box::new(fold_pat(*a));
            let y = PatOrExpr::Pat(a);
            proof {
                lemma_pat_or_expr_view(y);
            }
            y
        },
    };
    y
}

/// Removes the dead code of a [`PropName`].
pub fn fold_prop_name(x: PropName) -> (r: PropName)
    ensures
        r@ == folded_prop_name(x@),
    decreases x,
{
    proof {
        lemma_prop_name_view(x);
        lemma_folded_prop_name(x@);
    }
    let y = match x {
        PropName::Ident(a) => PropName::Ident(a),
        PropName::Str(a) => PropName::Str(a),
        PropName::Num(a) => PropName::Num(a),
        PropName::Computed(a) => {
            let a = Box::new(fold_expr(*a));
            let y = PropName::Computed(a);
            proof {
                lemma_prop_name_view(y);
            }
            y
        },
    };
    y
}

/// Removes the dead code of a [`Prop`].
pub fn fold_prop(x: Prop) -> (r: Prop)
    ensures
        r@ == folded_prop(x@),
    decreases x,
{
    proof {
        lemma_prop_view(x);
        lemma_folded_prop(x@);
    }
    let y = match x {
        Prop::Shorthand(a) => Prop::Shorthand(a),
        Prop::KeyValue { key, value } => {
            let key = fold_prop_name(key);
            let value = Box::new(fold_expr(*value));
            let y = Prop::KeyValue { key, value };
            proof {
                lemma_prop_view(y);
            }
            y
        },
        Prop::Getter { key, body } => {
            let key = fold_prop_name(key);
            let body = match body {
                Some(x) => Some(fold_stmts(x)),
                None => None,
            };
            let y = Prop::Getter { key, body };
            proof {
                lemma_prop_view(y);
            }
            y
        },
        Prop::Setter { key, param, body } => {
            let key = fold_prop_name(key);
            let param = fold_pat(param);
            let body = match body {
                Some(x) => Some(fold_stmts(x)),
                None => None,
            };
            let y = Prop::Setter { key, param, body };
            proof {
                lemma_prop_view(y);
            }
            y
        },
        Prop::Method { key, function } => {
            let key = fold_prop_name(key);
            let function = fold_function(function);
            let y = Prop::Method { key, function };
            proof {
                lemma_prop_view(y);
            }
            y
        },
    };
    y
}

/// Removes the dead code of a [`PropOrSpread`].
pub fn fold_prop_or_spread(x: PropOrSpread) -> (r: PropOrSpread)
    ensures
        r@ == folded_prop_or_spread(x@),
    decreases x,
{
    proof {
        lemma_prop_or_spread_view(x);
        lemma_folded_prop_or_spread(x@);
    }
    let y = match x {
        PropOrSpread::Spread(a) => {
            let a = Box::new(fold_expr(*a));
            let y = PropOrSpread::Spread(a);
            proof {
                lemma_prop_or_spread_view(y);
            }
            y
        },
        PropOrSpread::Prop(a) => {
            let a = Box::new(fold_prop(*a));
            let y = PropOrSpread::Prop(a);
            proof {
                lemma_prop_or_spread_view(y);
            }
            y
        },
    };
    y
}

/// Removes the dead code of a [`Function`].
pub fn fold_function(x: Function) -> (r: Function)
    ensures
        r@ == folded_function(x@),
    decreases x,
{
    proof {
        lemma_function_view(x);
        lemma_folded_function(x@);
    }
    let params = fold_pats(x.params);
    let body = match x.body {
        Some(x) => Some(fold_stmts(x)),
        None => None,
    };
    let is_generator = x.is_generator;
    let is_async = x.is_async;
    let y = Function { params, body, is_generator, is_async };
    proof {
        lemma_function_view(y);
    }
    y
}

/// Removes the dead code of a [`Class`].
pub fn fold_class(x: Class) -> (r: Class)
    ensures
        r@ == folded_class(x@),
    decreases x,
{
    proof {
        lemma_class_view(x);
        lemma_folded_class(x@);
    }
    let super_class = match x.super_class {
        Some(x) => Some(Box::new(fold_expr(*x))),
        None => None,
    };
    let body = fold_class_members(x.body);
    let y = Class { super_class, body };
    proof {
        lemma_class_view(y);
    }
    y
}

/// Removes the dead code of a [`ClassMember`].
pub fn fold_class_member(x: ClassMember) -> (r: ClassMember)
    ensures
        r@ == folded_class_member(x@),
    decreases x,
{
    proof {
        lemma_class_member_view(x);
        lemma_folded_class_member(x@);
    }
    let y = match x {
        ClassMember::Constructor { key, params, body } => {
            let key = fold_prop_name(key);
            let params = fold_pats(params);
            let body = match body {
                Some(x) => Some(fold_stmts(x)),
                None => None,
            };
            let y = ClassMember::Constructor { key, params, body };
            proof {
                lemma_class_member_view(y);
            }
            y
        },
        ClassMember::Method { key, function, kind, is_static } => {
            let key = fold_prop_name(key);
            let function = fold_function(function);
            let y = ClassMember::Method { key, function, kind, is_static };
            proof {
                lemma_class_member_view(y);
            }
            y
        },
        ClassMember::Prop { key, value, is_static, computed } => {
            let key = Box::new(fold_expr(*key));
            let value = match value {
                Some(x) => Some(Box::new(fold_expr(*x))),
                None => None,
            };
            let y = ClassMember::Prop { key, value, is_static, computed };
            proof {
                lemma_class_member_view(y);
            }
            y
        },
    };
    y
}

/// Removes the dead code of a [`BlockStmtOrExpr`].
pub fn fold_block_stmt_or_expr(x: BlockStmtOrExpr) -> (r: BlockStmtOrExpr)
    ensures
        r@ == folded_block_stmt_or_expr(x@),
    decreases x,
{
    proof {
        lemma_block_stmt_or_expr_view(x);
        lemma_folded_block_stmt_or_expr(x@);
    }
    let y = match x {
        BlockStmtOrExpr::Block(a) => {
            let a = fold_stmts(a);
            let y = BlockStmtOrExpr::Block(a);
            proof {
                lemma_block_stmt_or_expr_view(y);
            }
            y
        },
        BlockStmtOrExpr::Expr(a) => {
            let a = Box::new(fold_expr(*a));
            let y = BlockStmtOrExpr::Expr(a);
            proof {
                lemma_block_stmt_or_expr_view(y);
            }
            y
        },
    };
    y
}

/// Removes the dead code of a [`Expr`].
pub fn fold_expr(x: Expr) -> (r: Expr)
    ensures
        r@ == folded_expr(x@),
    decreases x,
{
    proof {
        lemma_expr_view(x);
        lemma_folded_expr(x@);
    }
    let y = match x {
        Expr::This => Expr::This,
        Expr::Array(a) => {
            let a = fold_opt_expr_or_spreads(a);
            let y = Expr::Array(a);
            proof {
                lemma_expr_view(y);
            }
            y
        },
        Expr::Object(a) => {
            let a = fold_prop_or_spreads(a);
            let y = Expr::Object(a);
            proof {
                lemma_expr_view(y);
            }
            y
        },
        Expr::Fn { ident, function } => {
            let function = Box::new(fold_function(*function));
            let y = Expr::Fn { ident, function };
            proof {
                lemma_expr_view(y);
            }
            y
        },
        Expr::Unary { op, arg } => {
            let arg = Box::new(fold_expr(*arg));
            let y = Expr::Unary { op, arg };
            proof {
                lemma_expr_view(y);
            }
            y
        },
        Expr::Update { op, prefix, arg } => {
            let arg = Box::new(fold_expr(*arg));
            let y = Expr::Update { op, prefix, arg };
            proof {
                lemma_expr_view(y);
            }
            y
        },
        Expr::Bin { op, left, right } => {
            let left = Box::new(fold_expr(*left));
            let right = Box::new(fold_expr(*right));
            let y = Expr::Bin { op, left, right };
            proof {
                lemma_expr_view(y);
            }
            y
        },
        Expr::Assign { op, left, right } => {
            let left = fold_pat_or_expr(left);
            let right = Box::new(fold_expr(*right));
            let y = Expr::Assign { op, left, right };
            proof {
                lemma_expr_view(y);
            }
            y
        },
        Expr::Member { obj, prop } => {
            let obj = fold_expr_or_super(obj);
            let prop = fold_member_prop(prop);
            let y = Expr::Member { obj, prop };
            proof {
                lemma_expr_view(y);
            }
            y
        },
        Expr::Cond { test, cons, alt } => {
            let test = Box::new(fold_expr(*test));
            let cons = Box::new(fold_expr(*cons));
            let alt = Box::new(fold_expr(*alt));
            let y = Expr::Cond { test, cons, alt };
            proof {
                lemma_expr_view(y);
            }
            y
        },
        Expr::Call { callee, args } => {
            let callee = fold_expr_or_super(callee);
            let args = fold_expr_or_spreads(args);
            let y = Expr::Call { callee, args };
            proof {
                lemma_expr_view(y);
            }
            y
        },
        Expr::New { callee, args } => {
            let callee = Box::new(fold_expr(*callee));
            let args = match args {
                Some(x) => Some(fold_expr_or_spreads(x)),
                None => None,
            };
            let y = Expr::New { callee, args };
            proof {
                lemma_expr_view(y);
            }
            y
        },
        Expr::Sequence { init, last } => {
            let init = fold_exprs(init);
            let last = Box::new(fold_expr(*last));
            let y = Expr::Sequence { init, last };
            proof {
                lemma_expr_view(y);
            }
            y
        },
        Expr::Ident(a) => Expr::Ident(a),
        Expr::Lit(a) => Expr::Lit(a),
        Expr::Tpl(a) => {
            let a = fold_tpl(a);
            let y = Expr::Tpl(a);
            proof {
                lemma_expr_view(y);
            }
            y
        },
        Expr::TaggedTpl { tag, tpl } => {
            let tag = Box::new(fold_expr(*tag));
            let tpl = fold_tpl(tpl);
            let y = Expr::TaggedTpl { tag, tpl };
            proof {
                lemma_expr_view(y);
            }
            y
        },
        Expr::Arrow { params, body, is_async, is_generator } => {
            let params = fold_pats(params);
            let body = fold_block_stmt_or_expr(body);
            let y = Expr::Arrow { params, body, is_async, is_generator };
            proof {
                lemma_expr_view(y);
            }
            y
        },
        Expr::Class { ident, class } => {
            let class = Box::new(fold_class(*class));
            let y = Expr::Class { ident, class };
            proof {
                lemma_expr_view(y);
            }
            y
        },
        Expr::Yield { arg, delegate } => {
            let arg = match arg {
                Some(x) => Some(Box::new(fold_expr(*x))),
                None => None,
            };
            let y = Expr::Yield { arg, delegate };
            proof {
                lemma_expr_view(y);
            }
            y
        },
        Expr::MetaProp { meta, prop } => Expr::MetaProp { meta, prop },
        Expr::Await(a) => {
            let a = Box::new(fold_expr(*a));
            let y = Expr::Await(a);
            proof {
                lemma_expr_view(y);
            }
            y
        },
        Expr::Paren(a) => {
            let a = Box::new(fold_expr(*a));
            let y = Expr::Paren(a);
            proof {
                lemma_expr_view(y);
            }
            y
        },
        Expr::Ts { cast, expr } => {
            let expr = Box::new(fold_expr(*expr));
            let y = Expr::Ts { cast, expr };
            proof {
                lemma_expr_view(y);
            }
            y
        },
        Expr::OptChain(a) => {
            let a = Box::new(fold_expr(*a));
            let y = Expr::OptChain(a);
            proof {
                lemma_expr_view(y);
            }
            y
        },
        Expr::PrivateName(a) => Expr::PrivateName(a),
    };
    simplify_expr(y)
}

/// Removes the dead code of a [`Pat`].
pub fn fold_pat(x: Pat) -> (r: Pat)
    ensures
        r@ == folded_pat(x@),
    decreases x,
{
    proof {
        lemma_pat_view(x);
        lemma_folded_pat(x@);
    }
    let y = match x {
        Pat::Ident(a) => Pat::Ident(a),
        Pat::Array(a) => {
            let a = fold_opt_pats(a);
            let y = Pat::Array(a);
            proof {
                lemma_pat_view(y);
            }
            y
        },
        Pat::Rest(a) => {
            let a = Box::new(fold_pat(*a));
            let y = Pat::Rest(a);
            proof {
                lemma_pat_view(y);
            }
            y
        },
        Pat::Object(a) => {
            let a = fold_object_pat_props(a);
            let y = Pat::Object(a);
            proof {
                lemma_pat_view(y);
            }
            y
        },
        Pat::Assign { left, right } => {
            let left = Box::new(fold_pat(*left));
            let right = Box::new(fold_expr(*right));
            let y = Pat::Assign { left, right };
            proof {
                lemma_pat_view(y);
            }
            y
        },
        Pat::Expr(a) => {
            let a = Box::new(fold_expr(*a));
            let y = Pat::Expr(a);
            proof {
                lemma_pat_view(y);
            }
            y
        },
    };
    simplify_pat(y)
}

/// Removes the dead code of a [`ObjectPatProp`].
pub fn fold_object_pat_prop(x: ObjectPatProp) -> (r: ObjectPatProp)
    ensures
        r@ == folded_object_pat_prop(x@),
    decreases x,
{
    proof {
        lemma_object_pat_prop_view(x);
        lemma_folded_object_pat_prop(x@);
    }
    let y = match x {
        ObjectPatProp::KeyValue { key, value } => {
            let key = fold_prop_name(key);
            let value = Box::new(fold_pat(*value));
            let y = ObjectPatProp::KeyValue { key, value };
            proof {
                lemma_object_pat_prop_view(y);
            }
            y
        },
        ObjectPatProp::Assign { key, value } => {
            let value = match value {
                Some(x) => Some(Box::new(fold_expr(*x))),
                None => None,
            };
            let y = ObjectPatProp::Assign { key, value };
            proof {
                lemma_object_pat_prop_view(y);
            }
            y
        },
        ObjectPatProp::Rest(a) => {
            let a = Box::new(fold_pat(*a));
            let y = ObjectPatProp::Rest(a);
            proof {
                lemma_object_pat_prop_view(y);
            }
            y
        },
    };
    simplify_object_pat_prop(y)
}

/// Removes the dead code of a [`VarDeclarator`].
pub fn fold_var_declarator(x: VarDeclarator) -> (r: VarDeclarator)
    ensures
        r@ == folded_var_declarator(x@),
    decreases x,
{
    proof {
        lemma_var_declarator_view(x);
        lemma_folded_var_declarator(x@);
    }
    let name = fold_pat(x.name);
    let init = match x.init {
        Some(x) => Some(Box::new(fold_expr(*x))),
        None => None,
    };
    let y = VarDeclarator { name, init };
    proof {
        lemma_var_declarator_view(y);
    }
    y
}

/// Removes the dead code of a [`VarDecl`].
pub fn fold_var_decl(x: VarDecl) -> (r: VarDecl)
    ensures
        r@ == folded_var_decl(x@),
    decreases x,
{
    proof {
        lemma_var_decl_view(x);
        lemma_folded_var_decl(x@);
    }
    let kind = x.kind;
    let annotation = x.annotation;
    let decls = fold_var_declarators(x.decls);
    let y = VarDecl { kind, annotation, decls };
    proof {
        lemma_var_decl_view(y);
    }
    y
}

/// Removes the dead code of a [`Decl`].
pub fn fold_decl(x: Decl) -> (r: Decl)
    ensures
        r@ == folded_decl(x@),
    decreases x,
{
    proof {
        lemma_decl_view(x);
        lemma_folded_decl(x@);
    }
    let y = match x {
        Decl::Class { ident, class } => {
            let class = fold_class(class);
            let y = Decl::Class { ident, class };
            proof {
                lemma_decl_view(y);
            }
            y
        },
        Decl::Fn { ident, function } => {
            let function = fold_function(function);
            let y = Decl::Fn { ident, function };
            proof {
                lemma_decl_view(y);
            }
            y
        },
        Decl::Var(a) => {
            let a = fold_var_decl(a);
            let y = Decl::Var(a);
            proof {
                lemma_decl_view(y);
            }
            y
        },
    };
    y
}

/// Removes the dead code of a [`VarDeclOrExpr`].
pub fn fold_var_decl_or_expr(x: VarDeclOrExpr) -> (r: VarDeclOrExpr)
    ensures
        r@ == folded_var_decl_or_expr(x@),
    decreases x,
{
    proof {
        lemma_var_decl_or_expr_view(x);
        lemma_folded_var_decl_or_expr(x@);
    }
    let y = match x {
        VarDeclOrExpr::VarDecl(a) => {
            let a = fold_var_decl(a);
            let y = VarDeclOrExpr::VarDecl(a);
            proof {
                lemma_var_decl_or_expr_view(y);
            }
            y
        },
        VarDeclOrExpr::Expr(a) => {
            let a = Box::new(fold_expr(*a));
            let y = VarDeclOrExpr::Expr(a);
            proof {
                lemma_var_decl_or_expr_view(y);
            }
            y
        },
    };
    y
}

/// Removes the dead code of a [`VarDeclOrPat`].
pub fn fold_var_decl_or_pat(x: VarDeclOrPat) -> (r: VarDeclOrPat)
    ensures
        r@ == folded_var_decl_or_pat(x@),
    decreases x,
{
    proof {
        lemma_var_decl_or_pat_view(x);
        lemma_folded_var_decl_or_pat(x@);
    }
    let y = match x {
        VarDeclOrPat::VarDecl(a) => {
            let a = fold_var_decl(a);
            let y = VarDeclOrPat::VarDecl(a);
            proof {
                lemma_var_decl_or_pat_view(y);
            }
            y
        },
        VarDeclOrPat::Pat(a) => {
            let a = fold_pat(a);
            let y = VarDeclOrPat::Pat(a);
            proof {
                lemma_var_decl_or_pat_view(y);
            }
            y
        },
    };
    y
}

/// Removes the dead code of a [`SwitchCase`].
pub fn fold_switch_case(x: SwitchCase) -> (r: SwitchCase)
    ensures
        r@ == folded_switch_case(x@),
    decreases x,
{
    proof {
        lemma_switch_case_view(x);
        lemma_folded_switch_case(x@);
    }
    let test = match x.test {
        Some(x) => Some(Box::new(fold_expr(*x))),
        None => None,
    };
    let cons = fold_stmts(x.cons);
    let y = SwitchCase { test, cons };
    proof {
        lemma_switch_case_view(y);
    }
    y
}

/// Removes the dead code of a [`CatchClause`].
pub fn fold_catch_clause(x: CatchClause) -> (r: CatchClause)
    ensures
        r@ == folded_catch_clause(x@),
    decreases x,
{
    proof {
        lemma_catch_clause_view(x);
        lemma_folded_catch_clause(x@);
    }
    let param = match x.param {
        Some(x) => Some(fold_pat(x)),
        None => None,
    };
    let body = fold_stmts(x.body);
    let y = CatchClause { param, body };
    proof {
        lemma_catch_clause_view(y);
    }
    y
}

/// Removes the dead code of a [`Stmt`].
pub fn fold_stmt(x: Stmt) -> (r: Stmt)
    ensures
        r@ == folded_stmt(x@),
    decreases x,
{
    proof {
        lemma_stmt_view(x);
        lemma_folded_stmt(x@);
    }
    let y = match x {
        Stmt::Block(a) => {
            let a = fold_stmts(a);
            let y = Stmt::Block(a);
            proof {
                lemma_stmt_view(y);
            }
            y
        },
        Stmt::Empty => Stmt::Empty,
        Stmt::Debugger => Stmt::Debugger,
        Stmt::With { obj, body } => {
            let obj = Box::new(fold_expr(*obj));
            let body = Box::new(fold_stmt(*body));
            let y = Stmt::With { obj, body };
            proof {
                lemma_stmt_view(y);
            }
            y
        },
        Stmt::Return(a) => {
            let a = match a {
                Some(x) => Some(Box::new(fold_expr(*x))),
                None => None,
            };
            let y = Stmt::Return(a);
            proof {
                lemma_stmt_view(y);
            }
            y
        },
        Stmt::Labeled { label, body } => {
            let body = Box::new(fold_stmt(*body));
            let y = Stmt::Labeled { label, body };
            proof {
                lemma_stmt_view(y);
            }
            y
        },
        Stmt::Break(a) => Stmt::Break(a),
        Stmt::Continue(a) => Stmt::Continue(a),
        Stmt::If { test, cons, alt } => {
            let test = Box::new(fold_expr(*test));
            let cons = Box::new(fold_stmt(*cons));
            let alt = match alt {
                Some(x) => Some(Box::new(fold_stmt(*x))),
                None => None,
            };
            let y = Stmt::If { test, cons, alt };
            proof {
                lemma_stmt_view(y);
            }
            y
        },
        Stmt::Switch { discriminant, cases } => {
            let discriminant = Box::new(fold_expr(*discriminant));
            let cases = fold_switch_cases(cases);
            let y = Stmt::Switch { discriminant, cases };
            proof {
                lemma_stmt_view(y);
            }
            y
        },
        Stmt::Throw(a) => {
            let a = Box::new(fold_expr(*a));
            let y = Stmt::Throw(a);
            proof {
                lemma_stmt_view(y);
            }
            y
        },
        Stmt::Try { block, handler, finalizer } => {
            let block = fold_stmts(block);
            let handler = match handler {
                Some(x) => Some(fold_catch_clause(x)),
                None => None,
            };
            let finalizer = match finalizer {
                Some(x) => Some(fold_stmts(x)),
                None => None,
            };
            let y = Stmt::Try { block, handler, finalizer };
            proof {
                lemma_stmt_view(y);
            }
            y
        },
        Stmt::While { test, body } => {
            let test = Box::new(fold_expr(*test));
            let body = Box::new(fold_stmt(*body));
            let y = Stmt::While { test, body };
            proof {
                lemma_stmt_view(y);
            }
            y
        },
        Stmt::DoWhile { test, body } => {
            let test = Box::new(fold_expr(*test));
            let body = Box::new(fold_stmt(*body));
            let y = Stmt::DoWhile { test, body };
            proof {
                lemma_stmt_view(y);
            }
            y
        },
        Stmt::For { init, test, update, body } => {
            let init = match init {
                Some(x) => Some(fold_var_decl_or_expr(x)),
                None => None,
            };
            let test = match test {
                Some(x) => Some(Box::new(fold_expr(*x))),
                None => None,
            };
            let update = match update {
                Some(x) => Some(Box::new(fold_expr(*x))),
                None => None,
            };
            let body = Box::new(fold_stmt(*body));
            let y = Stmt::For { init, test, update, body };
            proof {
                lemma_stmt_view(y);
            }
            y
        },
        Stmt::ForIn { left, right, body } => {
            let left = fold_var_decl_or_pat(left);
            let right = Box::new(fold_expr(*right));
            let body = Box::new(fold_stmt(*body));
            let y = Stmt::ForIn { left, right, body };
            proof {
                lemma_stmt_view(y);
            }
            y
        },
        Stmt::ForOf { is_await, left, right, body } => {
            let left = fold_var_decl_or_pat(left);
            let right = Box::new(fold_expr(*right));
            let body = Box::new(fold_stmt(*body));
            let y = Stmt::ForOf { is_await, left, right, body };
            proof {
                lemma_stmt_view(y);
            }
            y
        },
        Stmt::Decl(a) => {
            let a = fold_decl(a);
            let y = Stmt::Decl(a);
            proof {
                lemma_stmt_view(y);
            }
            y
        },
        Stmt::Expr(a) => {
            let a = Box::new(fold_expr(*a));
            let y = Stmt::Expr(a);
            proof {
                lemma_stmt_view(y);
            }
            y
        },
    };
    simplify_stmt(y)
}

/// Removes the dead code of a [`DefaultDecl`].
pub fn fold_default_decl(x: DefaultDecl) -> (r: DefaultDecl)
    ensures
        r@ == folded_default_decl(x@),
    decreases x,
{
    proof {
        lemma_default_decl_view(x);
        lemma_folded_default_decl(x@);
    }
    let y = match x {
        DefaultDecl::Class { ident, class } => {
            let class = fold_class(class);
            let y = DefaultDecl::Class { ident, class };
            proof {
                lemma_default_decl_view(y);
            }
            y
        },
        DefaultDecl::Fn { ident, function } => {
            let function = fold_function(function);
            let y = DefaultDecl::Fn { ident, function };
            proof {
                lemma_default_decl_view(y);
            }
            y
        },
    };
    y
}

/// Removes the dead code of a [`ModuleDecl`].
pub fn fold_module_decl(x: ModuleDecl) -> (r: ModuleDecl)
    ensures
        r@ == folded_module_decl(x@),
    decreases x,
{
    proof {
        lemma_module_decl_view(x);
        lemma_folded_module_decl(x@);
    }
    let y = match x {
        ModuleDecl::Import { specifiers, src } => ModuleDecl::Import { specifiers, src },
        ModuleDecl::ExportDecl(a) => {
            let a = fold_decl(a);
            let y = ModuleDecl::ExportDecl(a);
            proof {
                lemma_module_decl_view(y);
            }
            y
        },
        ModuleDecl::ExportNamed { specifiers, src } => ModuleDecl::ExportNamed { specifiers, src },
        ModuleDecl::ExportDefaultDecl(a) => {
            let a = fold_default_decl(a);
            let y = ModuleDecl::ExportDefaultDecl(a);
            proof {
                lemma_module_decl_view(y);
            }
            y
        },
        ModuleDecl::ExportDefaultExpr(a) => {
            let a = Box::new(fold_expr(*a));
            let y = ModuleDecl::ExportDefaultExpr(a);
            proof {
                lemma_module_decl_view(y);
            }
            y
        },
        ModuleDecl::ExportAll { src } => ModuleDecl::ExportAll { src },
    };
    y
}

/// Removes the dead code of a [`ModuleItem`].
pub fn fold_module_item(x: ModuleItem) -> (r: ModuleItem)
    ensures
        r@ == folded_module_item(x@),
    decreases x,
{
    proof {
        lemma_module_item_view(x);
        lemma_folded_module_item(x@);
    }
    let y = match x {
        ModuleItem::ModuleDecl(a) => {
            let a = fold_module_decl(a);
            let y = ModuleItem::ModuleDecl(a);
            proof {
                lemma_module_item_view(y);
            }
            y
        },
        ModuleItem::Stmt(a) => {
            let a = fold_stmt(a);
            let y = ModuleItem::Stmt(a);
            proof {
                lemma_module_item_view(y);
            }
            y
        },
    };
    y
}

/// Removes the dead code of a [`Module`].
pub fn fold_module(x: Module) -> (r: Module)
    ensures
        r@ == folded_module(x@),
    decreases x,
{
    proof {
        lemma_module_view(x);
        lemma_folded_module(x@);
    }
    let body = fold_module_items(x.body);
    let y = Module { body };
    proof {
        lemma_module_view(y);
    }
    y
}

/// Removes the dead code of each item of a list.
pub fn fold_class_members(v: Vec<ClassMember>) -> (r: Vec<ClassMember>)
    ensures
        class_members_view(r@) == folded_class_members(class_members_view(v@)),
    decreases v,
{
    let ghost all = v@;
    let ghost items = class_members_view(all);
    proof {
        lemma_class_members_view(all);
        lemma_folded_class_members(items);
    }
    let mut out: Vec<ClassMember> = Vec::new();
    proof {
        lemma_class_members_view(out@);
    }
    for x in it: v
        invariant
            it.seq() == all,
            v@ == all,
            out@.len() == it.index(),
            class_members_view(out@).len() == out@.len(),
            items.len() == all.len(),
            folded_class_members(items).len() == items.len(),
            forall|j: int|
                0 <= j < all.len() ==> (#[trigger] items[j]) == class_member_view(all[j]),
            forall|j: int|
                0 <= j < all.len() ==> (#[trigger] folded_class_members(items)[j])
                    == folded_class_member(items[j]),
            forall|j: int|
                0 <= j < out@.len() ==> (#[trigger] class_members_view(out@)[j])
                    == folded_class_members(items)[j],
    {
        let ghost before = out@;
        let y = fold_class_member(x);
        proof {
            lemma_class_members_view_push(before, y);
        }
        out.push(y);
    }
    assert(class_members_view(out@) =~= folded_class_members(items));
    out
}

/// Removes the dead code of each item of a list.
pub fn fold_expr_or_spreads(v: Vec<ExprOrSpread>) -> (r: Vec<ExprOrSpread>)
    ensures
        expr_or_spreads_view(r@) == folded_expr_or_spreads(expr_or_spreads_view(v@)),
    decreases v,
{
    let ghost all = v@;
    let ghost items = expr_or_spreads_view(all);
    proof {
        lemma_expr_or_spreads_view(all);
        lemma_folded_expr_or_spreads(items);
    }
    let mut out: Vec<ExprOrSpread> = Vec::new();
    proof {
        lemma_expr_or_spreads_view(out@);
    }
    for x in it: v
        invariant
            it.seq() == all,
            v@ == all,
            out@.len() == it.index(),
            expr_or_spreads_view(out@).len() == out@.len(),
            items.len() == all.len(),
            folded_expr_or_spreads(items).len() == items.len(),
            forall|j: int|
                0 <= j < all.len() ==> (#[trigger] items[j]) == expr_or_spread_view(all[j]),
            forall|j: int|
                0 <= j < all.len() ==> (#[trigger] folded_expr_or_spreads(items)[j])
                    == folded_expr_or_spread(items[j]),
            forall|j: int|
                0 <= j < out@.len() ==> (#[trigger] expr_or_spreads_view(out@)[j])
                    == folded_expr_or_spreads(items)[j],
    {
        let ghost before = out@;
        let y = fold_expr_or_spread(x);
        proof {
            lemma_expr_or_spreads_view_push(before, y);
        }
        out.push(y);
    }
    assert(expr_or_spreads_view(out@) =~= folded_expr_or_spreads(items));
    out
}

/// Removes the dead code of each item of a list.
pub fn fold_exprs(v: Vec<Expr>) -> (r: Vec<Expr>)
    ensures
        exprs_view(r@) == folded_exprs(exprs_view(v@)),
    decreases v,
{
    let ghost all = v@;
    let ghost items = exprs_view(all);
    proof {
        lemma_exprs_view(all);
        lemma_folded_exprs(items);
    }
    let mut out: Vec<Expr> = Vec::new();
    proof {
        lemma_exprs_view(out@);
    }
    for x in it: v
        invariant
            it.seq() == all,
            v@ == all,
            out@.len() == it.index(),
            exprs_view(out@).len() == out@.len(),
            items.len() == all.len(),
            folded_exprs(items).len() == items.len(),
            forall|j: int|
                0 <= j < all.len() ==> (#[trigger] items[j]) == expr_view(all[j]),
            forall|j: int|
                0 <= j < all.len() ==> (#[trigger] folded_exprs(items)[j]) == folded_expr(items[j]),
            forall|j: int|
                0 <= j < out@.len() ==> (#[trigger] exprs_view(out@)[j]) == folded_exprs(items)[j],
    {
        let ghost before = out@;
        let y = fold_expr(x);
        proof {
            lemma_exprs_view_push(before, y);
        }
        out.push(y);
    }
    assert(exprs_view(out@) =~= folded_exprs(items));
    out
}

/// Removes the dead code of each item of a list.
pub fn fold_object_pat_props(v: Vec<ObjectPatProp>) -> (r: Vec<ObjectPatProp>)
    ensures
        object_pat_props_view(r@) == folded_object_pat_props(object_pat_props_view(v@)),
    decreases v,
{
    let ghost all = v@;
    let ghost items = object_pat_props_view(all);
    proof {
        lemma_object_pat_props_view(all);
        lemma_folded_object_pat_props(items);
    }
    let mut out: Vec<ObjectPatProp> = Vec::new();
    proof {
        lemma_object_pat_props_view(out@);
    }
    for x in it: v
        invariant
            it.seq() == all,
            v@ == all,
            out@.len() == it.index(),
            object_pat_props_view(out@).len() == out@.len(),
            items.len() == all.len(),
            folded_object_pat_props(items).len() == items.len(),
            forall|j: int|
                0 <= j < all.len() ==> (#[trigger] items[j]) == object_pat_prop_view(all[j]),
            forall|j: int|
                0 <= j < all.len() ==> (#[trigger] folded_object_pat_props(items)[j])
                    == folded_object_pat_prop(items[j]),
            forall|j: int|
                0 <= j < out@.len() ==> (#[trigger] object_pat_props_view(out@)[j])
                    == folded_object_pat_props(items)[j],
    {
        let ghost before = out@;
        let y = fold_object_pat_prop(x);
        proof {
            lemma_object_pat_props_view_push(before, y);
        }
        out.push(y);
    }
    assert(object_pat_props_view(out@) =~= folded_object_pat_props(items));
    out
}

/// Removes the dead code of each item of a list.
pub fn fold_opt_expr_or_spreads(v: Vec<Option<ExprOrSpread>>) -> (r: Vec<Option<ExprOrSpread>>)
    ensures
        opt_expr_or_spreads_view(r@) == folded_opt_expr_or_spreads(opt_expr_or_spreads_view(v@)),
    decreases v,
{
    let ghost all = v@;
    let ghost items = opt_expr_or_spreads_view(all);
    proof {
        lemma_opt_expr_or_spreads_view(all);
        lemma_folded_opt_expr_or_spreads(items);
    }
    let mut out: Vec<Option<ExprOrSpread>> = Vec::new();
    proof {
        lemma_opt_expr_or_spreads_view(out@);
    }
    for x in it: v
        invariant
            it.seq() == all,
            v@ == all,
            out@.len() == it.index(),
            opt_expr_or_spreads_view(out@).len() == out@.len(),
            items.len() == all.len(),
            folded_opt_expr_or_spreads(items).len() == items.len(),
            forall|j: int|
                0 <= j < all.len() ==> (#[trigger] items[j]) == match all[j] {
                    Some(x) => Some(expr_or_spread_view(x)),
                    None => None,
                },
            forall|j: int|
                0 <= j < all.len() ==> (#[trigger] folded_opt_expr_or_spreads(items)[j])
                    == match items[j] {
                    Some(x) => Some(folded_expr_or_spread(x)),
                    None => None,
                },
            forall|j: int|
                0 <= j < out@.len() ==> (#[trigger] opt_expr_or_spreads_view(out@)[j])
                    == folded_opt_expr_or_spreads(items)[j],
    {
        let ghost before = out@;
        let y = match x {
            Some(x) => Some(fold_expr_or_spread(x)),
            None => None,
        };
        proof {
            lemma_opt_expr_or_spreads_view_push(before, y);
        }
        out.push(y);
    }
    assert(opt_expr_or_spreads_view(out@) =~= folded_opt_expr_or_spreads(items));
    out
}

/// Removes the dead code of each item of a list.
pub fn fold_opt_pats(v: Vec<Option<Pat>>) -> (r: Vec<Option<Pat>>)
    ensures
        opt_pats_view(r@) == folded_opt_pats(opt_pats_view(v@)),
    decreases v,
{
    let ghost all = v@;
    let ghost items = opt_pats_view(all);
    proof {
        lemma_opt_pats_view(all);
        lemma_folded_opt_pats(items);
    }
    let mut out: Vec<Option<Pat>> = Vec::new();
    proof {
        lemma_opt_pats_view(out@);
    }
    for x in it: v
        invariant
            it.seq() == all,
            v@ == all,
            out@.len() == it.index(),
            opt_pats_view(out@).len() == out@.len(),
            items.len() == all.len(),
            folded_opt_pats(items).len() == items.len(),
            forall|j: int|
                0 <= j < all.len() ==> (#[trigger] items[j]) == match all[j] {
                    Some(x) => Some(pat_view(x)),
                    None => None,
                },
            forall|j: int|
                0 <= j < all.len() ==> (#[trigger] folded_opt_pats(items)[j]) == match items[j] {
                    Some(x) => Some(folded_pat(x)),
                    None => None,
                },
            forall|j: int|
                0 <= j < out@.len() ==> (#[trigger] opt_pats_view(out@)[j])
                    == folded_opt_pats(items)[j],
    {
        let ghost before = out@;
        let y = match x {
            Some(x) => Some(fold_pat(x)),
            None => None,
        };
        proof {
            lemma_opt_pats_view_push(before, y);
        }
        out.push(y);
    }
    assert(opt_pats_view(out@) =~= folded_opt_pats(items));
    out
}

/// Removes the dead code of each item of a list.
pub fn fold_pats(v: Vec<Pat>) -> (r: Vec<Pat>)
    ensures
        pats_view(r@) == folded_pats(pats_view(v@)),
    decreases v,
{
    let ghost all = v@;
    let ghost items = pats_view(all);
    proof {
        lemma_pats_view(all);
        lemma_folded_pats(items);
    }
    let mut out: Vec<Pat> = Vec::new();
    proof {
        lemma_pats_view(out@);
    }
    for x in it: v
        invariant
            it.seq() == all,
            v@ == all,
            out@.len() == it.index(),
            pats_view(out@).len() == out@.len(),
            items.len() == all.len(),
            folded_pats(items).len() == items.len(),
            forall|j: int|
                0 <= j < all.len() ==> (#[trigger] items[j]) == pat_view(all[j]),
            forall|j: int|
                0 <= j < all.len() ==> (#[trigger] folded_pats(items)[j]) == folded_pat(items[j]),
            forall|j: int|
                0 <= j < out@.len() ==> (#[trigger] pats_view(out@)[j]) == folded_pats(items)[j],
    {
        let ghost before = out@;
        let y = fold_pat(x);
        proof {
            lemma_pats_view_push(before, y);
        }
        out.push(y);
    }
    assert(pats_view(out@) =~= folded_pats(items));
    out
}

/// Removes the dead code of each item of a list.
pub fn fold_prop_or_spreads(v: Vec<PropOrSpread>) -> (r: Vec<PropOrSpread>)
    ensures
        prop_or_spreads_view(r@) == folded_prop_or_spreads(prop_or_spreads_view(v@)),
    decreases v,
{
    let ghost all = v@;
    let ghost items = prop_or_spreads_view(all);
    proof {
        lemma_prop_or_spreads_view(all);
        lemma_folded_prop_or_spreads(items);
    }
    let mut out: Vec<PropOrSpread> = Vec::new();
    proof {
        lemma_prop_or_spreads_view(out@);
    }
    for x in it: v
        invariant
            it.seq() == all,
            v@ == all,
            out@.len() == it.index(),
            prop_or_spreads_view(out@).len() == out@.len(),
            items.len() == all.len(),
            folded_prop_or_spreads(items).len() == items.len(),
            forall|j: int|
                0 <= j < all.len() ==> (#[trigger] items[j]) == prop_or_spread_view(all[j]),
            forall|j: int|
                0 <= j < all.len() ==> (#[trigger] folded_prop_or_spreads(items)[j])
                    == folded_prop_or_spread(items[j]),
            forall|j: int|
                0 <= j < out@.len() ==> (#[trigger] prop_or_spreads_view(out@)[j])
                    == folded_prop_or_spreads(items)[j],
    {
        let ghost before = out@;
        let y = fold_prop_or_spread(x);
        proof {
            lemma_prop_or_spreads_view_push(before, y);
        }
        out.push(y);
    }
    assert(prop_or_spreads_view(out@) =~= folded_prop_or_spreads(items));
    out
}

/// Removes the dead code of each item of a list.
pub fn fold_switch_cases(v: Vec<SwitchCase>) -> (r: Vec<SwitchCase>)
    ensures
        switch_cases_view(r@) == folded_switch_cases(switch_cases_view(v@)),
    decreases v,
{
    let ghost all = v@;
    let ghost items = switch_cases_view(all);
    proof {
        lemma_switch_cases_view(all);
        lemma_folded_switch_cases(items);
    }
    let mut out: Vec<SwitchCase> = Vec::new();
    proof {
        lemma_switch_cases_view(out@);
    }
    for x in it: v
        invariant
            it.seq() == all,
            v@ == all,
            out@.len() == it.index(),
            switch_cases_view(out@).len() == out@.len(),
            items.len() == all.len(),
            folded_switch_cases(items).len() == items.len(),
            forall|j: int|
                0 <= j < all.len() ==> (#[trigger] items[j]) == switch_case_view(all[j]),
            forall|j: int|
                0 <= j < all.len() ==> (#[trigger] folded_switch_cases(items)[j])
                    == folded_switch_case(items[j]),
            forall|j: int|
                0 <= j < out@.len() ==> (#[trigger] switch_cases_view(out@)[j])
                    == folded_switch_cases(items)[j],
    {
        let ghost before = out@;
        let y = fold_switch_case(x);
        proof {
            lemma_switch_cases_view_push(before, y);
        }
        out.push(y);
    }
    assert(switch_cases_view(out@) =~= folded_switch_cases(items));
    out
}

/// Removes the dead code of each item of a list.
pub fn fold_var_declarators(v: Vec<VarDeclarator>) -> (r: Vec<VarDeclarator>)
    ensures
        var_declarators_view(r@) == folded_var_declarators(var_declarators_view(v@)),
    decreases v,
{
    let ghost all = v@;
    let ghost items = var_declarators_view(all);
    proof {
        lemma_var_declarators_view(all);
        lemma_folded_var_declarators(items);
    }
    let mut out: Vec<VarDeclarator> = Vec::new();
    proof {
        lemma_var_declarators_view(out@);
    }
    for x in it: v
        invariant
            it.seq() == all,
            v@ == all,
            out@.len() == it.index(),
            var_declarators_view(out@).len() == out@.len(),
            items.len() == all.len(),
            folded_var_declarators(items).len() == items.len(),
            forall|j: int|
                0 <= j < all.len() ==> (#[trigger] items[j]) == var_declarator_view(all[j]),
            forall|j: int|
                0 <= j < all.len() ==> (#[trigger] folded_var_declarators(items)[j])
                    == folded_var_declarator(items[j]),
            forall|j: int|
                0 <= j < out@.len() ==> (#[trigger] var_declarators_view(out@)[j])
                    == folded_var_declarators(items)[j],
    {
        let ghost before = out@;
        let y = fold_var_declarator(x);
        proof {
            lemma_var_declarators_view_push(before, y);
        }
        out.push(y);
    }
    assert(var_declarators_view(out@) =~= folded_var_declarators(items));
    out
}

} // verus!
