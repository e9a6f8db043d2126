//! The trees of which dead-code removal is done after one run.
//!
//! A tree is tame where the expressions that the rules reduce can be looked
//! at: the expressions of expression statements, the operands of sequences
//! and the tests of the `if`s whose consequent may vanish. And every `try` in
//! it is sure to stay a `try`.

use vstd::prelude::*;
use crate::model::{
    BlockStmtOrExprV, CatchClauseV, ClassMemberV, ClassV, DeclV, DefaultDeclV, ExprOrSpreadV,
    ExprOrSuperV, ExprV, FunctionV, MemberPropV, ModuleDeclV, ModuleItemV, ModuleV, ObjectPatPropV,
    PatOrExprV, PatV, PropNameV, PropOrSpreadV, PropV, StmtV, SwitchCaseV, TplV, VarDeclOrExprV,
    VarDeclOrPatV, VarDeclV, VarDeclaratorV,
};
use crate::steady::{
    is_tame_here, is_tame_stmt_here,
};

verus! {

/// Whether a [`Tpl`] is tame in all its parts.
#[verifier::opaque]
pub open spec fn tame_tpl(x: TplV) -> bool
    decreases x,
{
    tame_exprs(x.exprs)
}

/// Whether a [`ExprOrSpread`] is tame in all its parts.
#[verifier::opaque]
pub open spec fn tame_expr_or_spread(x: ExprOrSpreadV) -> bool
    decreases x,
{
    tame_expr(x.expr)
}

/// Whether a [`ExprOrSuper`] is tame in all its parts.
#[verifier::opaque]
pub open spec fn tame_expr_or_super(x: ExprOrSuperV) -> bool
    decreases x,
{
    match x {
        ExprOrSuperV::Super => true,
        ExprOrSuperV::Expr(a) => tame_expr(*a),
    }
}

/// Whether a [`MemberProp`] is tame in all its parts.
#[verifier::opaque]
pub open spec fn tame_member_prop(x: MemberPropV) -> bool
    decreases x,
{
    match x {
        MemberPropV::Ident(_) => true,
        MemberPropV::Computed(a) => tame_expr(*a),
    }
}

/// Whether a [`PatOrExpr`] is tame in all its parts.
#[verifier::opaque]
pub open spec fn tame_pat_or_expr(x: PatOrExprV) -> bool
    decreases x,
{
    match x {
        PatOrExprV::Expr(a) => tame_expr(*a),
        PatOrExprV::Pat(a) => tame_pat(*a),
    }
}

/// Whether a [`PropName`] is tame in all its parts.
#[verifier::opaque]
pub open spec fn tame_prop_name(x: PropNameV) -> bool
    decreases x,
{
    match x {
        PropNameV::Ident(_) => true,
        PropNameV::Str(_) => true,
        PropNameV::Num(_) => true,
        PropNameV::Computed(a) => tame_expr(*a),
    }
}

/// Whether a [`Prop`] is tame in all its parts.
#[verifier::opaque]
pub open spec fn tame_prop(x: PropV) -> bool
    decreases x,
{
    match x {
        PropV::Shorthand(_) => true,
        PropV::KeyValue { key, value } => tame_prop_name(key) && tame_expr(*value),
        PropV::Getter { key, body } => tame_prop_name(key) && (match body {
            Some(x) => tame_stmts(x),
            None => true,
        }),
        PropV::Setter { key, param, body } => tame_prop_name(key) && tame_pat(param) && (match body {
            Some(x) => tame_stmts(x),
            None => true,
        }),
        PropV::Method { key, function } => tame_prop_name(key) && tame_function(function),
    }
}

/// Whether a [`PropOrSpread`] is tame in all its parts.
#[verifier::opaque]
pub open spec fn tame_prop_or_spread(x: PropOrSpreadV) -> bool
    decreases x,
{
    match x {
        PropOrSpreadV::Spread(a) => tame_expr(*a),
        PropOrSpreadV::Prop(a) => tame_prop(*a),
    }
}

/// Whether a [`Function`] is tame in all its parts.
#[verifier::opaque]
pub open spec fn tame_function(x: FunctionV) -> bool
    decreases x,
{
    tame_pats(x.params)
    && (match x.body {
        Some(x) => tame_stmts(x),
        None => true,
    })
}

/// Whether a [`Class`] is tame in all its parts.
#[verifier::opaque]
pub open spec fn tame_class(x: ClassV) -> bool
    decreases x,
{
    (match x.super_class {
        Some(x) => tame_expr(*x),
        None => true,
    })
    && tame_class_members(x.body)
}

/// Whether a [`ClassMember`] is tame in all its parts.
#[verifier::opaque]
pub open spec fn tame_class_member(x: ClassMemberV) -> bool
    decreases x,
{
    match x {
        ClassMemberV::Constructor { key, params, body } => tame_prop_name(key) && tame_pats(params) && (match body {
            Some(x) => tame_stmts(x),
            None => true,
        }),
        ClassMemberV::Method { key, function, .. } =>
            tame_prop_name(key) && tame_function(function),
        ClassMemberV::Prop { key, value, .. } => tame_expr(*key) && (match value {
            Some(x) => tame_expr(*x),
            None => true,
        }),
    }
}

/// Whether a [`BlockStmtOrExpr`] is tame in all its parts.
#[verifier::opaque]
pub open spec fn tame_block_stmt_or_expr(x: BlockStmtOrExprV) -> bool
    decreases x,
{
    match x {
        BlockStmtOrExprV::Block(a) => tame_stmts(a),
        BlockStmtOrExprV::Expr(a) => tame_expr(*a),
    }
}

/// Whether a [`Expr`] is tame in all its parts.
#[verifier::opaque]
pub open spec fn tame_expr(x: ExprV) -> bool
    decreases x,
{
    is_tame_here(x) && match x {
        ExprV::This => true,
        ExprV::Array(a) => tame_opt_expr_or_spreads(a),
        ExprV::Object(a) => tame_prop_or_spreads(a),
        ExprV::Fn { function, .. } => tame_function(*function),
        ExprV::Unary { arg, .. } => tame_expr(*arg),
        ExprV::Update { arg, .. } => tame_expr(*arg),
        ExprV::Bin { left, right, .. } => tame_expr(*left) && tame_expr(*right),
        ExprV::Assign { left, right, .. } => tame_pat_or_expr(left) && tame_expr(*right),
        ExprV::Member { obj, prop } => tame_expr_or_super(obj) && tame_member_prop(prop),
        ExprV::Cond { test, cons, alt } => tame_expr(*test) && tame_expr(*cons) && tame_expr(*alt),
        ExprV::Call { callee, args } => tame_expr_or_super(callee) && tame_expr_or_spreads(args),
        ExprV::New { callee, args } => tame_expr(*callee) && (match args {
            Some(x) => tame_expr_or_spreads(x),
            None => true,
        }),
        ExprV::Sequence { init, last } => tame_exprs(init) && tame_expr(*last),
        ExprV::Ident(_) => true,
        ExprV::Lit(_) => true,
        ExprV::Tpl(a) => tame_tpl(a),
        ExprV::TaggedTpl { tag, tpl } => tame_expr(*tag) && tame_tpl(tpl),
        ExprV::Arrow { params, body, .. } => tame_pats(params) && tame_block_stmt_or_expr(body),
        ExprV::Class { class, .. } => tame_class(*class),
        ExprV::Yield { arg, .. } => (match arg {
            Some(x) => tame_expr(*x),
            None => true,
        }),
        ExprV::MetaProp { .. } => true,
        ExprV::Await(a) => tame_expr(*a),
        ExprV::Paren(a) => tame_expr(*a),
        ExprV::Ts { expr, .. } => tame_expr(*expr),
        ExprV::OptChain(a) => tame_expr(*a),
        ExprV::PrivateName(_) => true,
    }
}

/// Whether the parts of a [`Expr`] are tame.
pub open spec fn tame_parts_of_expr(x: ExprV) -> bool {
    match x {
        ExprV::This => true,
        ExprV::Array(a) => tame_opt_expr_or_spreads(a),
        ExprV::Object(a) => tame_prop_or_spreads(a),
        ExprV::Fn { function, .. } => tame_function(*function),
        ExprV::Unary { arg, .. } => tame_expr(*arg),
        ExprV::Update { arg, .. } => tame_expr(*arg),
        ExprV::Bin { left, right, .. } => tame_expr(*left) && tame_expr(*right),
        ExprV::Assign { left, right, .. } => tame_pat_or_expr(left) && tame_expr(*right),
        ExprV::Member { obj, prop } => tame_expr_or_super(obj) && tame_member_prop(prop),
        ExprV::Cond { test, cons, alt } => tame_expr(*test) && tame_expr(*cons) && tame_expr(*alt),
        ExprV::Call { callee, args } => tame_expr_or_super(callee) && tame_expr_or_spreads(args),
        ExprV::New { callee, args } => tame_expr(*callee) && (match args {
            Some(x) => tame_expr_or_spreads(x),
            None => true,
        }),
        ExprV::Sequence { init, last } => tame_exprs(init) && tame_expr(*last),
        ExprV::Ident(_) => true,
        ExprV::Lit(_) => true,
        ExprV::Tpl(a) => tame_tpl(a),
        ExprV::TaggedTpl { tag, tpl } => tame_expr(*tag) && tame_tpl(tpl),
        ExprV::Arrow { params, body, .. } => tame_pats(params) && tame_block_stmt_or_expr(body),
        ExprV::Class { class, .. } => tame_class(*class),
        ExprV::Yield { arg, .. } => (match arg {
            Some(x) => tame_expr(*x),
            None => true,
        }),
        ExprV::MetaProp { .. } => true,
        ExprV::Await(a) => tame_expr(*a),
        ExprV::Paren(a) => tame_expr(*a),
        ExprV::Ts { expr, .. } => tame_expr(*expr),
        ExprV::OptChain(a) => tame_expr(*a),
        ExprV::PrivateName(_) => true,
    }
}

/// Whether a [`Pat`] is tame in all its parts.
#[verifier::opaque]
pub open spec fn tame_pat(x: PatV) -> bool
    decreases x,
{
    match x {
        PatV::Ident(_) => true,
        PatV::Array(a) => tame_opt_pats(a),
        PatV::Rest(a) => tame_pat(*a),
        PatV::Object(a) => tame_object_pat_props(a),
        PatV::Assign { left, right } => tame_pat(*left) && tame_expr(*right),
        PatV::Expr(a) => tame_expr(*a),
    }
}

/// Whether a [`ObjectPatProp`] is tame in all its parts.
#[verifier::opaque]
pub open spec fn tame_object_pat_prop(x: ObjectPatPropV) -> bool
    decreases x,
{
    match x {
        ObjectPatPropV::KeyValue { key, value } => tame_prop_name(key) && tame_pat(*value),
        ObjectPatPropV::Assign { value, .. } => (match value {
            Some(x) => tame_expr(*x),
            None => true,
        }),
        ObjectPatPropV::Rest(a) => tame_pat(*a),
    }
}

/// Whether a [`VarDeclarator`] is tame in all its parts.
#[verifier::opaque]
pub open spec fn tame_var_declarator(x: VarDeclaratorV) -> bool
    decreases x,
{
    tame_pat(x.name)
    && (match x.init {
        Some(x) => tame_expr(*x),
        None => true,
    })
}

/// Whether a [`VarDecl`] is tame in all its parts.
#[verifier::opaque]
pub open spec fn tame_var_decl(x: VarDeclV) -> bool
    decreases x,
{
    tame_var_declarators(x.decls)
}

/// Whether a [`Decl`] is tame in all its parts.
#[verifier::opaque]
pub open spec fn tame_decl(x: DeclV) -> bool
    decreases x,
{
    match x {
        DeclV::Class { class, .. } => tame_class(class),
        DeclV::Fn { function, .. } => tame_function(function),
        DeclV::Var(a) => tame_var_decl(a),
    }
}

/// Whether a [`VarDeclOrExpr`] is tame in all its parts.
#[verifier::opaque]
pub open spec fn tame_var_decl_or_expr(x: VarDeclOrExprV) -> bool
    decreases x,
{
    match x {
        VarDeclOrExprV::VarDecl(a) => tame_var_decl(a),
        VarDeclOrExprV::Expr(a) => tame_expr(*a),
    }
}

/// Whether a [`VarDeclOrPat`] is tame in all its parts.
#[verifier::opaque]
pub open spec fn tame_var_decl_or_pat(x: VarDeclOrPatV) -> bool
    decreases x,
{
    match x {
        VarDeclOrPatV::VarDecl(a) => tame_var_decl(a),
        VarDeclOrPatV::Pat(a) => tame_pat(a),
    }
}

/// Whether a [`SwitchCase`] is tame in all its parts.
#[verifier::opaque]
pub open spec fn tame_switch_case(x: SwitchCaseV) -> bool
    decreases x,
{
    (match x.test {
        Some(x) => tame_expr(*x),
        None => true,
    })
    && tame_stmts(x.cons)
}

/// Whether a [`CatchClause`] is tame in all its parts.
#[verifier::opaque]
pub open spec fn tame_catch_clause(x: CatchClauseV) -> bool
    decreases x,
{
    (match x.param {
        Some(x) => tame_pat(x),
        None => true,
    })
    && tame_stmts(x.body)
}

/// Whether a [`Stmt`] is tame in all its parts.
#[verifier::opaque]
pub open spec fn tame_stmt(x: StmtV) -> bool
    decreases x,
{
    is_tame_stmt_here(x) && match x {
        StmtV::Block(a) => tame_stmts(a),
        StmtV::Empty => true,
        StmtV::Debugger => true,
        StmtV::With { obj, body } => tame_expr(*obj) && tame_stmt(*body),
        StmtV::Return(a) => (match a {
            Some(x) => tame_expr(*x),
            None => true,
        }),
        StmtV::Labeled { body, .. } => tame_stmt(*body),
        StmtV::Break(_) => true,
        StmtV::Continue(_) => true,
        StmtV::If { test, cons, alt } => tame_expr(*test) && tame_stmt(*cons) && (match alt {
            Some(x) => tame_stmt(*x),
            None => true,
        }),
        StmtV::Switch { discriminant, cases } =>
            tame_expr(*discriminant) && tame_switch_cases(cases),
        StmtV::Throw(a) => tame_expr(*a),
        StmtV::Try { block, handler, finalizer } => tame_stmts(block) && (match handler {
            Some(x) => tame_catch_clause(x),
            None => true,
        }) && (match finalizer {
            Some(x) => tame_stmts(x),
            None => true,
        }),
        StmtV::While { test, body } => tame_expr(*test) && tame_stmt(*body),
        StmtV::DoWhile { test, body } => tame_expr(*test) && tame_stmt(*body),
        StmtV::For { init, test, update, body } => (match init {
            Some(x) => tame_var_decl_or_expr(x),
            None => true,
        }) && (match test {
            Some(x) => tame_expr(*x),
            None => true,
        }) && (match update {
            Some(x) => tame_expr(*x),
            None => true,
        }) && tame_stmt(*body),
        StmtV::ForIn { left, right, body } =>
            tame_var_decl_or_pat(left) && tame_expr(*right) && tame_stmt(*body),
        StmtV::ForOf { left, right, body, .. } =>
            tame_var_decl_or_pat(left) && tame_expr(*right) && tame_stmt(*body),
        StmtV::Decl(a) => tame_decl(a),
        StmtV::Expr(a) => tame_expr(*a),
    }
}

/// Whether the parts of a [`Stmt`] are tame.
pub open spec fn tame_parts_of_stmt(x: StmtV) -> bool {
    match x {
        StmtV::Block(a) => tame_stmts(a),
        StmtV::Empty => true,
        StmtV::Debugger => true,
        StmtV::With { obj, body } => tame_expr(*obj) && tame_stmt(*body),
        StmtV::Return(a) => (match a {
            Some(x) => tame_expr(*x),
            None => true,
        }),
        StmtV::Labeled { body, .. } => tame_stmt(*body),
        StmtV::Break(_) => true,
        StmtV::Continue(_) => true,
        StmtV::If { test, cons, alt } => tame_expr(*test) && tame_stmt(*cons) && (match alt {
            Some(x) => tame_stmt(*x),
            None => true,
        }),
        StmtV::Switch { discriminant, cases } =>
            tame_expr(*discriminant) && tame_switch_cases(cases),
        StmtV::Throw(a) => tame_expr(*a),
        StmtV::Try { block, handler, finalizer } => tame_stmts(block) && (match handler {
            Some(x) => tame_catch_clause(x),
            None => true,
        }) && (match finalizer {
            Some(x) => tame_stmts(x),
            None => true,
        }),
        StmtV::While { test, body } => tame_expr(*test) && tame_stmt(*body),
        StmtV::DoWhile { test, body } => tame_expr(*test) && tame_stmt(*body),
        StmtV::For { init, test, update, body } => (match init {
            Some(x) => tame_var_decl_or_expr(x),
            None => true,
        }) && (match test {
            Some(x) => tame_expr(*x),
            None => true,
        }) && (match update {
            Some(x) => tame_expr(*x),
            None => true,
        }) && tame_stmt(*body),
        StmtV::ForIn { left, right, body } =>
            tame_var_decl_or_pat(left) && tame_expr(*right) && tame_stmt(*body),
        StmtV::ForOf { left, right, body, .. } =>
            tame_var_decl_or_pat(left) && tame_expr(*right) && tame_stmt(*body),
        StmtV::Decl(a) => tame_decl(a),
        StmtV::Expr(a) => tame_expr(*a),
    }
}

/// Whether a [`DefaultDecl`] is tame in all its parts.
#[verifier::opaque]
pub open spec fn tame_default_decl(x: DefaultDeclV) -> bool
    decreases x,
{
    match x {
        DefaultDeclV::Class { class, .. } => tame_class(class),
        DefaultDeclV::Fn { function, .. } => tame_function(function),
    }
}

/// Whether a [`ModuleDecl`] is tame in all its parts.
#[verifier::opaque]
pub open spec fn tame_module_decl(x: ModuleDeclV) -> bool
    decreases x,
{
    match x {
        ModuleDeclV::Import { .. } => true,
        ModuleDeclV::ExportDecl(a) => tame_decl(a),
        ModuleDeclV::ExportNamed { .. } => true,
        ModuleDeclV::ExportDefaultDecl(a) => tame_default_decl(a),
        ModuleDeclV::ExportDefaultExpr(a) => tame_expr(*a),
        ModuleDeclV::ExportAll { .. } => true,
    }
}

/// Whether a [`ModuleItem`] is tame in all its parts.
#[verifier::opaque]
pub open spec fn tame_module_item(x: ModuleItemV) -> bool
    decreases x,
{
    match x {
        ModuleItemV::ModuleDecl(a) => tame_module_decl(a),
        ModuleItemV::Stmt(a) => tame_stmt(a),
    }
}

/// Whether a [`Module`] is tame in all its parts.
#[verifier::opaque]
pub open spec fn tame_module(x: ModuleV) -> bool
    decreases x,
{
    tame_module_items(x.body)
}

/// Whether the items of a list are tame.
#[verifier::opaque]
pub open spec fn tame_class_members(s: Seq<ClassMemberV>) -> bool
    decreases s,
{
    (forall|i: int| 0 <= i < s.len() ==> tame_class_member((#[trigger] s[i])))
}

/// Whether the items of a list are tame.
#[verifier::opaque]
pub open spec fn tame_expr_or_spreads(s: Seq<ExprOrSpreadV>) -> bool
    decreases s,
{
    (forall|i: int| 0 <= i < s.len() ==> tame_expr_or_spread((#[trigger] s[i])))
}

/// Whether the items of a list are tame.
#[verifier::opaque]
pub open spec fn tame_exprs(s: Seq<ExprV>) -> bool
    decreases s,
{
    (forall|i: int| 0 <= i < s.len() ==> tame_expr((#[trigger] s[i])))
}

/// Whether the items of a list are tame.
#[verifier::opaque]
pub open spec fn tame_module_items(s: Seq<ModuleItemV>) -> bool
    decreases s,
{
    (forall|i: int| 0 <= i < s.len() ==> tame_module_item((#[trigger] s[i])))
}

/// Whether the items of a list are tame.
#[verifier::opaque]
pub open spec fn tame_object_pat_props(s: Seq<ObjectPatPropV>) -> bool
    decreases s,
{
    (forall|i: int| 0 <= i < s.len() ==> tame_object_pat_prop((#[trigger] s[i])))
}

/// Whether the items of a list are tame.
#[verifier::opaque]
pub open spec fn tame_opt_expr_or_spreads(s: Seq<Option<ExprOrSpreadV>>) -> bool
    decreases s,
{
    (forall|i: int| 0 <= i < s.len() ==> (match (#[trigger] s[i]) {
        Some(x) => tame_expr_or_spread(x),
        None => true,
    }))
}

/// Whether the items of a list are tame.
#[verifier::opaque]
pub open spec fn tame_opt_pats(s: Seq<Option<PatV>>) -> bool
    decreases s,
{
    (forall|i: int| 0 <= i < s.len() ==> (match (#[trigger] s[i]) {
        Some(x) => tame_pat(x),
        None => true,
    }))
}

/// Whether the items of a list are tame.
#[verifier::opaque]
pub open spec fn tame_pats(s: Seq<PatV>) -> bool
    decreases s,
{
    (forall|i: int| 0 <= i < s.len() ==> tame_pat((#[trigger] s[i])))
}

/// Whether the items of a list are tame.
#[verifier::opaque]
pub open spec fn tame_prop_or_spreads(s: Seq<PropOrSpreadV>) -> bool
    decreases s,
{
    (forall|i: int| 0 <= i < s.len() ==> tame_prop_or_spread((#[trigger] s[i])))
}

/// Whether the items of a list are tame.
#[verifier::opaque]
pub open spec fn tame_stmts(s: Seq<StmtV>) -> bool
    decreases s,
{
    (forall|i: int| 0 <= i < s.len() ==> tame_stmt((#[trigger] s[i])))
}

/// Whether the items of a list are tame.
#[verifier::opaque]
pub open spec fn tame_switch_cases(s: Seq<SwitchCaseV>) -> bool
    decreases s,
{
    (forall|i: int| 0 <= i < s.len() ==> tame_switch_case((#[trigger] s[i])))
}

/// Whether the items of a list are tame.
#[verifier::opaque]
pub open spec fn tame_var_declarators(s: Seq<VarDeclaratorV>) -> bool
    decreases s,
{
    (forall|i: int| 0 <= i < s.len() ==> tame_var_declarator((#[trigger] s[i])))
}

/// What [`tame_tpl`] is, one level down.
pub proof fn lemma_tame_tpl_is(x: TplV)
    ensures
        tame_tpl(x) == (tame_exprs(x.exprs)),
{
    reveal(tame_tpl);
    reveal(tame_exprs);
}

/// What [`tame_expr_or_spread`] is, one level down.
pub proof fn lemma_tame_expr_or_spread_is(x: ExprOrSpreadV)
    ensures
        tame_expr_or_spread(x) == (tame_expr(x.expr)),
{
    reveal(tame_expr_or_spread);
    reveal(tame_expr);
}

/// What [`tame_expr_or_super`] is, one level down.
pub proof fn lemma_tame_expr_or_super_is(x: ExprOrSuperV)
    ensures
        tame_expr_or_super(x) == (match x {
            ExprOrSuperV::Super => true,
            ExprOrSuperV::Expr(a) => tame_expr(*a),
        }),
{
    reveal(tame_expr_or_super);
    reveal(tame_expr);
}

/// What [`tame_member_prop`] is, one level down.
pub proof fn lemma_tame_member_prop_is(x: MemberPropV)
    ensures
        tame_member_prop(x) == (match x {
            MemberPropV::Ident(_) => true,
            MemberPropV::Computed(a) => tame_expr(*a),
        }),
{
    reveal(tame_member_prop);
    reveal(tame_expr);
}

/// What [`tame_pat_or_expr`] is, one level down.
pub proof fn lemma_tame_pat_or_expr_is(x: PatOrExprV)
    ensures
        tame_pat_or_expr(x) == (match x {
            PatOrExprV::Expr(a) => tame_expr(*a),
            PatOrExprV::Pat(a) => tame_pat(*a),
        }),
{
    reveal(tame_pat_or_expr);
    reveal(tame_expr);
    reveal(tame_pat);
}

/// What [`tame_prop_name`] is, one level down.
pub proof fn lemma_tame_prop_name_is(x: PropNameV)
    ensures
        tame_prop_name(x) == (match x {
            PropNameV::Ident(_) => true,
            PropNameV::Str(_) => true,
            PropNameV::Num(_) => true,
            PropNameV::Computed(a) => tame_expr(*a),
        }),
{
    reveal(tame_prop_name);
    reveal(tame_expr);
}

/// What [`tame_prop`] is, one level down.
pub proof fn lemma_tame_prop_is(x: PropV)
    ensures
        tame_prop(x) == (match x {
            PropV::Shorthand(_) => true,
            PropV::KeyValue { key, value } => tame_prop_name(key) && tame_expr(*value),
            PropV::Getter { key, body } => tame_prop_name(key) && (match body {
                Some(x) => tame_stmts(x),
                None => true,
            }),
            PropV::Setter { key, param, body } => tame_prop_name(key) && tame_pat(param) && (match body {
                Some(x) => tame_stmts(x),
                None => true,
            }),
            PropV::Method { key, function } => tame_prop_name(key) && tame_function(function),
        }),
{
    reveal(tame_prop);
    reveal(tame_prop_name);
    reveal(tame_expr);
    reveal(tame_stmts);
    reveal(tame_pat);
    reveal(tame_function);
}

/// What [`tame_prop_or_spread`] is, one level down.
pub proof fn lemma_tame_prop_or_spread_is(x: PropOrSpreadV)
    ensures
        tame_prop_or_spread(x) == (match x {
            PropOrSpreadV::Spread(a) => tame_expr(*a),
            PropOrSpreadV::Prop(a) => tame_prop(*a),
        }),
{
    reveal(tame_prop_or_spread);
    reveal(tame_expr);
    reveal(tame_prop);
}

/// What [`tame_function`] is, one level down.
pub proof fn lemma_tame_function_is(x: FunctionV)
    ensures
        tame_function(x) == (tame_pats(x.params)
        && (match x.body {
            Some(x) => tame_stmts(x),
            None => true,
        })),
{
    reveal(tame_function);
    reveal(tame_pats);
    reveal(tame_stmts);
}

/// What [`tame_class`] is, one level down.
pub proof fn lemma_tame_class_is(x: ClassV)
    ensures
        tame_class(x) == ((match x.super_class {
            Some(x) => tame_expr(*x),
            None => true,
        })
        && tame_class_members(x.body)),
{
    reveal(tame_class);
    reveal(tame_expr);
    reveal(tame_class_members);
}

/// What [`tame_class_member`] is, one level down.
pub proof fn lemma_tame_class_member_is(x: ClassMemberV)
    ensures
        tame_class_member(x) == (match x {
            ClassMemberV::Constructor { key, params, body } => tame_prop_name(key) && tame_pats(params) && (match body {
                Some(x) => tame_stmts(x),
                None => true,
            }),
            ClassMemberV::Method { key, function, .. } =>
                tame_prop_name(key) && tame_function(function),
            ClassMemberV::Prop { key, value, .. } => tame_expr(*key) && (match value {
                Some(x) => tame_expr(*x),
                None => true,
            }),
        }),
{
    reveal(tame_class_member);
    reveal(tame_prop_name);
    reveal(tame_pats);
    reveal(tame_stmts);
    reveal(tame_function);
    reveal(tame_expr);
}

/// What [`tame_block_stmt_or_expr`] is, one level down.
pub proof fn lemma_tame_block_stmt_or_expr_is(x: BlockStmtOrExprV)
    ensures
        tame_block_stmt_or_expr(x) == (match x {
            BlockStmtOrExprV::Block(a) => tame_stmts(a),
            BlockStmtOrExprV::Expr(a) => tame_expr(*a),
        }),
{
    reveal(tame_block_stmt_or_expr);
    reveal(tame_stmts);
    reveal(tame_expr);
}

/// What [`tame_expr`] is, one level down.
pub proof fn lemma_tame_expr_is(x: ExprV)
    ensures
        tame_expr(x) == (is_tame_here(x) && tame_parts_of_expr(x)),
{
    reveal(tame_expr);
    reveal(tame_opt_expr_or_spreads);
    reveal(tame_prop_or_spreads);
    reveal(tame_function);
    reveal(tame_pat_or_expr);
    reveal(tame_expr_or_super);
    reveal(tame_member_prop);
    reveal(tame_expr_or_spreads);
    reveal(tame_exprs);
    reveal(tame_tpl);
    reveal(tame_pats);
    reveal(tame_block_stmt_or_expr);
    reveal(tame_class);
}

/// What [`tame_pat`] is, one level down.
pub proof fn lemma_tame_pat_is(x: PatV)
    ensures
        tame_pat(x) == (match x {
            PatV::Ident(_) => true,
            PatV::Array(a) => tame_opt_pats(a),
            PatV::Rest(a) => tame_pat(*a),
            PatV::Object(a) => tame_object_pat_props(a),
            PatV::Assign { left, right } => tame_pat(*left) && tame_expr(*right),
            PatV::Expr(a) => tame_expr(*a),
        }),
{
    reveal(tame_pat);
    reveal(tame_opt_pats);
    reveal(tame_object_pat_props);
    reveal(tame_expr);
}

/// What [`tame_object_pat_prop`] is, one level down.
pub proof fn lemma_tame_object_pat_prop_is(x: ObjectPatPropV)
    ensures
        tame_object_pat_prop(x) == (match x {
            ObjectPatPropV::KeyValue { key, value } => tame_prop_name(key) && tame_pat(*value),
            ObjectPatPropV::Assign { value, .. } => (match value {
                Some(x) => tame_expr(*x),
                None => true,
            }),
            ObjectPatPropV::Rest(a) => tame_pat(*a),
        }),
{
    reveal(tame_object_pat_prop);
    reveal(tame_prop_name);
    reveal(tame_pat);
    reveal(tame_expr);
}

/// What [`tame_var_declarator`] is, one level down.
pub proof fn lemma_tame_var_declarator_is(x: VarDeclaratorV)
    ensures
        tame_var_declarator(x) == (tame_pat(x.name)
        && (match x.init {
            Some(x) => tame_expr(*x),
            None => true,
        })),
{
    reveal(tame_var_declarator);
    reveal(tame_pat);
    reveal(tame_expr);
}

/// What [`tame_var_decl`] is, one level down.
pub proof fn lemma_tame_var_decl_is(x: VarDeclV)
    ensures
        tame_var_decl(x) == (tame_var_declarators(x.decls)),
{
    reveal(tame_var_decl);
    reveal(tame_var_declarators);
}

/// What [`tame_decl`] is, one level down.
pub proof fn lemma_tame_decl_is(x: DeclV)
    ensures
        tame_decl(x) == (match x {
            DeclV::Class { class, .. } => tame_class(class),
            DeclV::Fn { function, .. } => tame_function(function),
            DeclV::Var(a) => tame_var_decl(a),
        }),
{
    reveal(tame_decl);
    reveal(tame_class);
    reveal(tame_function);
    reveal(tame_var_decl);
}

/// What [`tame_var_decl_or_expr`] is, one level down.
pub proof fn lemma_tame_var_decl_or_expr_is(x: VarDeclOrExprV)
    ensures
        tame_var_decl_or_expr(x) == (match x {
            VarDeclOrExprV::VarDecl(a) => tame_var_decl(a),
            VarDeclOrExprV::Expr(a) => tame_expr(*a),
        }),
{
    reveal(tame_var_decl_or_expr);
    reveal(tame_var_decl);
    reveal(tame_expr);
}

/// What [`tame_var_decl_or_pat`] is, one level down.
pub proof fn lemma_tame_var_decl_or_pat_is(x: VarDeclOrPatV)
    ensures
        tame_var_decl_or_pat(x) == (match x {
            VarDeclOrPatV::VarDecl(a) => tame_var_decl(a),
            VarDeclOrPatV::Pat(a) => tame_pat(a),
        }),
{
    reveal(tame_var_decl_or_pat);
    reveal(tame_var_decl);
    reveal(tame_pat);
}

/// What [`tame_switch_case`] is, one level down.
pub proof fn lemma_tame_switch_case_is(x: SwitchCaseV)
    ensures
        tame_switch_case(x) == ((match x.test {
            Some(x) => tame_expr(*x),
            None => true,
        })
        && tame_stmts(x.cons)),
{
    reveal(tame_switch_case);
    reveal(tame_expr);
    reveal(tame_stmts);
}

/// What [`tame_catch_clause`] is, one level down.
pub proof fn lemma_tame_catch_clause_is(x: CatchClauseV)
    ensures
        tame_catch_clause(x) == ((match x.param {
            Some(x) => tame_pat(x),
            None => true,
        })
        && tame_stmts(x.body)),
{
    reveal(tame_catch_clause);
    reveal(tame_pat);
    reveal(tame_stmts);
}

/// What [`tame_stmt`] is, one level down.
pub proof fn lemma_tame_stmt_is(x: StmtV)
    ensures
        tame_stmt(x) == (is_tame_stmt_here(x) && tame_parts_of_stmt(x)),
{
    reveal(tame_stmt);
    reveal(tame_stmts);
    reveal(tame_expr);
    reveal(tame_switch_cases);
    reveal(tame_catch_clause);
    reveal(tame_var_decl_or_expr);
    reveal(tame_var_decl_or_pat);
    reveal(tame_decl);
}

/// What [`tame_default_decl`] is, one level down.
pub proof fn lemma_tame_default_decl_is(x: DefaultDeclV)
    ensures
        tame_default_decl(x) == (match x {
            DefaultDeclV::Class { class, .. } => tame_class(class),
            DefaultDeclV::Fn { function, .. } => tame_function(function),
        }),
{
    reveal(tame_default_decl);
    reveal(tame_class);
    reveal(tame_function);
}

/// What [`tame_module_decl`] is, one level down.
pub proof fn lemma_tame_module_decl_is(x: ModuleDeclV)
    ensures
        tame_module_decl(x) == (match x {
            ModuleDeclV::Import { .. } => true,
            ModuleDeclV::ExportDecl(a) => tame_decl(a),
            ModuleDeclV::ExportNamed { .. } => true,
            ModuleDeclV::ExportDefaultDecl(a) => tame_default_decl(a),
            ModuleDeclV::ExportDefaultExpr(a) => tame_expr(*a),
            ModuleDeclV::ExportAll { .. } => true,
        }),
{
    reveal(tame_module_decl);
    reveal(tame_decl);
    reveal(tame_default_decl);
    reveal(tame_expr);
}

/// What [`tame_module_item`] is, one level down.
pub proof fn lemma_tame_module_item_is(x: ModuleItemV)
    ensures
        tame_module_item(x) == (match x {
            ModuleItemV::ModuleDecl(a) => tame_module_decl(a),
            ModuleItemV::Stmt(a) => tame_stmt(a),
        }),
{
    reveal(tame_module_item);
    reveal(tame_module_decl);
    reveal(tame_stmt);
}

/// What [`tame_module`] is, one level down.
pub proof fn lemma_tame_module_is(x: ModuleV)
    ensures
        tame_module(x) == (tame_module_items(x.body)),
{
    reveal(tame_module);
    reveal(tame_module_items);
}

/// What [`tame_class_members`] is, one item down.
pub proof fn lemma_tame_class_members_is(s: Seq<ClassMemberV>)
    ensures
        tame_class_members(s)
            == ((forall|i: int| 0 <= i < s.len() ==> tame_class_member((#[trigger] s[i])))),
{
    reveal(tame_class_members);
    reveal(tame_class_member);
}

/// What [`tame_expr_or_spreads`] is, one item down.
pub proof fn lemma_tame_expr_or_spreads_is(s: Seq<ExprOrSpreadV>)
    ensures
        tame_expr_or_spreads(s)
            == ((forall|i: int| 0 <= i < s.len() ==> tame_expr_or_spread((#[trigger] s[i])))),
{
    reveal(tame_expr_or_spreads);
    reveal(tame_expr_or_spread);
}

/// What [`tame_exprs`] is, one item down.
pub proof fn lemma_tame_exprs_is(s: Seq<ExprV>)
    ensures
        tame_exprs(s) == ((forall|i: int| 0 <= i < s.len() ==> tame_expr((#[trigger] s[i])))),
{
    reveal(tame_exprs);
    reveal(tame_expr);
}

/// What [`tame_module_items`] is, one item down.
pub proof fn lemma_tame_module_items_is(s: Seq<ModuleItemV>)
    ensures
        tame_module_items(s)
            == ((forall|i: int| 0 <= i < s.len() ==> tame_module_item((#[trigger] s[i])))),
{
    reveal(tame_module_items);
    reveal(tame_module_item);
}

/// What [`tame_object_pat_props`] is, one item down.
pub proof fn lemma_tame_object_pat_props_is(s: Seq<ObjectPatPropV>)
    ensures
        tame_object_pat_props(s)
            == ((forall|i: int| 0 <= i < s.len() ==> tame_object_pat_prop((#[trigger] s[i])))),
{
    reveal(tame_object_pat_props);
    reveal(tame_object_pat_prop);
}

/// What [`tame_opt_expr_or_spreads`] is, one item down.
pub proof fn lemma_tame_opt_expr_or_spreads_is(s: Seq<Option<ExprOrSpreadV>>)
    ensures
        tame_opt_expr_or_spreads(s)
            == ((forall|i: int| 0 <= i < s.len() ==> (match (#[trigger] s[i]) {
            Some(x) => tame_expr_or_spread(x),
            None => true,
        }))),
{
    reveal(tame_opt_expr_or_spreads);
    reveal(tame_expr_or_spread);
}

/// What [`tame_opt_pats`] is, one item down.
pub proof fn lemma_tame_opt_pats_is(s: Seq<Option<PatV>>)
    ensures
        tame_opt_pats(s) == ((forall|i: int| 0 <= i < s.len() ==> (match (#[trigger] s[i]) {
            Some(x) => tame_pat(x),
            None => true,
        }))),
{
    reveal(tame_opt_pats);
    reveal(tame_pat);
}

/// What [`tame_pats`] is, one item down.
pub proof fn lemma_tame_pats_is(s: Seq<PatV>)
    ensures
        tame_pats(s) == ((forall|i: int| 0 <= i < s.len() ==> tame_pat((#[trigger] s[i])))),
{
    reveal(tame_pats);
    reveal(tame_pat);
}

/// What [`tame_prop_or_spreads`] is, one item down.
pub proof fn lemma_tame_prop_or_spreads_is(s: Seq<PropOrSpreadV>)
    ensures
        tame_prop_or_spreads(s)
            == ((forall|i: int| 0 <= i < s.len() ==> tame_prop_or_spread((#[trigger] s[i])))),
{
    reveal(tame_prop_or_spreads);
    reveal(tame_prop_or_spread);
}

/// What [`tame_stmts`] is, one item down.
pub proof fn lemma_tame_stmts_is(s: Seq<StmtV>)
    ensures
        tame_stmts(s) == ((forall|i: int| 0 <= i < s.len() ==> tame_stmt((#[trigger] s[i])))),
{
    reveal(tame_stmts);
    reveal(tame_stmt);
}

/// What [`tame_switch_cases`] is, one item down.
pub proof fn lemma_tame_switch_cases_is(s: Seq<SwitchCaseV>)
    ensures
        tame_switch_cases(s)
            == ((forall|i: int| 0 <= i < s.len() ==> tame_switch_case((#[trigger] s[i])))),
{
    reveal(tame_switch_cases);
    reveal(tame_switch_case);
}

/// What [`tame_var_declarators`] is, one item down.
pub proof fn lemma_tame_var_declarators_is(s: Seq<VarDeclaratorV>)
    ensures
        tame_var_declarators(s)
            == ((forall|i: int| 0 <= i < s.len() ==> tame_var_declarator((#[trigger] s[i])))),
{
    reveal(tame_var_declarators);
    reveal(tame_var_declarator);
}

} // verus!
