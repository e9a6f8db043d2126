//! The trees that dead-code removal leaves as they are: those that none of
//! its rules applies to.

use vstd::prelude::*;
use crate::model::{
    BlockStmtOrExprV, CatchClauseV, ClassMemberV, ClassV, DeclV, DefaultDeclV, ExprOrSpreadV,
    ExprOrSuperV, ExprV, FunctionV, MemberPropV, ModuleDeclV, ModuleItemV, ModuleV, ObjectPatPropV,
    PatOrExprV, PatV, PropNameV, PropOrSpreadV, PropV, StmtV, SwitchCaseV, TplV, VarDeclOrExprV,
    VarDeclOrPatV, VarDeclV, VarDeclaratorV,
};
use crate::fold::{
    folded_block_stmt_or_expr, folded_catch_clause, folded_class, folded_class_member,
    folded_class_members, folded_decl, folded_default_decl, folded_each_module_items,
    folded_each_stmts, folded_expr, folded_expr_or_spread, folded_expr_or_spreads,
    folded_expr_or_super, folded_exprs, folded_function, folded_member_prop, folded_module,
    folded_module_decl, folded_module_item, folded_module_items, folded_object_pat_prop,
    folded_object_pat_props, folded_opt_expr_or_spreads, folded_opt_pats, folded_pat,
    folded_pat_or_expr, folded_pats, folded_prop, folded_prop_name, folded_prop_or_spread,
    folded_prop_or_spreads, folded_stmt, folded_stmts, folded_switch_case, folded_switch_cases,
    folded_tpl, folded_var_decl, folded_var_decl_or_expr, folded_var_decl_or_pat,
    folded_var_declarator, folded_var_declarators, lemma_folded_block_stmt_or_expr,
    lemma_folded_catch_clause, lemma_folded_class, lemma_folded_class_member,
    lemma_folded_class_members, lemma_folded_decl, lemma_folded_default_decl,
    lemma_folded_each_module_items, lemma_folded_each_stmts, lemma_folded_expr,
    lemma_folded_expr_or_spread, lemma_folded_expr_or_spreads, lemma_folded_expr_or_super,
    lemma_folded_exprs, lemma_folded_function, lemma_folded_member_prop, lemma_folded_module,
    lemma_folded_module_decl, lemma_folded_module_item, lemma_folded_module_items,
    lemma_folded_object_pat_prop, lemma_folded_object_pat_props, lemma_folded_opt_expr_or_spreads,
    lemma_folded_opt_pats, lemma_folded_pat, lemma_folded_pat_or_expr, lemma_folded_pats,
    lemma_folded_prop, lemma_folded_prop_name, lemma_folded_prop_or_spread,
    lemma_folded_prop_or_spreads, lemma_folded_stmt, lemma_folded_stmts, lemma_folded_switch_case,
    lemma_folded_switch_cases, lemma_folded_tpl, lemma_folded_var_decl,
    lemma_folded_var_decl_or_expr, lemma_folded_var_decl_or_pat, lemma_folded_var_declarator,
    lemma_folded_var_declarators,
};
use crate::simplify::{
    simplified_expr, simplified_items, simplified_list, simplified_object_pat_prop, simplified_pat,
    simplified_stmt,
};

verus! {

/// Whether no rule applies to a [`Tpl`] or to a part of it.
#[verifier::opaque]
pub open spec fn settled_tpl(x: TplV) -> bool
    decreases x,
{
    settled_exprs(x.exprs)
}

/// Whether no rule applies to a [`ExprOrSpread`] or to a part of it.
#[verifier::opaque]
pub open spec fn settled_expr_or_spread(x: ExprOrSpreadV) -> bool
    decreases x,
{
    settled_expr(x.expr)
}

/// Whether no rule applies to a [`ExprOrSuper`] or to a part of it.
#[verifier::opaque]
pub open spec fn settled_expr_or_super(x: ExprOrSuperV) -> bool
    decreases x,
{
    match x {
        ExprOrSuperV::Super => true,
        ExprOrSuperV::Expr(a) => settled_expr(*a),
    }
}

/// Whether no rule applies to a [`MemberProp`] or to a part of it.
#[verifier::opaque]
pub open spec fn settled_member_prop(x: MemberPropV) -> bool
    decreases x,
{
    match x {
        MemberPropV::Ident(_) => true,
        MemberPropV::Computed(a) => settled_expr(*a),
    }
}

/// Whether no rule applies to a [`PatOrExpr`] or to a part of it.
#[verifier::opaque]
pub open spec fn settled_pat_or_expr(x: PatOrExprV) -> bool
    decreases x,
{
    match x {
        PatOrExprV::Expr(a) => settled_expr(*a),
        PatOrExprV::Pat(a) => settled_pat(*a),
    }
}

/// Whether no rule applies to a [`PropName`] or to a part of it.
#[verifier::opaque]
pub open spec fn settled_prop_name(x: PropNameV) -> bool
    decreases x,
{
    match x {
        PropNameV::Ident(_) => true,
        PropNameV::Str(_) => true,
        PropNameV::Num(_) => true,
        PropNameV::Computed(a) => settled_expr(*a),
    }
}

/// Whether no rule applies to a [`Prop`] or to a part of it.
#[verifier::opaque]
pub open spec fn settled_prop(x: PropV) -> bool
    decreases x,
{
    match x {
        PropV::Shorthand(_) => true,
        PropV::KeyValue { key, value } => settled_prop_name(key) && settled_expr(*value),
        PropV::Getter { key, body } => settled_prop_name(key) && (match body {
            Some(x) => settled_stmts(x),
            None => true,
        }),
        PropV::Setter { key, param, body } => settled_prop_name(key) && settled_pat(param) && (match body {
            Some(x) => settled_stmts(x),
            None => true,
        }),
        PropV::Method { key, function } => settled_prop_name(key) && settled_function(function),
    }
}

/// Whether no rule applies to a [`PropOrSpread`] or to a part of it.
#[verifier::opaque]
pub open spec fn settled_prop_or_spread(x: PropOrSpreadV) -> bool
    decreases x,
{
    match x {
        PropOrSpreadV::Spread(a) => settled_expr(*a),
        PropOrSpreadV::Prop(a) => settled_prop(*a),
    }
}

/// Whether no rule applies to a [`Function`] or to a part of it.
#[verifier::opaque]
pub open spec fn settled_function(x: FunctionV) -> bool
    decreases x,
{
    settled_pats(x.params)
    && (match x.body {
        Some(x) => settled_stmts(x),
        None => true,
    })
}

/// Whether no rule applies to a [`Class`] or to a part of it.
#[verifier::opaque]
pub open spec fn settled_class(x: ClassV) -> bool
    decreases x,
{
    (match x.super_class {
        Some(x) => settled_expr(*x),
        None => true,
    })
    && settled_class_members(x.body)
}

/// Whether no rule applies to a [`ClassMember`] or to a part of it.
#[verifier::opaque]
pub open spec fn settled_class_member(x: ClassMemberV) -> bool
    decreases x,
{
    match x {
        ClassMemberV::Constructor { key, params, body } => settled_prop_name(key) && settled_pats(params) && (match body {
            Some(x) => settled_stmts(x),
            None => true,
        }),
        ClassMemberV::Method { key, function, .. } =>
            settled_prop_name(key) && settled_function(function),
        ClassMemberV::Prop { key, value, .. } => settled_expr(*key) && (match value {
            Some(x) => settled_expr(*x),
            None => true,
        }),
    }
}

/// Whether no rule applies to a [`BlockStmtOrExpr`] or to a part of it.
#[verifier::opaque]
pub open spec fn settled_block_stmt_or_expr(x: BlockStmtOrExprV) -> bool
    decreases x,
{
    match x {
        BlockStmtOrExprV::Block(a) => settled_stmts(a),
        BlockStmtOrExprV::Expr(a) => settled_expr(*a),
    }
}

/// Whether no rule applies to a [`Expr`] or to a part of it.
#[verifier::opaque]
pub open spec fn settled_expr(x: ExprV) -> bool
    decreases x,
{
    simplified_expr(x) == x && match x {
        ExprV::This => true,
        ExprV::Array(a) => settled_opt_expr_or_spreads(a),
        ExprV::Object(a) => settled_prop_or_spreads(a),
        ExprV::Fn { function, .. } => settled_function(*function),
        ExprV::Unary { arg, .. } => settled_expr(*arg),
        ExprV::Update { arg, .. } => settled_expr(*arg),
        ExprV::Bin { left, right, .. } => settled_expr(*left) && settled_expr(*right),
        ExprV::Assign { left, right, .. } => settled_pat_or_expr(left) && settled_expr(*right),
        ExprV::Member { obj, prop } => settled_expr_or_super(obj) && settled_member_prop(prop),
        ExprV::Cond { test, cons, alt } =>
            settled_expr(*test) && settled_expr(*cons) && settled_expr(*alt),
        ExprV::Call { callee, args } =>
            settled_expr_or_super(callee) && settled_expr_or_spreads(args),
        ExprV::New { callee, args } => settled_expr(*callee) && (match args {
            Some(x) => settled_expr_or_spreads(x),
            None => true,
        }),
        ExprV::Sequence { init, last } => settled_exprs(init) && settled_expr(*last),
        ExprV::Ident(_) => true,
        ExprV::Lit(_) => true,
        ExprV::Tpl(a) => settled_tpl(a),
        ExprV::TaggedTpl { tag, tpl } => settled_expr(*tag) && settled_tpl(tpl),
        ExprV::Arrow { params, body, .. } =>
            settled_pats(params) && settled_block_stmt_or_expr(body),
        ExprV::Class { class, .. } => settled_class(*class),
        ExprV::Yield { arg, .. } => (match arg {
            Some(x) => settled_expr(*x),
            None => true,
        }),
        ExprV::MetaProp { .. } => true,
        ExprV::Await(a) => settled_expr(*a),
        ExprV::Paren(a) => settled_expr(*a),
        ExprV::Ts { expr, .. } => settled_expr(*expr),
        ExprV::OptChain(a) => settled_expr(*a),
        ExprV::PrivateName(_) => true,
    }
}

/// Whether no rule applies to a part of a [`Expr`].
pub open spec fn settled_parts_of_expr(x: ExprV) -> bool {
    match x {
        ExprV::This => true,
        ExprV::Array(a) => settled_opt_expr_or_spreads(a),
        ExprV::Object(a) => settled_prop_or_spreads(a),
        ExprV::Fn { function, .. } => settled_function(*function),
        ExprV::Unary { arg, .. } => settled_expr(*arg),
        ExprV::Update { arg, .. } => settled_expr(*arg),
        ExprV::Bin { left, right, .. } => settled_expr(*left) && settled_expr(*right),
        ExprV::Assign { left, right, .. } => settled_pat_or_expr(left) && settled_expr(*right),
        ExprV::Member { obj, prop } => settled_expr_or_super(obj) && settled_member_prop(prop),
        ExprV::Cond { test, cons, alt } =>
            settled_expr(*test) && settled_expr(*cons) && settled_expr(*alt),
        ExprV::Call { callee, args } =>
            settled_expr_or_super(callee) && settled_expr_or_spreads(args),
        ExprV::New { callee, args } => settled_expr(*callee) && (match args {
            Some(x) => settled_expr_or_spreads(x),
            None => true,
        }),
        ExprV::Sequence { init, last } => settled_exprs(init) && settled_expr(*last),
        ExprV::Ident(_) => true,
        ExprV::Lit(_) => true,
        ExprV::Tpl(a) => settled_tpl(a),
        ExprV::TaggedTpl { tag, tpl } => settled_expr(*tag) && settled_tpl(tpl),
        ExprV::Arrow { params, body, .. } =>
            settled_pats(params) && settled_block_stmt_or_expr(body),
        ExprV::Class { class, .. } => settled_class(*class),
        ExprV::Yield { arg, .. } => (match arg {
            Some(x) => settled_expr(*x),
            None => true,
        }),
        ExprV::MetaProp { .. } => true,
        ExprV::Await(a) => settled_expr(*a),
        ExprV::Paren(a) => settled_expr(*a),
        ExprV::Ts { expr, .. } => settled_expr(*expr),
        ExprV::OptChain(a) => settled_expr(*a),
        ExprV::PrivateName(_) => true,
    }
}

/// Whether no rule applies to a [`Pat`] or to a part of it.
#[verifier::opaque]
pub open spec fn settled_pat(x: PatV) -> bool
    decreases x,
{
    simplified_pat(x) == x && match x {
        PatV::Ident(_) => true,
        PatV::Array(a) => settled_opt_pats(a),
        PatV::Rest(a) => settled_pat(*a),
        PatV::Object(a) => settled_object_pat_props(a),
        PatV::Assign { left, right } => settled_pat(*left) && settled_expr(*right),
        PatV::Expr(a) => settled_expr(*a),
    }
}

/// Whether no rule applies to a part of a [`Pat`].
pub open spec fn settled_parts_of_pat(x: PatV) -> bool {
    match x {
        PatV::Ident(_) => true,
        PatV::Array(a) => settled_opt_pats(a),
        PatV::Rest(a) => settled_pat(*a),
        PatV::Object(a) => settled_object_pat_props(a),
        PatV::Assign { left, right } => settled_pat(*left) && settled_expr(*right),
        PatV::Expr(a) => settled_expr(*a),
    }
}

/// Whether no rule applies to a [`ObjectPatProp`] or to a part of it.
#[verifier::opaque]
pub open spec fn settled_object_pat_prop(x: ObjectPatPropV) -> bool
    decreases x,
{
    simplified_object_pat_prop(x) == x && match x {
        ObjectPatPropV::KeyValue { key, value } => settled_prop_name(key) && settled_pat(*value),
        ObjectPatPropV::Assign { value, .. } => (match value {
            Some(x) => settled_expr(*x),
            None => true,
        }),
        ObjectPatPropV::Rest(a) => settled_pat(*a),
    }
}

/// Whether no rule applies to a part of a [`ObjectPatProp`].
pub open spec fn settled_parts_of_object_pat_prop(x: ObjectPatPropV) -> bool {
    match x {
        ObjectPatPropV::KeyValue { key, value } => settled_prop_name(key) && settled_pat(*value),
        ObjectPatPropV::Assign { value, .. } => (match value {
            Some(x) => settled_expr(*x),
            None => true,
        }),
        ObjectPatPropV::Rest(a) => settled_pat(*a),
    }
}

/// Whether no rule applies to a [`VarDeclarator`] or to a part of it.
#[verifier::opaque]
pub open spec fn settled_var_declarator(x: VarDeclaratorV) -> bool
    decreases x,
{
    settled_pat(x.name)
    && (match x.init {
        Some(x) => settled_expr(*x),
        None => true,
    })
}

/// Whether no rule applies to a [`VarDecl`] or to a part of it.
#[verifier::opaque]
pub open spec fn settled_var_decl(x: VarDeclV) -> bool
    decreases x,
{
    settled_var_declarators(x.decls)
}

/// Whether no rule applies to a [`Decl`] or to a part of it.
#[verifier::opaque]
pub open spec fn settled_decl(x: DeclV) -> bool
    decreases x,
{
    match x {
        DeclV::Class { class, .. } => settled_class(class),
        DeclV::Fn { function, .. } => settled_function(function),
        DeclV::Var(a) => settled_var_decl(a),
    }
}

/// Whether no rule applies to a [`VarDeclOrExpr`] or to a part of it.
#[verifier::opaque]
pub open spec fn settled_var_decl_or_expr(x: VarDeclOrExprV) -> bool
    decreases x,
{
    match x {
        VarDeclOrExprV::VarDecl(a) => settled_var_decl(a),
        VarDeclOrExprV::Expr(a) => settled_expr(*a),
    }
}

/// Whether no rule applies to a [`VarDeclOrPat`] or to a part of it.
#[verifier::opaque]
pub open spec fn settled_var_decl_or_pat(x: VarDeclOrPatV) -> bool
    decreases x,
{
    match x {
        VarDeclOrPatV::VarDecl(a) => settled_var_decl(a),
        VarDeclOrPatV::Pat(a) => settled_pat(a),
    }
}

/// Whether no rule applies to a [`SwitchCase`] or to a part of it.
#[verifier::opaque]
pub open spec fn settled_switch_case(x: SwitchCaseV) -> bool
    decreases x,
{
    (match x.test {
        Some(x) => settled_expr(*x),
        None => true,
    })
    && settled_stmts(x.cons)
}

/// Whether no rule applies to a [`CatchClause`] or to a part of it.
#[verifier::opaque]
pub open spec fn settled_catch_clause(x: CatchClauseV) -> bool
    decreases x,
{
    (match x.param {
        Some(x) => settled_pat(x),
        None => true,
    })
    && settled_stmts(x.body)
}

/// Whether no rule applies to a [`Stmt`] or to a part of it.
#[verifier::opaque]
pub open spec fn settled_stmt(x: StmtV) -> bool
    decreases x,
{
    simplified_stmt(x) == x && match x {
        StmtV::Block(a) => settled_stmts(a),
        StmtV::Empty => true,
        StmtV::Debugger => true,
        StmtV::With { obj, body } => settled_expr(*obj) && settled_stmt(*body),
        StmtV::Return(a) => (match a {
            Some(x) => settled_expr(*x),
            None => true,
        }),
        StmtV::Labeled { body, .. } => settled_stmt(*body),
        StmtV::Break(_) => true,
        StmtV::Continue(_) => true,
        StmtV::If { test, cons, alt } => settled_expr(*test) && settled_stmt(*cons) && (match alt {
            Some(x) => settled_stmt(*x),
            None => true,
        }),
        StmtV::Switch { discriminant, cases } =>
            settled_expr(*discriminant) && settled_switch_cases(cases),
        StmtV::Throw(a) => settled_expr(*a),
        StmtV::Try { block, handler, finalizer } => settled_stmts(block) && (match handler {
            Some(x) => settled_catch_clause(x),
            None => true,
        }) && (match finalizer {
            Some(x) => settled_stmts(x),
            None => true,
        }),
        StmtV::While { test, body } => settled_expr(*test) && settled_stmt(*body),
        StmtV::DoWhile { test, body } => settled_expr(*test) && settled_stmt(*body),
        StmtV::For { init, test, update, body } => (match init {
            Some(x) => settled_var_decl_or_expr(x),
            None => true,
        }) && (match test {
            Some(x) => settled_expr(*x),
            None => true,
        }) && (match update {
            Some(x) => settled_expr(*x),
            None => true,
        }) && settled_stmt(*body),
        StmtV::ForIn { left, right, body } =>
            settled_var_decl_or_pat(left) && settled_expr(*right) && settled_stmt(*body),
        StmtV::ForOf { left, right, body, .. } =>
            settled_var_decl_or_pat(left) && settled_expr(*right) && settled_stmt(*body),
        StmtV::Decl(a) => settled_decl(a),
        StmtV::Expr(a) => settled_expr(*a),
    }
}

/// Whether no rule applies to a part of a [`Stmt`].
pub open spec fn settled_parts_of_stmt(x: StmtV) -> bool {
    match x {
        StmtV::Block(a) => settled_stmts(a),
        StmtV::Empty => true,
        StmtV::Debugger => true,
        StmtV::With { obj, body } => settled_expr(*obj) && settled_stmt(*body),
        StmtV::Return(a) => (match a {
            Some(x) => settled_expr(*x),
            None => true,
        }),
        StmtV::Labeled { body, .. } => settled_stmt(*body),
        StmtV::Break(_) => true,
        StmtV::Continue(_) => true,
        StmtV::If { test, cons, alt } => settled_expr(*test) && settled_stmt(*cons) && (match alt {
            Some(x) => settled_stmt(*x),
            None => true,
        }),
        StmtV::Switch { discriminant, cases } =>
            settled_expr(*discriminant) && settled_switch_cases(cases),
        StmtV::Throw(a) => settled_expr(*a),
        StmtV::Try { block, handler, finalizer } => settled_stmts(block) && (match handler {
            Some(x) => settled_catch_clause(x),
            None => true,
        }) && (match finalizer {
            Some(x) => settled_stmts(x),
            None => true,
        }),
        StmtV::While { test, body } => settled_expr(*test) && settled_stmt(*body),
        StmtV::DoWhile { test, body } => settled_expr(*test) && settled_stmt(*body),
        StmtV::For { init, test, update, body } => (match init {
            Some(x) => settled_var_decl_or_expr(x),
            None => true,
        }) && (match test {
            Some(x) => settled_expr(*x),
            None => true,
        }) && (match update {
            Some(x) => settled_expr(*x),
            None => true,
        }) && settled_stmt(*body),
        StmtV::ForIn { left, right, body } =>
            settled_var_decl_or_pat(left) && settled_expr(*right) && settled_stmt(*body),
        StmtV::ForOf { left, right, body, .. } =>
            settled_var_decl_or_pat(left) && settled_expr(*right) && settled_stmt(*body),
        StmtV::Decl(a) => settled_decl(a),
        StmtV::Expr(a) => settled_expr(*a),
    }
}

/// Whether no rule applies to a [`DefaultDecl`] or to a part of it.
#[verifier::opaque]
pub open spec fn settled_default_decl(x: DefaultDeclV) -> bool
    decreases x,
{
    match x {
        DefaultDeclV::Class { class, .. } => settled_class(class),
        DefaultDeclV::Fn { function, .. } => settled_function(function),
    }
}

/// Whether no rule applies to a [`ModuleDecl`] or to a part of it.
#[verifier::opaque]
pub open spec fn settled_module_decl(x: ModuleDeclV) -> bool
    decreases x,
{
    match x {
        ModuleDeclV::Import { .. } => true,
        ModuleDeclV::ExportDecl(a) => settled_decl(a),
        ModuleDeclV::ExportNamed { .. } => true,
        ModuleDeclV::ExportDefaultDecl(a) => settled_default_decl(a),
        ModuleDeclV::ExportDefaultExpr(a) => settled_expr(*a),
        ModuleDeclV::ExportAll { .. } => true,
    }
}

/// Whether no rule applies to a [`ModuleItem`] or to a part of it.
#[verifier::opaque]
pub open spec fn settled_module_item(x: ModuleItemV) -> bool
    decreases x,
{
    match x {
        ModuleItemV::ModuleDecl(a) => settled_module_decl(a),
        ModuleItemV::Stmt(a) => settled_stmt(a),
    }
}

/// Whether no rule applies to a [`Module`] or to a part of it.
#[verifier::opaque]
pub open spec fn settled_module(x: ModuleV) -> bool
    decreases x,
{
    settled_module_items(x.body)
}

/// Whether no rule applies to a list or to an item of it.
#[verifier::opaque]
pub open spec fn settled_class_members(s: Seq<ClassMemberV>) -> bool
    decreases s,
{
    (forall|i: int| 0 <= i < s.len() ==> settled_class_member((#[trigger] s[i])))
}

/// Whether no rule applies to a list or to an item of it.
#[verifier::opaque]
pub open spec fn settled_expr_or_spreads(s: Seq<ExprOrSpreadV>) -> bool
    decreases s,
{
    (forall|i: int| 0 <= i < s.len() ==> settled_expr_or_spread((#[trigger] s[i])))
}

/// Whether no rule applies to a list or to an item of it.
#[verifier::opaque]
pub open spec fn settled_exprs(s: Seq<ExprV>) -> bool
    decreases s,
{
    (forall|i: int| 0 <= i < s.len() ==> settled_expr((#[trigger] s[i])))
}

/// Whether no rule applies to a list or to an item of it.
#[verifier::opaque]
pub open spec fn settled_module_items(s: Seq<ModuleItemV>) -> bool
    decreases s,
{
    (forall|i: int| 0 <= i < s.len() ==> settled_module_item((#[trigger] s[i]))) && simplified_items(s)
        == s
}

/// Whether no rule applies to a list or to an item of it.
#[verifier::opaque]
pub open spec fn settled_object_pat_props(s: Seq<ObjectPatPropV>) -> bool
    decreases s,
{
    (forall|i: int| 0 <= i < s.len() ==> settled_object_pat_prop((#[trigger] s[i])))
}

/// Whether no rule applies to a list or to an item of it.
#[verifier::opaque]
pub open spec fn settled_opt_expr_or_spreads(s: Seq<Option<ExprOrSpreadV>>) -> bool
    decreases s,
{
    (forall|i: int| 0 <= i < s.len() ==> (match (#[trigger] s[i]) {
        Some(x) => settled_expr_or_spread(x),
        None => true,
    }))
}

/// Whether no rule applies to a list or to an item of it.
#[verifier::opaque]
pub open spec fn settled_opt_pats(s: Seq<Option<PatV>>) -> bool
    decreases s,
{
    (forall|i: int| 0 <= i < s.len() ==> (match (#[trigger] s[i]) {
        Some(x) => settled_pat(x),
        None => true,
    }))
}

/// Whether no rule applies to a list or to an item of it.
#[verifier::opaque]
pub open spec fn settled_pats(s: Seq<PatV>) -> bool
    decreases s,
{
    (forall|i: int| 0 <= i < s.len() ==> settled_pat((#[trigger] s[i])))
}

/// Whether no rule applies to a list or to an item of it.
#[verifier::opaque]
pub open spec fn settled_prop_or_spreads(s: Seq<PropOrSpreadV>) -> bool
    decreases s,
{
    (forall|i: int| 0 <= i < s.len() ==> settled_prop_or_spread((#[trigger] s[i])))
}

/// Whether no rule applies to a list or to an item of it.
#[verifier::opaque]
pub open spec fn settled_stmts(s: Seq<StmtV>) -> bool
    decreases s,
{
    (forall|i: int| 0 <= i < s.len() ==> settled_stmt((#[trigger] s[i]))) && simplified_list(s) == s
}

/// Whether no rule applies to a list or to an item of it.
#[verifier::opaque]
pub open spec fn settled_switch_cases(s: Seq<SwitchCaseV>) -> bool
    decreases s,
{
    (forall|i: int| 0 <= i < s.len() ==> settled_switch_case((#[trigger] s[i])))
}

/// Whether no rule applies to a list or to an item of it.
#[verifier::opaque]
pub open spec fn settled_var_declarators(s: Seq<VarDeclaratorV>) -> bool
    decreases s,
{
    (forall|i: int| 0 <= i < s.len() ==> settled_var_declarator((#[trigger] s[i])))
}

/// What [`settled_tpl`] is, one level down.
pub proof fn lemma_settled_tpl_is(x: TplV)
    ensures
        settled_tpl(x) == (settled_exprs(x.exprs)),
{
    reveal(settled_tpl);
    reveal(settled_exprs);
}

/// The rules leave a [`Tpl`] as it is where none of them applies to it.
pub proof fn lemma_settled_tpl(x: TplV)
    requires
        settled_tpl(x),
    ensures
        folded_tpl(x) == x,
    decreases x,
{
    reveal(settled_tpl);
    reveal(settled_exprs);
    lemma_folded_tpl(x);
    lemma_settled_exprs(x.exprs);
}

/// What [`settled_expr_or_spread`] is, one level down.
pub proof fn lemma_settled_expr_or_spread_is(x: ExprOrSpreadV)
    ensures
        settled_expr_or_spread(x) == (settled_expr(x.expr)),
{
    reveal(settled_expr_or_spread);
    reveal(settled_expr);
}

/// The rules leave a [`ExprOrSpread`] as it is where none of them applies to it.
pub proof fn lemma_settled_expr_or_spread(x: ExprOrSpreadV)
    requires
        settled_expr_or_spread(x),
    ensures
        folded_expr_or_spread(x) == x,
    decreases x,
{
    reveal(settled_expr_or_spread);
    reveal(settled_expr);
    lemma_folded_expr_or_spread(x);
    lemma_settled_expr(x.expr);
}

/// What [`settled_expr_or_super`] is, one level down.
pub proof fn lemma_settled_expr_or_super_is(x: ExprOrSuperV)
    ensures
        settled_expr_or_super(x) == (match x {
            ExprOrSuperV::Super => true,
            ExprOrSuperV::Expr(a) => settled_expr(*a),
        }),
{
    reveal(settled_expr_or_super);
    reveal(settled_expr);
}

/// The rules leave a [`ExprOrSuper`] as it is where none of them applies to it.
pub proof fn lemma_settled_expr_or_super(x: ExprOrSuperV)
    requires
        settled_expr_or_super(x),
    ensures
        folded_expr_or_super(x) == x,
    decreases x,
{
    reveal(settled_expr_or_super);
    reveal(settled_expr);
    lemma_folded_expr_or_super(x);
    match x {
        ExprOrSuperV::Super => {},
        ExprOrSuperV::Expr(a) => {
            lemma_settled_expr(*a);
        },
    }
}

/// What [`settled_member_prop`] is, one level down.
pub proof fn lemma_settled_member_prop_is(x: MemberPropV)
    ensures
        settled_member_prop(x) == (match x {
            MemberPropV::Ident(_) => true,
            MemberPropV::Computed(a) => settled_expr(*a),
        }),
{
    reveal(settled_member_prop);
    reveal(settled_expr);
}

/// The rules leave a [`MemberProp`] as it is where none of them applies to it.
pub proof fn lemma_settled_member_prop(x: MemberPropV)
    requires
        settled_member_prop(x),
    ensures
        folded_member_prop(x) == x,
    decreases x,
{
    reveal(settled_member_prop);
    reveal(settled_expr);
    lemma_folded_member_prop(x);
    match x {
        MemberPropV::Ident(_) => {},
        MemberPropV::Computed(a) => {
            lemma_settled_expr(*a);
        },
    }
}

/// What [`settled_pat_or_expr`] is, one level down.
pub proof fn lemma_settled_pat_or_expr_is(x: PatOrExprV)
    ensures
        settled_pat_or_expr(x) == (match x {
            PatOrExprV::Expr(a) => settled_expr(*a),
            PatOrExprV::Pat(a) => settled_pat(*a),
        }),
{
    reveal(settled_pat_or_expr);
    reveal(settled_expr);
    reveal(settled_pat);
}

/// The rules leave a [`PatOrExpr`] as it is where none of them applies to it.
pub proof fn lemma_settled_pat_or_expr(x: PatOrExprV)
    requires
        settled_pat_or_expr(x),
    ensures
        folded_pat_or_expr(x) == x,
    decreases x,
{
    reveal(settled_pat_or_expr);
    reveal(settled_expr);
    reveal(settled_pat);
    lemma_folded_pat_or_expr(x);
    match x {
        PatOrExprV::Expr(a) => {
            lemma_settled_expr(*a);
        },
        PatOrExprV::Pat(a) => {
            lemma_settled_pat(*a);
        },
    }
}

/// What [`settled_prop_name`] is, one level down.
pub proof fn lemma_settled_prop_name_is(x: PropNameV)
    ensures
        settled_prop_name(x) == (match x {
            PropNameV::Ident(_) => true,
            PropNameV::Str(_) => true,
            PropNameV::Num(_) => true,
            PropNameV::Computed(a) => settled_expr(*a),
        }),
{
    reveal(settled_prop_name);
    reveal(settled_expr);
}

/// The rules leave a [`PropName`] as it is where none of them applies to it.
pub proof fn lemma_settled_prop_name(x: PropNameV)
    requires
        settled_prop_name(x),
    ensures
        folded_prop_name(x) == x,
    decreases x,
{
    reveal(settled_prop_name);
    reveal(settled_expr);
    lemma_folded_prop_name(x);
    match x {
        PropNameV::Ident(_) => {},
        PropNameV::Str(_) => {},
        PropNameV::Num(_) => {},
        PropNameV::Computed(a) => {
            lemma_settled_expr(*a);
        },
    }
}

/// What [`settled_prop`] is, one level down.
pub proof fn lemma_settled_prop_is(x: PropV)
    ensures
        settled_prop(x) == (match x {
            PropV::Shorthand(_) => true,
            PropV::KeyValue { key, value } => settled_prop_name(key) && settled_expr(*value),
            PropV::Getter { key, body } => settled_prop_name(key) && (match body {
                Some(x) => settled_stmts(x),
                None => true,
            }),
            PropV::Setter { key, param, body } => settled_prop_name(key) && settled_pat(param) && (match body {
                Some(x) => settled_stmts(x),
                None => true,
            }),
            PropV::Method { key, function } => settled_prop_name(key) && settled_function(function),
        }),
{
    reveal(settled_prop);
    reveal(settled_prop_name);
    reveal(settled_expr);
    reveal(settled_stmts);
    reveal(settled_pat);
    reveal(settled_function);
}

/// The rules leave a [`Prop`] as it is where none of them applies to it.
pub proof fn lemma_settled_prop(x: PropV)
    requires
        settled_prop(x),
    ensures
        folded_prop(x) == x,
    decreases x,
{
    reveal(settled_prop);
    reveal(settled_prop_name);
    reveal(settled_expr);
    reveal(settled_stmts);
    reveal(settled_pat);
    reveal(settled_function);
    lemma_folded_prop(x);
    match x {
        PropV::Shorthand(_) => {},
        PropV::KeyValue { key, value } => {
            lemma_settled_prop_name(key);
            lemma_settled_expr(*value);
        },
        PropV::Getter { key, body } => {
            lemma_settled_prop_name(key);
            match body {
                Some(x) => {
                    lemma_settled_stmts(x);
                },
                None => {},
            }
        },
        PropV::Setter { key, param, body } => {
            lemma_settled_prop_name(key);
            lemma_settled_pat(param);
            match body {
                Some(x) => {
                    lemma_settled_stmts(x);
                },
                None => {},
            }
        },
        PropV::Method { key, function } => {
            lemma_settled_prop_name(key);
            lemma_settled_function(function);
        },
    }
}

/// What [`settled_prop_or_spread`] is, one level down.
pub proof fn lemma_settled_prop_or_spread_is(x: PropOrSpreadV)
    ensures
        settled_prop_or_spread(x) == (match x {
            PropOrSpreadV::Spread(a) => settled_expr(*a),
            PropOrSpreadV::Prop(a) => settled_prop(*a),
        }),
{
    reveal(settled_prop_or_spread);
    reveal(settled_expr);
    reveal(settled_prop);
}

/// The rules leave a [`PropOrSpread`] as it is where none of them applies to it.
pub proof fn lemma_settled_prop_or_spread(x: PropOrSpreadV)
    requires
        settled_prop_or_spread(x),
    ensures
        folded_prop_or_spread(x) == x,
    decreases x,
{
    reveal(settled_prop_or_spread);
    reveal(settled_expr);
    reveal(settled_prop);
    lemma_folded_prop_or_spread(x);
    match x {
        PropOrSpreadV::Spread(a) => {
            lemma_settled_expr(*a);
        },
        PropOrSpreadV::Prop(a) => {
            lemma_settled_prop(*a);
        },
    }
}

/// What [`settled_function`] is, one level down.
pub proof fn lemma_settled_function_is(x: FunctionV)
    ensures
        settled_function(x) == (settled_pats(x.params)
        && (match x.body {
            Some(x) => settled_stmts(x),
            None => true,
        })),
{
    reveal(settled_function);
    reveal(settled_pats);
    reveal(settled_stmts);
}

/// The rules leave a [`Function`] as it is where none of them applies to it.
pub proof fn lemma_settled_function(x: FunctionV)
    requires
        settled_function(x),
    ensures
        folded_function(x) == x,
    decreases x,
{
    reveal(settled_function);
    reveal(settled_pats);
    reveal(settled_stmts);
    lemma_folded_function(x);
    lemma_settled_pats(x.params);
    match x.body {
        Some(x) => {
            lemma_settled_stmts(x);
        },
        None => {},
    }
}

/// What [`settled_class`] is, one level down.
pub proof fn lemma_settled_class_is(x: ClassV)
    ensures
        settled_class(x) == ((match x.super_class {
            Some(x) => settled_expr(*x),
            None => true,
        })
        && settled_class_members(x.body)),
{
    reveal(settled_class);
    reveal(settled_expr);
    reveal(settled_class_members);
}

/// The rules leave a [`Class`] as it is where none of them applies to it.
pub proof fn lemma_settled_class(x: ClassV)
    requires
        settled_class(x),
    ensures
        folded_class(x) == x,
    decreases x,
{
    reveal(settled_class);
    reveal(settled_expr);
    reveal(settled_class_members);
    lemma_folded_class(x);
    match x.super_class {
        Some(x) => {
            lemma_settled_expr(*x);
        },
        None => {},
    }
    lemma_settled_class_members(x.body);
}

/// What [`settled_class_member`] is, one level down.
pub proof fn lemma_settled_class_member_is(x: ClassMemberV)
    ensures
        settled_class_member(x) == (match x {
            ClassMemberV::Constructor { key, params, body } => settled_prop_name(key) && settled_pats(params) && (match body {
                Some(x) => settled_stmts(x),
                None => true,
            }),
            ClassMemberV::Method { key, function, .. } =>
                settled_prop_name(key) && settled_function(function),
            ClassMemberV::Prop { key, value, .. } => settled_expr(*key) && (match value {
                Some(x) => settled_expr(*x),
                None => true,
            }),
        }),
{
    reveal(settled_class_member);
    reveal(settled_prop_name);
    reveal(settled_pats);
    reveal(settled_stmts);
    reveal(settled_function);
    reveal(settled_expr);
}

/// The rules leave a [`ClassMember`] as it is where none of them applies to it.
pub proof fn lemma_settled_class_member(x: ClassMemberV)
    requires
        settled_class_member(x),
    ensures
        folded_class_member(x) == x,
    decreases x,
{
    reveal(settled_class_member);
    reveal(settled_prop_name);
    reveal(settled_pats);
    reveal(settled_stmts);
    reveal(settled_function);
    reveal(settled_expr);
    lemma_folded_class_member(x);
    match x {
        ClassMemberV::Constructor { key, params, body } => {
            lemma_settled_prop_name(key);
            lemma_settled_pats(params);
            match body {
                Some(x) => {
                    lemma_settled_stmts(x);
                },
                None => {},
            }
        },
        ClassMemberV::Method { key, function, .. } => {
            lemma_settled_prop_name(key);
            lemma_settled_function(function);
        },
        ClassMemberV::Prop { key, value, .. } => {
            lemma_settled_expr(*key);
            match value {
                Some(x) => {
                    lemma_settled_expr(*x);
                },
                None => {},
            }
        },
    }
}

/// What [`settled_block_stmt_or_expr`] is, one level down.
pub proof fn lemma_settled_block_stmt_or_expr_is(x: BlockStmtOrExprV)
    ensures
        settled_block_stmt_or_expr(x) == (match x {
            BlockStmtOrExprV::Block(a) => settled_stmts(a),
            BlockStmtOrExprV::Expr(a) => settled_expr(*a),
        }),
{
    reveal(settled_block_stmt_or_expr);
    reveal(settled_stmts);
    reveal(settled_expr);
}

/// The rules leave a [`BlockStmtOrExpr`] as it is where none of them applies to it.
pub proof fn lemma_settled_block_stmt_or_expr(x: BlockStmtOrExprV)
    requires
        settled_block_stmt_or_expr(x),
    ensures
        folded_block_stmt_or_expr(x) == x,
    decreases x,
{
    reveal(settled_block_stmt_or_expr);
    reveal(settled_stmts);
    reveal(settled_expr);
    lemma_folded_block_stmt_or_expr(x);
    match x {
        BlockStmtOrExprV::Block(a) => {
            lemma_settled_stmts(a);
        },
        BlockStmtOrExprV::Expr(a) => {
            lemma_settled_expr(*a);
        },
    }
}

/// What [`settled_expr`] is, one level down.
pub proof fn lemma_settled_expr_is(x: ExprV)
    ensures
        settled_expr(x) == (simplified_expr(x) == x && settled_parts_of_expr(x)),
{
    reveal(settled_expr);
    reveal(settled_opt_expr_or_spreads);
    reveal(settled_prop_or_spreads);
    reveal(settled_function);
    reveal(settled_pat_or_expr);
    reveal(settled_expr_or_super);
    reveal(settled_member_prop);
    reveal(settled_expr_or_spreads);
    reveal(settled_exprs);
    reveal(settled_tpl);
    reveal(settled_pats);
    reveal(settled_block_stmt_or_expr);
    reveal(settled_class);
}

/// The rules leave a [`Expr`] as it is where none of them applies to it.
pub proof fn lemma_settled_expr(x: ExprV)
    requires
        settled_expr(x),
    ensures
        folded_expr(x) == x,
    decreases x,
{
    reveal(settled_expr);
    reveal(settled_opt_expr_or_spreads);
    reveal(settled_prop_or_spreads);
    reveal(settled_function);
    reveal(settled_pat_or_expr);
    reveal(settled_expr_or_super);
    reveal(settled_member_prop);
    reveal(settled_expr_or_spreads);
    reveal(settled_exprs);
    reveal(settled_tpl);
    reveal(settled_pats);
    reveal(settled_block_stmt_or_expr);
    reveal(settled_class);
    lemma_folded_expr(x);
    match x {
        ExprV::This => {},
        ExprV::Array(a) => {
            lemma_settled_opt_expr_or_spreads(a);
        },
        ExprV::Object(a) => {
            lemma_settled_prop_or_spreads(a);
        },
        ExprV::Fn { function, .. } => {
            lemma_settled_function(*function);
        },
        ExprV::Unary { arg, .. } => {
            lemma_settled_expr(*arg);
        },
        ExprV::Update { arg, .. } => {
            lemma_settled_expr(*arg);
        },
        ExprV::Bin { left, right, .. } => {
            lemma_settled_expr(*left);
            lemma_settled_expr(*right);
        },
        ExprV::Assign { left, right, .. } => {
            lemma_settled_pat_or_expr(left);
            lemma_settled_expr(*right);
        },
        ExprV::Member { obj, prop } => {
            lemma_settled_expr_or_super(obj);
            lemma_settled_member_prop(prop);
        },
        ExprV::Cond { test, cons, alt } => {
            lemma_settled_expr(*test);
            lemma_settled_expr(*cons);
            lemma_settled_expr(*alt);
        },
        ExprV::Call { callee, args } => {
            lemma_settled_expr_or_super(callee);
            lemma_settled_expr_or_spreads(args);
        },
        ExprV::New { callee, args } => {
            lemma_settled_expr(*callee);
            match args {
                Some(x) => {
                    lemma_settled_expr_or_spreads(x);
                },
                None => {},
            }
        },
        ExprV::Sequence { init, last } => {
            lemma_settled_exprs(init);
            lemma_settled_expr(*last);
        },
        ExprV::Ident(_) => {},
        ExprV::Lit(_) => {},
        ExprV::Tpl(a) => {
            lemma_settled_tpl(a);
        },
        ExprV::TaggedTpl { tag, tpl } => {
            lemma_settled_expr(*tag);
            lemma_settled_tpl(tpl);
        },
        ExprV::Arrow { params, body, .. } => {
            lemma_settled_pats(params);
            lemma_settled_block_stmt_or_expr(body);
        },
        ExprV::Class { class, .. } => {
            lemma_settled_class(*class);
        },
        ExprV::Yield { arg, .. } => {
            match arg {
                Some(x) => {
                    lemma_settled_expr(*x);
                },
                None => {},
            }
        },
        ExprV::MetaProp { .. } => {},
        ExprV::Await(a) => {
            lemma_settled_expr(*a);
        },
        ExprV::Paren(a) => {
            lemma_settled_expr(*a);
        },
        ExprV::Ts { expr, .. } => {
            lemma_settled_expr(*expr);
        },
        ExprV::OptChain(a) => {
            lemma_settled_expr(*a);
        },
        ExprV::PrivateName(_) => {},
    }
}

/// What [`settled_pat`] is, one level down.
pub proof fn lemma_settled_pat_is(x: PatV)
    ensures
        settled_pat(x) == (simplified_pat(x) == x && settled_parts_of_pat(x)),
{
    reveal(settled_pat);
    reveal(settled_opt_pats);
    reveal(settled_object_pat_props);
    reveal(settled_expr);
}

/// The rules leave a [`Pat`] as it is where none of them applies to it.
pub proof fn lemma_settled_pat(x: PatV)
    requires
        settled_pat(x),
    ensures
        folded_pat(x) == x,
    decreases x,
{
    reveal(settled_pat);
    reveal(settled_opt_pats);
    reveal(settled_object_pat_props);
    reveal(settled_expr);
    lemma_folded_pat(x);
    match x {
        PatV::Ident(_) => {},
        PatV::Array(a) => {
            lemma_settled_opt_pats(a);
        },
        PatV::Rest(a) => {
            lemma_settled_pat(*a);
        },
        PatV::Object(a) => {
            lemma_settled_object_pat_props(a);
        },
        PatV::Assign { left, right } => {
            lemma_settled_pat(*left);
            lemma_settled_expr(*right);
        },
        PatV::Expr(a) => {
            lemma_settled_expr(*a);
        },
    }
}

/// What [`settled_object_pat_prop`] is, one level down.
pub proof fn lemma_settled_object_pat_prop_is(x: ObjectPatPropV)
    ensures
        settled_object_pat_prop(x)
            == (simplified_object_pat_prop(x) == x && settled_parts_of_object_pat_prop(x)),
{
    reveal(settled_object_pat_prop);
    reveal(settled_prop_name);
    reveal(settled_pat);
    reveal(settled_expr);
}

/// The rules leave a [`ObjectPatProp`] as it is where none of them applies to it.
pub proof fn lemma_settled_object_pat_prop(x: ObjectPatPropV)
    requires
        settled_object_pat_prop(x),
    ensures
        folded_object_pat_prop(x) == x,
    decreases x,
{
    reveal(settled_object_pat_prop);
    reveal(settled_prop_name);
    reveal(settled_pat);
    reveal(settled_expr);
    lemma_folded_object_pat_prop(x);
    match x {
        ObjectPatPropV::KeyValue { key, value } => {
            lemma_settled_prop_name(key);
            lemma_settled_pat(*value);
        },
        ObjectPatPropV::Assign { value, .. } => {
            match value {
                Some(x) => {
                    lemma_settled_expr(*x);
                },
                None => {},
            }
        },
        ObjectPatPropV::Rest(a) => {
            lemma_settled_pat(*a);
        },
    }
}

/// What [`settled_var_declarator`] is, one level down.
pub proof fn lemma_settled_var_declarator_is(x: VarDeclaratorV)
    ensures
        settled_var_declarator(x) == (settled_pat(x.name)
        && (match x.init {
            Some(x) => settled_expr(*x),
            None => true,
        })),
{
    reveal(settled_var_declarator);
    reveal(settled_pat);
    reveal(settled_expr);
}

/// The rules leave a [`VarDeclarator`] as it is where none of them applies to it.
pub proof fn lemma_settled_var_declarator(x: VarDeclaratorV)
    requires
        settled_var_declarator(x),
    ensures
        folded_var_declarator(x) == x,
    decreases x,
{
    reveal(settled_var_declarator);
    reveal(settled_pat);
    reveal(settled_expr);
    lemma_folded_var_declarator(x);
    lemma_settled_pat(x.name);
    match x.init {
        Some(x) => {
            lemma_settled_expr(*x);
        },
        None => {},
    }
}

/// What [`settled_var_decl`] is, one level down.
pub proof fn lemma_settled_var_decl_is(x: VarDeclV)
    ensures
        settled_var_decl(x) == (settled_var_declarators(x.decls)),
{
    reveal(settled_var_decl);
    reveal(settled_var_declarators);
}

/// The rules leave a [`VarDecl`] as it is where none of them applies to it.
pub proof fn lemma_settled_var_decl(x: VarDeclV)
    requires
        settled_var_decl(x),
    ensures
        folded_var_decl(x) == x,
    decreases x,
{
    reveal(settled_var_decl);
    reveal(settled_var_declarators);
    lemma_folded_var_decl(x);
    lemma_settled_var_declarators(x.decls);
}

/// What [`settled_decl`] is, one level down.
pub proof fn lemma_settled_decl_is(x: DeclV)
    ensures
        settled_decl(x) == (match x {
            DeclV::Class { class, .. } => settled_class(class),
            DeclV::Fn { function, .. } => settled_function(function),
            DeclV::Var(a) => settled_var_decl(a),
        }),
{
    reveal(settled_decl);
    reveal(settled_class);
    reveal(settled_function);
    reveal(settled_var_decl);
}

/// The rules leave a [`Decl`] as it is where none of them applies to it.
pub proof fn lemma_settled_decl(x: DeclV)
    requires
        settled_decl(x),
    ensures
        folded_decl(x) == x,
    decreases x,
{
    reveal(settled_decl);
    reveal(settled_class);
    reveal(settled_function);
    reveal(settled_var_decl);
    lemma_folded_decl(x);
    match x {
        DeclV::Class { class, .. } => {
            lemma_settled_class(class);
        },
        DeclV::Fn { function, .. } => {
            lemma_settled_function(function);
        },
        DeclV::Var(a) => {
            lemma_settled_var_decl(a);
        },
    }
}

/// What [`settled_var_decl_or_expr`] is, one level down.
pub proof fn lemma_settled_var_decl_or_expr_is(x: VarDeclOrExprV)
    ensures
        settled_var_decl_or_expr(x) == (match x {
            VarDeclOrExprV::VarDecl(a) => settled_var_decl(a),
            VarDeclOrExprV::Expr(a) => settled_expr(*a),
        }),
{
    reveal(settled_var_decl_or_expr);
    reveal(settled_var_decl);
    reveal(settled_expr);
}

/// The rules leave a [`VarDeclOrExpr`] as it is where none of them applies to it.
pub proof fn lemma_settled_var_decl_or_expr(x: VarDeclOrExprV)
    requires
        settled_var_decl_or_expr(x),
    ensures
        folded_var_decl_or_expr(x) == x,
    decreases x,
{
    reveal(settled_var_decl_or_expr);
    reveal(settled_var_decl);
    reveal(settled_expr);
    lemma_folded_var_decl_or_expr(x);
    match x {
        VarDeclOrExprV::VarDecl(a) => {
            lemma_settled_var_decl(a);
        },
        VarDeclOrExprV::Expr(a) => {
            lemma_settled_expr(*a);
        },
    }
}

/// What [`settled_var_decl_or_pat`] is, one level down.
pub proof fn lemma_settled_var_decl_or_pat_is(x: VarDeclOrPatV)
    ensures
        settled_var_decl_or_pat(x) == (match x {
            VarDeclOrPatV::VarDecl(a) => settled_var_decl(a),
            VarDeclOrPatV::Pat(a) => settled_pat(a),
        }),
{
    reveal(settled_var_decl_or_pat);
    reveal(settled_var_decl);
    reveal(settled_pat);
}

/// The rules leave a [`VarDeclOrPat`] as it is where none of them applies to it.
pub proof fn lemma_settled_var_decl_or_pat(x: VarDeclOrPatV)
    requires
        settled_var_decl_or_pat(x),
    ensures
        folded_var_decl_or_pat(x) == x,
    decreases x,
{
    reveal(settled_var_decl_or_pat);
    reveal(settled_var_decl);
    reveal(settled_pat);
    lemma_folded_var_decl_or_pat(x);
    match x {
        VarDeclOrPatV::VarDecl(a) => {
            lemma_settled_var_decl(a);
        },
        VarDeclOrPatV::Pat(a) => {
            lemma_settled_pat(a);
        },
    }
}

/// What [`settled_switch_case`] is, one level down.
pub proof fn lemma_settled_switch_case_is(x: SwitchCaseV)
    ensures
        settled_switch_case(x) == ((match x.test {
            Some(x) => settled_expr(*x),
            None => true,
        })
        && settled_stmts(x.cons)),
{
    reveal(settled_switch_case);
    reveal(settled_expr);
    reveal(settled_stmts);
}

/// The rules leave a [`SwitchCase`] as it is where none of them applies to it.
pub proof fn lemma_settled_switch_case(x: SwitchCaseV)
    requires
        settled_switch_case(x),
    ensures
        folded_switch_case(x) == x,
    decreases x,
{
    reveal(settled_switch_case);
    reveal(settled_expr);
    reveal(settled_stmts);
    lemma_folded_switch_case(x);
    match x.test {
        Some(x) => {
            lemma_settled_expr(*x);
        },
        None => {},
    }
    lemma_settled_stmts(x.cons);
}

/// What [`settled_catch_clause`] is, one level down.
pub proof fn lemma_settled_catch_clause_is(x: CatchClauseV)
    ensures
        settled_catch_clause(x) == ((match x.param {
            Some(x) => settled_pat(x),
            None => true,
        })
        && settled_stmts(x.body)),
{
    reveal(settled_catch_clause);
    reveal(settled_pat);
    reveal(settled_stmts);
}

/// The rules leave a [`CatchClause`] as it is where none of them applies to it.
pub proof fn lemma_settled_catch_clause(x: CatchClauseV)
    requires
        settled_catch_clause(x),
    ensures
        folded_catch_clause(x) == x,
    decreases x,
{
    reveal(settled_catch_clause);
    reveal(settled_pat);
    reveal(settled_stmts);
    lemma_folded_catch_clause(x);
    match x.param {
        Some(x) => {
            lemma_settled_pat(x);
        },
        None => {},
    }
    lemma_settled_stmts(x.body);
}

/// What [`settled_stmt`] is, one level down.
pub proof fn lemma_settled_stmt_is(x: StmtV)
    ensures
        settled_stmt(x) == (simplified_stmt(x) == x && settled_parts_of_stmt(x)),
{
    reveal(settled_stmt);
    reveal(settled_stmts);
    reveal(settled_expr);
    reveal(settled_switch_cases);
    reveal(settled_catch_clause);
    reveal(settled_var_decl_or_expr);
    reveal(settled_var_decl_or_pat);
    reveal(settled_decl);
}

/// The rules leave a [`Stmt`] as it is where none of them applies to it.
pub proof fn lemma_settled_stmt(x: StmtV)
    requires
        settled_stmt(x),
    ensures
        folded_stmt(x) == x,
    decreases x,
{
    reveal(settled_stmt);
    reveal(settled_stmts);
    reveal(settled_expr);
    reveal(settled_switch_cases);
    reveal(settled_catch_clause);
    reveal(settled_var_decl_or_expr);
    reveal(settled_var_decl_or_pat);
    reveal(settled_decl);
    lemma_folded_stmt(x);
    match x {
        StmtV::Block(a) => {
            lemma_settled_stmts(a);
        },
        StmtV::Empty => {},
        StmtV::Debugger => {},
        StmtV::With { obj, body } => {
            lemma_settled_expr(*obj);
            lemma_settled_stmt(*body);
        },
        StmtV::Return(a) => {
            match a {
                Some(x) => {
                    lemma_settled_expr(*x);
                },
                None => {},
            }
        },
        StmtV::Labeled { body, .. } => {
            lemma_settled_stmt(*body);
        },
        StmtV::Break(_) => {},
        StmtV::Continue(_) => {},
        StmtV::If { test, cons, alt } => {
            lemma_settled_expr(*test);
            lemma_settled_stmt(*cons);
            match alt {
                Some(x) => {
                    lemma_settled_stmt(*x);
                },
                None => {},
            }
        },
        StmtV::Switch { discriminant, cases } => {
            lemma_settled_expr(*discriminant);
            lemma_settled_switch_cases(cases);
        },
        StmtV::Throw(a) => {
            lemma_settled_expr(*a);
        },
        StmtV::Try { block, handler, finalizer } => {
            lemma_settled_stmts(block);
            match handler {
                Some(x) => {
                    lemma_settled_catch_clause(x);
                },
                None => {},
            }
            match finalizer {
                Some(x) => {
                    lemma_settled_stmts(x);
                },
                None => {},
            }
        },
        StmtV::While { test, body } => {
            lemma_settled_expr(*test);
            lemma_settled_stmt(*body);
        },
        StmtV::DoWhile { test, body } => {
            lemma_settled_expr(*test);
            lemma_settled_stmt(*body);
        },
        StmtV::For { init, test, update, body } => {
            match init {
                Some(x) => {
                    lemma_settled_var_decl_or_expr(x);
                },
                None => {},
            }
            match test {
                Some(x) => {
                    lemma_settled_expr(*x);
                },
                None => {},
            }
            match update {
                Some(x) => {
                    lemma_settled_expr(*x);
                },
                None => {},
            }
            lemma_settled_stmt(*body);
        },
        StmtV::ForIn { left, right, body } => {
            lemma_settled_var_decl_or_pat(left);
            lemma_settled_expr(*right);
            lemma_settled_stmt(*body);
        },
        StmtV::ForOf { left, right, body, .. } => {
            lemma_settled_var_decl_or_pat(left);
            lemma_settled_expr(*right);
            lemma_settled_stmt(*body);
        },
        StmtV::Decl(a) => {
            lemma_settled_decl(a);
        },
        StmtV::Expr(a) => {
            lemma_settled_expr(*a);
        },
    }
}

/// What [`settled_default_decl`] is, one level down.
pub proof fn lemma_settled_default_decl_is(x: DefaultDeclV)
    ensures
        settled_default_decl(x) == (match x {
            DefaultDeclV::Class { class, .. } => settled_class(class),
            DefaultDeclV::Fn { function, .. } => settled_function(function),
        }),
{
    reveal(settled_default_decl);
    reveal(settled_class);
    reveal(settled_function);
}

/// The rules leave a [`DefaultDecl`] as it is where none of them applies to it.
pub proof fn lemma_settled_default_decl(x: DefaultDeclV)
    requires
        settled_default_decl(x),
    ensures
        folded_default_decl(x) == x,
    decreases x,
{
    reveal(settled_default_decl);
    reveal(settled_class);
    reveal(settled_function);
    lemma_folded_default_decl(x);
    match x {
        DefaultDeclV::Class { class, .. } => {
            lemma_settled_class(class);
        },
        DefaultDeclV::Fn { function, .. } => {
            lemma_settled_function(function);
        },
    }
}

/// What [`settled_module_decl`] is, one level down.
pub proof fn lemma_settled_module_decl_is(x: ModuleDeclV)
    ensures
        settled_module_decl(x) == (match x {
            ModuleDeclV::Import { .. } => true,
            ModuleDeclV::ExportDecl(a) => settled_decl(a),
            ModuleDeclV::ExportNamed { .. } => true,
            ModuleDeclV::ExportDefaultDecl(a) => settled_default_decl(a),
            ModuleDeclV::ExportDefaultExpr(a) => settled_expr(*a),
            ModuleDeclV::ExportAll { .. } => true,
        }),
{
    reveal(settled_module_decl);
    reveal(settled_decl);
    reveal(settled_default_decl);
    reveal(settled_expr);
}

/// The rules leave a [`ModuleDecl`] as it is where none of them applies to it.
pub proof fn lemma_settled_module_decl(x: ModuleDeclV)
    requires
        settled_module_decl(x),
    ensures
        folded_module_decl(x) == x,
    decreases x,
{
    reveal(settled_module_decl);
    reveal(settled_decl);
    reveal(settled_default_decl);
    reveal(settled_expr);
    lemma_folded_module_decl(x);
    match x {
        ModuleDeclV::Import { .. } => {},
        ModuleDeclV::ExportDecl(a) => {
            lemma_settled_decl(a);
        },
        ModuleDeclV::ExportNamed { .. } => {},
        ModuleDeclV::ExportDefaultDecl(a) => {
            lemma_settled_default_decl(a);
        },
        ModuleDeclV::ExportDefaultExpr(a) => {
            lemma_settled_expr(*a);
        },
        ModuleDeclV::ExportAll { .. } => {},
    }
}

/// What [`settled_module_item`] is, one level down.
pub proof fn lemma_settled_module_item_is(x: ModuleItemV)
    ensures
        settled_module_item(x) == (match x {
            ModuleItemV::ModuleDecl(a) => settled_module_decl(a),
            ModuleItemV::Stmt(a) => settled_stmt(a),
        }),
{
    reveal(settled_module_item);
    reveal(settled_module_decl);
    reveal(settled_stmt);
}

/// The rules leave a [`ModuleItem`] as it is where none of them applies to it.
pub proof fn lemma_settled_module_item(x: ModuleItemV)
    requires
        settled_module_item(x),
    ensures
        folded_module_item(x) == x,
    decreases x,
{
    reveal(settled_module_item);
    reveal(settled_module_decl);
    reveal(settled_stmt);
    lemma_folded_module_item(x);
    match x {
        ModuleItemV::ModuleDecl(a) => {
            lemma_settled_module_decl(a);
        },
        ModuleItemV::Stmt(a) => {
            lemma_settled_stmt(a);
        },
    }
}

/// What [`settled_module`] is, one level down.
pub proof fn lemma_settled_module_is(x: ModuleV)
    ensures
        settled_module(x) == (settled_module_items(x.body)),
{
    reveal(settled_module);
    reveal(settled_module_items);
}

/// The rules leave a [`Module`] as it is where none of them applies to it.
pub proof fn lemma_settled_module(x: ModuleV)
    requires
        settled_module(x),
    ensures
        folded_module(x) == x,
    decreases x,
{
    reveal(settled_module);
    reveal(settled_module_items);
    lemma_folded_module(x);
    lemma_settled_module_items(x.body);
}

/// What [`settled_class_members`] is, one item down.
pub proof fn lemma_settled_class_members_is(s: Seq<ClassMemberV>)
    ensures
        settled_class_members(s)
            == ((forall|i: int| 0 <= i < s.len() ==> settled_class_member((#[trigger] s[i])))),
{
    reveal(settled_class_members);
    reveal(settled_class_member);
}

/// The rules leave a list as it is where none of them applies to it.
pub proof fn lemma_settled_class_members(s: Seq<ClassMemberV>)
    requires
        settled_class_members(s),
    ensures
        folded_class_members(s) == s,
    decreases s,
{
    reveal(settled_class_members);
    reveal(settled_class_member);
    lemma_folded_class_members(s);
    assert forall|i: int| 0 <= i < s.len() implies (#[trigger] folded_class_members(s)[i]) == s[i] by {
        lemma_settled_class_member(s[i]);
    }
    assert(folded_class_members(s) =~= s);
}

/// What [`settled_expr_or_spreads`] is, one item down.
pub proof fn lemma_settled_expr_or_spreads_is(s: Seq<ExprOrSpreadV>)
    ensures
        settled_expr_or_spreads(s)
            == ((forall|i: int| 0 <= i < s.len() ==> settled_expr_or_spread((#[trigger] s[i])))),
{
    reveal(settled_expr_or_spreads);
    reveal(settled_expr_or_spread);
}

/// The rules leave a list as it is where none of them applies to it.
pub proof fn lemma_settled_expr_or_spreads(s: Seq<ExprOrSpreadV>)
    requires
        settled_expr_or_spreads(s),
    ensures
        folded_expr_or_spreads(s) == s,
    decreases s,
{
    reveal(settled_expr_or_spreads);
    reveal(settled_expr_or_spread);
    lemma_folded_expr_or_spreads(s);
    assert forall|i: int| 0 <= i < s.len() implies (#[trigger] folded_expr_or_spreads(s)[i]) == s[i] by {
        lemma_settled_expr_or_spread(s[i]);
    }
    assert(folded_expr_or_spreads(s) =~= s);
}

/// What [`settled_exprs`] is, one item down.
pub proof fn lemma_settled_exprs_is(s: Seq<ExprV>)
    ensures
        settled_exprs(s) == ((forall|i: int| 0 <= i < s.len() ==> settled_expr((#[trigger] s[i])))),
{
    reveal(settled_exprs);
    reveal(settled_expr);
}

/// The rules leave a list as it is where none of them applies to it.
pub proof fn lemma_settled_exprs(s: Seq<ExprV>)
    requires
        settled_exprs(s),
    ensures
        folded_exprs(s) == s,
    decreases s,
{
    reveal(settled_exprs);
    reveal(settled_expr);
    lemma_folded_exprs(s);
    assert forall|i: int| 0 <= i < s.len() implies (#[trigger] folded_exprs(s)[i]) == s[i] by {
        lemma_settled_expr(s[i]);
    }
    assert(folded_exprs(s) =~= s);
}

/// What [`settled_module_items`] is, one item down.
pub proof fn lemma_settled_module_items_is(s: Seq<ModuleItemV>)
    ensures
        settled_module_items(s)
            == ((forall|i: int| 0 <= i < s.len() ==> settled_module_item((#[trigger] s[i]))) && simplified_items(s) == s),
{
    reveal(settled_module_items);
    reveal(settled_module_item);
}

/// The rules leave a list as it is where none of them applies to it.
pub proof fn lemma_settled_module_items(s: Seq<ModuleItemV>)
    requires
        settled_module_items(s),
    ensures
        folded_module_items(s) == s,
    decreases s,
{
    reveal(settled_module_items);
    reveal(settled_module_item);
    lemma_folded_each_module_items(s);
    lemma_folded_module_items(s);
    assert forall|i: int| 0 <= i < s.len() implies (#[trigger] folded_each_module_items(s)[i]) == s[i] by {
        lemma_settled_module_item(s[i]);
    }
    assert(folded_each_module_items(s) =~= s);
}

/// What [`settled_object_pat_props`] is, one item down.
pub proof fn lemma_settled_object_pat_props_is(s: Seq<ObjectPatPropV>)
    ensures
        settled_object_pat_props(s)
            == ((forall|i: int| 0 <= i < s.len() ==> settled_object_pat_prop((#[trigger] s[i])))),
{
    reveal(settled_object_pat_props);
    reveal(settled_object_pat_prop);
}

/// The rules leave a list as it is where none of them applies to it.
pub proof fn lemma_settled_object_pat_props(s: Seq<ObjectPatPropV>)
    requires
        settled_object_pat_props(s),
    ensures
        folded_object_pat_props(s) == s,
    decreases s,
{
    reveal(settled_object_pat_props);
    reveal(settled_object_pat_prop);
    lemma_folded_object_pat_props(s);
    assert forall|i: int| 0 <= i < s.len() implies (#[trigger] folded_object_pat_props(s)[i]) == s[i] by {
        lemma_settled_object_pat_prop(s[i]);
    }
    assert(folded_object_pat_props(s) =~= s);
}

/// What [`settled_opt_expr_or_spreads`] is, one item down.
pub proof fn lemma_settled_opt_expr_or_spreads_is(s: Seq<Option<ExprOrSpreadV>>)
    ensures
        settled_opt_expr_or_spreads(s)
            == ((forall|i: int| 0 <= i < s.len() ==> (match (#[trigger] s[i]) {
            Some(x) => settled_expr_or_spread(x),
            None => true,
        }))),
{
    reveal(settled_opt_expr_or_spreads);
    reveal(settled_expr_or_spread);
}

/// The rules leave a list as it is where none of them applies to it.
pub proof fn lemma_settled_opt_expr_or_spreads(s: Seq<Option<ExprOrSpreadV>>)
    requires
        settled_opt_expr_or_spreads(s),
    ensures
        folded_opt_expr_or_spreads(s) == s,
    decreases s,
{
    reveal(settled_opt_expr_or_spreads);
    reveal(settled_expr_or_spread);
    lemma_folded_opt_expr_or_spreads(s);
    assert forall|i: int| 0 <= i < s.len() implies (#[trigger] folded_opt_expr_or_spreads(s)[i]) == s[i] by {
        match s[i] {
            Some(x) => lemma_settled_expr_or_spread(x),
            None => {},
        }
    }
    assert(folded_opt_expr_or_spreads(s) =~= s);
}

/// What [`settled_opt_pats`] is, one item down.
pub proof fn lemma_settled_opt_pats_is(s: Seq<Option<PatV>>)
    ensures
        settled_opt_pats(s) == ((forall|i: int| 0 <= i < s.len() ==> (match (#[trigger] s[i]) {
            Some(x) => settled_pat(x),
            None => true,
        }))),
{
    reveal(settled_opt_pats);
    reveal(settled_pat);
}

/// The rules leave a list as it is where none of them applies to it.
pub proof fn lemma_settled_opt_pats(s: Seq<Option<PatV>>)
    requires
        settled_opt_pats(s),
    ensures
        folded_opt_pats(s) == s,
    decreases s,
{
    reveal(settled_opt_pats);
    reveal(settled_pat);
    lemma_folded_opt_pats(s);
    assert forall|i: int| 0 <= i < s.len() implies (#[trigger] folded_opt_pats(s)[i]) == s[i] by {
        match s[i] {
            Some(x) => lemma_settled_pat(x),
            None => {},
        }
    }
    assert(folded_opt_pats(s) =~= s);
}

/// What [`settled_pats`] is, one item down.
pub proof fn lemma_settled_pats_is(s: Seq<PatV>)
    ensures
        settled_pats(s) == ((forall|i: int| 0 <= i < s.len() ==> settled_pat((#[trigger] s[i])))),
{
    reveal(settled_pats);
    reveal(settled_pat);
}

/// The rules leave a list as it is where none of them applies to it.
pub proof fn lemma_settled_pats(s: Seq<PatV>)
    requires
        settled_pats(s),
    ensures
        folded_pats(s) == s,
    decreases s,
{
    reveal(settled_pats);
    reveal(settled_pat);
    lemma_folded_pats(s);
    assert forall|i: int| 0 <= i < s.len() implies (#[trigger] folded_pats(s)[i]) == s[i] by {
        lemma_settled_pat(s[i]);
    }
    assert(folded_pats(s) =~= s);
}

/// What [`settled_prop_or_spreads`] is, one item down.
pub proof fn lemma_settled_prop_or_spreads_is(s: Seq<PropOrSpreadV>)
    ensures
        settled_prop_or_spreads(s)
            == ((forall|i: int| 0 <= i < s.len() ==> settled_prop_or_spread((#[trigger] s[i])))),
{
    reveal(settled_prop_or_spreads);
    reveal(settled_prop_or_spread);
}

/// The rules leave a list as it is where none of them applies to it.
pub proof fn lemma_settled_prop_or_spreads(s: Seq<PropOrSpreadV>)
    requires
        settled_prop_or_spreads(s),
    ensures
        folded_prop_or_spreads(s) == s,
    decreases s,
{
    reveal(settled_prop_or_spreads);
    reveal(settled_prop_or_spread);
    lemma_folded_prop_or_spreads(s);
    assert forall|i: int| 0 <= i < s.len() implies (#[trigger] folded_prop_or_spreads(s)[i]) == s[i] by {
        lemma_settled_prop_or_spread(s[i]);
    }
    assert(folded_prop_or_spreads(s) =~= s);
}

/// What [`settled_stmts`] is, one item down.
pub proof fn lemma_settled_stmts_is(s: Seq<StmtV>)
    ensures
        settled_stmts(s)
            == ((forall|i: int| 0 <= i < s.len() ==> settled_stmt((#[trigger] s[i]))) && simplified_list(s) == s),
{
    reveal(settled_stmts);
    reveal(settled_stmt);
}

/// The rules leave a list as it is where none of them applies to it.
pub proof fn lemma_settled_stmts(s: Seq<StmtV>)
    requires
        settled_stmts(s),
    ensures
        folded_stmts(s) == s,
    decreases s,
{
    reveal(settled_stmts);
    reveal(settled_stmt);
    lemma_folded_each_stmts(s);
    lemma_folded_stmts(s);
    assert forall|i: int| 0 <= i < s.len() implies (#[trigger] folded_each_stmts(s)[i]) == s[i] by {
        lemma_settled_stmt(s[i]);
    }
    assert(folded_each_stmts(s) =~= s);
}

/// What [`settled_switch_cases`] is, one item down.
pub proof fn lemma_settled_switch_cases_is(s: Seq<SwitchCaseV>)
    ensures
        settled_switch_cases(s)
            == ((forall|i: int| 0 <= i < s.len() ==> settled_switch_case((#[trigger] s[i])))),
{
    reveal(settled_switch_cases);
    reveal(settled_switch_case);
}

/// The rules leave a list as it is where none of them applies to it.
pub proof fn lemma_settled_switch_cases(s: Seq<SwitchCaseV>)
    requires
        settled_switch_cases(s),
    ensures
        folded_switch_cases(s) == s,
    decreases s,
{
    reveal(settled_switch_cases);
    reveal(settled_switch_case);
    lemma_folded_switch_cases(s);
    assert forall|i: int| 0 <= i < s.len() implies (#[trigger] folded_switch_cases(s)[i]) == s[i] by {
        lemma_settled_switch_case(s[i]);
    }
    assert(folded_switch_cases(s) =~= s);
}

/// What [`settled_var_declarators`] is, one item down.
pub proof fn lemma_settled_var_declarators_is(s: Seq<VarDeclaratorV>)
    ensures
        settled_var_declarators(s)
            == ((forall|i: int| 0 <= i < s.len() ==> settled_var_declarator((#[trigger] s[i])))),
{
    reveal(settled_var_declarators);
    reveal(settled_var_declarator);
}

/// The rules leave a list as it is where none of them applies to it.
pub proof fn lemma_settled_var_declarators(s: Seq<VarDeclaratorV>)
    requires
        settled_var_declarators(s),
    ensures
        folded_var_declarators(s) == s,
    decreases s,
{
    reveal(settled_var_declarators);
    reveal(settled_var_declarator);
    lemma_folded_var_declarators(s);
    assert forall|i: int| 0 <= i < s.len() implies (#[trigger] folded_var_declarators(s)[i]) == s[i] by {
        lemma_settled_var_declarator(s[i]);
    }
    assert(folded_var_declarators(s) =~= s);
}

} // verus!
