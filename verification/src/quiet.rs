//! The trees that dead-code removal leaves as they are, and in which the
//! expressions that the rules reduce can be looked at.

use vstd::prelude::*;
use crate::model::{
    BlockStmtOrExprV, CatchClauseV, ClassMemberV, ClassV, DeclV, DefaultDeclV, ExprOrSpreadV,
    ExprOrSuperV, ExprV, FunctionV, MemberPropV, ModuleDeclV, ModuleItemV, ModuleV, ObjectPatPropV,
    PatOrExprV, PatV, PropNameV, PropOrSpreadV, PropV, StmtV, SwitchCaseV, TplV, VarDeclOrExprV,
    VarDeclOrPatV, VarDeclV, VarDeclaratorV,
};
use crate::fold::{
    folded_block_stmt_or_expr, folded_catch_clause, folded_class, folded_class_member,
    folded_class_members, folded_decl, folded_default_decl, folded_each_module_items,
    folded_each_stmts, folded_expr, folded_expr_or_spread, folded_expr_or_spreads,
    folded_expr_or_super, folded_exprs, folded_function, folded_member_prop, folded_module,
    folded_module_decl, folded_module_item, folded_module_items, folded_object_pat_prop,
    folded_object_pat_props, folded_opt_expr_or_spreads, folded_opt_pats, folded_pat,
    folded_pat_or_expr, folded_pats, folded_prop, folded_prop_name, folded_prop_or_spread,
    folded_prop_or_spreads, folded_stmt, folded_stmts, folded_switch_case, folded_switch_cases,
    folded_tpl, folded_var_decl, folded_var_decl_or_expr, folded_var_decl_or_pat,
    folded_var_declarator, folded_var_declarators, lemma_folded_block_stmt_or_expr,
    lemma_folded_catch_clause, lemma_folded_class, lemma_folded_class_member,
    lemma_folded_class_members, lemma_folded_decl, lemma_folded_default_decl,
    lemma_folded_each_module_items, lemma_folded_each_stmts, lemma_folded_expr,
    lemma_folded_expr_or_spread, lemma_folded_expr_or_spreads, lemma_folded_expr_or_super,
    lemma_folded_exprs, lemma_folded_function, lemma_folded_member_prop, lemma_folded_module,
    lemma_folded_module_decl, lemma_folded_module_item, lemma_folded_module_items,
    lemma_folded_object_pat_prop, lemma_folded_object_pat_props, lemma_folded_opt_expr_or_spreads,
    lemma_folded_opt_pats, lemma_folded_pat, lemma_folded_pat_or_expr, lemma_folded_pats,
    lemma_folded_prop, lemma_folded_prop_name, lemma_folded_prop_or_spread,
    lemma_folded_prop_or_spreads, lemma_folded_stmt, lemma_folded_stmts, lemma_folded_switch_case,
    lemma_folded_switch_cases, lemma_folded_tpl, lemma_folded_var_decl,
    lemma_folded_var_decl_or_expr, lemma_folded_var_decl_or_pat, lemma_folded_var_declarator,
    lemma_folded_var_declarators,
};
use crate::simplify::{
    simplified_expr, simplified_items, simplified_list, simplified_object_pat_prop, simplified_pat,
    simplified_stmt,
};
use crate::steady::{
    is_quiet_here, is_quiet_stmt_here,
};

verus! {

/// Whether a [`Tpl`] is quiet in all its parts: no rule applies to it.
#[verifier::opaque]
pub open spec fn quiet_tpl(x: TplV) -> bool
    decreases x,
{
    quiet_exprs(x.exprs)
}

/// Whether a [`ExprOrSpread`] is quiet in all its parts: no rule applies to it.
#[verifier::opaque]
pub open spec fn quiet_expr_or_spread(x: ExprOrSpreadV) -> bool
    decreases x,
{
    quiet_expr(x.expr)
}

/// Whether a [`ExprOrSuper`] is quiet in all its parts: no rule applies to it.
#[verifier::opaque]
pub open spec fn quiet_expr_or_super(x: ExprOrSuperV) -> bool
    decreases x,
{
    match x {
        ExprOrSuperV::Super => true,
        ExprOrSuperV::Expr(a) => quiet_expr(*a),
    }
}

/// Whether a [`MemberProp`] is quiet in all its parts: no rule applies to it.
#[verifier::opaque]
pub open spec fn quiet_member_prop(x: MemberPropV) -> bool
    decreases x,
{
    match x {
        MemberPropV::Ident(_) => true,
        MemberPropV::Computed(a) => quiet_expr(*a),
    }
}

/// Whether a [`PatOrExpr`] is quiet in all its parts: no rule applies to it.
#[verifier::opaque]
pub open spec fn quiet_pat_or_expr(x: PatOrExprV) -> bool
    decreases x,
{
    match x {
        PatOrExprV::Expr(a) => quiet_expr(*a),
        PatOrExprV::Pat(a) => quiet_pat(*a),
    }
}

/// Whether a [`PropName`] is quiet in all its parts: no rule applies to it.
#[verifier::opaque]
pub open spec fn quiet_prop_name(x: PropNameV) -> bool
    decreases x,
{
    match x {
        PropNameV::Ident(_) => true,
        PropNameV::Str(_) => true,
        PropNameV::Num(_) => true,
        PropNameV::Computed(a) => quiet_expr(*a),
    }
}

/// Whether a [`Prop`] is quiet in all its parts: no rule applies to it.
#[verifier::opaque]
pub open spec fn quiet_prop(x: PropV) -> bool
    decreases x,
{
    match x {
        PropV::Shorthand(_) => true,
        PropV::KeyValue { key, value } => quiet_prop_name(key) && quiet_expr(*value),
        PropV::Getter { key, body } => quiet_prop_name(key) && (match body {
            Some(x) => quiet_stmts(x),
            None => true,
        }),
        PropV::Setter { key, param, body } => quiet_prop_name(key) && quiet_pat(param) && (match body {
            Some(x) => quiet_stmts(x),
            None => true,
        }),
        PropV::Method { key, function } => quiet_prop_name(key) && quiet_function(function),
    }
}

/// Whether a [`PropOrSpread`] is quiet in all its parts: no rule applies to it.
#[verifier::opaque]
pub open spec fn quiet_prop_or_spread(x: PropOrSpreadV) -> bool
    decreases x,
{
    match x {
        PropOrSpreadV::Spread(a) => quiet_expr(*a),
        PropOrSpreadV::Prop(a) => quiet_prop(*a),
    }
}

/// Whether a [`Function`] is quiet in all its parts: no rule applies to it.
#[verifier::opaque]
pub open spec fn quiet_function(x: FunctionV) -> bool
    decreases x,
{
    quiet_pats(x.params)
    && (match x.body {
        Some(x) => quiet_stmts(x),
        None => true,
    })
}

/// Whether a [`Class`] is quiet in all its parts: no rule applies to it.
#[verifier::opaque]
pub open spec fn quiet_class(x: ClassV) -> bool
    decreases x,
{
    (match x.super_class {
        Some(x) => quiet_expr(*x),
        None => true,
    })
    && quiet_class_members(x.body)
}

/// Whether a [`ClassMember`] is quiet in all its parts: no rule applies to it.
#[verifier::opaque]
pub open spec fn quiet_class_member(x: ClassMemberV) -> bool
    decreases x,
{
    match x {
        ClassMemberV::Constructor { key, params, body } => quiet_prop_name(key) && quiet_pats(params) && (match body {
            Some(x) => quiet_stmts(x),
            None => true,
        }),
        ClassMemberV::Method { key, function, .. } =>
            quiet_prop_name(key) && quiet_function(function),
        ClassMemberV::Prop { key, value, .. } => quiet_expr(*key) && (match value {
            Some(x) => quiet_expr(*x),
            None => true,
        }),
    }
}

/// Whether a [`BlockStmtOrExpr`] is quiet in all its parts: no rule applies to it.
#[verifier::opaque]
pub open spec fn quiet_block_stmt_or_expr(x: BlockStmtOrExprV) -> bool
    decreases x,
{
    match x {
        BlockStmtOrExprV::Block(a) => quiet_stmts(a),
        BlockStmtOrExprV::Expr(a) => quiet_expr(*a),
    }
}

/// Whether a [`Expr`] is quiet in all its parts: no rule applies to it.
#[verifier::opaque]
pub open spec fn quiet_expr(x: ExprV) -> bool
    decreases x,
{
    simplified_expr(x) == x && is_quiet_here(x) && match x {
        ExprV::This => true,
        ExprV::Array(a) => quiet_opt_expr_or_spreads(a),
        ExprV::Object(a) => quiet_prop_or_spreads(a),
        ExprV::Fn { function, .. } => quiet_function(*function),
        ExprV::Unary { arg, .. } => quiet_expr(*arg),
        ExprV::Update { arg, .. } => quiet_expr(*arg),
        ExprV::Bin { left, right, .. } => quiet_expr(*left) && quiet_expr(*right),
        ExprV::Assign { left, right, .. } => quiet_pat_or_expr(left) && quiet_expr(*right),
        ExprV::Member { obj, prop } => quiet_expr_or_super(obj) && quiet_member_prop(prop),
        ExprV::Cond { test, cons, alt } =>
            quiet_expr(*test) && quiet_expr(*cons) && quiet_expr(*alt),
        ExprV::Call { callee, args } => quiet_expr_or_super(callee) && quiet_expr_or_spreads(args),
        ExprV::New { callee, args } => quiet_expr(*callee) && (match args {
            Some(x) => quiet_expr_or_spreads(x),
            None => true,
        }),
        ExprV::Sequence { init, last } => quiet_exprs(init) && quiet_expr(*last),
        ExprV::Ident(_) => true,
        ExprV::Lit(_) => true,
        ExprV::Tpl(a) => quiet_tpl(a),
        ExprV::TaggedTpl { tag, tpl } => quiet_expr(*tag) && quiet_tpl(tpl),
        ExprV::Arrow { params, body, .. } => quiet_pats(params) && quiet_block_stmt_or_expr(body),
        ExprV::Class { class, .. } => quiet_class(*class),
        ExprV::Yield { arg, .. } => (match arg {
            Some(x) => quiet_expr(*x),
            None => true,
        }),
        ExprV::MetaProp { .. } => true,
        ExprV::Await(a) => quiet_expr(*a),
        ExprV::Paren(a) => quiet_expr(*a),
        ExprV::Ts { expr, .. } => quiet_expr(*expr),
        ExprV::OptChain(a) => quiet_expr(*a),
        ExprV::PrivateName(_) => true,
    }
}

/// Whether the parts of a [`Expr`] are quiet.
pub open spec fn quiet_parts_of_expr(x: ExprV) -> bool {
    match x {
        ExprV::This => true,
        ExprV::Array(a) => quiet_opt_expr_or_spreads(a),
        ExprV::Object(a) => quiet_prop_or_spreads(a),
        ExprV::Fn { function, .. } => quiet_function(*function),
        ExprV::Unary { arg, .. } => quiet_expr(*arg),
        ExprV::Update { arg, .. } => quiet_expr(*arg),
        ExprV::Bin { left, right, .. } => quiet_expr(*left) && quiet_expr(*right),
        ExprV::Assign { left, right, .. } => quiet_pat_or_expr(left) && quiet_expr(*right),
        ExprV::Member { obj, prop } => quiet_expr_or_super(obj) && quiet_member_prop(prop),
        ExprV::Cond { test, cons, alt } =>
            quiet_expr(*test) && quiet_expr(*cons) && quiet_expr(*alt),
        ExprV::Call { callee, args } => quiet_expr_or_super(callee) && quiet_expr_or_spreads(args),
        ExprV::New { callee, args } => quiet_expr(*callee) && (match args {
            Some(x) => quiet_expr_or_spreads(x),
            None => true,
        }),
        ExprV::Sequence { init, last } => quiet_exprs(init) && quiet_expr(*last),
        ExprV::Ident(_) => true,
        ExprV::Lit(_) => true,
        ExprV::Tpl(a) => quiet_tpl(a),
        ExprV::TaggedTpl { tag, tpl } => quiet_expr(*tag) && quiet_tpl(tpl),
        ExprV::Arrow { params, body, .. } => quiet_pats(params) && quiet_block_stmt_or_expr(body),
        ExprV::Class { class, .. } => quiet_class(*class),
        ExprV::Yield { arg, .. } => (match arg {
            Some(x) => quiet_expr(*x),
            None => true,
        }),
        ExprV::MetaProp { .. } => true,
        ExprV::Await(a) => quiet_expr(*a),
        ExprV::Paren(a) => quiet_expr(*a),
        ExprV::Ts { expr, .. } => quiet_expr(*expr),
        ExprV::OptChain(a) => quiet_expr(*a),
        ExprV::PrivateName(_) => true,
    }
}

/// Whether a [`Pat`] is quiet in all its parts: no rule applies to it.
#[verifier::opaque]
pub open spec fn quiet_pat(x: PatV) -> bool
    decreases x,
{
    simplified_pat(x) == x && match x {
        PatV::Ident(_) => true,
        PatV::Array(a) => quiet_opt_pats(a),
        PatV::Rest(a) => quiet_pat(*a),
        PatV::Object(a) => quiet_object_pat_props(a),
        PatV::Assign { left, right } => quiet_pat(*left) && quiet_expr(*right),
        PatV::Expr(a) => quiet_expr(*a),
    }
}

/// Whether the parts of a [`Pat`] are quiet.
pub open spec fn quiet_parts_of_pat(x: PatV) -> bool {
    match x {
        PatV::Ident(_) => true,
        PatV::Array(a) => quiet_opt_pats(a),
        PatV::Rest(a) => quiet_pat(*a),
        PatV::Object(a) => quiet_object_pat_props(a),
        PatV::Assign { left, right } => quiet_pat(*left) && quiet_expr(*right),
        PatV::Expr(a) => quiet_expr(*a),
    }
}

/// Whether a [`ObjectPatProp`] is quiet in all its parts: no rule applies to it.
#[verifier::opaque]
pub open spec fn quiet_object_pat_prop(x: ObjectPatPropV) -> bool
    decreases x,
{
    simplified_object_pat_prop(x) == x && match x {
        ObjectPatPropV::KeyValue { key, value } => quiet_prop_name(key) && quiet_pat(*value),
        ObjectPatPropV::Assign { value, .. } => (match value {
            Some(x) => quiet_expr(*x),
            None => true,
        }),
        ObjectPatPropV::Rest(a) => quiet_pat(*a),
    }
}

/// Whether the parts of a [`ObjectPatProp`] are quiet.
pub open spec fn quiet_parts_of_object_pat_prop(x: ObjectPatPropV) -> bool {
    match x {
        ObjectPatPropV::KeyValue { key, value } => quiet_prop_name(key) && quiet_pat(*value),
        ObjectPatPropV::Assign { value, .. } => (match value {
            Some(x) => quiet_expr(*x),
            None => true,
        }),
        ObjectPatPropV::Rest(a) => quiet_pat(*a),
    }
}

/// Whether a [`VarDeclarator`] is quiet in all its parts: no rule applies to it.
#[verifier::opaque]
pub open spec fn quiet_var_declarator(x: VarDeclaratorV) -> bool
    decreases x,
{
    quiet_pat(x.name)
    && (match x.init {
        Some(x) => quiet_expr(*x),
        None => true,
    })
}

/// Whether a [`VarDecl`] is quiet in all its parts: no rule applies to it.
#[verifier::opaque]
pub open spec fn quiet_var_decl(x: VarDeclV) -> bool
    decreases x,
{
    quiet_var_declarators(x.decls)
}

/// Whether a [`Decl`] is quiet in all its parts: no rule applies to it.
#[verifier::opaque]
pub open spec fn quiet_decl(x: DeclV) -> bool
    decreases x,
{
    match x {
        DeclV::Class { class, .. } => quiet_class(class),
        DeclV::Fn { function, .. } => quiet_function(function),
        DeclV::Var(a) => quiet_var_decl(a),
    }
}

/// Whether a [`VarDeclOrExpr`] is quiet in all its parts: no rule applies to it.
#[verifier::opaque]
pub open spec fn quiet_var_decl_or_expr(x: VarDeclOrExprV) -> bool
    decreases x,
{
    match x {
        VarDeclOrExprV::VarDecl(a) => quiet_var_decl(a),
        VarDeclOrExprV::Expr(a) => quiet_expr(*a),
    }
}

/// Whether a [`VarDeclOrPat`] is quiet in all its parts: no rule applies to it.
#[verifier::opaque]
pub open spec fn quiet_var_decl_or_pat(x: VarDeclOrPatV) -> bool
    decreases x,
{
    match x {
        VarDeclOrPatV::VarDecl(a) => quiet_var_decl(a),
        VarDeclOrPatV::Pat(a) => quiet_pat(a),
    }
}

/// Whether a [`SwitchCase`] is quiet in all its parts: no rule applies to it.
#[verifier::opaque]
pub open spec fn quiet_switch_case(x: SwitchCaseV) -> bool
    decreases x,
{
    (match x.test {
        Some(x) => quiet_expr(*x),
        None => true,
    })
    && quiet_stmts(x.cons)
}

/// Whether a [`CatchClause`] is quiet in all its parts: no rule applies to it.
#[verifier::opaque]
pub open spec fn quiet_catch_clause(x: CatchClauseV) -> bool
    decreases x,
{
    (match x.param {
        Some(x) => quiet_pat(x),
        None => true,
    })
    && quiet_stmts(x.body)
}

/// Whether a [`Stmt`] is quiet in all its parts: no rule applies to it.
#[verifier::opaque]
pub open spec fn quiet_stmt(x: StmtV) -> bool
    decreases x,
{
    simplified_stmt(x) == x && is_quiet_stmt_here(x) && match x {
        StmtV::Block(a) => quiet_stmts(a),
        StmtV::Empty => true,
        StmtV::Debugger => true,
        StmtV::With { obj, body } => quiet_expr(*obj) && quiet_stmt(*body),
        StmtV::Return(a) => (match a {
            Some(x) => quiet_expr(*x),
            None => true,
        }),
        StmtV::Labeled { body, .. } => quiet_stmt(*body),
        StmtV::Break(_) => true,
        StmtV::Continue(_) => true,
        StmtV::If { test, cons, alt } => quiet_expr(*test) && quiet_stmt(*cons) && (match alt {
            Some(x) => quiet_stmt(*x),
            None => true,
        }),
        StmtV::Switch { discriminant, cases } =>
            quiet_expr(*discriminant) && quiet_switch_cases(cases),
        StmtV::Throw(a) => quiet_expr(*a),
        StmtV::Try { block, handler, finalizer } => quiet_stmts(block) && (match handler {
            Some(x) => quiet_catch_clause(x),
            None => true,
        }) && (match finalizer {
            Some(x) => quiet_stmts(x),
            None => true,
        }),
        StmtV::While { test, body } => quiet_expr(*test) && quiet_stmt(*body),
        StmtV::DoWhile { test, body } => quiet_expr(*test) && quiet_stmt(*body),
        StmtV::For { init, test, update, body } => (match init {
            Some(x) => quiet_var_decl_or_expr(x),
            None => true,
        }) && (match test {
            Some(x) => quiet_expr(*x),
            None => true,
        }) && (match update {
            Some(x) => quiet_expr(*x),
            None => true,
        }) && quiet_stmt(*body),
        StmtV::ForIn { left, right, body } =>
            quiet_var_decl_or_pat(left) && quiet_expr(*right) && quiet_stmt(*body),
        StmtV::ForOf { left, right, body, .. } =>
            quiet_var_decl_or_pat(left) && quiet_expr(*right) && quiet_stmt(*body),
        StmtV::Decl(a) => quiet_decl(a),
        StmtV::Expr(a) => quiet_expr(*a),
    }
}

/// Whether the parts of a [`Stmt`] are quiet.
pub open spec fn quiet_parts_of_stmt(x: StmtV) -> bool {
    match x {
        StmtV::Block(a) => quiet_stmts(a),
        StmtV::Empty => true,
        StmtV::Debugger => true,
        StmtV::With { obj, body } => quiet_expr(*obj) && quiet_stmt(*body),
        StmtV::Return(a) => (match a {
            Some(x) => quiet_expr(*x),
            None => true,
        }),
        StmtV::Labeled { body, .. } => quiet_stmt(*body),
        StmtV::Break(_) => true,
        StmtV::Continue(_) => true,
        StmtV::If { test, cons, alt } => quiet_expr(*test) && quiet_stmt(*cons) && (match alt {
            Some(x) => quiet_stmt(*x),
            None => true,
        }),
        StmtV::Switch { discriminant, cases } =>
            quiet_expr(*discriminant) && quiet_switch_cases(cases),
        StmtV::Throw(a) => quiet_expr(*a),
        StmtV::Try { block, handler, finalizer } => quiet_stmts(block) && (match handler {
            Some(x) => quiet_catch_clause(x),
            None => true,
        }) && (match finalizer {
            Some(x) => quiet_stmts(x),
            None => true,
        }),
        StmtV::While { test, body } => quiet_expr(*test) && quiet_stmt(*body),
        StmtV::DoWhile { test, body } => quiet_expr(*test) && quiet_stmt(*body),
        StmtV::For { init, test, update, body } => (match init {
            Some(x) => quiet_var_decl_or_expr(x),
            None => true,
        }) && (match test {
            Some(x) => quiet_expr(*x),
            None => true,
        }) && (match update {
            Some(x) => quiet_expr(*x),
            None => true,
        }) && quiet_stmt(*body),
        StmtV::ForIn { left, right, body } =>
            quiet_var_decl_or_pat(left) && quiet_expr(*right) && quiet_stmt(*body),
        StmtV::ForOf { left, right, body, .. } =>
            quiet_var_decl_or_pat(left) && quiet_expr(*right) && quiet_stmt(*body),
        StmtV::Decl(a) => quiet_decl(a),
        StmtV::Expr(a) => quiet_expr(*a),
    }
}

/// Whether a [`DefaultDecl`] is quiet in all its parts: no rule applies to it.
#[verifier::opaque]
pub open spec fn quiet_default_decl(x: DefaultDeclV) -> bool
    decreases x,
{
    match x {
        DefaultDeclV::Class { class, .. } => quiet_class(class),
        DefaultDeclV::Fn { function, .. } => quiet_function(function),
    }
}

/// Whether a [`ModuleDecl`] is quiet in all its parts: no rule applies to it.
#[verifier::opaque]
pub open spec fn quiet_module_decl(x: ModuleDeclV) -> bool
    decreases x,
{
    match x {
        ModuleDeclV::Import { .. } => true,
        ModuleDeclV::ExportDecl(a) => quiet_decl(a),
        ModuleDeclV::ExportNamed { .. } => true,
        ModuleDeclV::ExportDefaultDecl(a) => quiet_default_decl(a),
        ModuleDeclV::ExportDefaultExpr(a) => quiet_expr(*a),
        ModuleDeclV::ExportAll { .. } => true,
    }
}

/// Whether a [`ModuleItem`] is quiet in all its parts: no rule applies to it.
#[verifier::opaque]
pub open spec fn quiet_module_item(x: ModuleItemV) -> bool
    decreases x,
{
    match x {
        ModuleItemV::ModuleDecl(a) => quiet_module_decl(a),
        ModuleItemV::Stmt(a) => quiet_stmt(a),
    }
}

/// Whether a [`Module`] is quiet in all its parts: no rule applies to it.
#[verifier::opaque]
pub open spec fn quiet_module(x: ModuleV) -> bool
    decreases x,
{
    quiet_module_items(x.body)
}

/// Whether a list is quiet: its items are, and no rule applies to it.
#[verifier::opaque]
pub open spec fn quiet_class_members(s: Seq<ClassMemberV>) -> bool
    decreases s,
{
    (forall|i: int| 0 <= i < s.len() ==> quiet_class_member((#[trigger] s[i])))
}

/// Whether a list is quiet: its items are, and no rule applies to it.
#[verifier::opaque]
pub open spec fn quiet_expr_or_spreads(s: Seq<ExprOrSpreadV>) -> bool
    decreases s,
{
    (forall|i: int| 0 <= i < s.len() ==> quiet_expr_or_spread((#[trigger] s[i])))
}

/// Whether a list is quiet: its items are, and no rule applies to it.
#[verifier::opaque]
pub open spec fn quiet_exprs(s: Seq<ExprV>) -> bool
    decreases s,
{
    (forall|i: int| 0 <= i < s.len() ==> quiet_expr((#[trigger] s[i])))
}

/// Whether a list is quiet: its items are, and no rule applies to it.
#[verifier::opaque]
pub open spec fn quiet_module_items(s: Seq<ModuleItemV>) -> bool
    decreases s,
{
    (forall|i: int| 0 <= i < s.len() ==> quiet_module_item((#[trigger] s[i]))) && simplified_items(s)
        == s
}

/// Whether a list is quiet: its items are, and no rule applies to it.
#[verifier::opaque]
pub open spec fn quiet_object_pat_props(s: Seq<ObjectPatPropV>) -> bool
    decreases s,
{
    (forall|i: int| 0 <= i < s.len() ==> quiet_object_pat_prop((#[trigger] s[i])))
}

/// Whether a list is quiet: its items are, and no rule applies to it.
#[verifier::opaque]
pub open spec fn quiet_opt_expr_or_spreads(s: Seq<Option<ExprOrSpreadV>>) -> bool
    decreases s,
{
    (forall|i: int| 0 <= i < s.len() ==> (match (#[trigger] s[i]) {
        Some(x) => quiet_expr_or_spread(x),
        None => true,
    }))
}

/// Whether a list is quiet: its items are, and no rule applies to it.
#[verifier::opaque]
pub open spec fn quiet_opt_pats(s: Seq<Option<PatV>>) -> bool
    decreases s,
{
    (forall|i: int| 0 <= i < s.len() ==> (match (#[trigger] s[i]) {
        Some(x) => quiet_pat(x),
        None => true,
    }))
}

/// Whether a list is quiet: its items are, and no rule applies to it.
#[verifier::opaque]
pub open spec fn quiet_pats(s: Seq<PatV>) -> bool
    decreases s,
{
    (forall|i: int| 0 <= i < s.len() ==> quiet_pat((#[trigger] s[i])))
}

/// Whether a list is quiet: its items are, and no rule applies to it.
#[verifier::opaque]
pub open spec fn quiet_prop_or_spreads(s: Seq<PropOrSpreadV>) -> bool
    decreases s,
{
    (forall|i: int| 0 <= i < s.len() ==> quiet_prop_or_spread((#[trigger] s[i])))
}

/// Whether a list is quiet: its items are, and no rule applies to it.
#[verifier::opaque]
pub open spec fn quiet_stmts(s: Seq<StmtV>) -> bool
    decreases s,
{
    (forall|i: int| 0 <= i < s.len() ==> quiet_stmt((#[trigger] s[i]))) && simplified_list(s) == s
}

/// Whether a list is quiet: its items are, and no rule applies to it.
#[verifier::opaque]
pub open spec fn quiet_switch_cases(s: Seq<SwitchCaseV>) -> bool
    decreases s,
{
    (forall|i: int| 0 <= i < s.len() ==> quiet_switch_case((#[trigger] s[i])))
}

/// Whether a list is quiet: its items are, and no rule applies to it.
#[verifier::opaque]
pub open spec fn quiet_var_declarators(s: Seq<VarDeclaratorV>) -> bool
    decreases s,
{
    (forall|i: int| 0 <= i < s.len() ==> quiet_var_declarator((#[trigger] s[i])))
}

/// What [`quiet_tpl`] is, one level down.
pub proof fn lemma_quiet_tpl_is(x: TplV)
    ensures
        quiet_tpl(x) == (quiet_exprs(x.exprs)),
{
    reveal(quiet_tpl);
    reveal(quiet_exprs);
}

/// The rules leave a [`Tpl`] as it is where none of them applies to it.
pub proof fn lemma_quiet_tpl(x: TplV)
    requires
        quiet_tpl(x),
    ensures
        folded_tpl(x) == x,
    decreases x,
{
    reveal(quiet_tpl);
    reveal(quiet_exprs);
    lemma_folded_tpl(x);
    lemma_quiet_exprs(x.exprs);
}

/// What [`quiet_expr_or_spread`] is, one level down.
pub proof fn lemma_quiet_expr_or_spread_is(x: ExprOrSpreadV)
    ensures
        quiet_expr_or_spread(x) == (quiet_expr(x.expr)),
{
    reveal(quiet_expr_or_spread);
    reveal(quiet_expr);
}

/// The rules leave a [`ExprOrSpread`] as it is where none of them applies to it.
pub proof fn lemma_quiet_expr_or_spread(x: ExprOrSpreadV)
    requires
        quiet_expr_or_spread(x),
    ensures
        folded_expr_or_spread(x) == x,
    decreases x,
{
    reveal(quiet_expr_or_spread);
    reveal(quiet_expr);
    lemma_folded_expr_or_spread(x);
    lemma_quiet_expr(x.expr);
}

/// What [`quiet_expr_or_super`] is, one level down.
pub proof fn lemma_quiet_expr_or_super_is(x: ExprOrSuperV)
    ensures
        quiet_expr_or_super(x) == (match x {
            ExprOrSuperV::Super => true,
            ExprOrSuperV::Expr(a) => quiet_expr(*a),
        }),
{
    reveal(quiet_expr_or_super);
    reveal(quiet_expr);
}

/// The rules leave a [`ExprOrSuper`] as it is where none of them applies to it.
pub proof fn lemma_quiet_expr_or_super(x: ExprOrSuperV)
    requires
        quiet_expr_or_super(x),
    ensures
        folded_expr_or_super(x) == x,
    decreases x,
{
    reveal(quiet_expr_or_super);
    reveal(quiet_expr);
    lemma_folded_expr_or_super(x);
    match x {
        ExprOrSuperV::Super => {},
        ExprOrSuperV::Expr(a) => {
            lemma_quiet_expr(*a);
        },
    }
}

/// What [`quiet_member_prop`] is, one level down.
pub proof fn lemma_quiet_member_prop_is(x: MemberPropV)
    ensures
        quiet_member_prop(x) == (match x {
            MemberPropV::Ident(_) => true,
            MemberPropV::Computed(a) => quiet_expr(*a),
        }),
{
    reveal(quiet_member_prop);
    reveal(quiet_expr);
}

/// The rules leave a [`MemberProp`] as it is where none of them applies to it.
pub proof fn lemma_quiet_member_prop(x: MemberPropV)
    requires
        quiet_member_prop(x),
    ensures
        folded_member_prop(x) == x,
    decreases x,
{
    reveal(quiet_member_prop);
    reveal(quiet_expr);
    lemma_folded_member_prop(x);
    match x {
        MemberPropV::Ident(_) => {},
        MemberPropV::Computed(a) => {
            lemma_quiet_expr(*a);
        },
    }
}

/// What [`quiet_pat_or_expr`] is, one level down.
pub proof fn lemma_quiet_pat_or_expr_is(x: PatOrExprV)
    ensures
        quiet_pat_or_expr(x) == (match x {
            PatOrExprV::Expr(a) => quiet_expr(*a),
            PatOrExprV::Pat(a) => quiet_pat(*a),
        }),
{
    reveal(quiet_pat_or_expr);
    reveal(quiet_expr);
    reveal(quiet_pat);
}

/// The rules leave a [`PatOrExpr`] as it is where none of them applies to it.
pub proof fn lemma_quiet_pat_or_expr(x: PatOrExprV)
    requires
        quiet_pat_or_expr(x),
    ensures
        folded_pat_or_expr(x) == x,
    decreases x,
{
    reveal(quiet_pat_or_expr);
    reveal(quiet_expr);
    reveal(quiet_pat);
    lemma_folded_pat_or_expr(x);
    match x {
        PatOrExprV::Expr(a) => {
            lemma_quiet_expr(*a);
        },
        PatOrExprV::Pat(a) => {
            lemma_quiet_pat(*a);
        },
    }
}

/// What [`quiet_prop_name`] is, one level down.
pub proof fn lemma_quiet_prop_name_is(x: PropNameV)
    ensures
        quiet_prop_name(x) == (match x {
            PropNameV::Ident(_) => true,
            PropNameV::Str(_) => true,
            PropNameV::Num(_) => true,
            PropNameV::Computed(a) => quiet_expr(*a),
        }),
{
    reveal(quiet_prop_name);
    reveal(quiet_expr);
}

/// The rules leave a [`PropName`] as it is where none of them applies to it.
pub proof fn lemma_quiet_prop_name(x: PropNameV)
    requires
        quiet_prop_name(x),
    ensures
        folded_prop_name(x) == x,
    decreases x,
{
    reveal(quiet_prop_name);
    reveal(quiet_expr);
    lemma_folded_prop_name(x);
    match x {
        PropNameV::Ident(_) => {},
        PropNameV::Str(_) => {},
        PropNameV::Num(_) => {},
        PropNameV::Computed(a) => {
            lemma_quiet_expr(*a);
        },
    }
}

/// What [`quiet_prop`] is, one level down.
pub proof fn lemma_quiet_prop_is(x: PropV)
    ensures
        quiet_prop(x) == (match x {
            PropV::Shorthand(_) => true,
            PropV::KeyValue { key, value } => quiet_prop_name(key) && quiet_expr(*value),
            PropV::Getter { key, body } => quiet_prop_name(key) && (match body {
                Some(x) => quiet_stmts(x),
                None => true,
            }),
            PropV::Setter { key, param, body } => quiet_prop_name(key) && quiet_pat(param) && (match body {
                Some(x) => quiet_stmts(x),
                None => true,
            }),
            PropV::Method { key, function } => quiet_prop_name(key) && quiet_function(function),
        }),
{
    reveal(quiet_prop);
    reveal(quiet_prop_name);
    reveal(quiet_expr);
    reveal(quiet_stmts);
    reveal(quiet_pat);
    reveal(quiet_function);
}

/// The rules leave a [`Prop`] as it is where none of them applies to it.
pub proof fn lemma_quiet_prop(x: PropV)
    requires
        quiet_prop(x),
    ensures
        folded_prop(x) == x,
    decreases x,
{
    reveal(quiet_prop);
    reveal(quiet_prop_name);
    reveal(quiet_expr);
    reveal(quiet_stmts);
    reveal(quiet_pat);
    reveal(quiet_function);
    lemma_folded_prop(x);
    match x {
        PropV::Shorthand(_) => {},
        PropV::KeyValue { key, value } => {
            lemma_quiet_prop_name(key);
            lemma_quiet_expr(*value);
        },
        PropV::Getter { key, body } => {
            lemma_quiet_prop_name(key);
            match body {
                Some(x) => {
                    lemma_quiet_stmts(x);
                },
                None => {},
            }
        },
        PropV::Setter { key, param, body } => {
            lemma_quiet_prop_name(key);
            lemma_quiet_pat(param);
            match body {
                Some(x) => {
                    lemma_quiet_stmts(x);
                },
                None => {},
            }
        },
        PropV::Method { key, function } => {
            lemma_quiet_prop_name(key);
            lemma_quiet_function(function);
        },
    }
}

/// What [`quiet_prop_or_spread`] is, one level down.
pub proof fn lemma_quiet_prop_or_spread_is(x: PropOrSpreadV)
    ensures
        quiet_prop_or_spread(x) == (match x {
            PropOrSpreadV::Spread(a) => quiet_expr(*a),
            PropOrSpreadV::Prop(a) => quiet_prop(*a),
        }),
{
    reveal(quiet_prop_or_spread);
    reveal(quiet_expr);
    reveal(quiet_prop);
}

/// The rules leave a [`PropOrSpread`] as it is where none of them applies to it.
pub proof fn lemma_quiet_prop_or_spread(x: PropOrSpreadV)
    requires
        quiet_prop_or_spread(x),
    ensures
        folded_prop_or_spread(x) == x,
    decreases x,
{
    reveal(quiet_prop_or_spread);
    reveal(quiet_expr);
    reveal(quiet_prop);
    lemma_folded_prop_or_spread(x);
    match x {
        PropOrSpreadV::Spread(a) => {
            lemma_quiet_expr(*a);
        },
        PropOrSpreadV::Prop(a) => {
            lemma_quiet_prop(*a);
        },
    }
}

/// What [`quiet_function`] is, one level down.
pub proof fn lemma_quiet_function_is(x: FunctionV)
    ensures
        quiet_function(x) == (quiet_pats(x.params)
        && (match x.body {
            Some(x) => quiet_stmts(x),
            None => true,
        })),
{
    reveal(quiet_function);
    reveal(quiet_pats);
    reveal(quiet_stmts);
}

/// The rules leave a [`Function`] as it is where none of them applies to it.
pub proof fn lemma_quiet_function(x: FunctionV)
    requires
        quiet_function(x),
    ensures
        folded_function(x) == x,
    decreases x,
{
    reveal(quiet_function);
    reveal(quiet_pats);
    reveal(quiet_stmts);
    lemma_folded_function(x);
    lemma_quiet_pats(x.params);
    match x.body {
        Some(x) => {
            lemma_quiet_stmts(x);
        },
        None => {},
    }
}

/// What [`quiet_class`] is, one level down.
pub proof fn lemma_quiet_class_is(x: ClassV)
    ensures
        quiet_class(x) == ((match x.super_class {
            Some(x) => quiet_expr(*x),
            None => true,
        })
        && quiet_class_members(x.body)),
{
    reveal(quiet_class);
    reveal(quiet_expr);
    reveal(quiet_class_members);
}

/// The rules leave a [`Class`] as it is where none of them applies to it.
pub proof fn lemma_quiet_class(x: ClassV)
    requires
        quiet_class(x),
    ensures
        folded_class(x) == x,
    decreases x,
{
    reveal(quiet_class);
    reveal(quiet_expr);
    reveal(quiet_class_members);
    lemma_folded_class(x);
    match x.super_class {
        Some(x) => {
            lemma_quiet_expr(*x);
        },
        None => {},
    }
    lemma_quiet_class_members(x.body);
}

/// What [`quiet_class_member`] is, one level down.
pub proof fn lemma_quiet_class_member_is(x: ClassMemberV)
    ensures
        quiet_class_member(x) == (match x {
            ClassMemberV::Constructor { key, params, body } => quiet_prop_name(key) && quiet_pats(params) && (match body {
                Some(x) => quiet_stmts(x),
                None => true,
            }),
            ClassMemberV::Method { key, function, .. } =>
                quiet_prop_name(key) && quiet_function(function),
            ClassMemberV::Prop { key, value, .. } => quiet_expr(*key) && (match value {
                Some(x) => quiet_expr(*x),
                None => true,
            }),
        }),
{
    reveal(quiet_class_member);
    reveal(quiet_prop_name);
    reveal(quiet_pats);
    reveal(quiet_stmts);
    reveal(quiet_function);
    reveal(quiet_expr);
}

/// The rules leave a [`ClassMember`] as it is where none of them applies to it.
pub proof fn lemma_quiet_class_member(x: ClassMemberV)
    requires
        quiet_class_member(x),
    ensures
        folded_class_member(x) == x,
    decreases x,
{
    reveal(quiet_class_member);
    reveal(quiet_prop_name);
    reveal(quiet_pats);
    reveal(quiet_stmts);
    reveal(quiet_function);
    reveal(quiet_expr);
    lemma_folded_class_member(x);
    match x {
        ClassMemberV::Constructor { key, params, body } => {
            lemma_quiet_prop_name(key);
            lemma_quiet_pats(params);
            match body {
                Some(x) => {
                    lemma_quiet_stmts(x);
                },
                None => {},
            }
        },
        ClassMemberV::Method { key, function, .. } => {
            lemma_quiet_prop_name(key);
            lemma_quiet_function(function);
        },
        ClassMemberV::Prop { key, value, .. } => {
            lemma_quiet_expr(*key);
            match value {
                Some(x) => {
                    lemma_quiet_expr(*x);
                },
                None => {},
            }
        },
    }
}

/// What [`quiet_block_stmt_or_expr`] is, one level down.
pub proof fn lemma_quiet_block_stmt_or_expr_is(x: BlockStmtOrExprV)
    ensures
        quiet_block_stmt_or_expr(x) == (match x {
            BlockStmtOrExprV::Block(a) => quiet_stmts(a),
            BlockStmtOrExprV::Expr(a) => quiet_expr(*a),
        }),
{
    reveal(quiet_block_stmt_or_expr);
    reveal(quiet_stmts);
    reveal(quiet_expr);
}

/// The rules leave a [`BlockStmtOrExpr`] as it is where none of them applies to it.
pub proof fn lemma_quiet_block_stmt_or_expr(x: BlockStmtOrExprV)
    requires
        quiet_block_stmt_or_expr(x),
    ensures
        folded_block_stmt_or_expr(x) == x,
    decreases x,
{
    reveal(quiet_block_stmt_or_expr);
    reveal(quiet_stmts);
    reveal(quiet_expr);
    lemma_folded_block_stmt_or_expr(x);
    match x {
        BlockStmtOrExprV::Block(a) => {
            lemma_quiet_stmts(a);
        },
        BlockStmtOrExprV::Expr(a) => {
            lemma_quiet_expr(*a);
        },
    }
}

/// What [`quiet_expr`] is, one level down.
pub proof fn lemma_quiet_expr_is(x: ExprV)
    ensures
        quiet_expr(x) == (simplified_expr(x) == x && is_quiet_here(x) && quiet_parts_of_expr(x)),
{
    reveal(quiet_expr);
    reveal(quiet_opt_expr_or_spreads);
    reveal(quiet_prop_or_spreads);
    reveal(quiet_function);
    reveal(quiet_pat_or_expr);
    reveal(quiet_expr_or_super);
    reveal(quiet_member_prop);
    reveal(quiet_expr_or_spreads);
    reveal(quiet_exprs);
    reveal(quiet_tpl);
    reveal(quiet_pats);
    reveal(quiet_block_stmt_or_expr);
    reveal(quiet_class);
}

/// The rules leave a [`Expr`] as it is where none of them applies to it.
pub proof fn lemma_quiet_expr(x: ExprV)
    requires
        quiet_expr(x),
    ensures
        folded_expr(x) == x,
    decreases x,
{
    reveal(quiet_expr);
    reveal(quiet_opt_expr_or_spreads);
    reveal(quiet_prop_or_spreads);
    reveal(quiet_function);
    reveal(quiet_pat_or_expr);
    reveal(quiet_expr_or_super);
    reveal(quiet_member_prop);
    reveal(quiet_expr_or_spreads);
    reveal(quiet_exprs);
    reveal(quiet_tpl);
    reveal(quiet_pats);
    reveal(quiet_block_stmt_or_expr);
    reveal(quiet_class);
    lemma_folded_expr(x);
    match x {
        ExprV::This => {},
        ExprV::Array(a) => {
            lemma_quiet_opt_expr_or_spreads(a);
        },
        ExprV::Object(a) => {
            lemma_quiet_prop_or_spreads(a);
        },
        ExprV::Fn { function, .. } => {
            lemma_quiet_function(*function);
        },
        ExprV::Unary { arg, .. } => {
            lemma_quiet_expr(*arg);
        },
        ExprV::Update { arg, .. } => {
            lemma_quiet_expr(*arg);
        },
        ExprV::Bin { left, right, .. } => {
            lemma_quiet_expr(*left);
            lemma_quiet_expr(*right);
        },
        ExprV::Assign { left, right, .. } => {
            lemma_quiet_pat_or_expr(left);
            lemma_quiet_expr(*right);
        },
        ExprV::Member { obj, prop } => {
            lemma_quiet_expr_or_super(obj);
            lemma_quiet_member_prop(prop);
        },
        ExprV::Cond { test, cons, alt } => {
            lemma_quiet_expr(*test);
            lemma_quiet_expr(*cons);
            lemma_quiet_expr(*alt);
        },
        ExprV::Call { callee, args } => {
            lemma_quiet_expr_or_super(callee);
            lemma_quiet_expr_or_spreads(args);
        },
        ExprV::New { callee, args } => {
            lemma_quiet_expr(*callee);
            match args {
                Some(x) => {
                    lemma_quiet_expr_or_spreads(x);
                },
                None => {},
            }
        },
        ExprV::Sequence { init, last } => {
            lemma_quiet_exprs(init);
            lemma_quiet_expr(*last);
        },
        ExprV::Ident(_) => {},
        ExprV::Lit(_) => {},
        ExprV::Tpl(a) => {
            lemma_quiet_tpl(a);
        },
        ExprV::TaggedTpl { tag, tpl } => {
            lemma_quiet_expr(*tag);
            lemma_quiet_tpl(tpl);
        },
        ExprV::Arrow { params, body, .. } => {
            lemma_quiet_pats(params);
            lemma_quiet_block_stmt_or_expr(body);
        },
        ExprV::Class { class, .. } => {
            lemma_quiet_class(*class);
        },
        ExprV::Yield { arg, .. } => {
            match arg {
                Some(x) => {
                    lemma_quiet_expr(*x);
                },
                None => {},
            }
        },
        ExprV::MetaProp { .. } => {},
        ExprV::Await(a) => {
            lemma_quiet_expr(*a);
        },
        ExprV::Paren(a) => {
            lemma_quiet_expr(*a);
        },
        ExprV::Ts { expr, .. } => {
            lemma_quiet_expr(*expr);
        },
        ExprV::OptChain(a) => {
            lemma_quiet_expr(*a);
        },
        ExprV::PrivateName(_) => {},
    }
}

/// What [`quiet_pat`] is, one level down.
pub proof fn lemma_quiet_pat_is(x: PatV)
    ensures
        quiet_pat(x) == (simplified_pat(x) == x && quiet_parts_of_pat(x)),
{
    reveal(quiet_pat);
    reveal(quiet_opt_pats);
    reveal(quiet_object_pat_props);
    reveal(quiet_expr);
}

/// The rules leave a [`Pat`] as it is where none of them applies to it.
pub proof fn lemma_quiet_pat(x: PatV)
    requires
        quiet_pat(x),
    ensures
        folded_pat(x) == x,
    decreases x,
{
    reveal(quiet_pat);
    reveal(quiet_opt_pats);
    reveal(quiet_object_pat_props);
    reveal(quiet_expr);
    lemma_folded_pat(x);
    match x {
        PatV::Ident(_) => {},
        PatV::Array(a) => {
            lemma_quiet_opt_pats(a);
        },
        PatV::Rest(a) => {
            lemma_quiet_pat(*a);
        },
        PatV::Object(a) => {
            lemma_quiet_object_pat_props(a);
        },
        PatV::Assign { left, right } => {
            lemma_quiet_pat(*left);
            lemma_quiet_expr(*right);
        },
        PatV::Expr(a) => {
            lemma_quiet_expr(*a);
        },
    }
}

/// What [`quiet_object_pat_prop`] is, one level down.
pub proof fn lemma_quiet_object_pat_prop_is(x: ObjectPatPropV)
    ensures
        quiet_object_pat_prop(x)
            == (simplified_object_pat_prop(x) == x && quiet_parts_of_object_pat_prop(x)),
{
    reveal(quiet_object_pat_prop);
    reveal(quiet_prop_name);
    reveal(quiet_pat);
    reveal(quiet_expr);
}

/// The rules leave a [`ObjectPatProp`] as it is where none of them applies to it.
pub proof fn lemma_quiet_object_pat_prop(x: ObjectPatPropV)
    requires
        quiet_object_pat_prop(x),
    ensures
        folded_object_pat_prop(x) == x,
    decreases x,
{
    reveal(quiet_object_pat_prop);
    reveal(quiet_prop_name);
    reveal(quiet_pat);
    reveal(quiet_expr);
    lemma_folded_object_pat_prop(x);
    match x {
        ObjectPatPropV::KeyValue { key, value } => {
            lemma_quiet_prop_name(key);
            lemma_quiet_pat(*value);
        },
        ObjectPatPropV::Assign { value, .. } => {
            match value {
                Some(x) => {
                    lemma_quiet_expr(*x);
                },
                None => {},
            }
        },
        ObjectPatPropV::Rest(a) => {
            lemma_quiet_pat(*a);
        },
    }
}

/// What [`quiet_var_declarator`] is, one level down.
pub proof fn lemma_quiet_var_declarator_is(x: VarDeclaratorV)
    ensures
        quiet_var_declarator(x) == (quiet_pat(x.name)
        && (match x.init {
            Some(x) => quiet_expr(*x),
            None => true,
        })),
{
    reveal(quiet_var_declarator);
    reveal(quiet_pat);
    reveal(quiet_expr);
}

/// The rules leave a [`VarDeclarator`] as it is where none of them applies to it.
pub proof fn lemma_quiet_var_declarator(x: VarDeclaratorV)
    requires
        quiet_var_declarator(x),
    ensures
        folded_var_declarator(x) == x,
    decreases x,
{
    reveal(quiet_var_declarator);
    reveal(quiet_pat);
    reveal(quiet_expr);
    lemma_folded_var_declarator(x);
    lemma_quiet_pat(x.name);
    match x.init {
        Some(x) => {
            lemma_quiet_expr(*x);
        },
        None => {},
    }
}

/// What [`quiet_var_decl`] is, one level down.
pub proof fn lemma_quiet_var_decl_is(x: VarDeclV)
    ensures
        quiet_var_decl(x) == (quiet_var_declarators(x.decls)),
{
    reveal(quiet_var_decl);
    reveal(quiet_var_declarators);
}

/// The rules leave a [`VarDecl`] as it is where none of them applies to it.
pub proof fn lemma_quiet_var_decl(x: VarDeclV)
    requires
        quiet_var_decl(x),
    ensures
        folded_var_decl(x) == x,
    decreases x,
{
    reveal(quiet_var_decl);
    reveal(quiet_var_declarators);
    lemma_folded_var_decl(x);
    lemma_quiet_var_declarators(x.decls);
}

/// What [`quiet_decl`] is, one level down.
pub proof fn lemma_quiet_decl_is(x: DeclV)
    ensures
        quiet_decl(x) == (match x {
            DeclV::Class { class, .. } => quiet_class(class),
            DeclV::Fn { function, .. } => quiet_function(function),
            DeclV::Var(a) => quiet_var_decl(a),
        }),
{
    reveal(quiet_decl);
    reveal(quiet_class);
    reveal(quiet_function);
    reveal(quiet_var_decl);
}

/// The rules leave a [`Decl`] as it is where none of them applies to it.
pub proof fn lemma_quiet_decl(x: DeclV)
    requires
        quiet_decl(x),
    ensures
        folded_decl(x) == x,
    decreases x,
{
    reveal(quiet_decl);
    reveal(quiet_class);
    reveal(quiet_function);
    reveal(quiet_var_decl);
    lemma_folded_decl(x);
    match x {
        DeclV::Class { class, .. } => {
            lemma_quiet_class(class);
        },
        DeclV::Fn { function, .. } => {
            lemma_quiet_function(function);
        },
        DeclV::Var(a) => {
            lemma_quiet_var_decl(a);
        },
    }
}

/// What [`quiet_var_decl_or_expr`] is, one level down.
pub proof fn lemma_quiet_var_decl_or_expr_is(x: VarDeclOrExprV)
    ensures
        quiet_var_decl_or_expr(x) == (match x {
            VarDeclOrExprV::VarDecl(a) => quiet_var_decl(a),
            VarDeclOrExprV::Expr(a) => quiet_expr(*a),
        }),
{
    reveal(quiet_var_decl_or_expr);
    reveal(quiet_var_decl);
    reveal(quiet_expr);
}

/// The rules leave a [`VarDeclOrExpr`] as it is where none of them applies to it.
pub proof fn lemma_quiet_var_decl_or_expr(x: VarDeclOrExprV)
    requires
        quiet_var_decl_or_expr(x),
    ensures
        folded_var_decl_or_expr(x) == x,
    decreases x,
{
    reveal(quiet_var_decl_or_expr);
    reveal(quiet_var_decl);
    reveal(quiet_expr);
    lemma_folded_var_decl_or_expr(x);
    match x {
        VarDeclOrExprV::VarDecl(a) => {
            lemma_quiet_var_decl(a);
        },
        VarDeclOrExprV::Expr(a) => {
            lemma_quiet_expr(*a);
        },
    }
}

/// What [`quiet_var_decl_or_pat`] is, one level down.
pub proof fn lemma_quiet_var_decl_or_pat_is(x: VarDeclOrPatV)
    ensures
        quiet_var_decl_or_pat(x) == (match x {
            VarDeclOrPatV::VarDecl(a) => quiet_var_decl(a),
            VarDeclOrPatV::Pat(a) => quiet_pat(a),
        }),
{
    reveal(quiet_var_decl_or_pat);
    reveal(quiet_var_decl);
    reveal(quiet_pat);
}

/// The rules leave a [`VarDeclOrPat`] as it is where none of them applies to it.
pub proof fn lemma_quiet_var_decl_or_pat(x: VarDeclOrPatV)
    requires
        quiet_var_decl_or_pat(x),
    ensures
        folded_var_decl_or_pat(x) == x,
    decreases x,
{
    reveal(quiet_var_decl_or_pat);
    reveal(quiet_var_decl);
    reveal(quiet_pat);
    lemma_folded_var_decl_or_pat(x);
    match x {
        VarDeclOrPatV::VarDecl(a) => {
            lemma_quiet_var_decl(a);
        },
        VarDeclOrPatV::Pat(a) => {
            lemma_quiet_pat(a);
        },
    }
}

/// What [`quiet_switch_case`] is, one level down.
pub proof fn lemma_quiet_switch_case_is(x: SwitchCaseV)
    ensures
        quiet_switch_case(x) == ((match x.test {
            Some(x) => quiet_expr(*x),
            None => true,
        })
        && quiet_stmts(x.cons)),
{
    reveal(quiet_switch_case);
    reveal(quiet_expr);
    reveal(quiet_stmts);
}

/// The rules leave a [`SwitchCase`] as it is where none of them applies to it.
pub proof fn lemma_quiet_switch_case(x: SwitchCaseV)
    requires
        quiet_switch_case(x),
    ensures
        folded_switch_case(x) == x,
    decreases x,
{
    reveal(quiet_switch_case);
    reveal(quiet_expr);
    reveal(quiet_stmts);
    lemma_folded_switch_case(x);
    match x.test {
        Some(x) => {
            lemma_quiet_expr(*x);
        },
        None => {},
    }
    lemma_quiet_stmts(x.cons);
}

/// What [`quiet_catch_clause`] is, one level down.
pub proof fn lemma_quiet_catch_clause_is(x: CatchClauseV)
    ensures
        quiet_catch_clause(x) == ((match x.param {
            Some(x) => quiet_pat(x),
            None => true,
        })
        && quiet_stmts(x.body)),
{
    reveal(quiet_catch_clause);
    reveal(quiet_pat);
    reveal(quiet_stmts);
}

/// The rules leave a [`CatchClause`] as it is where none of them applies to it.
pub proof fn lemma_quiet_catch_clause(x: CatchClauseV)
    requires
        quiet_catch_clause(x),
    ensures
        folded_catch_clause(x) == x,
    decreases x,
{
    reveal(quiet_catch_clause);
    reveal(quiet_pat);
    reveal(quiet_stmts);
    lemma_folded_catch_clause(x);
    match x.param {
        Some(x) => {
            lemma_quiet_pat(x);
        },
        None => {},
    }
    lemma_quiet_stmts(x.body);
}

/// What [`quiet_stmt`] is, one level down.
pub proof fn lemma_quiet_stmt_is(x: StmtV)
    ensures
        quiet_stmt(x)
            == (simplified_stmt(x) == x && is_quiet_stmt_here(x) && quiet_parts_of_stmt(x)),
{
    reveal(quiet_stmt);
    reveal(quiet_stmts);
    reveal(quiet_expr);
    reveal(quiet_switch_cases);
    reveal(quiet_catch_clause);
    reveal(quiet_var_decl_or_expr);
    reveal(quiet_var_decl_or_pat);
    reveal(quiet_decl);
}

/// The rules leave a [`Stmt`] as it is where none of them applies to it.
pub proof fn lemma_quiet_stmt(x: StmtV)
    requires
        quiet_stmt(x),
    ensures
        folded_stmt(x) == x,
    decreases x,
{
    reveal(quiet_stmt);
    reveal(quiet_stmts);
    reveal(quiet_expr);
    reveal(quiet_switch_cases);
    reveal(quiet_catch_clause);
    reveal(quiet_var_decl_or_expr);
    reveal(quiet_var_decl_or_pat);
    reveal(quiet_decl);
    lemma_folded_stmt(x);
    match x {
        StmtV::Block(a) => {
            lemma_quiet_stmts(a);
        },
        StmtV::Empty => {},
        StmtV::Debugger => {},
        StmtV::With { obj, body } => {
            lemma_quiet_expr(*obj);
            lemma_quiet_stmt(*body);
        },
        StmtV::Return(a) => {
            match a {
                Some(x) => {
                    lemma_quiet_expr(*x);
                },
                None => {},
            }
        },
        StmtV::Labeled { body, .. } => {
            lemma_quiet_stmt(*body);
        },
        StmtV::Break(_) => {},
        StmtV::Continue(_) => {},
        StmtV::If { test, cons, alt } => {
            lemma_quiet_expr(*test);
            lemma_quiet_stmt(*cons);
            match alt {
                Some(x) => {
                    lemma_quiet_stmt(*x);
                },
                None => {},
            }
        },
        StmtV::Switch { discriminant, cases } => {
            lemma_quiet_expr(*discriminant);
            lemma_quiet_switch_cases(cases);
        },
        StmtV::Throw(a) => {
            lemma_quiet_expr(*a);
        },
        StmtV::Try { block, handler, finalizer } => {
            lemma_quiet_stmts(block);
            match handler {
                Some(x) => {
                    lemma_quiet_catch_clause(x);
                },
                None => {},
            }
            match finalizer {
                Some(x) => {
                    lemma_quiet_stmts(x);
                },
                None => {},
            }
        },
        StmtV::While { test, body } => {
            lemma_quiet_expr(*test);
            lemma_quiet_stmt(*body);
        },
        StmtV::DoWhile { test, body } => {
            lemma_quiet_expr(*test);
            lemma_quiet_stmt(*body);
        },
        StmtV::For { init, test, update, body } => {
            match init {
                Some(x) => {
                    lemma_quiet_var_decl_or_expr(x);
                },
                None => {},
            }
            match test {
                Some(x) => {
                    lemma_quiet_expr(*x);
                },
                None => {},
            }
            match update {
                Some(x) => {
                    lemma_quiet_expr(*x);
                },
                None => {},
            }
            lemma_quiet_stmt(*body);
        },
        StmtV::ForIn { left, right, body } => {
            lemma_quiet_var_decl_or_pat(left);
            lemma_quiet_expr(*right);
            lemma_quiet_stmt(*body);
        },
        StmtV::ForOf { left, right, body, .. } => {
            lemma_quiet_var_decl_or_pat(left);
            lemma_quiet_expr(*right);
            lemma_quiet_stmt(*body);
        },
        StmtV::Decl(a) => {
            lemma_quiet_decl(a);
        },
        StmtV::Expr(a) => {
            lemma_quiet_expr(*a);
        },
    }
}

/// What [`quiet_default_decl`] is, one level down.
pub proof fn lemma_quiet_default_decl_is(x: DefaultDeclV)
    ensures
        quiet_default_decl(x) == (match x {
            DefaultDeclV::Class { class, .. } => quiet_class(class),
            DefaultDeclV::Fn { function, .. } => quiet_function(function),
        }),
{
    reveal(quiet_default_decl);
    reveal(quiet_class);
    reveal(quiet_function);
}

/// The rules leave a [`DefaultDecl`] as it is where none of them applies to it.
pub proof fn lemma_quiet_default_decl(x: DefaultDeclV)
    requires
        quiet_default_decl(x),
    ensures
        folded_default_decl(x) == x,
    decreases x,
{
    reveal(quiet_default_decl);
    reveal(quiet_class);
    reveal(quiet_function);
    lemma_folded_default_decl(x);
    match x {
        DefaultDeclV::Class { class, .. } => {
            lemma_quiet_class(class);
        },
        DefaultDeclV::Fn { function, .. } => {
            lemma_quiet_function(function);
        },
    }
}

/// What [`quiet_module_decl`] is, one level down.
pub proof fn lemma_quiet_module_decl_is(x: ModuleDeclV)
    ensures
        quiet_module_decl(x) == (match x {
            ModuleDeclV::Import { .. } => true,
            ModuleDeclV::ExportDecl(a) => quiet_decl(a),
            ModuleDeclV::ExportNamed { .. } => true,
            ModuleDeclV::ExportDefaultDecl(a) => quiet_default_decl(a),
            ModuleDeclV::ExportDefaultExpr(a) => quiet_expr(*a),
            ModuleDeclV::ExportAll { .. } => true,
        }),
{
    reveal(quiet_module_decl);
    reveal(quiet_decl);
    reveal(quiet_default_decl);
    reveal(quiet_expr);
}

/// The rules leave a [`ModuleDecl`] as it is where none of them applies to it.
pub proof fn lemma_quiet_module_decl(x: ModuleDeclV)
    requires
        quiet_module_decl(x),
    ensures
        folded_module_decl(x) == x,
    decreases x,
{
    reveal(quiet_module_decl);
    reveal(quiet_decl);
    reveal(quiet_default_decl);
    reveal(quiet_expr);
    lemma_folded_module_decl(x);
    match x {
        ModuleDeclV::Import { .. } => {},
        ModuleDeclV::ExportDecl(a) => {
            lemma_quiet_decl(a);
        },
        ModuleDeclV::ExportNamed { .. } => {},
        ModuleDeclV::ExportDefaultDecl(a) => {
            lemma_quiet_default_decl(a);
        },
        ModuleDeclV::ExportDefaultExpr(a) => {
            lemma_quiet_expr(*a);
        },
        ModuleDeclV::ExportAll { .. } => {},
    }
}

/// What [`quiet_module_item`] is, one level down.
pub proof fn lemma_quiet_module_item_is(x: ModuleItemV)
    ensures
        quiet_module_item(x) == (match x {
            ModuleItemV::ModuleDecl(a) => quiet_module_decl(a),
            ModuleItemV::Stmt(a) => quiet_stmt(a),
        }),
{
    reveal(quiet_module_item);
    reveal(quiet_module_decl);
    reveal(quiet_stmt);
}

/// The rules leave a [`ModuleItem`] as it is where none of them applies to it.
pub proof fn lemma_quiet_module_item(x: ModuleItemV)
    requires
        quiet_module_item(x),
    ensures
        folded_module_item(x) == x,
    decreases x,
{
    reveal(quiet_module_item);
    reveal(quiet_module_decl);
    reveal(quiet_stmt);
    lemma_folded_module_item(x);
    match x {
        ModuleItemV::ModuleDecl(a) => {
            lemma_quiet_module_decl(a);
        },
        ModuleItemV::Stmt(a) => {
            lemma_quiet_stmt(a);
        },
    }
}

/// What [`quiet_module`] is, one level down.
pub proof fn lemma_quiet_module_is(x: ModuleV)
    ensures
        quiet_module(x) == (quiet_module_items(x.body)),
{
    reveal(quiet_module);
    reveal(quiet_module_items);
}

/// The rules leave a [`Module`] as it is where none of them applies to it.
pub proof fn lemma_quiet_module(x: ModuleV)
    requires
        quiet_module(x),
    ensures
        folded_module(x) == x,
    decreases x,
{
    reveal(quiet_module);
    reveal(quiet_module_items);
    lemma_folded_module(x);
    lemma_quiet_module_items(x.body);
}

/// What [`quiet_class_members`] is, one item down.
pub proof fn lemma_quiet_class_members_is(s: Seq<ClassMemberV>)
    ensures
        quiet_class_members(s)
            == ((forall|i: int| 0 <= i < s.len() ==> quiet_class_member((#[trigger] s[i])))),
{
    reveal(quiet_class_members);
    reveal(quiet_class_member);
}

/// The rules leave a list as it is where none of them applies to it.
pub proof fn lemma_quiet_class_members(s: Seq<ClassMemberV>)
    requires
        quiet_class_members(s),
    ensures
        folded_class_members(s) == s,
    decreases s,
{
    reveal(quiet_class_members);
    reveal(quiet_class_member);
    lemma_folded_class_members(s);
    assert forall|i: int| 0 <= i < s.len() implies (#[trigger] folded_class_members(s)[i]) == s[i] by {
        lemma_quiet_class_member(s[i]);
    }
    assert(folded_class_members(s) =~= s);
}

/// What [`quiet_expr_or_spreads`] is, one item down.
pub proof fn lemma_quiet_expr_or_spreads_is(s: Seq<ExprOrSpreadV>)
    ensures
        quiet_expr_or_spreads(s)
            == ((forall|i: int| 0 <= i < s.len() ==> quiet_expr_or_spread((#[trigger] s[i])))),
{
    reveal(quiet_expr_or_spreads);
    reveal(quiet_expr_or_spread);
}

/// The rules leave a list as it is where none of them applies to it.
pub proof fn lemma_quiet_expr_or_spreads(s: Seq<ExprOrSpreadV>)
    requires
        quiet_expr_or_spreads(s),
    ensures
        folded_expr_or_spreads(s) == s,
    decreases s,
{
    reveal(quiet_expr_or_spreads);
    reveal(quiet_expr_or_spread);
    lemma_folded_expr_or_spreads(s);
    assert forall|i: int| 0 <= i < s.len() implies (#[trigger] folded_expr_or_spreads(s)[i]) == s[i] by {
        lemma_quiet_expr_or_spread(s[i]);
    }
    assert(folded_expr_or_spreads(s) =~= s);
}

/// What [`quiet_exprs`] is, one item down.
pub proof fn lemma_quiet_exprs_is(s: Seq<ExprV>)
    ensures
        quiet_exprs(s) == ((forall|i: int| 0 <= i < s.len() ==> quiet_expr((#[trigger] s[i])))),
{
    reveal(quiet_exprs);
    reveal(quiet_expr);
}

/// The rules leave a list as it is where none of them applies to it.
pub proof fn lemma_quiet_exprs(s: Seq<ExprV>)
    requires
        quiet_exprs(s),
    ensures
        folded_exprs(s) == s,
    decreases s,
{
    reveal(quiet_exprs);
    reveal(quiet_expr);
    lemma_folded_exprs(s);
    assert forall|i: int| 0 <= i < s.len() implies (#[trigger] folded_exprs(s)[i]) == s[i] by {
        lemma_quiet_expr(s[i]);
    }
    assert(folded_exprs(s) =~= s);
}

/// What [`quiet_module_items`] is, one item down.
pub proof fn lemma_quiet_module_items_is(s: Seq<ModuleItemV>)
    ensures
        quiet_module_items(s)
            == ((forall|i: int| 0 <= i < s.len() ==> quiet_module_item((#[trigger] s[i]))) && simplified_items(s) == s),
{
    reveal(quiet_module_items);
    reveal(quiet_module_item);
}

/// The rules leave a list as it is where none of them applies to it.
pub proof fn lemma_quiet_module_items(s: Seq<ModuleItemV>)
    requires
        quiet_module_items(s),
    ensures
        folded_module_items(s) == s,
    decreases s,
{
    reveal(quiet_module_items);
    reveal(quiet_module_item);
    lemma_folded_each_module_items(s);
    lemma_folded_module_items(s);
    assert forall|i: int| 0 <= i < s.len() implies (#[trigger] folded_each_module_items(s)[i]) == s[i] by {
        lemma_quiet_module_item(s[i]);
    }
    assert(folded_each_module_items(s) =~= s);
}

/// What [`quiet_object_pat_props`] is, one item down.
pub proof fn lemma_quiet_object_pat_props_is(s: Seq<ObjectPatPropV>)
    ensures
        quiet_object_pat_props(s)
            == ((forall|i: int| 0 <= i < s.len() ==> quiet_object_pat_prop((#[trigger] s[i])))),
{
    reveal(quiet_object_pat_props);
    reveal(quiet_object_pat_prop);
}

/// The rules leave a list as it is where none of them applies to it.
pub proof fn lemma_quiet_object_pat_props(s: Seq<ObjectPatPropV>)
    requires
        quiet_object_pat_props(s),
    ensures
        folded_object_pat_props(s) == s,
    decreases s,
{
    reveal(quiet_object_pat_props);
    reveal(quiet_object_pat_prop);
    lemma_folded_object_pat_props(s);
    assert forall|i: int| 0 <= i < s.len() implies (#[trigger] folded_object_pat_props(s)[i]) == s[i] by {
        lemma_quiet_object_pat_prop(s[i]);
    }
    assert(folded_object_pat_props(s) =~= s);
}

/// What [`quiet_opt_expr_or_spreads`] is, one item down.
pub proof fn lemma_quiet_opt_expr_or_spreads_is(s: Seq<Option<ExprOrSpreadV>>)
    ensures
        quiet_opt_expr_or_spreads(s)
            == ((forall|i: int| 0 <= i < s.len() ==> (match (#[trigger] s[i]) {
            Some(x) => quiet_expr_or_spread(x),
            None => true,
        }))),
{
    reveal(quiet_opt_expr_or_spreads);
    reveal(quiet_expr_or_spread);
}

/// The rules leave a list as it is where none of them applies to it.
pub proof fn lemma_quiet_opt_expr_or_spreads(s: Seq<Option<ExprOrSpreadV>>)
    requires
        quiet_opt_expr_or_spreads(s),
    ensures
        folded_opt_expr_or_spreads(s) == s,
    decreases s,
{
    reveal(quiet_opt_expr_or_spreads);
    reveal(quiet_expr_or_spread);
    lemma_folded_opt_expr_or_spreads(s);
    assert forall|i: int| 0 <= i < s.len() implies (#[trigger] folded_opt_expr_or_spreads(s)[i]) == s[i] by {
        match s[i] {
            Some(x) => lemma_quiet_expr_or_spread(x),
            None => {},
        }
    }
    assert(folded_opt_expr_or_spreads(s) =~= s);
}

/// What [`quiet_opt_pats`] is, one item down.
pub proof fn lemma_quiet_opt_pats_is(s: Seq<Option<PatV>>)
    ensures
        quiet_opt_pats(s) == ((forall|i: int| 0 <= i < s.len() ==> (match (#[trigger] s[i]) {
            Some(x) => quiet_pat(x),
            None => true,
        }))),
{
    reveal(quiet_opt_pats);
    reveal(quiet_pat);
}

/// The rules leave a list as it is where none of them applies to it.
pub proof fn lemma_quiet_opt_pats(s: Seq<Option<PatV>>)
    requires
        quiet_opt_pats(s),
    ensures
        folded_opt_pats(s) == s,
    decreases s,
{
    reveal(quiet_opt_pats);
    reveal(quiet_pat);
    lemma_folded_opt_pats(s);
    assert forall|i: int| 0 <= i < s.len() implies (#[trigger] folded_opt_pats(s)[i]) == s[i] by {
        match s[i] {
            Some(x) => lemma_quiet_pat(x),
            None => {},
        }
    }
    assert(folded_opt_pats(s) =~= s);
}

/// What [`quiet_pats`] is, one item down.
pub proof fn lemma_quiet_pats_is(s: Seq<PatV>)
    ensures
        quiet_pats(s) == ((forall|i: int| 0 <= i < s.len() ==> quiet_pat((#[trigger] s[i])))),
{
    reveal(quiet_pats);
    reveal(quiet_pat);
}

/// The rules leave a list as it is where none of them applies to it.
pub proof fn lemma_quiet_pats(s: Seq<PatV>)
    requires
        quiet_pats(s),
    ensures
        folded_pats(s) == s,
    decreases s,
{
    reveal(quiet_pats);
    reveal(quiet_pat);
    lemma_folded_pats(s);
    assert forall|i: int| 0 <= i < s.len() implies (#[trigger] folded_pats(s)[i]) == s[i] by {
        lemma_quiet_pat(s[i]);
    }
    assert(folded_pats(s) =~= s);
}

/// What [`quiet_prop_or_spreads`] is, one item down.
pub proof fn lemma_quiet_prop_or_spreads_is(s: Seq<PropOrSpreadV>)
    ensures
        quiet_prop_or_spreads(s)
            == ((forall|i: int| 0 <= i < s.len() ==> quiet_prop_or_spread((#[trigger] s[i])))),
{
    reveal(quiet_prop_or_spreads);
    reveal(quiet_prop_or_spread);
}

/// The rules leave a list as it is where none of them applies to it.
pub proof fn lemma_quiet_prop_or_spreads(s: Seq<PropOrSpreadV>)
    requires
        quiet_prop_or_spreads(s),
    ensures
        folded_prop_or_spreads(s) == s,
    decreases s,
{
    reveal(quiet_prop_or_spreads);
    reveal(quiet_prop_or_spread);
    lemma_folded_prop_or_spreads(s);
    assert forall|i: int| 0 <= i < s.len() implies (#[trigger] folded_prop_or_spreads(s)[i]) == s[i] by {
        lemma_quiet_prop_or_spread(s[i]);
    }
    assert(folded_prop_or_spreads(s) =~= s);
}

/// What [`quiet_stmts`] is, one item down.
pub proof fn lemma_quiet_stmts_is(s: Seq<StmtV>)
    ensures
        quiet_stmts(s)
            == ((forall|i: int| 0 <= i < s.len() ==> quiet_stmt((#[trigger] s[i]))) && simplified_list(s) == s),
{
    reveal(quiet_stmts);
    reveal(quiet_stmt);
}

/// The rules leave a list as it is where none of them applies to it.
pub proof fn lemma_quiet_stmts(s: Seq<StmtV>)
    requires
        quiet_stmts(s),
    ensures
        folded_stmts(s) == s,
    decreases s,
{
    reveal(quiet_stmts);
    reveal(quiet_stmt);
    lemma_folded_each_stmts(s);
    lemma_folded_stmts(s);
    assert forall|i: int| 0 <= i < s.len() implies (#[trigger] folded_each_stmts(s)[i]) == s[i] by {
        lemma_quiet_stmt(s[i]);
    }
    assert(folded_each_stmts(s) =~= s);
}

/// What [`quiet_switch_cases`] is, one item down.
pub proof fn lemma_quiet_switch_cases_is(s: Seq<SwitchCaseV>)
    ensures
        quiet_switch_cases(s)
            == ((forall|i: int| 0 <= i < s.len() ==> quiet_switch_case((#[trigger] s[i])))),
{
    reveal(quiet_switch_cases);
    reveal(quiet_switch_case);
}

/// The rules leave a list as it is where none of them applies to it.
pub proof fn lemma_quiet_switch_cases(s: Seq<SwitchCaseV>)
    requires
        quiet_switch_cases(s),
    ensures
        folded_switch_cases(s) == s,
    decreases s,
{
    reveal(quiet_switch_cases);
    reveal(quiet_switch_case);
    lemma_folded_switch_cases(s);
    assert forall|i: int| 0 <= i < s.len() implies (#[trigger] folded_switch_cases(s)[i]) == s[i] by {
        lemma_quiet_switch_case(s[i]);
    }
    assert(folded_switch_cases(s) =~= s);
}

/// What [`quiet_var_declarators`] is, one item down.
pub proof fn lemma_quiet_var_declarators_is(s: Seq<VarDeclaratorV>)
    ensures
        quiet_var_declarators(s)
            == ((forall|i: int| 0 <= i < s.len() ==> quiet_var_declarator((#[trigger] s[i])))),
{
    reveal(quiet_var_declarators);
    reveal(quiet_var_declarator);
}

/// The rules leave a list as it is where none of them applies to it.
pub proof fn lemma_quiet_var_declarators(s: Seq<VarDeclaratorV>)
    requires
        quiet_var_declarators(s),
    ensures
        folded_var_declarators(s) == s,
    decreases s,
{
    reveal(quiet_var_declarators);
    reveal(quiet_var_declarator);
    lemma_folded_var_declarators(s);
    assert forall|i: int| 0 <= i < s.len() implies (#[trigger] folded_var_declarators(s)[i]) == s[i] by {
        lemma_quiet_var_declarator(s[i]);
    }
    assert(folded_var_declarators(s) =~= s);
}

} // verus!
