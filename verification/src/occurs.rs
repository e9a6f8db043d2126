//! Every occurrence of a binding in a tree, in the order of the source.

use vstd::prelude::*;
use crate::ast::{
    BlockStmtOrExpr, CatchClause, Class, ClassMember, Decl, DefaultDecl, Expr, ExprOrSpread,
    ExprOrSuper, Function, MemberProp, Module, ModuleDecl, ModuleItem, ObjectPatProp, Pat,
    PatOrExpr, Prop, PropName, PropOrSpread, Stmt, SwitchCase, Tpl, VarDecl, VarDeclOrExpr,
    VarDeclOrPat, VarDeclarator,
};
use crate::model::{
    BlockStmtOrExprV, CatchClauseV, ClassMemberV, ClassV, DeclV, DefaultDeclV, ExprOrSpreadV,
    ExprOrSuperV, ExprV, FunctionV, MemberPropV, ModuleDeclV, ModuleItemV, ModuleV, ObjectPatPropV,
    PatOrExprV, PatV, PropNameV, PropOrSpreadV, PropV, StmtV, SwitchCaseV, TplV, VarDeclOrExprV,
    VarDeclOrPatV, VarDeclV, VarDeclaratorV,
};
use crate::view::{
    class_member_view, class_members_view, expr_or_spread_view, expr_or_spreads_view, expr_view,
    exprs_view, lemma_block_stmt_or_expr_view, lemma_catch_clause_view, lemma_class_member_view,
    lemma_class_members_view, lemma_class_view, lemma_decl_view, lemma_default_decl_view,
    lemma_expr_or_spread_view, lemma_expr_or_spreads_view, lemma_expr_or_super_view,
    lemma_expr_view, lemma_exprs_view, lemma_function_view, lemma_member_prop_view,
    lemma_module_decl_view, lemma_module_item_view, lemma_module_items_view, lemma_module_view,
    lemma_object_pat_prop_view, lemma_object_pat_props_view, lemma_opt_expr_or_spreads_view,
    lemma_opt_pats_view, lemma_pat_or_expr_view, lemma_pat_view, lemma_pats_view,
    lemma_prop_name_view, lemma_prop_or_spread_view, lemma_prop_or_spreads_view, lemma_prop_view,
    lemma_stmt_view, lemma_stmts_view, lemma_switch_case_view, lemma_switch_cases_view,
    lemma_tpl_view, lemma_var_decl_or_expr_view, lemma_var_decl_or_pat_view, lemma_var_decl_view,
    lemma_var_declarator_view, lemma_var_declarators_view, module_item_view, module_items_view,
    object_pat_prop_view, object_pat_props_view, opt_expr_or_spreads_view, opt_pats_view, pat_view,
    pats_view, prop_or_spread_view, prop_or_spreads_view, stmt_view, stmts_view, switch_case_view,
    switch_cases_view, var_declarator_view, var_declarators_view,
};
use crate::usage::{
    Occurrence, OccurrenceV, decl_marks, expr_marks, note_decl, note_expr, note_object_pat_prop,
    note_pat, note_prop, note_stmt, note_var_decl, object_pat_prop_marks, occurrences_view, one,
    pat_marks, prop_marks, stmt_marks, var_decl_marks,
};

verus! {

/// The occurrences of bindings in a [`Tpl`], in the order of the source.
#[verifier::opaque]
pub open spec fn occurrences_in_tpl(x: TplV) -> Seq<OccurrenceV>
    decreases x,
{
    occurrences_in_exprs(x.exprs)
}

/// The occurrences of bindings in a [`ExprOrSpread`], in the order of the source.
#[verifier::opaque]
pub open spec fn occurrences_in_expr_or_spread(x: ExprOrSpreadV) -> Seq<OccurrenceV>
    decreases x,
{
    occurrences_in_expr(x.expr)
}

/// The occurrences of bindings in a [`ExprOrSuper`], in the order of the source.
#[verifier::opaque]
pub open spec fn occurrences_in_expr_or_super(x: ExprOrSuperV) -> Seq<OccurrenceV>
    decreases x,
{
    match x {
        ExprOrSuperV::Super => Seq::empty(),
        ExprOrSuperV::Expr(a) => occurrences_in_expr(*a),
    }
}

/// The occurrences of bindings in a [`MemberProp`], in the order of the source.
#[verifier::opaque]
pub open spec fn occurrences_in_member_prop(x: MemberPropV) -> Seq<OccurrenceV>
    decreases x,
{
    match x {
        MemberPropV::Ident(_) => Seq::empty(),
        MemberPropV::Computed(a) => occurrences_in_expr(*a),
    }
}

/// The occurrences of bindings in a [`PatOrExpr`], in the order of the source.
#[verifier::opaque]
pub open spec fn occurrences_in_pat_or_expr(x: PatOrExprV) -> Seq<OccurrenceV>
    decreases x,
{
    match x {
        PatOrExprV::Expr(a) => occurrences_in_expr(*a),
        PatOrExprV::Pat(a) => occurrences_in_pat(*a),
    }
}

/// The occurrences of bindings in a [`PropName`], in the order of the source.
#[verifier::opaque]
pub open spec fn occurrences_in_prop_name(x: PropNameV) -> Seq<OccurrenceV>
    decreases x,
{
    match x {
        PropNameV::Ident(_) => Seq::empty(),
        PropNameV::Str(_) => Seq::empty(),
        PropNameV::Num(_) => Seq::empty(),
        PropNameV::Computed(a) => occurrences_in_expr(*a),
    }
}

/// The occurrences of bindings in a [`Prop`], in the order of the source.
#[verifier::opaque]
pub open spec fn occurrences_in_prop(x: PropV) -> Seq<OccurrenceV>
    decreases x,
{
    prop_marks(x) + match x {
        PropV::Shorthand(_) => Seq::empty(),
        PropV::KeyValue { key, value } => occurrences_in_prop_name(key)
            + occurrences_in_expr(*value),
        PropV::Getter { key, body } => occurrences_in_prop_name(key) + (match body {
            Some(x) => occurrences_in_stmts(x),
            None => Seq::empty(),
        }),
        PropV::Setter { key, param, body } => occurrences_in_prop_name(key)
            + occurrences_in_pat(param)
            + (match body {
            Some(x) => occurrences_in_stmts(x),
            None => Seq::empty(),
        }),
        PropV::Method { key, function } => occurrences_in_prop_name(key)
            + occurrences_in_function(function),
    }
}

/// The occurrences of bindings in a [`PropOrSpread`], in the order of the source.
#[verifier::opaque]
pub open spec fn occurrences_in_prop_or_spread(x: PropOrSpreadV) -> Seq<OccurrenceV>
    decreases x,
{
    match x {
        PropOrSpreadV::Spread(a) => occurrences_in_expr(*a),
        PropOrSpreadV::Prop(a) => occurrences_in_prop(*a),
    }
}

/// The occurrences of bindings in a [`Function`], in the order of the source.
#[verifier::opaque]
pub open spec fn occurrences_in_function(x: FunctionV) -> Seq<OccurrenceV>
    decreases x,
{
    occurrences_in_pats(x.params) + (match x.body {
        Some(x) => occurrences_in_stmts(x),
        None => Seq::empty(),
    })
}

/// The occurrences of bindings in a [`Class`], in the order of the source.
#[verifier::opaque]
pub open spec fn occurrences_in_class(x: ClassV) -> Seq<OccurrenceV>
    decreases x,
{
    (match x.super_class {
        Some(x) => occurrences_in_expr(*x),
        None => Seq::empty(),
    }) + occurrences_in_class_members(x.body)
}

/// The occurrences of bindings in a [`ClassMember`], in the order of the source.
#[verifier::opaque]
pub open spec fn occurrences_in_class_member(x: ClassMemberV) -> Seq<OccurrenceV>
    decreases x,
{
    match x {
        ClassMemberV::Constructor { key, params, body } => occurrences_in_prop_name(key)
            + occurrences_in_pats(params)
            + (match body {
            Some(x) => occurrences_in_stmts(x),
            None => Seq::empty(),
        }),
        ClassMemberV::Method { key, function, .. } => occurrences_in_prop_name(key)
            + occurrences_in_function(function),
        ClassMemberV::Prop { key, value, .. } => occurrences_in_expr(*key) + (match value {
            Some(x) => occurrences_in_expr(*x),
            None => Seq::empty(),
        }),
    }
}

/// The occurrences of bindings in a [`BlockStmtOrExpr`], in the order of the source.
#[verifier::opaque]
pub open spec fn occurrences_in_block_stmt_or_expr(x: BlockStmtOrExprV) -> Seq<OccurrenceV>
    decreases x,
{
    match x {
        BlockStmtOrExprV::Block(a) => occurrences_in_stmts(a),
        BlockStmtOrExprV::Expr(a) => occurrences_in_expr(*a),
    }
}

/// The occurrences of bindings in a [`Expr`], in the order of the source.
#[verifier::opaque]
pub open spec fn occurrences_in_expr(x: ExprV) -> Seq<OccurrenceV>
    decreases x,
{
    expr_marks(x) + match x {
        ExprV::This => Seq::empty(),
        ExprV::Array(a) => occurrences_in_opt_expr_or_spreads(a),
        ExprV::Object(a) => occurrences_in_prop_or_spreads(a),
        ExprV::Fn { function, .. } => occurrences_in_function(*function),
        ExprV::Unary { arg, .. } => occurrences_in_expr(*arg),
        ExprV::Update { arg, .. } => occurrences_in_expr(*arg),
        ExprV::Bin { left, right, .. } => occurrences_in_expr(*left) + occurrences_in_expr(*right),
        ExprV::Assign { left, right, .. } => occurrences_in_pat_or_expr(left)
            + occurrences_in_expr(*right),
        ExprV::Member { obj, prop } => occurrences_in_expr_or_super(obj)
            + occurrences_in_member_prop(prop),
        ExprV::Cond { test, cons, alt } => occurrences_in_expr(*test)
            + occurrences_in_expr(*cons)
            + occurrences_in_expr(*alt),
        ExprV::Call { callee, args } => occurrences_in_expr_or_super(callee)
            + occurrences_in_expr_or_spreads(args),
        ExprV::New { callee, args } => occurrences_in_expr(*callee) + (match args {
            Some(x) => occurrences_in_expr_or_spreads(x),
            None => Seq::empty(),
        }),
        ExprV::Sequence { init, last } => occurrences_in_exprs(init) + occurrences_in_expr(*last),
        ExprV::Ident(_) => Seq::empty(),
        ExprV::Lit(_) => Seq::empty(),
        ExprV::Tpl(a) => occurrences_in_tpl(a),
        ExprV::TaggedTpl { tag, tpl } => occurrences_in_expr(*tag) + occurrences_in_tpl(tpl),
        ExprV::Arrow { params, body, .. } => occurrences_in_pats(params)
            + occurrences_in_block_stmt_or_expr(body),
        ExprV::Class { class, .. } => occurrences_in_class(*class),
        ExprV::Yield { arg, .. } => (match arg {
            Some(x) => occurrences_in_expr(*x),
            None => Seq::empty(),
        }),
        ExprV::MetaProp { .. } => Seq::empty(),
        ExprV::Await(a) => occurrences_in_expr(*a),
        ExprV::Paren(a) => occurrences_in_expr(*a),
        ExprV::Ts { expr, .. } => occurrences_in_expr(*expr),
        ExprV::OptChain(a) => occurrences_in_expr(*a),
        ExprV::PrivateName(_) => Seq::empty(),
    }
}

/// The occurrences of bindings in a [`Pat`], in the order of the source.
#[verifier::opaque]
pub open spec fn occurrences_in_pat(x: PatV) -> Seq<OccurrenceV>
    decreases x,
{
    pat_marks(x) + match x {
        PatV::Ident(_) => Seq::empty(),
        PatV::Array(a) => occurrences_in_opt_pats(a),
        PatV::Rest(a) => occurrences_in_pat(*a),
        PatV::Object(a) => occurrences_in_object_pat_props(a),
        PatV::Assign { left, right } => occurrences_in_pat(*left) + occurrences_in_expr(*right),
        PatV::Expr(a) => occurrences_in_expr(*a),
    }
}

/// The occurrences of bindings in a [`ObjectPatProp`], in the order of the source.
#[verifier::opaque]
pub open spec fn occurrences_in_object_pat_prop(x: ObjectPatPropV) -> Seq<OccurrenceV>
    decreases x,
{
    object_pat_prop_marks(x) + match x {
        ObjectPatPropV::KeyValue { key, value } => occurrences_in_prop_name(key)
            + occurrences_in_pat(*value),
        ObjectPatPropV::Assign { value, .. } => (match value {
            Some(x) => occurrences_in_expr(*x),
            None => Seq::empty(),
        }),
        ObjectPatPropV::Rest(a) => occurrences_in_pat(*a),
    }
}

/// The occurrences of bindings in a [`VarDeclarator`], in the order of the source.
#[verifier::opaque]
pub open spec fn occurrences_in_var_declarator(x: VarDeclaratorV) -> Seq<OccurrenceV>
    decreases x,
{
    occurrences_in_pat(x.name) + (match x.init {
        Some(x) => occurrences_in_expr(*x),
        None => Seq::empty(),
    })
}

/// The occurrences of bindings in a [`VarDecl`], in the order of the source.
#[verifier::opaque]
pub open spec fn occurrences_in_var_decl(x: VarDeclV) -> Seq<OccurrenceV>
    decreases x,
{
    var_decl_marks(x) + occurrences_in_var_declarators(x.decls)
}

/// The occurrences of bindings in a [`Decl`], in the order of the source.
#[verifier::opaque]
pub open spec fn occurrences_in_decl(x: DeclV) -> Seq<OccurrenceV>
    decreases x,
{
    decl_marks(x) + match x {
        DeclV::Class { class, .. } => occurrences_in_class(class),
        DeclV::Fn { function, .. } => occurrences_in_function(function),
        DeclV::Var(a) => occurrences_in_var_decl(a),
    }
}

/// The occurrences of bindings in a [`VarDeclOrExpr`], in the order of the source.
#[verifier::opaque]
pub open spec fn occurrences_in_var_decl_or_expr(x: VarDeclOrExprV) -> Seq<OccurrenceV>
    decreases x,
{
    match x {
        VarDeclOrExprV::VarDecl(a) => occurrences_in_var_decl(a),
        VarDeclOrExprV::Expr(a) => occurrences_in_expr(*a),
    }
}

/// The occurrences of bindings in a [`VarDeclOrPat`], in the order of the source.
#[verifier::opaque]
pub open spec fn occurrences_in_var_decl_or_pat(x: VarDeclOrPatV) -> Seq<OccurrenceV>
    decreases x,
{
    match x {
        VarDeclOrPatV::VarDecl(a) => occurrences_in_var_decl(a),
        VarDeclOrPatV::Pat(a) => occurrences_in_pat(a),
    }
}

/// The occurrences of bindings in a [`SwitchCase`], in the order of the source.
#[verifier::opaque]
pub open spec fn occurrences_in_switch_case(x: SwitchCaseV) -> Seq<OccurrenceV>
    decreases x,
{
    (match x.test {
        Some(x) => occurrences_in_expr(*x),
        None => Seq::empty(),
    }) + occurrences_in_stmts(x.cons)
}

/// The occurrences of bindings in a [`CatchClause`], in the order of the source.
#[verifier::opaque]
pub open spec fn occurrences_in_catch_clause(x: CatchClauseV) -> Seq<OccurrenceV>
    decreases x,
{
    (match x.param {
        Some(x) => occurrences_in_pat(x),
        None => Seq::empty(),
    }) + occurrences_in_stmts(x.body)
}

/// The occurrences of bindings in a [`Stmt`], in the order of the source.
#[verifier::opaque]
pub open spec fn occurrences_in_stmt(x: StmtV) -> Seq<OccurrenceV>
    decreases x,
{
    stmt_marks(x) + match x {
        StmtV::Block(a) => occurrences_in_stmts(a),
        StmtV::Empty => Seq::empty(),
        StmtV::Debugger => Seq::empty(),
        StmtV::With { obj, body } => occurrences_in_expr(*obj) + occurrences_in_stmt(*body),
        StmtV::Return(a) => (match a {
            Some(x) => occurrences_in_expr(*x),
            None => Seq::empty(),
        }),
        StmtV::Labeled { body, .. } => occurrences_in_stmt(*body),
        StmtV::Break(_) => Seq::empty(),
        StmtV::Continue(_) => Seq::empty(),
        StmtV::If { test, cons, alt } => occurrences_in_expr(*test)
            + occurrences_in_stmt(*cons)
            + (match alt {
            Some(x) => occurrences_in_stmt(*x),
            None => Seq::empty(),
        }),
        StmtV::Switch { discriminant, cases } => occurrences_in_expr(*discriminant)
            + occurrences_in_switch_cases(cases),
        StmtV::Throw(a) => occurrences_in_expr(*a),
        StmtV::Try { block, handler, finalizer } => occurrences_in_stmts(block) + (match handler {
            Some(x) => occurrences_in_catch_clause(x),
            None => Seq::empty(),
        }) + (match finalizer {
            Some(x) => occurrences_in_stmts(x),
            None => Seq::empty(),
        }),
        StmtV::While { test, body } => occurrences_in_expr(*test) + occurrences_in_stmt(*body),
        StmtV::DoWhile { test, body } => occurrences_in_expr(*test) + occurrences_in_stmt(*body),
        StmtV::For { init, test, update, body } => (match init {
            Some(x) => occurrences_in_var_decl_or_expr(x),
            None => Seq::empty(),
        }) + (match test {
            Some(x) => occurrences_in_expr(*x),
            None => Seq::empty(),
        }) + (match update {
            Some(x) => occurrences_in_expr(*x),
            None => Seq::empty(),
        }) + occurrences_in_stmt(*body),
        StmtV::ForIn { left, right, body } => occurrences_in_var_decl_or_pat(left)
            + occurrences_in_expr(*right)
            + occurrences_in_stmt(*body),
        StmtV::ForOf { left, right, body, .. } => occurrences_in_var_decl_or_pat(left)
            + occurrences_in_expr(*right)
            + occurrences_in_stmt(*body),
        StmtV::Decl(a) => occurrences_in_decl(a),
        StmtV::Expr(a) => occurrences_in_expr(*a),
    }
}

/// The occurrences of bindings in a [`DefaultDecl`], in the order of the source.
#[verifier::opaque]
pub open spec fn occurrences_in_default_decl(x: DefaultDeclV) -> Seq<OccurrenceV>
    decreases x,
{
    match x {
        DefaultDeclV::Class { class, .. } => occurrences_in_class(class),
        DefaultDeclV::Fn { function, .. } => occurrences_in_function(function),
    }
}

/// The occurrences of bindings in a [`ModuleDecl`], in the order of the source.
#[verifier::opaque]
pub open spec fn occurrences_in_module_decl(x: ModuleDeclV) -> Seq<OccurrenceV>
    decreases x,
{
    match x {
        ModuleDeclV::Import { .. } => Seq::empty(),
        ModuleDeclV::ExportDecl(a) => occurrences_in_decl(a),
        ModuleDeclV::ExportNamed { .. } => Seq::empty(),
        ModuleDeclV::ExportDefaultDecl(a) => occurrences_in_default_decl(a),
        ModuleDeclV::ExportDefaultExpr(a) => occurrences_in_expr(*a),
        ModuleDeclV::ExportAll { .. } => Seq::empty(),
    }
}

/// The occurrences of bindings in a [`ModuleItem`], in the order of the source.
#[verifier::opaque]
pub open spec fn occurrences_in_module_item(x: ModuleItemV) -> Seq<OccurrenceV>
    decreases x,
{
    match x {
        ModuleItemV::ModuleDecl(a) => occurrences_in_module_decl(a),
        ModuleItemV::Stmt(a) => occurrences_in_stmt(a),
    }
}

/// The occurrences of bindings in a [`Module`], in the order of the source.
#[verifier::opaque]
pub open spec fn occurrences_in_module(x: ModuleV) -> Seq<OccurrenceV>
    decreases x,
{
    occurrences_in_module_items(x.body)
}

/// The occurrences of bindings in the items of a list, in the order of the source.
#[verifier::opaque]
pub open spec fn occurrences_in_class_members(s: Seq<ClassMemberV>) -> Seq<OccurrenceV>
    decreases s,
{
    if s.len() == 0 {
        Seq::empty()
    } else {
        occurrences_in_class_members(s.drop_last()) + occurrences_in_class_member(s.last())
    }
}

/// The occurrences of bindings in the items of a list, in the order of the source.
#[verifier::opaque]
pub open spec fn occurrences_in_expr_or_spreads(s: Seq<ExprOrSpreadV>) -> Seq<OccurrenceV>
    decreases s,
{
    if s.len() == 0 {
        Seq::empty()
    } else {
        occurrences_in_expr_or_spreads(s.drop_last()) + occurrences_in_expr_or_spread(s.last())
    }
}

/// The occurrences of bindings in the items of a list, in the order of the source.
#[verifier::opaque]
pub open spec fn occurrences_in_exprs(s: Seq<ExprV>) -> Seq<OccurrenceV>
    decreases s,
{
    if s.len() == 0 {
        Seq::empty()
    } else {
        occurrences_in_exprs(s.drop_last()) + occurrences_in_expr(s.last())
    }
}

/// The occurrences of bindings in the items of a list, in the order of the source.
#[verifier::opaque]
pub open spec fn occurrences_in_module_items(s: Seq<ModuleItemV>) -> Seq<OccurrenceV>
    decreases s,
{
    if s.len() == 0 {
        Seq::empty()
    } else {
        occurrences_in_module_items(s.drop_last()) + occurrences_in_module_item(s.last())
    }
}

/// The occurrences of bindings in the items of a list, in the order of the source.
#[verifier::opaque]
pub open spec fn occurrences_in_object_pat_props(s: Seq<ObjectPatPropV>) -> Seq<OccurrenceV>
    decreases s,
{
    if s.len() == 0 {
        Seq::empty()
    } else {
        occurrences_in_object_pat_props(s.drop_last()) + occurrences_in_object_pat_prop(s.last())
    }
}

/// The occurrences of bindings in the items of a list, in the order of the source.
#[verifier::opaque]
pub open spec fn occurrences_in_opt_expr_or_spreads(s: Seq<Option<ExprOrSpreadV>>) -> Seq<OccurrenceV>
    decreases s,
{
    if s.len() == 0 {
        Seq::empty()
    } else {
        occurrences_in_opt_expr_or_spreads(s.drop_last()) + (match s.last() {
            Some(x) => occurrences_in_expr_or_spread(x),
            None => Seq::empty(),
        })
    }
}

/// The occurrences of bindings in the items of a list, in the order of the source.
#[verifier::opaque]
pub open spec fn occurrences_in_opt_pats(s: Seq<Option<PatV>>) -> Seq<OccurrenceV>
    decreases s,
{
    if s.len() == 0 {
        Seq::empty()
    } else {
        occurrences_in_opt_pats(s.drop_last()) + (match s.last() {
            Some(x) => occurrences_in_pat(x),
            None => Seq::empty(),
        })
    }
}

/// The occurrences of bindings in the items of a list, in the order of the source.
#[verifier::opaque]
pub open spec fn occurrences_in_pats(s: Seq<PatV>) -> Seq<OccurrenceV>
    decreases s,
{
    if s.len() == 0 {
        Seq::empty()
    } else {
        occurrences_in_pats(s.drop_last()) + occurrences_in_pat(s.last())
    }
}

/// The occurrences of bindings in the items of a list, in the order of the source.
#[verifier::opaque]
pub open spec fn occurrences_in_prop_or_spreads(s: Seq<PropOrSpreadV>) -> Seq<OccurrenceV>
    decreases s,
{
    if s.len() == 0 {
        Seq::empty()
    } else {
        occurrences_in_prop_or_spreads(s.drop_last()) + occurrences_in_prop_or_spread(s.last())
    }
}

/// The occurrences of bindings in the items of a list, in the order of the source.
#[verifier::opaque]
pub open spec fn occurrences_in_stmts(s: Seq<StmtV>) -> Seq<OccurrenceV>
    decreases s,
{
    if s.len() == 0 {
        Seq::empty()
    } else {
        occurrences_in_stmts(s.drop_last()) + occurrences_in_stmt(s.last())
    }
}

/// The occurrences of bindings in the items of a list, in the order of the source.
#[verifier::opaque]
pub open spec fn occurrences_in_switch_cases(s: Seq<SwitchCaseV>) -> Seq<OccurrenceV>
    decreases s,
{
    if s.len() == 0 {
        Seq::empty()
    } else {
        occurrences_in_switch_cases(s.drop_last()) + occurrences_in_switch_case(s.last())
    }
}

/// The occurrences of bindings in the items of a list, in the order of the source.
#[verifier::opaque]
pub open spec fn occurrences_in_var_declarators(s: Seq<VarDeclaratorV>) -> Seq<OccurrenceV>
    decreases s,
{
    if s.len() == 0 {
        Seq::empty()
    } else {
        occurrences_in_var_declarators(s.drop_last()) + occurrences_in_var_declarator(s.last())
    }
}

/// What [`occurrences_in_tpl`] is, one level down.
pub proof fn lemma_occurrences_in_tpl(x: TplV)
    ensures
        occurrences_in_tpl(x) == (occurrences_in_exprs(x.exprs)),
{
    reveal(occurrences_in_tpl);
    reveal(occurrences_in_exprs);
}

/// What [`occurrences_in_expr_or_spread`] is, one level down.
pub proof fn lemma_occurrences_in_expr_or_spread(x: ExprOrSpreadV)
    ensures
        occurrences_in_expr_or_spread(x) == (occurrences_in_expr(x.expr)),
{
    reveal(occurrences_in_expr_or_spread);
    reveal(occurrences_in_expr);
}

/// What [`occurrences_in_expr_or_super`] is, one level down.
pub proof fn lemma_occurrences_in_expr_or_super(x: ExprOrSuperV)
    ensures
        occurrences_in_expr_or_super(x) == (match x {
            ExprOrSuperV::Super => Seq::empty(),
            ExprOrSuperV::Expr(a) => occurrences_in_expr(*a),
        }),
{
    reveal(occurrences_in_expr_or_super);
    reveal(occurrences_in_expr);
}

/// What [`occurrences_in_member_prop`] is, one level down.
pub proof fn lemma_occurrences_in_member_prop(x: MemberPropV)
    ensures
        occurrences_in_member_prop(x) == (match x {
            MemberPropV::Ident(_) => Seq::empty(),
            MemberPropV::Computed(a) => occurrences_in_expr(*a),
        }),
{
    reveal(occurrences_in_member_prop);
    reveal(occurrences_in_expr);
}

/// What [`occurrences_in_pat_or_expr`] is, one level down.
pub proof fn lemma_occurrences_in_pat_or_expr(x: PatOrExprV)
    ensures
        occurrences_in_pat_or_expr(x) == (match x {
            PatOrExprV::Expr(a) => occurrences_in_expr(*a),
            PatOrExprV::Pat(a) => occurrences_in_pat(*a),
        }),
{
    reveal(occurrences_in_pat_or_expr);
    reveal(occurrences_in_expr);
    reveal(occurrences_in_pat);
}

/// What [`occurrences_in_prop_name`] is, one level down.
pub proof fn lemma_occurrences_in_prop_name(x: PropNameV)
    ensures
        occurrences_in_prop_name(x) == (match x {
            PropNameV::Ident(_) => Seq::empty(),
            PropNameV::Str(_) => Seq::empty(),
            PropNameV::Num(_) => Seq::empty(),
            PropNameV::Computed(a) => occurrences_in_expr(*a),
        }),
{
    reveal(occurrences_in_prop_name);
    reveal(occurrences_in_expr);
}

/// What [`occurrences_in_prop`] is, one level down.
pub proof fn lemma_occurrences_in_prop(x: PropV)
    ensures
        occurrences_in_prop(x) == (prop_marks(x) + match x {
            PropV::Shorthand(_) => Seq::empty(),
            PropV::KeyValue { key, value } => occurrences_in_prop_name(key)
                + occurrences_in_expr(*value),
            PropV::Getter { key, body } => occurrences_in_prop_name(key) + (match body {
                Some(x) => occurrences_in_stmts(x),
                None => Seq::empty(),
            }),
            PropV::Setter { key, param, body } => occurrences_in_prop_name(key)
                + occurrences_in_pat(param)
                + (match body {
                Some(x) => occurrences_in_stmts(x),
                None => Seq::empty(),
            }),
            PropV::Method { key, function } => occurrences_in_prop_name(key)
                + occurrences_in_function(function),
        }),
{
    reveal(occurrences_in_prop);
    reveal(occurrences_in_prop_name);
    reveal(occurrences_in_expr);
    reveal(occurrences_in_stmts);
    reveal(occurrences_in_pat);
    reveal(occurrences_in_function);
}

/// What [`occurrences_in_prop_or_spread`] is, one level down.
pub proof fn lemma_occurrences_in_prop_or_spread(x: PropOrSpreadV)
    ensures
        occurrences_in_prop_or_spread(x) == (match x {
            PropOrSpreadV::Spread(a) => occurrences_in_expr(*a),
            PropOrSpreadV::Prop(a) => occurrences_in_prop(*a),
        }),
{
    reveal(occurrences_in_prop_or_spread);
    reveal(occurrences_in_expr);
    reveal(occurrences_in_prop);
}

/// What [`occurrences_in_function`] is, one level down.
pub proof fn lemma_occurrences_in_function(x: FunctionV)
    ensures
        occurrences_in_function(x) == (occurrences_in_pats(x.params) + (match x.body {
            Some(x) => occurrences_in_stmts(x),
            None => Seq::empty(),
        })),
{
    reveal(occurrences_in_function);
    reveal(occurrences_in_pats);
    reveal(occurrences_in_stmts);
}

/// What [`occurrences_in_class`] is, one level down.
pub proof fn lemma_occurrences_in_class(x: ClassV)
    ensures
        occurrences_in_class(x) == ((match x.super_class {
            Some(x) => occurrences_in_expr(*x),
            None => Seq::empty(),
        }) + occurrences_in_class_members(x.body)),
{
    reveal(occurrences_in_class);
    reveal(occurrences_in_expr);
    reveal(occurrences_in_class_members);
}

/// What [`occurrences_in_class_member`] is, one level down.
pub proof fn lemma_occurrences_in_class_member(x: ClassMemberV)
    ensures
        occurrences_in_class_member(x) == (match x {
            ClassMemberV::Constructor { key, params, body } => occurrences_in_prop_name(key)
                + occurrences_in_pats(params)
                + (match body {
                Some(x) => occurrences_in_stmts(x),
                None => Seq::empty(),
            }),
            ClassMemberV::Method { key, function, .. } => occurrences_in_prop_name(key)
                + occurrences_in_function(function),
            ClassMemberV::Prop { key, value, .. } => occurrences_in_expr(*key) + (match value {
                Some(x) => occurrences_in_expr(*x),
                None => Seq::empty(),
            }),
        }),
{
    reveal(occurrences_in_class_member);
    reveal(occurrences_in_prop_name);
    reveal(occurrences_in_pats);
    reveal(occurrences_in_stmts);
    reveal(occurrences_in_function);
    reveal(occurrences_in_expr);
}

/// What [`occurrences_in_block_stmt_or_expr`] is, one level down.
pub proof fn lemma_occurrences_in_block_stmt_or_expr(x: BlockStmtOrExprV)
    ensures
        occurrences_in_block_stmt_or_expr(x) == (match x {
            BlockStmtOrExprV::Block(a) => occurrences_in_stmts(a),
            BlockStmtOrExprV::Expr(a) => occurrences_in_expr(*a),
        }),
{
    reveal(occurrences_in_block_stmt_or_expr);
    reveal(occurrences_in_stmts);
    reveal(occurrences_in_expr);
}

/// What [`occurrences_in_expr`] is, one level down.
pub proof fn lemma_occurrences_in_expr(x: ExprV)
    ensures
        occurrences_in_expr(x) == (expr_marks(x) + match x {
            ExprV::This => Seq::empty(),
            ExprV::Array(a) => occurrences_in_opt_expr_or_spreads(a),
            ExprV::Object(a) => occurrences_in_prop_or_spreads(a),
            ExprV::Fn { function, .. } => occurrences_in_function(*function),
            ExprV::Unary { arg, .. } => occurrences_in_expr(*arg),
            ExprV::Update { arg, .. } => occurrences_in_expr(*arg),
            ExprV::Bin { left, right, .. } => occurrences_in_expr(*left)
                + occurrences_in_expr(*right),
            ExprV::Assign { left, right, .. } => occurrences_in_pat_or_expr(left)
                + occurrences_in_expr(*right),
            ExprV::Member { obj, prop } => occurrences_in_expr_or_super(obj)
                + occurrences_in_member_prop(prop),
            ExprV::Cond { test, cons, alt } => occurrences_in_expr(*test)
                + occurrences_in_expr(*cons)
                + occurrences_in_expr(*alt),
            ExprV::Call { callee, args } => occurrences_in_expr_or_super(callee)
                + occurrences_in_expr_or_spreads(args),
            ExprV::New { callee, args } => occurrences_in_expr(*callee) + (match args {
                Some(x) => occurrences_in_expr_or_spreads(x),
                None => Seq::empty(),
            }),
            ExprV::Sequence { init, last } => occurrences_in_exprs(init)
                + occurrences_in_expr(*last),
            ExprV::Ident(_) => Seq::empty(),
            ExprV::Lit(_) => Seq::empty(),
            ExprV::Tpl(a) => occurrences_in_tpl(a),
            ExprV::TaggedTpl { tag, tpl } => occurrences_in_expr(*tag) + occurrences_in_tpl(tpl),
            ExprV::Arrow { params, body, .. } => occurrences_in_pats(params)
                + occurrences_in_block_stmt_or_expr(body),
            ExprV::Class { class, .. } => occurrences_in_class(*class),
            ExprV::Yield { arg, .. } => (match arg {
                Some(x) => occurrences_in_expr(*x),
                None => Seq::empty(),
            }),
            ExprV::MetaProp { .. } => Seq::empty(),
            ExprV::Await(a) => occurrences_in_expr(*a),
            ExprV::Paren(a) => occurrences_in_expr(*a),
            ExprV::Ts { expr, .. } => occurrences_in_expr(*expr),
            ExprV::OptChain(a) => occurrences_in_expr(*a),
            ExprV::PrivateName(_) => Seq::empty(),
        }),
{
    reveal(occurrences_in_expr);
    reveal(occurrences_in_opt_expr_or_spreads);
    reveal(occurrences_in_prop_or_spreads);
    reveal(occurrences_in_function);
    reveal(occurrences_in_pat_or_expr);
    reveal(occurrences_in_expr_or_super);
    reveal(occurrences_in_member_prop);
    reveal(occurrences_in_expr_or_spreads);
    reveal(occurrences_in_exprs);
    reveal(occurrences_in_tpl);
    reveal(occurrences_in_pats);
    reveal(occurrences_in_block_stmt_or_expr);
    reveal(occurrences_in_class);
}

/// What [`occurrences_in_pat`] is, one level down.
pub proof fn lemma_occurrences_in_pat(x: PatV)
    ensures
        occurrences_in_pat(x) == (pat_marks(x) + match x {
            PatV::Ident(_) => Seq::empty(),
            PatV::Array(a) => occurrences_in_opt_pats(a),
            PatV::Rest(a) => occurrences_in_pat(*a),
            PatV::Object(a) => occurrences_in_object_pat_props(a),
            PatV::Assign { left, right } => occurrences_in_pat(*left) + occurrences_in_expr(*right),
            PatV::Expr(a) => occurrences_in_expr(*a),
        }),
{
    reveal(occurrences_in_pat);
    reveal(occurrences_in_opt_pats);
    reveal(occurrences_in_object_pat_props);
    reveal(occurrences_in_expr);
}

/// What [`occurrences_in_object_pat_prop`] is, one level down.
pub proof fn lemma_occurrences_in_object_pat_prop(x: ObjectPatPropV)
    ensures
        occurrences_in_object_pat_prop(x) == (object_pat_prop_marks(x) + match x {
            ObjectPatPropV::KeyValue { key, value } => occurrences_in_prop_name(key)
                + occurrences_in_pat(*value),
            ObjectPatPropV::Assign { value, .. } => (match value {
                Some(x) => occurrences_in_expr(*x),
                None => Seq::empty(),
            }),
            ObjectPatPropV::Rest(a) => occurrences_in_pat(*a),
        }),
{
    reveal(occurrences_in_object_pat_prop);
    reveal(occurrences_in_prop_name);
    reveal(occurrences_in_pat);
    reveal(occurrences_in_expr);
}

/// What [`occurrences_in_var_declarator`] is, one level down.
pub proof fn lemma_occurrences_in_var_declarator(x: VarDeclaratorV)
    ensures
        occurrences_in_var_declarator(x) == (occurrences_in_pat(x.name) + (match x.init {
            Some(x) => occurrences_in_expr(*x),
            None => Seq::empty(),
        })),
{
    reveal(occurrences_in_var_declarator);
    reveal(occurrences_in_pat);
    reveal(occurrences_in_expr);
}

/// What [`occurrences_in_var_decl`] is, one level down.
pub proof fn lemma_occurrences_in_var_decl(x: VarDeclV)
    ensures
        occurrences_in_var_decl(x) == (var_decl_marks(x) + occurrences_in_var_declarators(x.decls)),
{
    reveal(occurrences_in_var_decl);
    reveal(occurrences_in_var_declarators);
}

/// What [`occurrences_in_decl`] is, one level down.
pub proof fn lemma_occurrences_in_decl(x: DeclV)
    ensures
        occurrences_in_decl(x) == (decl_marks(x) + match x {
            DeclV::Class { class, .. } => occurrences_in_class(class),
            DeclV::Fn { function, .. } => occurrences_in_function(function),
            DeclV::Var(a) => occurrences_in_var_decl(a),
        }),
{
    reveal(occurrences_in_decl);
    reveal(occurrences_in_class);
    reveal(occurrences_in_function);
    reveal(occurrences_in_var_decl);
}

/// What [`occurrences_in_var_decl_or_expr`] is, one level down.
pub proof fn lemma_occurrences_in_var_decl_or_expr(x: VarDeclOrExprV)
    ensures
        occurrences_in_var_decl_or_expr(x) == (match x {
            VarDeclOrExprV::VarDecl(a) => occurrences_in_var_decl(a),
            VarDeclOrExprV::Expr(a) => occurrences_in_expr(*a),
        }),
{
    reveal(occurrences_in_var_decl_or_expr);
    reveal(occurrences_in_var_decl);
    reveal(occurrences_in_expr);
}

/// What [`occurrences_in_var_decl_or_pat`] is, one level down.
pub proof fn lemma_occurrences_in_var_decl_or_pat(x: VarDeclOrPatV)
    ensures
        occurrences_in_var_decl_or_pat(x) == (match x {
            VarDeclOrPatV::VarDecl(a) => occurrences_in_var_decl(a),
            VarDeclOrPatV::Pat(a) => occurrences_in_pat(a),
        }),
{
    reveal(occurrences_in_var_decl_or_pat);
    reveal(occurrences_in_var_decl);
    reveal(occurrences_in_pat);
}

/// What [`occurrences_in_switch_case`] is, one level down.
pub proof fn lemma_occurrences_in_switch_case(x: SwitchCaseV)
    ensures
        occurrences_in_switch_case(x) == ((match x.test {
            Some(x) => occurrences_in_expr(*x),
            None => Seq::empty(),
        }) + occurrences_in_stmts(x.cons)),
{
    reveal(occurrences_in_switch_case);
    reveal(occurrences_in_expr);
    reveal(occurrences_in_stmts);
}

/// What [`occurrences_in_catch_clause`] is, one level down.
pub proof fn lemma_occurrences_in_catch_clause(x: CatchClauseV)
    ensures
        occurrences_in_catch_clause(x) == ((match x.param {
            Some(x) => occurrences_in_pat(x),
            None => Seq::empty(),
        }) + occurrences_in_stmts(x.body)),
{
    reveal(occurrences_in_catch_clause);
    reveal(occurrences_in_pat);
    reveal(occurrences_in_stmts);
}

/// What [`occurrences_in_stmt`] is, one level down.
pub proof fn lemma_occurrences_in_stmt(x: StmtV)
    ensures
        occurrences_in_stmt(x) == (stmt_marks(x) + match x {
            StmtV::Block(a) => occurrences_in_stmts(a),
            StmtV::Empty => Seq::empty(),
            StmtV::Debugger => Seq::empty(),
            StmtV::With { obj, body } => occurrences_in_expr(*obj) + occurrences_in_stmt(*body),
            StmtV::Return(a) => (match a {
                Some(x) => occurrences_in_expr(*x),
                None => Seq::empty(),
            }),
            StmtV::Labeled { body, .. } => occurrences_in_stmt(*body),
            StmtV::Break(_) => Seq::empty(),
            StmtV::Continue(_) => Seq::empty(),
            StmtV::If { test, cons, alt } => occurrences_in_expr(*test)
                + occurrences_in_stmt(*cons)
                + (match alt {
                Some(x) => occurrences_in_stmt(*x),
                None => Seq::empty(),
            }),
            StmtV::Switch { discriminant, cases } => occurrences_in_expr(*discriminant)
                + occurrences_in_switch_cases(cases),
            StmtV::Throw(a) => occurrences_in_expr(*a),
            StmtV::Try { block, handler, finalizer } => occurrences_in_stmts(block)
                + (match handler {
                Some(x) => occurrences_in_catch_clause(x),
                None => Seq::empty(),
            }) + (match finalizer {
                Some(x) => occurrences_in_stmts(x),
                None => Seq::empty(),
            }),
            StmtV::While { test, body } => occurrences_in_expr(*test) + occurrences_in_stmt(*body),
            StmtV::DoWhile { test, body } => occurrences_in_expr(*test)
                + occurrences_in_stmt(*body),
            StmtV::For { init, test, update, body } => (match init {
                Some(x) => occurrences_in_var_decl_or_expr(x),
                None => Seq::empty(),
            }) + (match test {
                Some(x) => occurrences_in_expr(*x),
                None => Seq::empty(),
            }) + (match update {
                Some(x) => occurrences_in_expr(*x),
                None => Seq::empty(),
            }) + occurrences_in_stmt(*body),
            StmtV::ForIn { left, right, body } => occurrences_in_var_decl_or_pat(left)
                + occurrences_in_expr(*right)
                + occurrences_in_stmt(*body),
            StmtV::ForOf { left, right, body, .. } => occurrences_in_var_decl_or_pat(left)
                + occurrences_in_expr(*right)
                + occurrences_in_stmt(*body),
            StmtV::Decl(a) => occurrences_in_decl(a),
            StmtV::Expr(a) => occurrences_in_expr(*a),
        }),
{
    reveal(occurrences_in_stmt);
    reveal(occurrences_in_stmts);
    reveal(occurrences_in_expr);
    reveal(occurrences_in_switch_cases);
    reveal(occurrences_in_catch_clause);
    reveal(occurrences_in_var_decl_or_expr);
    reveal(occurrences_in_var_decl_or_pat);
    reveal(occurrences_in_decl);
}

/// What [`occurrences_in_default_decl`] is, one level down.
pub proof fn lemma_occurrences_in_default_decl(x: DefaultDeclV)
    ensures
        occurrences_in_default_decl(x) == (match x {
            DefaultDeclV::Class { class, .. } => occurrences_in_class(class),
            DefaultDeclV::Fn { function, .. } => occurrences_in_function(function),
        }),
{
    reveal(occurrences_in_default_decl);
    reveal(occurrences_in_class);
    reveal(occurrences_in_function);
}

/// What [`occurrences_in_module_decl`] is, one level down.
pub proof fn lemma_occurrences_in_module_decl(x: ModuleDeclV)
    ensures
        occurrences_in_module_decl(x) == (match x {
            ModuleDeclV::Import { .. } => Seq::empty(),
            ModuleDeclV::ExportDecl(a) => occurrences_in_decl(a),
            ModuleDeclV::ExportNamed { .. } => Seq::empty(),
            ModuleDeclV::ExportDefaultDecl(a) => occurrences_in_default_decl(a),
            ModuleDeclV::ExportDefaultExpr(a) => occurrences_in_expr(*a),
            ModuleDeclV::ExportAll { .. } => Seq::empty(),
        }),
{
    reveal(occurrences_in_module_decl);
    reveal(occurrences_in_decl);
    reveal(occurrences_in_default_decl);
    reveal(occurrences_in_expr);
}

/// What [`occurrences_in_module_item`] is, one level down.
pub proof fn lemma_occurrences_in_module_item(x: ModuleItemV)
    ensures
        occurrences_in_module_item(x) == (match x {
            ModuleItemV::ModuleDecl(a) => occurrences_in_module_decl(a),
            ModuleItemV::Stmt(a) => occurrences_in_stmt(a),
        }),
{
    reveal(occurrences_in_module_item);
    reveal(occurrences_in_module_decl);
    reveal(occurrences_in_stmt);
}

/// What [`occurrences_in_module`] is, one level down.
pub proof fn lemma_occurrences_in_module(x: ModuleV)
    ensures
        occurrences_in_module(x) == (occurrences_in_module_items(x.body)),
{
    reveal(occurrences_in_module);
    reveal(occurrences_in_module_items);
}

/// What [`occurrences_in_class_members`] is, one item down.
pub proof fn lemma_occurrences_in_class_members(s: Seq<ClassMemberV>)
    ensures
        occurrences_in_class_members(s) == (if s.len() == 0 {
            Seq::empty()
        } else {
            occurrences_in_class_members(s.drop_last()) + occurrences_in_class_member(s.last())
        }),
{
    reveal(occurrences_in_class_members);
    reveal(occurrences_in_class_member);
}

/// What [`occurrences_in_expr_or_spreads`] is, one item down.
pub proof fn lemma_occurrences_in_expr_or_spreads(s: Seq<ExprOrSpreadV>)
    ensures
        occurrences_in_expr_or_spreads(s) == (if s.len() == 0 {
            Seq::empty()
        } else {
            occurrences_in_expr_or_spreads(s.drop_last()) + occurrences_in_expr_or_spread(s.last())
        }),
{
    reveal(occurrences_in_expr_or_spreads);
    reveal(occurrences_in_expr_or_spread);
}

/// What [`occurrences_in_exprs`] is, one item down.
pub proof fn lemma_occurrences_in_exprs(s: Seq<ExprV>)
    ensures
        occurrences_in_exprs(s) == (if s.len() == 0 {
            Seq::empty()
        } else {
            occurrences_in_exprs(s.drop_last()) + occurrences_in_expr(s.last())
        }),
{
    reveal(occurrences_in_exprs);
    reveal(occurrences_in_expr);
}

/// What [`occurrences_in_module_items`] is, one item down.
pub proof fn lemma_occurrences_in_module_items(s: Seq<ModuleItemV>)
    ensures
        occurrences_in_module_items(s) == (if s.len() == 0 {
            Seq::empty()
        } else {
            occurrences_in_module_items(s.drop_last()) + occurrences_in_module_item(s.last())
        }),
{
    reveal(occurrences_in_module_items);
    reveal(occurrences_in_module_item);
}

/// What [`occurrences_in_object_pat_props`] is, one item down.
pub proof fn lemma_occurrences_in_object_pat_props(s: Seq<ObjectPatPropV>)
    ensures
        occurrences_in_object_pat_props(s) == (if s.len() == 0 {
            Seq::empty()
        } else {
            occurrences_in_object_pat_props(s.drop_last())
                + occurrences_in_object_pat_prop(s.last())
        }),
{
    reveal(occurrences_in_object_pat_props);
    reveal(occurrences_in_object_pat_prop);
}

/// What [`occurrences_in_opt_expr_or_spreads`] is, one item down.
pub proof fn lemma_occurrences_in_opt_expr_or_spreads(s: Seq<Option<ExprOrSpreadV>>)
    ensures
        occurrences_in_opt_expr_or_spreads(s) == (if s.len() == 0 {
            Seq::empty()
        } else {
            occurrences_in_opt_expr_or_spreads(s.drop_last()) + (match s.last() {
                Some(x) => occurrences_in_expr_or_spread(x),
                None => Seq::empty(),
            })
        }),
{
    reveal(occurrences_in_opt_expr_or_spreads);
    reveal(occurrences_in_expr_or_spread);
}

/// What [`occurrences_in_opt_pats`] is, one item down.
pub proof fn lemma_occurrences_in_opt_pats(s: Seq<Option<PatV>>)
    ensures
        occurrences_in_opt_pats(s) == (if s.len() == 0 {
            Seq::empty()
        } else {
            occurrences_in_opt_pats(s.drop_last()) + (match s.last() {
                Some(x) => occurrences_in_pat(x),
                None => Seq::empty(),
            })
        }),
{
    reveal(occurrences_in_opt_pats);
    reveal(occurrences_in_pat);
}

/// What [`occurrences_in_pats`] is, one item down.
pub proof fn lemma_occurrences_in_pats(s: Seq<PatV>)
    ensures
        occurrences_in_pats(s) == (if s.len() == 0 {
            Seq::empty()
        } else {
            occurrences_in_pats(s.drop_last()) + occurrences_in_pat(s.last())
        }),
{
    reveal(occurrences_in_pats);
    reveal(occurrences_in_pat);
}

/// What [`occurrences_in_prop_or_spreads`] is, one item down.
pub proof fn lemma_occurrences_in_prop_or_spreads(s: Seq<PropOrSpreadV>)
    ensures
        occurrences_in_prop_or_spreads(s) == (if s.len() == 0 {
            Seq::empty()
        } else {
            occurrences_in_prop_or_spreads(s.drop_last()) + occurrences_in_prop_or_spread(s.last())
        }),
{
    reveal(occurrences_in_prop_or_spreads);
    reveal(occurrences_in_prop_or_spread);
}

/// What [`occurrences_in_stmts`] is, one item down.
pub proof fn lemma_occurrences_in_stmts(s: Seq<StmtV>)
    ensures
        occurrences_in_stmts(s) == (if s.len() == 0 {
            Seq::empty()
        } else {
            occurrences_in_stmts(s.drop_last()) + occurrences_in_stmt(s.last())
        }),
{
    reveal(occurrences_in_stmts);
    reveal(occurrences_in_stmt);
}

/// What [`occurrences_in_switch_cases`] is, one item down.
pub proof fn lemma_occurrences_in_switch_cases(s: Seq<SwitchCaseV>)
    ensures
        occurrences_in_switch_cases(s) == (if s.len() == 0 {
            Seq::empty()
        } else {
            occurrences_in_switch_cases(s.drop_last()) + occurrences_in_switch_case(s.last())
        }),
{
    reveal(occurrences_in_switch_cases);
    reveal(occurrences_in_switch_case);
}

/// What [`occurrences_in_var_declarators`] is, one item down.
pub proof fn lemma_occurrences_in_var_declarators(s: Seq<VarDeclaratorV>)
    ensures
        occurrences_in_var_declarators(s) == (if s.len() == 0 {
            Seq::empty()
        } else {
            occurrences_in_var_declarators(s.drop_last()) + occurrences_in_var_declarator(s.last())
        }),
{
    reveal(occurrences_in_var_declarators);
    reveal(occurrences_in_var_declarator);
}

/// Adds the occurrences of bindings in a [`Tpl`] to `out`.
pub fn collect_tpl(x: &Tpl, out: &mut Vec<Occurrence>)
    ensures
        occurrences_view(final(out)@) == occurrences_view(old(out)@) + occurrences_in_tpl(x@),
    decreases x,
{
    let ghost before = occurrences_view(out@);
    proof {
        lemma_tpl_view(*x);
        lemma_occurrences_in_tpl(x@);
        assert(before + Seq::<OccurrenceV>::empty() =~= before);
    }
    collect_exprs(&x.exprs, out);
    assert(occurrences_view(out@) =~= before + occurrences_in_tpl(x@));
}

/// Adds the occurrences of bindings in a [`ExprOrSpread`] to `out`.
pub fn collect_expr_or_spread(x: &ExprOrSpread, out: &mut Vec<Occurrence>)
    ensures
        occurrences_view(final(out)@)
            == occurrences_view(old(out)@) + occurrences_in_expr_or_spread(x@),
    decreases x,
{
    let ghost before = occurrences_view(out@);
    proof {
        lemma_expr_or_spread_view(*x);
        lemma_occurrences_in_expr_or_spread(x@);
        assert(before + Seq::<OccurrenceV>::empty() =~= before);
    }
    collect_expr(&x.expr, out);
    assert(occurrences_view(out@) =~= before + occurrences_in_expr_or_spread(x@));
}

/// Adds the occurrences of bindings in a [`ExprOrSuper`] to `out`.
pub fn collect_expr_or_super(x: &ExprOrSuper, out: &mut Vec<Occurrence>)
    ensures
        occurrences_view(final(out)@)
            == occurrences_view(old(out)@) + occurrences_in_expr_or_super(x@),
    decreases x,
{
    let ghost before = occurrences_view(out@);
    proof {
        lemma_expr_or_super_view(*x);
        lemma_occurrences_in_expr_or_super(x@);
        assert(before + Seq::<OccurrenceV>::empty() =~= before);
    }
    match x {
        ExprOrSuper::Super => {},
        ExprOrSuper::Expr(a) => {
            collect_expr(a, out);
        },
    }
    assert(occurrences_view(out@) =~= before + occurrences_in_expr_or_super(x@));
}

/// Adds the occurrences of bindings in a [`MemberProp`] to `out`.
pub fn collect_member_prop(x: &MemberProp, out: &mut Vec<Occurrence>)
    ensures
        occurrences_view(final(out)@)
            == occurrences_view(old(out)@) + occurrences_in_member_prop(x@),
    decreases x,
{
    let ghost before = occurrences_view(out@);
    proof {
        lemma_member_prop_view(*x);
        lemma_occurrences_in_member_prop(x@);
        assert(before + Seq::<OccurrenceV>::empty() =~= before);
    }
    match x {
        MemberProp::Ident(_) => {},
        MemberProp::Computed(a) => {
            collect_expr(a, out);
        },
    }
    assert(occurrences_view(out@) =~= before + occurrences_in_member_prop(x@));
}

/// Adds the occurrences of bindings in a [`PatOrExpr`] to `out`.
pub fn collect_pat_or_expr(x: &PatOrExpr, out: &mut Vec<Occurrence>)
    ensures
        occurrences_view(final(out)@)
            == occurrences_view(old(out)@) + occurrences_in_pat_or_expr(x@),
    decreases x,
{
    let ghost before = occurrences_view(out@);
    proof {
        lemma_pat_or_expr_view(*x);
        lemma_occurrences_in_pat_or_expr(x@);
        assert(before + Seq::<OccurrenceV>::empty() =~= before);
    }
    match x {
        PatOrExpr::Expr(a) => {
            collect_expr(a, out);
        },
        PatOrExpr::Pat(a) => {
            collect_pat(a, out);
        },
    }
    assert(occurrences_view(out@) =~= before + occurrences_in_pat_or_expr(x@));
}

/// Adds the occurrences of bindings in a [`PropName`] to `out`.
pub fn collect_prop_name(x: &PropName, out: &mut Vec<Occurrence>)
    ensures
        occurrences_view(final(out)@) == occurrences_view(old(out)@) + occurrences_in_prop_name(x@),
    decreases x,
{
    let ghost before = occurrences_view(out@);
    proof {
        lemma_prop_name_view(*x);
        lemma_occurrences_in_prop_name(x@);
        assert(before + Seq::<OccurrenceV>::empty() =~= before);
    }
    match x {
        PropName::Ident(_) => {},
        PropName::Str(_) => {},
        PropName::Num(_) => {},
        PropName::Computed(a) => {
            collect_expr(a, out);
        },
    }
    assert(occurrences_view(out@) =~= before + occurrences_in_prop_name(x@));
}

/// Adds the occurrences of bindings in a [`Prop`] to `out`.
pub fn collect_prop(x: &Prop, out: &mut Vec<Occurrence>)
    ensures
        occurrences_view(final(out)@) == occurrences_view(old(out)@) + occurrences_in_prop(x@),
    decreases x,
{
    let ghost before = occurrences_view(out@);
    proof {
        lemma_prop_view(*x);
        lemma_occurrences_in_prop(x@);
        assert(before + Seq::<OccurrenceV>::empty() =~= before);
    }
    note_prop(x, out);
    match x {
        Prop::Shorthand(_) => {},
        Prop::KeyValue { key, value } => {
            collect_prop_name(key, out);
            collect_expr(value, out);
        },
        Prop::Getter { key, body } => {
            collect_prop_name(key, out);
            match body {
                Some(x) => {
                    collect_stmts(x, out);
                },
                None => {},
            }
        },
        Prop::Setter { key, param, body } => {
            collect_prop_name(key, out);
            collect_pat(param, out);
            match body {
                Some(x) => {
                    collect_stmts(x, out);
                },
                None => {},
            }
        },
        Prop::Method { key, function } => {
            collect_prop_name(key, out);
            collect_function(function, out);
        },
    }
    assert(occurrences_view(out@) =~= before + occurrences_in_prop(x@));
}

/// Adds the occurrences of bindings in a [`PropOrSpread`] to `out`.
pub fn collect_prop_or_spread(x: &PropOrSpread, out: &mut Vec<Occurrence>)
    ensures
        occurrences_view(final(out)@)
            == occurrences_view(old(out)@) + occurrences_in_prop_or_spread(x@),
    decreases x,
{
    let ghost before = occurrences_view(out@);
    proof {
        lemma_prop_or_spread_view(*x);
        lemma_occurrences_in_prop_or_spread(x@);
        assert(before + Seq::<OccurrenceV>::empty() =~= before);
    }
    match x {
        PropOrSpread::Spread(a) => {
            collect_expr(a, out);
        },
        PropOrSpread::Prop(a) => {
            collect_prop(a, out);
        },
    }
    assert(occurrences_view(out@) =~= before + occurrences_in_prop_or_spread(x@));
}

/// Adds the occurrences of bindings in a [`Function`] to `out`.
pub fn collect_function(x: &Function, out: &mut Vec<Occurrence>)
    ensures
        occurrences_view(final(out)@) == occurrences_view(old(out)@) + occurrences_in_function(x@),
    decreases x,
{
    let ghost before = occurrences_view(out@);
    proof {
        lemma_function_view(*x);
        lemma_occurrences_in_function(x@);
        assert(before + Seq::<OccurrenceV>::empty() =~= before);
    }
    collect_pats(&x.params, out);
    match &x.body {
        Some(x) => {
            collect_stmts(x, out);
        },
        None => {},
    }
    assert(occurrences_view(out@) =~= before + occurrences_in_function(x@));
}

/// Adds the occurrences of bindings in a [`Class`] to `out`.
pub fn collect_class(x: &Class, out: &mut Vec<Occurrence>)
    ensures
        occurrences_view(final(out)@) == occurrences_view(old(out)@) + occurrences_in_class(x@),
    decreases x,
{
    let ghost before = occurrences_view(out@);
    proof {
        lemma_class_view(*x);
        lemma_occurrences_in_class(x@);
        assert(before + Seq::<OccurrenceV>::empty() =~= before);
    }
    match &x.super_class {
        Some(x) => {
            collect_expr(x, out);
        },
        None => {},
    }
    collect_class_members(&x.body, out);
    assert(occurrences_view(out@) =~= before + occurrences_in_class(x@));
}

/// Adds the occurrences of bindings in a [`ClassMember`] to `out`.
pub fn collect_class_member(x: &ClassMember, out: &mut Vec<Occurrence>)
    ensures
        occurrences_view(final(out)@)
            == occurrences_view(old(out)@) + occurrences_in_class_member(x@),
    decreases x,
{
    let ghost before = occurrences_view(out@);
    proof {
        lemma_class_member_view(*x);
        lemma_occurrences_in_class_member(x@);
        assert(before + Seq::<OccurrenceV>::empty() =~= before);
    }
    match x {
        ClassMember::Constructor { key, params, body } => {
            collect_prop_name(key, out);
            collect_pats(params, out);
            match body {
                Some(x) => {
                    collect_stmts(x, out);
                },
                None => {},
            }
        },
        ClassMember::Method { key, function, .. } => {
            collect_prop_name(key, out);
            collect_function(function, out);
        },
        ClassMember::Prop { key, value, .. } => {
            collect_expr(key, out);
            match value {
                Some(x) => {
                    collect_expr(x, out);
                },
                None => {},
            }
        },
    }
    assert(occurrences_view(out@) =~= before + occurrences_in_class_member(x@));
}

/// Adds the occurrences of bindings in a [`BlockStmtOrExpr`] to `out`.
pub fn collect_block_stmt_or_expr(x: &BlockStmtOrExpr, out: &mut Vec<Occurrence>)
    ensures
        occurrences_view(final(out)@)
            == occurrences_view(old(out)@) + occurrences_in_block_stmt_or_expr(x@),
    decreases x,
{
    let ghost before = occurrences_view(out@);
    proof {
        lemma_block_stmt_or_expr_view(*x);
        lemma_occurrences_in_block_stmt_or_expr(x@);
        assert(before + Seq::<OccurrenceV>::empty() =~= before);
    }
    match x {
        BlockStmtOrExpr::Block(a) => {
            collect_stmts(a, out);
        },
        BlockStmtOrExpr::Expr(a) => {
            collect_expr(a, out);
        },
    }
    assert(occurrences_view(out@) =~= before + occurrences_in_block_stmt_or_expr(x@));
}

/// Adds the occurrences of bindings in a [`Expr`] to `out`.
pub fn collect_expr(x: &Expr, out: &mut Vec<Occurrence>)
    ensures
        occurrences_view(final(out)@) == occurrences_view(old(out)@) + occurrences_in_expr(x@),
    decreases x,
{
    let ghost before = occurrences_view(out@);
    proof {
        lemma_expr_view(*x);
        lemma_occurrences_in_expr(x@);
        assert(before + Seq::<OccurrenceV>::empty() =~= before);
    }
    note_expr(x, out);
    match x {
        Expr::This => {},
        Expr::Array(a) => {
            collect_opt_expr_or_spreads(a, out);
        },
        Expr::Object(a) => {
            collect_prop_or_spreads(a, out);
        },
        Expr::Fn { function, .. } => {
            collect_function(function, out);
        },
        Expr::Unary { arg, .. } => {
            collect_expr(arg, out);
        },
        Expr::Update { arg, .. } => {
            collect_expr(arg, out);
        },
        Expr::Bin { left, right, .. } => {
            collect_expr(left, out);
            collect_expr(right, out);
        },
        Expr::Assign { left, right, .. } => {
            collect_pat_or_expr(left, out);
            collect_expr(right, out);
        },
        Expr::Member { obj, prop } => {
            collect_expr_or_super(obj, out);
            collect_member_prop(prop, out);
        },
        Expr::Cond { test, cons, alt } => {
            collect_expr(test, out);
            collect_expr(cons, out);
            collect_expr(alt, out);
        },
        Expr::Call { callee, args } => {
            collect_expr_or_super(callee, out);
            collect_expr_or_spreads(args, out);
        },
        Expr::New { callee, args } => {
            collect_expr(callee, out);
            match args {
                Some(x) => {
                    collect_expr_or_spreads(x, out);
                },
                None => {},
            }
        },
        Expr::Sequence { init, last } => {
            collect_exprs(init, out);
            collect_expr(last, out);
        },
        Expr::Ident(_) => {},
        Expr::Lit(_) => {},
        Expr::Tpl(a) => {
            collect_tpl(a, out);
        },
        Expr::TaggedTpl { tag, tpl } => {
            collect_expr(tag, out);
            collect_tpl(tpl, out);
        },
        Expr::Arrow { params, body, .. } => {
            collect_pats(params, out);
            collect_block_stmt_or_expr(body, out);
        },
        Expr::Class { class, .. } => {
            collect_class(class, out);
        },
        Expr::Yield { arg, .. } => {
            match arg {
                Some(x) => {
                    collect_expr(x, out);
                },
                None => {},
            }
        },
        Expr::MetaProp { .. } => {},
        Expr::Await(a) => {
            collect_expr(a, out);
        },
        Expr::Paren(a) => {
            collect_expr(a, out);
        },
        Expr::Ts { expr, .. } => {
            collect_expr(expr, out);
        },
        Expr::OptChain(a) => {
            collect_expr(a, out);
        },
        Expr::PrivateName(_) => {},
    }
    assert(occurrences_view(out@) =~= before + occurrences_in_expr(x@));
}

/// Adds the occurrences of bindings in a [`Pat`] to `out`.
pub fn collect_pat(x: &Pat, out: &mut Vec<Occurrence>)
    ensures
        occurrences_view(final(out)@) == occurrences_view(old(out)@) + occurrences_in_pat(x@),
    decreases x,
{
    let ghost before = occurrences_view(out@);
    proof {
        lemma_pat_view(*x);
        lemma_occurrences_in_pat(x@);
        assert(before + Seq::<OccurrenceV>::empty() =~= before);
    }
    note_pat(x, out);
    match x {
        Pat::Ident(_) => {},
        Pat::Array(a) => {
            collect_opt_pats(a, out);
        },
        Pat::Rest(a) => {
            collect_pat(a, out);
        },
        Pat::Object(a) => {
            collect_object_pat_props(a, out);
        },
        Pat::Assign { left, right } => {
            collect_pat(left, out);
            collect_expr(right, out);
        },
        Pat::Expr(a) => {
            collect_expr(a, out);
        },
    }
    assert(occurrences_view(out@) =~= before + occurrences_in_pat(x@));
}

/// Adds the occurrences of bindings in a [`ObjectPatProp`] to `out`.
pub fn collect_object_pat_prop(x: &ObjectPatProp, out: &mut Vec<Occurrence>)
    ensures
        occurrences_view(final(out)@)
            == occurrences_view(old(out)@) + occurrences_in_object_pat_prop(x@),
    decreases x,
{
    let ghost before = occurrences_view(out@);
    proof {
        lemma_object_pat_prop_view(*x);
        lemma_occurrences_in_object_pat_prop(x@);
        assert(before + Seq::<OccurrenceV>::empty() =~= before);
    }
    note_object_pat_prop(x, out);
    match x {
        ObjectPatProp::KeyValue { key, value } => {
            collect_prop_name(key, out);
            collect_pat(value, out);
        },
        ObjectPatProp::Assign { value, .. } => {
            match value {
                Some(x) => {
                    collect_expr(x, out);
                },
                None => {},
            }
        },
        ObjectPatProp::Rest(a) => {
            collect_pat(a, out);
        },
    }
    assert(occurrences_view(out@) =~= before + occurrences_in_object_pat_prop(x@));
}

/// Adds the occurrences of bindings in a [`VarDeclarator`] to `out`.
pub fn collect_var_declarator(x: &VarDeclarator, out: &mut Vec<Occurrence>)
    ensures
        occurrences_view(final(out)@)
            == occurrences_view(old(out)@) + occurrences_in_var_declarator(x@),
    decreases x,
{
    let ghost before = occurrences_view(out@);
    proof {
        lemma_var_declarator_view(*x);
        lemma_occurrences_in_var_declarator(x@);
        assert(before + Seq::<OccurrenceV>::empty() =~= before);
    }
    collect_pat(&x.name, out);
    match &x.init {
        Some(x) => {
            collect_expr(x, out);
        },
        None => {},
    }
    assert(occurrences_view(out@) =~= before + occurrences_in_var_declarator(x@));
}

/// Adds the occurrences of bindings in a [`VarDecl`] to `out`.
pub fn collect_var_decl(x: &VarDecl, out: &mut Vec<Occurrence>)
    ensures
        occurrences_view(final(out)@) == occurrences_view(old(out)@) + occurrences_in_var_decl(x@),
    decreases x,
{
    let ghost before = occurrences_view(out@);
    proof {
        lemma_var_decl_view(*x);
        lemma_occurrences_in_var_decl(x@);
        assert(before + Seq::<OccurrenceV>::empty() =~= before);
    }
    note_var_decl(x, out);
    collect_var_declarators(&x.decls, out);
    assert(occurrences_view(out@) =~= before + occurrences_in_var_decl(x@));
}

/// Adds the occurrences of bindings in a [`Decl`] to `out`.
pub fn collect_decl(x: &Decl, out: &mut Vec<Occurrence>)
    ensures
        occurrences_view(final(out)@) == occurrences_view(old(out)@) + occurrences_in_decl(x@),
    decreases x,
{
    let ghost before = occurrences_view(out@);
    proof {
        lemma_decl_view(*x);
        lemma_occurrences_in_decl(x@);
        assert(before + Seq::<OccurrenceV>::empty() =~= before);
    }
    note_decl(x, out);
    match x {
        Decl::Class { class, .. } => {
            collect_class(class, out);
        },
        Decl::Fn { function, .. } => {
            collect_function(function, out);
        },
        Decl::Var(a) => {
            collect_var_decl(a, out);
        },
    }
    assert(occurrences_view(out@) =~= before + occurrences_in_decl(x@));
}

/// Adds the occurrences of bindings in a [`VarDeclOrExpr`] to `out`.
pub fn collect_var_decl_or_expr(x: &VarDeclOrExpr, out: &mut Vec<Occurrence>)
    ensures
        occurrences_view(final(out)@)
            == occurrences_view(old(out)@) + occurrences_in_var_decl_or_expr(x@),
    decreases x,
{
    let ghost before = occurrences_view(out@);
    proof {
        lemma_var_decl_or_expr_view(*x);
        lemma_occurrences_in_var_decl_or_expr(x@);
        assert(before + Seq::<OccurrenceV>::empty() =~= before);
    }
    match x {
        VarDeclOrExpr::VarDecl(a) => {
            collect_var_decl(a, out);
        },
        VarDeclOrExpr::Expr(a) => {
            collect_expr(a, out);
        },
    }
    assert(occurrences_view(out@) =~= before + occurrences_in_var_decl_or_expr(x@));
}

/// Adds the occurrences of bindings in a [`VarDeclOrPat`] to `out`.
pub fn collect_var_decl_or_pat(x: &VarDeclOrPat, out: &mut Vec<Occurrence>)
    ensures
        occurrences_view(final(out)@)
            == occurrences_view(old(out)@) + occurrences_in_var_decl_or_pat(x@),
    decreases x,
{
    let ghost before = occurrences_view(out@);
    proof {
        lemma_var_decl_or_pat_view(*x);
        lemma_occurrences_in_var_decl_or_pat(x@);
        assert(before + Seq::<OccurrenceV>::empty() =~= before);
    }
    match x {
        VarDeclOrPat::VarDecl(a) => {
            collect_var_decl(a, out);
        },
        VarDeclOrPat::Pat(a) => {
            collect_pat(a, out);
        },
    }
    assert(occurrences_view(out@) =~= before + occurrences_in_var_decl_or_pat(x@));
}

/// Adds the occurrences of bindings in a [`SwitchCase`] to `out`.
pub fn collect_switch_case(x: &SwitchCase, out: &mut Vec<Occurrence>)
    ensures
        occurrences_view(final(out)@)
            == occurrences_view(old(out)@) + occurrences_in_switch_case(x@),
    decreases x,
{
    let ghost before = occurrences_view(out@);
    proof {
        lemma_switch_case_view(*x);
        lemma_occurrences_in_switch_case(x@);
        assert(before + Seq::<OccurrenceV>::empty() =~= before);
    }
    match &x.test {
        Some(x) => {
            collect_expr(x, out);
        },
        None => {},
    }
    collect_stmts(&x.cons, out);
    assert(occurrences_view(out@) =~= before + occurrences_in_switch_case(x@));
}

/// Adds the occurrences of bindings in a [`CatchClause`] to `out`.
pub fn collect_catch_clause(x: &CatchClause, out: &mut Vec<Occurrence>)
    ensures
        occurrences_view(final(out)@)
            == occurrences_view(old(out)@) + occurrences_in_catch_clause(x@),
    decreases x,
{
    let ghost before = occurrences_view(out@);
    proof {
        lemma_catch_clause_view(*x);
        lemma_occurrences_in_catch_clause(x@);
        assert(before + Seq::<OccurrenceV>::empty() =~= before);
    }
    match &x.param {
        Some(x) => {
            collect_pat(x, out);
        },
        None => {},
    }
    collect_stmts(&x.body, out);
    assert(occurrences_view(out@) =~= before + occurrences_in_catch_clause(x@));
}

/// Adds the occurrences of bindings in a [`Stmt`] to `out`.
pub fn collect_stmt(x: &Stmt, out: &mut Vec<Occurrence>)
    ensures
        occurrences_view(final(out)@) == occurrences_view(old(out)@) + occurrences_in_stmt(x@),
    decreases x,
{
    let ghost before = occurrences_view(out@);
    proof {
        lemma_stmt_view(*x);
        lemma_occurrences_in_stmt(x@);
        assert(before + Seq::<OccurrenceV>::empty() =~= before);
    }
    note_stmt(x, out);
    match x {
        Stmt::Block(a) => {
            collect_stmts(a, out);
        },
        Stmt::Empty => {},
        Stmt::Debugger => {},
        Stmt::With { obj, body } => {
            collect_expr(obj, out);
            collect_stmt(body, out);
        },
        Stmt::Return(a) => {
            match a {
                Some(x) => {
                    collect_expr(x, out);
                },
                None => {},
            }
        },
        Stmt::Labeled { body, .. } => {
            collect_stmt(body, out);
        },
        Stmt::Break(_) => {},
        Stmt::Continue(_) => {},
        Stmt::If { test, cons, alt } => {
            collect_expr(test, out);
            collect_stmt(cons, out);
            match alt {
                Some(x) => {
                    collect_stmt(x, out);
                },
                None => {},
            }
        },
        Stmt::Switch { discriminant, cases } => {
            collect_expr(discriminant, out);
            collect_switch_cases(cases, out);
        },
        Stmt::Throw(a) => {
            collect_expr(a, out);
        },
        Stmt::Try { block, handler, finalizer } => {
            collect_stmts(block, out);
            match handler {
                Some(x) => {
                    collect_catch_clause(x, out);
                },
                None => {},
            }
            match finalizer {
                Some(x) => {
                    collect_stmts(x, out);
                },
                None => {},
            }
        },
        Stmt::While { test, body } => {
            collect_expr(test, out);
            collect_stmt(body, out);
        },
        Stmt::DoWhile { test, body } => {
            collect_expr(test, out);
            collect_stmt(body, out);
        },
        Stmt::For { init, test, update, body } => {
            match init {
                Some(x) => {
                    collect_var_decl_or_expr(x, out);
                },
                None => {},
            }
            match test {
                Some(x) => {
                    collect_expr(x, out);
                },
                None => {},
            }
            match update {
                Some(x) => {
                    collect_expr(x, out);
                },
                None => {},
            }
            collect_stmt(body, out);
        },
        Stmt::ForIn { left, right, body } => {
            collect_var_decl_or_pat(left, out);
            collect_expr(right, out);
            collect_stmt(body, out);
        },
        Stmt::ForOf { left, right, body, .. } => {
            collect_var_decl_or_pat(left, out);
            collect_expr(right, out);
            collect_stmt(body, out);
        },
        Stmt::Decl(a) => {
            collect_decl(a, out);
        },
        Stmt::Expr(a) => {
            collect_expr(a, out);
        },
    }
    assert(occurrences_view(out@) =~= before + occurrences_in_stmt(x@));
}

/// Adds the occurrences of bindings in a [`DefaultDecl`] to `out`.
pub fn collect_default_decl(x: &DefaultDecl, out: &mut Vec<Occurrence>)
    ensures
        occurrences_view(final(out)@)
            == occurrences_view(old(out)@) + occurrences_in_default_decl(x@),
    decreases x,
{
    let ghost before = occurrences_view(out@);
    proof {
        lemma_default_decl_view(*x);
        lemma_occurrences_in_default_decl(x@);
        assert(before + Seq::<OccurrenceV>::empty() =~= before);
    }
    match x {
        DefaultDecl::Class { class, .. } => {
            collect_class(class, out);
        },
        DefaultDecl::Fn { function, .. } => {
            collect_function(function, out);
        },
    }
    assert(occurrences_view(out@) =~= before + occurrences_in_default_decl(x@));
}

/// Adds the occurrences of bindings in a [`ModuleDecl`] to `out`.
pub fn collect_module_decl(x: &ModuleDecl, out: &mut Vec<Occurrence>)
    ensures
        occurrences_view(final(out)@)
            == occurrences_view(old(out)@) + occurrences_in_module_decl(x@),
    decreases x,
{
    let ghost before = occurrences_view(out@);
    proof {
        lemma_module_decl_view(*x);
        lemma_occurrences_in_module_decl(x@);
        assert(before + Seq::<OccurrenceV>::empty() =~= before);
    }
    match x {
        ModuleDecl::Import { .. } => {},
        ModuleDecl::ExportDecl(a) => {
            collect_decl(a, out);
        },
        ModuleDecl::ExportNamed { .. } => {},
        ModuleDecl::ExportDefaultDecl(a) => {
            collect_default_decl(a, out);
        },
        ModuleDecl::ExportDefaultExpr(a) => {
            collect_expr(a, out);
        },
        ModuleDecl::ExportAll { .. } => {},
    }
    assert(occurrences_view(out@) =~= before + occurrences_in_module_decl(x@));
}

/// Adds the occurrences of bindings in a [`ModuleItem`] to `out`.
pub fn collect_module_item(x: &ModuleItem, out: &mut Vec<Occurrence>)
    ensures
        occurrences_view(final(out)@)
            == occurrences_view(old(out)@) + occurrences_in_module_item(x@),
    decreases x,
{
    let ghost before = occurrences_view(out@);
    proof {
        lemma_module_item_view(*x);
        lemma_occurrences_in_module_item(x@);
        assert(before + Seq::<OccurrenceV>::empty() =~= before);
    }
    match x {
        ModuleItem::ModuleDecl(a) => {
            collect_module_decl(a, out);
        },
        ModuleItem::Stmt(a) => {
            collect_stmt(a, out);
        },
    }
    assert(occurrences_view(out@) =~= before + occurrences_in_module_item(x@));
}

/// Adds the occurrences of bindings in a [`Module`] to `out`.
pub fn collect_module(x: &Module, out: &mut Vec<Occurrence>)
    ensures
        occurrences_view(final(out)@) == occurrences_view(old(out)@) + occurrences_in_module(x@),
    decreases x,
{
    let ghost before = occurrences_view(out@);
    proof {
        lemma_module_view(*x);
        lemma_occurrences_in_module(x@);
        assert(before + Seq::<OccurrenceV>::empty() =~= before);
    }
    collect_module_items(&x.body, out);
    assert(occurrences_view(out@) =~= before + occurrences_in_module(x@));
}

/// Adds the occurrences of bindings in the items of a list to `out`.
pub fn collect_class_members(v: &Vec<ClassMember>, out: &mut Vec<Occurrence>)
    ensures
        occurrences_view(final(out)@) == occurrences_view(old(out)@)
            + occurrences_in_class_members(class_members_view(v@)),
    decreases v,
{
    let ghost before = occurrences_view(out@);
    let ghost items = class_members_view(v@);
    proof {
        lemma_class_members_view(v@);
        lemma_occurrences_in_class_members(items.take(0));
        assert(before + Seq::<OccurrenceV>::empty() =~= before);
    }
    let mut i: usize = 0;
    while i < v.len()
        invariant
            i <= v.len(),
            items.len() == v@.len(),
            forall|j: int|
                0 <= j < v@.len() ==> (#[trigger] items[j]) == class_member_view(v@[j]),
            occurrences_view(out@) == before + occurrences_in_class_members(items.take(i as int)),
        decreases v.len() - i,
    {
        let ghost head = items.take(i as int);
        let ghost next = items.take(i + 1);
        proof {
            assert(next.drop_last() =~= head);
            assert(next.last() == items[i as int]);
            lemma_occurrences_in_class_members(next);
            assert(before + occurrences_in_class_members(head) + Seq::<OccurrenceV>::empty() =~= before + occurrences_in_class_members(head));
        }
        collect_class_member(&v[i], out);
        assert(occurrences_view(out@) =~= before + occurrences_in_class_members(next));
        i += 1;
    }
    assert(items.take(i as int) =~= items);
}

/// Adds the occurrences of bindings in the items of a list to `out`.
pub fn collect_expr_or_spreads(v: &Vec<ExprOrSpread>, out: &mut Vec<Occurrence>)
    ensures
        occurrences_view(final(out)@) == occurrences_view(old(out)@)
            + occurrences_in_expr_or_spreads(expr_or_spreads_view(v@)),
    decreases v,
{
    let ghost before = occurrences_view(out@);
    let ghost items = expr_or_spreads_view(v@);
    proof {
        lemma_expr_or_spreads_view(v@);
        lemma_occurrences_in_expr_or_spreads(items.take(0));
        assert(before + Seq::<OccurrenceV>::empty() =~= before);
    }
    let mut i: usize = 0;
    while i < v.len()
        invariant
            i <= v.len(),
            items.len() == v@.len(),
            forall|j: int|
                0 <= j < v@.len() ==> (#[trigger] items[j]) == expr_or_spread_view(v@[j]),
            occurrences_view(out@) == before + occurrences_in_expr_or_spreads(items.take(i as int)),
        decreases v.len() - i,
    {
        let ghost head = items.take(i as int);
        let ghost next = items.take(i + 1);
        proof {
            assert(next.drop_last() =~= head);
            assert(next.last() == items[i as int]);
            lemma_occurrences_in_expr_or_spreads(next);
            assert(before + occurrences_in_expr_or_spreads(head) + Seq::<OccurrenceV>::empty() =~= before + occurrences_in_expr_or_spreads(head));
        }
        collect_expr_or_spread(&v[i], out);
        assert(occurrences_view(out@) =~= before + occurrences_in_expr_or_spreads(next));
        i += 1;
    }
    assert(items.take(i as int) =~= items);
}

/// Adds the occurrences of bindings in the items of a list to `out`.
pub fn collect_exprs(v: &Vec<Expr>, out: &mut Vec<Occurrence>)
    ensures
        occurrences_view(final(out)@) == occurrences_view(old(out)@)
            + occurrences_in_exprs(exprs_view(v@)),
    decreases v,
{
    let ghost before = occurrences_view(out@);
    let ghost items = exprs_view(v@);
    proof {
        lemma_exprs_view(v@);
        lemma_occurrences_in_exprs(items.take(0));
        assert(before + Seq::<OccurrenceV>::empty() =~= before);
    }
    let mut i: usize = 0;
    while i < v.len()
        invariant
            i <= v.len(),
            items.len() == v@.len(),
            forall|j: int|
                0 <= j < v@.len() ==> (#[trigger] items[j]) == expr_view(v@[j]),
            occurrences_view(out@) == before + occurrences_in_exprs(items.take(i as int)),
        decreases v.len() - i,
    {
        let ghost head = items.take(i as int);
        let ghost next = items.take(i + 1);
        proof {
            assert(next.drop_last() =~= head);
            assert(next.last() == items[i as int]);
            lemma_occurrences_in_exprs(next);
            assert(before + occurrences_in_exprs(head) + Seq::<OccurrenceV>::empty() =~= before + occurrences_in_exprs(head));
        }
        collect_expr(&v[i], out);
        assert(occurrences_view(out@) =~= before + occurrences_in_exprs(next));
        i += 1;
    }
    assert(items.take(i as int) =~= items);
}

/// Adds the occurrences of bindings in the items of a list to `out`.
pub fn collect_module_items(v: &Vec<ModuleItem>, out: &mut Vec<Occurrence>)
    ensures
        occurrences_view(final(out)@) == occurrences_view(old(out)@)
            + occurrences_in_module_items(module_items_view(v@)),
    decreases v,
{
    let ghost before = occurrences_view(out@);
    let ghost items = module_items_view(v@);
    proof {
        lemma_module_items_view(v@);
        lemma_occurrences_in_module_items(items.take(0));
        assert(before + Seq::<OccurrenceV>::empty() =~= before);
    }
    let mut i: usize = 0;
    while i < v.len()
        invariant
            i <= v.len(),
            items.len() == v@.len(),
            forall|j: int|
                0 <= j < v@.len() ==> (#[trigger] items[j]) == module_item_view(v@[j]),
            occurrences_view(out@) == before + occurrences_in_module_items(items.take(i as int)),
        decreases v.len() - i,
    {
        let ghost head = items.take(i as int);
        let ghost next = items.take(i + 1);
        proof {
            assert(next.drop_last() =~= head);
            assert(next.last() == items[i as int]);
            lemma_occurrences_in_module_items(next);
            assert(before + occurrences_in_module_items(head) + Seq::<OccurrenceV>::empty() =~= before + occurrences_in_module_items(head));
        }
        collect_module_item(&v[i], out);
        assert(occurrences_view(out@) =~= before + occurrences_in_module_items(next));
        i += 1;
    }
    assert(items.take(i as int) =~= items);
}

/// Adds the occurrences of bindings in the items of a list to `out`.
pub fn collect_object_pat_props(v: &Vec<ObjectPatProp>, out: &mut Vec<Occurrence>)
    ensures
        occurrences_view(final(out)@) == occurrences_view(old(out)@)
            + occurrences_in_object_pat_props(object_pat_props_view(v@)),
    decreases v,
{
    let ghost before = occurrences_view(out@);
    let ghost items = object_pat_props_view(v@);
    proof {
        lemma_object_pat_props_view(v@);
        lemma_occurrences_in_object_pat_props(items.take(0));
        assert(before + Seq::<OccurrenceV>::empty() =~= before);
    }
    let mut i: usize = 0;
    while i < v.len()
        invariant
            i <= v.len(),
            items.len() == v@.len(),
            forall|j: int|
                0 <= j < v@.len() ==> (#[trigger] items[j]) == object_pat_prop_view(v@[j]),
            occurrences_view(out@) == before
                + occurrences_in_object_pat_props(items.take(i as int)),
        decreases v.len() - i,
    {
        let ghost head = items.take(i as int);
        let ghost next = items.take(i + 1);
        proof {
            assert(next.drop_last() =~= head);
            assert(next.last() == items[i as int]);
            lemma_occurrences_in_object_pat_props(next);
            assert(before + occurrences_in_object_pat_props(head) + Seq::<OccurrenceV>::empty() =~= before + occurrences_in_object_pat_props(head));
        }
        collect_object_pat_prop(&v[i], out);
        assert(occurrences_view(out@) =~= before + occurrences_in_object_pat_props(next));
        i += 1;
    }
    assert(items.take(i as int) =~= items);
}

/// Adds the occurrences of bindings in the items of a list to `out`.
pub fn collect_opt_expr_or_spreads(v: &Vec<Option<ExprOrSpread>>, out: &mut Vec<Occurrence>)
    ensures
        occurrences_view(final(out)@) == occurrences_view(old(out)@)
            + occurrences_in_opt_expr_or_spreads(opt_expr_or_spreads_view(v@)),
    decreases v,
{
    let ghost before = occurrences_view(out@);
    let ghost items = opt_expr_or_spreads_view(v@);
    proof {
        lemma_opt_expr_or_spreads_view(v@);
        lemma_occurrences_in_opt_expr_or_spreads(items.take(0));
        assert(before + Seq::<OccurrenceV>::empty() =~= before);
    }
    let mut i: usize = 0;
    while i < v.len()
        invariant
            i <= v.len(),
            items.len() == v@.len(),
            forall|j: int|
                0 <= j < v@.len() ==> (#[trigger] items[j]) == match v@[j] {
                    Some(x) => Some(expr_or_spread_view(x)),
                    None => None,
                },
            occurrences_view(out@) == before
                + occurrences_in_opt_expr_or_spreads(items.take(i as int)),
        decreases v.len() - i,
    {
        let ghost head = items.take(i as int);
        let ghost next = items.take(i + 1);
        proof {
            assert(next.drop_last() =~= head);
            assert(next.last() == items[i as int]);
            lemma_occurrences_in_opt_expr_or_spreads(next);
            assert(before + occurrences_in_opt_expr_or_spreads(head) + Seq::<OccurrenceV>::empty() =~= before + occurrences_in_opt_expr_or_spreads(head));
        }
        match &v[i] {
            Some(x) => collect_expr_or_spread(x, out),
            None => {},
        }
        assert(occurrences_view(out@) =~= before + occurrences_in_opt_expr_or_spreads(next));
        i += 1;
    }
    assert(items.take(i as int) =~= items);
}

/// Adds the occurrences of bindings in the items of a list to `out`.
pub fn collect_opt_pats(v: &Vec<Option<Pat>>, out: &mut Vec<Occurrence>)
    ensures
        occurrences_view(final(out)@) == occurrences_view(old(out)@)
            + occurrences_in_opt_pats(opt_pats_view(v@)),
    decreases v,
{
    let ghost before = occurrences_view(out@);
    let ghost items = opt_pats_view(v@);
    proof {
        lemma_opt_pats_view(v@);
        lemma_occurrences_in_opt_pats(items.take(0));
        assert(before + Seq::<OccurrenceV>::empty() =~= before);
    }
    let mut i: usize = 0;
    while i < v.len()
        invariant
            i <= v.len(),
            items.len() == v@.len(),
            forall|j: int|
                0 <= j < v@.len() ==> (#[trigger] items[j]) == match v@[j] {
                    Some(x) => Some(pat_view(x)),
                    None => None,
                },
            occurrences_view(out@) == before + occurrences_in_opt_pats(items.take(i as int)),
        decreases v.len() - i,
    {
        let ghost head = items.take(i as int);
        let ghost next = items.take(i + 1);
        proof {
            assert(next.drop_last() =~= head);
            assert(next.last() == items[i as int]);
            lemma_occurrences_in_opt_pats(next);
            assert(before + occurrences_in_opt_pats(head) + Seq::<OccurrenceV>::empty() =~= before + occurrences_in_opt_pats(head));
        }
        match &v[i] {
            Some(x) => collect_pat(x, out),
            None => {},
        }
        assert(occurrences_view(out@) =~= before + occurrences_in_opt_pats(next));
        i += 1;
    }
    assert(items.take(i as int) =~= items);
}

/// Adds the occurrences of bindings in the items of a list to `out`.
pub fn collect_pats(v: &Vec<Pat>, out: &mut Vec<Occurrence>)
    ensures
        occurrences_view(final(out)@) == occurrences_view(old(out)@)
            + occurrences_in_pats(pats_view(v@)),
    decreases v,
{
    let ghost before = occurrences_view(out@);
    let ghost items = pats_view(v@);
    proof {
        lemma_pats_view(v@);
        lemma_occurrences_in_pats(items.take(0));
        assert(before + Seq::<OccurrenceV>::empty() =~= before);
    }
    let mut i: usize = 0;
    while i < v.len()
        invariant
            i <= v.len(),
            items.len() == v@.len(),
            forall|j: int|
                0 <= j < v@.len() ==> (#[trigger] items[j]) == pat_view(v@[j]),
            occurrences_view(out@) == before + occurrences_in_pats(items.take(i as int)),
        decreases v.len() - i,
    {
        let ghost head = items.take(i as int);
        let ghost next = items.take(i + 1);
        proof {
            assert(next.drop_last() =~= head);
            assert(next.last() == items[i as int]);
            lemma_occurrences_in_pats(next);
            assert(before + occurrences_in_pats(head) + Seq::<OccurrenceV>::empty() =~= before + occurrences_in_pats(head));
        }
        collect_pat(&v[i], out);
        assert(occurrences_view(out@) =~= before + occurrences_in_pats(next));
        i += 1;
    }
    assert(items.take(i as int) =~= items);
}

/// Adds the occurrences of bindings in the items of a list to `out`.
pub fn collect_prop_or_spreads(v: &Vec<PropOrSpread>, out: &mut Vec<Occurrence>)
    ensures
        occurrences_view(final(out)@) == occurrences_view(old(out)@)
            + occurrences_in_prop_or_spreads(prop_or_spreads_view(v@)),
    decreases v,
{
    let ghost before = occurrences_view(out@);
    let ghost items = prop_or_spreads_view(v@);
    proof {
        lemma_prop_or_spreads_view(v@);
        lemma_occurrences_in_prop_or_spreads(items.take(0));
        assert(before + Seq::<OccurrenceV>::empty() =~= before);
    }
    let mut i: usize = 0;
    while i < v.len()
        invariant
            i <= v.len(),
            items.len() == v@.len(),
            forall|j: int|
                0 <= j < v@.len() ==> (#[trigger] items[j]) == prop_or_spread_view(v@[j]),
            occurrences_view(out@) == before + occurrences_in_prop_or_spreads(items.take(i as int)),
        decreases v.len() - i,
    {
        let ghost head = items.take(i as int);
        let ghost next = items.take(i + 1);
        proof {
            assert(next.drop_last() =~= head);
            assert(next.last() == items[i as int]);
            lemma_occurrences_in_prop_or_spreads(next);
            assert(before + occurrences_in_prop_or_spreads(head) + Seq::<OccurrenceV>::empty() =~= before + occurrences_in_prop_or_spreads(head));
        }
        collect_prop_or_spread(&v[i], out);
        assert(occurrences_view(out@) =~= before + occurrences_in_prop_or_spreads(next));
        i += 1;
    }
    assert(items.take(i as int) =~= items);
}

/// Adds the occurrences of bindings in the items of a list to `out`.
pub fn collect_stmts(v: &Vec<Stmt>, out: &mut Vec<Occurrence>)
    ensures
        occurrences_view(final(out)@) == occurrences_view(old(out)@)
            + occurrences_in_stmts(stmts_view(v@)),
    decreases v,
{
    let ghost before = occurrences_view(out@);
    let ghost items = stmts_view(v@);
    proof {
        lemma_stmts_view(v@);
        lemma_occurrences_in_stmts(items.take(0));
        assert(before + Seq::<OccurrenceV>::empty() =~= before);
    }
    let mut i: usize = 0;
    while i < v.len()
        invariant
            i <= v.len(),
            items.len() == v@.len(),
            forall|j: int|
                0 <= j < v@.len() ==> (#[trigger] items[j]) == stmt_view(v@[j]),
            occurrences_view(out@) == before + occurrences_in_stmts(items.take(i as int)),
        decreases v.len() - i,
    {
        let ghost head = items.take(i as int);
        let ghost next = items.take(i + 1);
        proof {
            assert(next.drop_last() =~= head);
            assert(next.last() == items[i as int]);
            lemma_occurrences_in_stmts(next);
            assert(before + occurrences_in_stmts(head) + Seq::<OccurrenceV>::empty() =~= before + occurrences_in_stmts(head));
        }
        collect_stmt(&v[i], out);
        assert(occurrences_view(out@) =~= before + occurrences_in_stmts(next));
        i += 1;
    }
    assert(items.take(i as int) =~= items);
}

/// Adds the occurrences of bindings in the items of a list to `out`.
pub fn collect_switch_cases(v: &Vec<SwitchCase>, out: &mut Vec<Occurrence>)
    ensures
        occurrences_view(final(out)@) == occurrences_view(old(out)@)
            + occurrences_in_switch_cases(switch_cases_view(v@)),
    decreases v,
{
    let ghost before = occurrences_view(out@);
    let ghost items = switch_cases_view(v@);
    proof {
        lemma_switch_cases_view(v@);
        lemma_occurrences_in_switch_cases(items.take(0));
        assert(before + Seq::<OccurrenceV>::empty() =~= before);
    }
    let mut i: usize = 0;
    while i < v.len()
        invariant
            i <= v.len(),
            items.len() == v@.len(),
            forall|j: int|
                0 <= j < v@.len() ==> (#[trigger] items[j]) == switch_case_view(v@[j]),
            occurrences_view(out@) == before + occurrences_in_switch_cases(items.take(i as int)),
        decreases v.len() - i,
    {
        let ghost head = items.take(i as int);
        let ghost next = items.take(i + 1);
        proof {
            assert(next.drop_last() =~= head);
            assert(next.last() == items[i as int]);
            lemma_occurrences_in_switch_cases(next);
            assert(before + occurrences_in_switch_cases(head) + Seq::<OccurrenceV>::empty() =~= before + occurrences_in_switch_cases(head));
        }
        collect_switch_case(&v[i], out);
        assert(occurrences_view(out@) =~= before + occurrences_in_switch_cases(next));
        i += 1;
    }
    assert(items.take(i as int) =~= items);
}

/// Adds the occurrences of bindings in the items of a list to `out`.
pub fn collect_var_declarators(v: &Vec<VarDeclarator>, out: &mut Vec<Occurrence>)
    ensures
        occurrences_view(final(out)@) == occurrences_view(old(out)@)
            + occurrences_in_var_declarators(var_declarators_view(v@)),
    decreases v,
{
    let ghost before = occurrences_view(out@);
    let ghost items = var_declarators_view(v@);
    proof {
        lemma_var_declarators_view(v@);
        lemma_occurrences_in_var_declarators(items.take(0));
        assert(before + Seq::<OccurrenceV>::empty() =~= before);
    }
    let mut i: usize = 0;
    while i < v.len()
        invariant
            i <= v.len(),
            items.len() == v@.len(),
            forall|j: int|
                0 <= j < v@.len() ==> (#[trigger] items[j]) == var_declarator_view(v@[j]),
            occurrences_view(out@) == before + occurrences_in_var_declarators(items.take(i as int)),
        decreases v.len() - i,
    {
        let ghost head = items.take(i as int);
        let ghost next = items.take(i + 1);
        proof {
            assert(next.drop_last() =~= head);
            assert(next.last() == items[i as int]);
            lemma_occurrences_in_var_declarators(next);
            assert(before + occurrences_in_var_declarators(head) + Seq::<OccurrenceV>::empty() =~= before + occurrences_in_var_declarators(head));
        }
        collect_var_declarator(&v[i], out);
        assert(occurrences_view(out@) =~= before + occurrences_in_var_declarators(next));
        i += 1;
    }
    assert(items.take(i as int) =~= items);
}

} // verus!
