//! Every rest pattern of a tree.

use vstd::prelude::*;
use crate::ast::{
    BlockStmtOrExpr, CatchClause, Class, ClassMember, Decl, DefaultDecl, Expr, ExprOrSpread,
    ExprOrSuper, Function, MemberProp, Module, ModuleDecl, ModuleItem, ObjectPatProp, Pat,
    PatOrExpr, Prop, PropName, PropOrSpread, Stmt, SwitchCase, Tpl, VarDecl, VarDeclOrExpr,
    VarDeclOrPat, VarDeclarator,
};
use crate::model::{
    BlockStmtOrExprV, CatchClauseV, ClassMemberV, ClassV, DeclV, DefaultDeclV, ExprOrSpreadV,
    ExprOrSuperV, ExprV, FunctionV, MemberPropV, ModuleDeclV, ModuleItemV, ModuleV, ObjectPatPropV,
    PatOrExprV, PatV, PropNameV, PropOrSpreadV, PropV, StmtV, SwitchCaseV, TplV, VarDeclOrExprV,
    VarDeclOrPatV, VarDeclV, VarDeclaratorV,
};
use crate::view::{
    class_member_view, class_members_view, expr_or_spread_view, expr_or_spreads_view, expr_view,
    exprs_view, lemma_block_stmt_or_expr_view, lemma_catch_clause_view, lemma_class_member_view,
    lemma_class_members_view, lemma_class_view, lemma_decl_view, lemma_default_decl_view,
    lemma_expr_or_spread_view, lemma_expr_or_spreads_view, lemma_expr_or_super_view,
    lemma_expr_view, lemma_exprs_view, lemma_function_view, lemma_member_prop_view,
    lemma_module_decl_view, lemma_module_item_view, lemma_module_items_view, lemma_module_view,
    lemma_object_pat_prop_view, lemma_object_pat_props_view, lemma_opt_expr_or_spreads_view,
    lemma_opt_pats_view, lemma_pat_or_expr_view, lemma_pat_view, lemma_pats_view,
    lemma_prop_name_view, lemma_prop_or_spread_view, lemma_prop_or_spreads_view, lemma_prop_view,
    lemma_stmt_view, lemma_stmts_view, lemma_switch_case_view, lemma_switch_cases_view,
    lemma_tpl_view, lemma_var_decl_or_expr_view, lemma_var_decl_or_pat_view, lemma_var_decl_view,
    lemma_var_declarator_view, lemma_var_declarators_view, module_item_view, module_items_view,
    object_pat_prop_view, object_pat_props_view, opt_expr_or_spreads_view, opt_pats_view, pat_view,
    pats_view, prop_or_spread_view, prop_or_spreads_view, stmt_view, stmts_view, switch_case_view,
    switch_cases_view, var_declarator_view, var_declarators_view,
};
use crate::probe::{
    Sight, note_rest_object_pat_prop, note_rest_pat, rest_of_object_pat_prop, rest_of_pat,
    sights_view,
};

verus! {

/// The rest patterns in a [`Tpl`], in the order of the source.
#[verifier::opaque]
pub open spec fn rest_pats_in_tpl(x: TplV) -> Seq<Sight>
    decreases x,
{
    rest_pats_in_exprs(x.exprs)
}

/// The rest patterns in a [`ExprOrSpread`], in the order of the source.
#[verifier::opaque]
pub open spec fn rest_pats_in_expr_or_spread(x: ExprOrSpreadV) -> Seq<Sight>
    decreases x,
{
    rest_pats_in_expr(x.expr)
}

/// The rest patterns in a [`ExprOrSuper`], in the order of the source.
#[verifier::opaque]
pub open spec fn rest_pats_in_expr_or_super(x: ExprOrSuperV) -> Seq<Sight>
    decreases x,
{
    match x {
        ExprOrSuperV::Super => Seq::empty(),
        ExprOrSuperV::Expr(a) => rest_pats_in_expr(*a),
    }
}

/// The rest patterns in a [`MemberProp`], in the order of the source.
#[verifier::opaque]
pub open spec fn rest_pats_in_member_prop(x: MemberPropV) -> Seq<Sight>
    decreases x,
{
    match x {
        MemberPropV::Ident(_) => Seq::empty(),
        MemberPropV::Computed(a) => rest_pats_in_expr(*a),
    }
}

/// The rest patterns in a [`PatOrExpr`], in the order of the source.
#[verifier::opaque]
pub open spec fn rest_pats_in_pat_or_expr(x: PatOrExprV) -> Seq<Sight>
    decreases x,
{
    match x {
        PatOrExprV::Expr(a) => rest_pats_in_expr(*a),
        PatOrExprV::Pat(a) => rest_pats_in_pat(*a),
    }
}

/// The rest patterns in a [`PropName`], in the order of the source.
#[verifier::opaque]
pub open spec fn rest_pats_in_prop_name(x: PropNameV) -> Seq<Sight>
    decreases x,
{
    match x {
        PropNameV::Ident(_) => Seq::empty(),
        PropNameV::Str(_) => Seq::empty(),
        PropNameV::Num(_) => Seq::empty(),
        PropNameV::Computed(a) => rest_pats_in_expr(*a),
    }
}

/// The rest patterns in a [`Prop`], in the order of the source.
#[verifier::opaque]
pub open spec fn rest_pats_in_prop(x: PropV) -> Seq<Sight>
    decreases x,
{
    match x {
        PropV::Shorthand(_) => Seq::empty(),
        PropV::KeyValue { key, value } => rest_pats_in_prop_name(key) + rest_pats_in_expr(*value),
        PropV::Getter { key, body } => rest_pats_in_prop_name(key) + (match body {
            Some(x) => rest_pats_in_stmts(x),
            None => Seq::empty(),
        }),
        PropV::Setter { key, param, body } => rest_pats_in_prop_name(key)
            + rest_pats_in_pat(param)
            + (match body {
            Some(x) => rest_pats_in_stmts(x),
            None => Seq::empty(),
        }),
        PropV::Method { key, function } => rest_pats_in_prop_name(key)
            + rest_pats_in_function(function),
    }
}

/// The rest patterns in a [`PropOrSpread`], in the order of the source.
#[verifier::opaque]
pub open spec fn rest_pats_in_prop_or_spread(x: PropOrSpreadV) -> Seq<Sight>
    decreases x,
{
    match x {
        PropOrSpreadV::Spread(a) => rest_pats_in_expr(*a),
        PropOrSpreadV::Prop(a) => rest_pats_in_prop(*a),
    }
}

/// The rest patterns in a [`Function`], in the order of the source.
#[verifier::opaque]
pub open spec fn rest_pats_in_function(x: FunctionV) -> Seq<Sight>
    decreases x,
{
    rest_pats_in_pats(x.params) + (match x.body {
        Some(x) => rest_pats_in_stmts(x),
        None => Seq::empty(),
    })
}

/// The rest patterns in a [`Class`], in the order of the source.
#[verifier::opaque]
pub open spec fn rest_pats_in_class(x: ClassV) -> Seq<Sight>
    decreases x,
{
    (match x.super_class {
        Some(x) => rest_pats_in_expr(*x),
        None => Seq::empty(),
    }) + rest_pats_in_class_members(x.body)
}

/// The rest patterns in a [`ClassMember`], in the order of the source.
#[verifier::opaque]
pub open spec fn rest_pats_in_class_member(x: ClassMemberV) -> Seq<Sight>
    decreases x,
{
    match x {
        ClassMemberV::Constructor { key, params, body } => rest_pats_in_prop_name(key)
            + rest_pats_in_pats(params)
            + (match body {
            Some(x) => rest_pats_in_stmts(x),
            None => Seq::empty(),
        }),
        ClassMemberV::Method { key, function, .. } => rest_pats_in_prop_name(key)
            + rest_pats_in_function(function),
        ClassMemberV::Prop { key, value, .. } => rest_pats_in_expr(*key) + (match value {
            Some(x) => rest_pats_in_expr(*x),
            None => Seq::empty(),
        }),
    }
}

/// The rest patterns in a [`BlockStmtOrExpr`], in the order of the source.
#[verifier::opaque]
pub open spec fn rest_pats_in_block_stmt_or_expr(x: BlockStmtOrExprV) -> Seq<Sight>
    decreases x,
{
    match x {
        BlockStmtOrExprV::Block(a) => rest_pats_in_stmts(a),
        BlockStmtOrExprV::Expr(a) => rest_pats_in_expr(*a),
    }
}

/// The rest patterns in a [`Expr`], in the order of the source.
#[verifier::opaque]
pub open spec fn rest_pats_in_expr(x: ExprV) -> Seq<Sight>
    decreases x,
{
    match x {
        ExprV::This => Seq::empty(),
        ExprV::Array(a) => rest_pats_in_opt_expr_or_spreads(a),
        ExprV::Object(a) => rest_pats_in_prop_or_spreads(a),
        ExprV::Fn { function, .. } => rest_pats_in_function(*function),
        ExprV::Unary { arg, .. } => rest_pats_in_expr(*arg),
        ExprV::Update { arg, .. } => rest_pats_in_expr(*arg),
        ExprV::Bin { left, right, .. } => rest_pats_in_expr(*left) + rest_pats_in_expr(*right),
        ExprV::Assign { left, right, .. } => rest_pats_in_pat_or_expr(left)
            + rest_pats_in_expr(*right),
        ExprV::Member { obj, prop } => rest_pats_in_expr_or_super(obj)
            + rest_pats_in_member_prop(prop),
        ExprV::Cond { test, cons, alt } => rest_pats_in_expr(*test)
            + rest_pats_in_expr(*cons)
            + rest_pats_in_expr(*alt),
        ExprV::Call { callee, args } => rest_pats_in_expr_or_super(callee)
            + rest_pats_in_expr_or_spreads(args),
        ExprV::New { callee, args } => rest_pats_in_expr(*callee) + (match args {
            Some(x) => rest_pats_in_expr_or_spreads(x),
            None => Seq::empty(),
        }),
        ExprV::Sequence { init, last } => rest_pats_in_exprs(init) + rest_pats_in_expr(*last),
        ExprV::Ident(_) => Seq::empty(),
        ExprV::Lit(_) => Seq::empty(),
        ExprV::Tpl(a) => rest_pats_in_tpl(a),
        ExprV::TaggedTpl { tag, tpl } => rest_pats_in_expr(*tag) + rest_pats_in_tpl(tpl),
        ExprV::Arrow { params, body, .. } => rest_pats_in_pats(params)
            + rest_pats_in_block_stmt_or_expr(body),
        ExprV::Class { class, .. } => rest_pats_in_class(*class),
        ExprV::Yield { arg, .. } => (match arg {
            Some(x) => rest_pats_in_expr(*x),
            None => Seq::empty(),
        }),
        ExprV::MetaProp { .. } => Seq::empty(),
        ExprV::Await(a) => rest_pats_in_expr(*a),
        ExprV::Paren(a) => rest_pats_in_expr(*a),
        ExprV::Ts { expr, .. } => rest_pats_in_expr(*expr),
        ExprV::OptChain(a) => rest_pats_in_expr(*a),
        ExprV::PrivateName(_) => Seq::empty(),
    }
}

/// The rest patterns in a [`Pat`], in the order of the source.
#[verifier::opaque]
pub open spec fn rest_pats_in_pat(x: PatV) -> Seq<Sight>
    decreases x,
{
    rest_of_pat(x) + match x {
        PatV::Ident(_) => Seq::empty(),
        PatV::Array(a) => rest_pats_in_opt_pats(a),
        PatV::Rest(a) => rest_pats_in_pat(*a),
        PatV::Object(a) => rest_pats_in_object_pat_props(a),
        PatV::Assign { left, right } => rest_pats_in_pat(*left) + rest_pats_in_expr(*right),
        PatV::Expr(a) => rest_pats_in_expr(*a),
    }
}

/// The rest patterns in a [`ObjectPatProp`], in the order of the source.
#[verifier::opaque]
pub open spec fn rest_pats_in_object_pat_prop(x: ObjectPatPropV) -> Seq<Sight>
    decreases x,
{
    rest_of_object_pat_prop(x) + match x {
        ObjectPatPropV::KeyValue { key, value } => rest_pats_in_prop_name(key)
            + rest_pats_in_pat(*value),
        ObjectPatPropV::Assign { value, .. } => (match value {
            Some(x) => rest_pats_in_expr(*x),
            None => Seq::empty(),
        }),
        ObjectPatPropV::Rest(a) => rest_pats_in_pat(*a),
    }
}

/// The rest patterns in a [`VarDeclarator`], in the order of the source.
#[verifier::opaque]
pub open spec fn rest_pats_in_var_declarator(x: VarDeclaratorV) -> Seq<Sight>
    decreases x,
{
    rest_pats_in_pat(x.name) + (match x.init {
        Some(x) => rest_pats_in_expr(*x),
        None => Seq::empty(),
    })
}

/// The rest patterns in a [`VarDecl`], in the order of the source.
#[verifier::opaque]
pub open spec fn rest_pats_in_var_decl(x: VarDeclV) -> Seq<Sight>
    decreases x,
{
    rest_pats_in_var_declarators(x.decls)
}

/// The rest patterns in a [`Decl`], in the order of the source.
#[verifier::opaque]
pub open spec fn rest_pats_in_decl(x: DeclV) -> Seq<Sight>
    decreases x,
{
    match x {
        DeclV::Class { class, .. } => rest_pats_in_class(class),
        DeclV::Fn { function, .. } => rest_pats_in_function(function),
        DeclV::Var(a) => rest_pats_in_var_decl(a),
    }
}

/// The rest patterns in a [`VarDeclOrExpr`], in the order of the source.
#[verifier::opaque]
pub open spec fn rest_pats_in_var_decl_or_expr(x: VarDeclOrExprV) -> Seq<Sight>
    decreases x,
{
    match x {
        VarDeclOrExprV::VarDecl(a) => rest_pats_in_var_decl(a),
        VarDeclOrExprV::Expr(a) => rest_pats_in_expr(*a),
    }
}

/// The rest patterns in a [`VarDeclOrPat`], in the order of the source.
#[verifier::opaque]
pub open spec fn rest_pats_in_var_decl_or_pat(x: VarDeclOrPatV) -> Seq<Sight>
    decreases x,
{
    match x {
        VarDeclOrPatV::VarDecl(a) => rest_pats_in_var_decl(a),
        VarDeclOrPatV::Pat(a) => rest_pats_in_pat(a),
    }
}

/// The rest patterns in a [`SwitchCase`], in the order of the source.
#[verifier::opaque]
pub open spec fn rest_pats_in_switch_case(x: SwitchCaseV) -> Seq<Sight>
    decreases x,
{
    (match x.test {
        Some(x) => rest_pats_in_expr(*x),
        None => Seq::empty(),
    }) + rest_pats_in_stmts(x.cons)
}

/// The rest patterns in a [`CatchClause`], in the order of the source.
#[verifier::opaque]
pub open spec fn rest_pats_in_catch_clause(x: CatchClauseV) -> Seq<Sight>
    decreases x,
{
    (match x.param {
        Some(x) => rest_pats_in_pat(x),
        None => Seq::empty(),
    }) + rest_pats_in_stmts(x.body)
}

/// The rest patterns in a [`Stmt`], in the order of the source.
#[verifier::opaque]
pub open spec fn rest_pats_in_stmt(x: StmtV) -> Seq<Sight>
    decreases x,
{
    match x {
        StmtV::Block(a) => rest_pats_in_stmts(a),
        StmtV::Empty => Seq::empty(),
        StmtV::Debugger => Seq::empty(),
        StmtV::With { obj, body } => rest_pats_in_expr(*obj) + rest_pats_in_stmt(*body),
        StmtV::Return(a) => (match a {
            Some(x) => rest_pats_in_expr(*x),
            None => Seq::empty(),
        }),
        StmtV::Labeled { body, .. } => rest_pats_in_stmt(*body),
        StmtV::Break(_) => Seq::empty(),
        StmtV::Continue(_) => Seq::empty(),
        StmtV::If { test, cons, alt } => rest_pats_in_expr(*test)
            + rest_pats_in_stmt(*cons)
            + (match alt {
            Some(x) => rest_pats_in_stmt(*x),
            None => Seq::empty(),
        }),
        StmtV::Switch { discriminant, cases } => rest_pats_in_expr(*discriminant)
            + rest_pats_in_switch_cases(cases),
        StmtV::Throw(a) => rest_pats_in_expr(*a),
        StmtV::Try { block, handler, finalizer } => rest_pats_in_stmts(block) + (match handler {
            Some(x) => rest_pats_in_catch_clause(x),
            None => Seq::empty(),
        }) + (match finalizer {
            Some(x) => rest_pats_in_stmts(x),
            None => Seq::empty(),
        }),
        StmtV::While { test, body } => rest_pats_in_expr(*test) + rest_pats_in_stmt(*body),
        StmtV::DoWhile { test, body } => rest_pats_in_expr(*test) + rest_pats_in_stmt(*body),
        StmtV::For { init, test, update, body } => (match init {
            Some(x) => rest_pats_in_var_decl_or_expr(x),
            None => Seq::empty(),
        }) + (match test {
            Some(x) => rest_pats_in_expr(*x),
            None => Seq::empty(),
        }) + (match update {
            Some(x) => rest_pats_in_expr(*x),
            None => Seq::empty(),
        }) + rest_pats_in_stmt(*body),
        StmtV::ForIn { left, right, body } => rest_pats_in_var_decl_or_pat(left)
            + rest_pats_in_expr(*right)
            + rest_pats_in_stmt(*body),
        StmtV::ForOf { left, right, body, .. } => rest_pats_in_var_decl_or_pat(left)
            + rest_pats_in_expr(*right)
            + rest_pats_in_stmt(*body),
        StmtV::Decl(a) => rest_pats_in_decl(a),
        StmtV::Expr(a) => rest_pats_in_expr(*a),
    }
}

/// The rest patterns in a [`DefaultDecl`], in the order of the source.
#[verifier::opaque]
pub open spec fn rest_pats_in_default_decl(x: DefaultDeclV) -> Seq<Sight>
    decreases x,
{
    match x {
        DefaultDeclV::Class { class, .. } => rest_pats_in_class(class),
        DefaultDeclV::Fn { function, .. } => rest_pats_in_function(function),
    }
}

/// The rest patterns in a [`ModuleDecl`], in the order of the source.
#[verifier::opaque]
pub open spec fn rest_pats_in_module_decl(x: ModuleDeclV) -> Seq<Sight>
    decreases x,
{
    match x {
        ModuleDeclV::Import { .. } => Seq::empty(),
        ModuleDeclV::ExportDecl(a) => rest_pats_in_decl(a),
        ModuleDeclV::ExportNamed { .. } => Seq::empty(),
        ModuleDeclV::ExportDefaultDecl(a) => rest_pats_in_default_decl(a),
        ModuleDeclV::ExportDefaultExpr(a) => rest_pats_in_expr(*a),
        ModuleDeclV::ExportAll { .. } => Seq::empty(),
    }
}

/// The rest patterns in a [`ModuleItem`], in the order of the source.
#[verifier::opaque]
pub open spec fn rest_pats_in_module_item(x: ModuleItemV) -> Seq<Sight>
    decreases x,
{
    match x {
        ModuleItemV::ModuleDecl(a) => rest_pats_in_module_decl(a),
        ModuleItemV::Stmt(a) => rest_pats_in_stmt(a),
    }
}

/// The rest patterns in a [`Module`], in the order of the source.
#[verifier::opaque]
pub open spec fn rest_pats_in_module(x: ModuleV) -> Seq<Sight>
    decreases x,
{
    rest_pats_in_module_items(x.body)
}

/// The rest patterns in the items of a list, in the order of the source.
#[verifier::opaque]
pub open spec fn rest_pats_in_class_members(s: Seq<ClassMemberV>) -> Seq<Sight>
    decreases s,
{
    if s.len() == 0 {
        Seq::empty()
    } else {
        rest_pats_in_class_members(s.drop_last()) + rest_pats_in_class_member(s.last())
    }
}

/// The rest patterns in the items of a list, in the order of the source.
#[verifier::opaque]
pub open spec fn rest_pats_in_expr_or_spreads(s: Seq<ExprOrSpreadV>) -> Seq<Sight>
    decreases s,
{
    if s.len() == 0 {
        Seq::empty()
    } else {
        rest_pats_in_expr_or_spreads(s.drop_last()) + rest_pats_in_expr_or_spread(s.last())
    }
}

/// The rest patterns in the items of a list, in the order of the source.
#[verifier::opaque]
pub open spec fn rest_pats_in_exprs(s: Seq<ExprV>) -> Seq<Sight>
    decreases s,
{
    if s.len() == 0 {
        Seq::empty()
    } else {
        rest_pats_in_exprs(s.drop_last()) + rest_pats_in_expr(s.last())
    }
}

/// The rest patterns in the items of a list, in the order of the source.
#[verifier::opaque]
pub open spec fn rest_pats_in_module_items(s: Seq<ModuleItemV>) -> Seq<Sight>
    decreases s,
{
    if s.len() == 0 {
        Seq::empty()
    } else {
        rest_pats_in_module_items(s.drop_last()) + rest_pats_in_module_item(s.last())
    }
}

/// The rest patterns in the items of a list, in the order of the source.
#[verifier::opaque]
pub open spec fn rest_pats_in_object_pat_props(s: Seq<ObjectPatPropV>) -> Seq<Sight>
    decreases s,
{
    if s.len() == 0 {
        Seq::empty()
    } else {
        rest_pats_in_object_pat_props(s.drop_last()) + rest_pats_in_object_pat_prop(s.last())
    }
}

/// The rest patterns in the items of a list, in the order of the source.
#[verifier::opaque]
pub open spec fn rest_pats_in_opt_expr_or_spreads(s: Seq<Option<ExprOrSpreadV>>) -> Seq<Sight>
    decreases s,
{
    if s.len() == 0 {
        Seq::empty()
    } else {
        rest_pats_in_opt_expr_or_spreads(s.drop_last()) + (match s.last() {
            Some(x) => rest_pats_in_expr_or_spread(x),
            None => Seq::empty(),
        })
    }
}

/// The rest patterns in the items of a list, in the order of the source.
#[verifier::opaque]
pub open spec fn rest_pats_in_opt_pats(s: Seq<Option<PatV>>) -> Seq<Sight>
    decreases s,
{
    if s.len() == 0 {
        Seq::empty()
    } else {
        rest_pats_in_opt_pats(s.drop_last()) + (match s.last() {
            Some(x) => rest_pats_in_pat(x),
            None => Seq::empty(),
        })
    }
}

/// The rest patterns in the items of a list, in the order of the source.
#[verifier::opaque]
pub open spec fn rest_pats_in_pats(s: Seq<PatV>) -> Seq<Sight>
    decreases s,
{
    if s.len() == 0 {
        Seq::empty()
    } else {
        rest_pats_in_pats(s.drop_last()) + rest_pats_in_pat(s.last())
    }
}

/// The rest patterns in the items of a list, in the order of the source.
#[verifier::opaque]
pub open spec fn rest_pats_in_prop_or_spreads(s: Seq<PropOrSpreadV>) -> Seq<Sight>
    decreases s,
{
    if s.len() == 0 {
        Seq::empty()
    } else {
        rest_pats_in_prop_or_spreads(s.drop_last()) + rest_pats_in_prop_or_spread(s.last())
    }
}

/// The rest patterns in the items of a list, in the order of the source.
#[verifier::opaque]
pub open spec fn rest_pats_in_stmts(s: Seq<StmtV>) -> Seq<Sight>
    decreases s,
{
    if s.len() == 0 {
        Seq::empty()
    } else {
        rest_pats_in_stmts(s.drop_last()) + rest_pats_in_stmt(s.last())
    }
}

/// The rest patterns in the items of a list, in the order of the source.
#[verifier::opaque]
pub open spec fn rest_pats_in_switch_cases(s: Seq<SwitchCaseV>) -> Seq<Sight>
    decreases s,
{
    if s.len() == 0 {
        Seq::empty()
    } else {
        rest_pats_in_switch_cases(s.drop_last()) + rest_pats_in_switch_case(s.last())
    }
}

/// The rest patterns in the items of a list, in the order of the source.
#[verifier::opaque]
pub open spec fn rest_pats_in_var_declarators(s: Seq<VarDeclaratorV>) -> Seq<Sight>
    decreases s,
{
    if s.len() == 0 {
        Seq::empty()
    } else {
        rest_pats_in_var_declarators(s.drop_last()) + rest_pats_in_var_declarator(s.last())
    }
}

/// What [`rest_pats_in_tpl`] is, one level down.
pub proof fn lemma_rest_pats_in_tpl(x: TplV)
    ensures
        rest_pats_in_tpl(x) == (rest_pats_in_exprs(x.exprs)),
{
    reveal(rest_pats_in_tpl);
    reveal(rest_pats_in_exprs);
}

/// What [`rest_pats_in_expr_or_spread`] is, one level down.
pub proof fn lemma_rest_pats_in_expr_or_spread(x: ExprOrSpreadV)
    ensures
        rest_pats_in_expr_or_spread(x) == (rest_pats_in_expr(x.expr)),
{
    reveal(rest_pats_in_expr_or_spread);
    reveal(rest_pats_in_expr);
}

/// What [`rest_pats_in_expr_or_super`] is, one level down.
pub proof fn lemma_rest_pats_in_expr_or_super(x: ExprOrSuperV)
    ensures
        rest_pats_in_expr_or_super(x) == (match x {
            ExprOrSuperV::Super => Seq::empty(),
            ExprOrSuperV::Expr(a) => rest_pats_in_expr(*a),
        }),
{
    reveal(rest_pats_in_expr_or_super);
    reveal(rest_pats_in_expr);
}

/// What [`rest_pats_in_member_prop`] is, one level down.
pub proof fn lemma_rest_pats_in_member_prop(x: MemberPropV)
    ensures
        rest_pats_in_member_prop(x) == (match x {
            MemberPropV::Ident(_) => Seq::empty(),
            MemberPropV::Computed(a) => rest_pats_in_expr(*a),
        }),
{
    reveal(rest_pats_in_member_prop);
    reveal(rest_pats_in_expr);
}

/// What [`rest_pats_in_pat_or_expr`] is, one level down.
pub proof fn lemma_rest_pats_in_pat_or_expr(x: PatOrExprV)
    ensures
        rest_pats_in_pat_or_expr(x) == (match x {
            PatOrExprV::Expr(a) => rest_pats_in_expr(*a),
            PatOrExprV::Pat(a) => rest_pats_in_pat(*a),
        }),
{
    reveal(rest_pats_in_pat_or_expr);
    reveal(rest_pats_in_expr);
    reveal(rest_pats_in_pat);
}

/// What [`rest_pats_in_prop_name`] is, one level down.
pub proof fn lemma_rest_pats_in_prop_name(x: PropNameV)
    ensures
        rest_pats_in_prop_name(x) == (match x {
            PropNameV::Ident(_) => Seq::empty(),
            PropNameV::Str(_) => Seq::empty(),
            PropNameV::Num(_) => Seq::empty(),
            PropNameV::Computed(a) => rest_pats_in_expr(*a),
        }),
{
    reveal(rest_pats_in_prop_name);
    reveal(rest_pats_in_expr);
}

/// What [`rest_pats_in_prop`] is, one level down.
pub proof fn lemma_rest_pats_in_prop(x: PropV)
    ensures
        rest_pats_in_prop(x) == (match x {
            PropV::Shorthand(_) => Seq::empty(),
            PropV::KeyValue { key, value } => rest_pats_in_prop_name(key)
                + rest_pats_in_expr(*value),
            PropV::Getter { key, body } => rest_pats_in_prop_name(key) + (match body {
                Some(x) => rest_pats_in_stmts(x),
                None => Seq::empty(),
            }),
            PropV::Setter { key, param, body } => rest_pats_in_prop_name(key)
                + rest_pats_in_pat(param)
                + (match body {
                Some(x) => rest_pats_in_stmts(x),
                None => Seq::empty(),
            }),
            PropV::Method { key, function } => rest_pats_in_prop_name(key)
                + rest_pats_in_function(function),
        }),
{
    reveal(rest_pats_in_prop);
    reveal(rest_pats_in_prop_name);
    reveal(rest_pats_in_expr);
    reveal(rest_pats_in_stmts);
    reveal(rest_pats_in_pat);
    reveal(rest_pats_in_function);
}

/// What [`rest_pats_in_prop_or_spread`] is, one level down.
pub proof fn lemma_rest_pats_in_prop_or_spread(x: PropOrSpreadV)
    ensures
        rest_pats_in_prop_or_spread(x) == (match x {
            PropOrSpreadV::Spread(a) => rest_pats_in_expr(*a),
            PropOrSpreadV::Prop(a) => rest_pats_in_prop(*a),
        }),
{
    reveal(rest_pats_in_prop_or_spread);
    reveal(rest_pats_in_expr);
    reveal(rest_pats_in_prop);
}

/// What [`rest_pats_in_function`] is, one level down.
pub proof fn lemma_rest_pats_in_function(x: FunctionV)
    ensures
        rest_pats_in_function(x) == (rest_pats_in_pats(x.params) + (match x.body {
            Some(x) => rest_pats_in_stmts(x),
            None => Seq::empty(),
        })),
{
    reveal(rest_pats_in_function);
    reveal(rest_pats_in_pats);
    reveal(rest_pats_in_stmts);
}

/// What [`rest_pats_in_class`] is, one level down.
pub proof fn lemma_rest_pats_in_class(x: ClassV)
    ensures
        rest_pats_in_class(x) == ((match x.super_class {
            Some(x) => rest_pats_in_expr(*x),
            None => Seq::empty(),
        }) + rest_pats_in_class_members(x.body)),
{
    reveal(rest_pats_in_class);
    reveal(rest_pats_in_expr);
    reveal(rest_pats_in_class_members);
}

/// What [`rest_pats_in_class_member`] is, one level down.
pub proof fn lemma_rest_pats_in_class_member(x: ClassMemberV)
    ensures
        rest_pats_in_class_member(x) == (match x {
            ClassMemberV::Constructor { key, params, body } => rest_pats_in_prop_name(key)
                + rest_pats_in_pats(params)
                + (match body {
                Some(x) => rest_pats_in_stmts(x),
                None => Seq::empty(),
            }),
            ClassMemberV::Method { key, function, .. } => rest_pats_in_prop_name(key)
                + rest_pats_in_function(function),
            ClassMemberV::Prop { key, value, .. } => rest_pats_in_expr(*key) + (match value {
                Some(x) => rest_pats_in_expr(*x),
                None => Seq::empty(),
            }),
        }),
{
    reveal(rest_pats_in_class_member);
    reveal(rest_pats_in_prop_name);
    reveal(rest_pats_in_pats);
    reveal(rest_pats_in_stmts);
    reveal(rest_pats_in_function);
    reveal(rest_pats_in_expr);
}

/// What [`rest_pats_in_block_stmt_or_expr`] is, one level down.
pub proof fn lemma_rest_pats_in_block_stmt_or_expr(x: BlockStmtOrExprV)
    ensures
        rest_pats_in_block_stmt_or_expr(x) == (match x {
            BlockStmtOrExprV::Block(a) => rest_pats_in_stmts(a),
            BlockStmtOrExprV::Expr(a) => rest_pats_in_expr(*a),
        }),
{
    reveal(rest_pats_in_block_stmt_or_expr);
    reveal(rest_pats_in_stmts);
    reveal(rest_pats_in_expr);
}

/// What [`rest_pats_in_expr`] is, one level down.
pub proof fn lemma_rest_pats_in_expr(x: ExprV)
    ensures
        rest_pats_in_expr(x) == (match x {
            ExprV::This => Seq::empty(),
            ExprV::Array(a) => rest_pats_in_opt_expr_or_spreads(a),
            ExprV::Object(a) => rest_pats_in_prop_or_spreads(a),
            ExprV::Fn { function, .. } => rest_pats_in_function(*function),
            ExprV::Unary { arg, .. } => rest_pats_in_expr(*arg),
            ExprV::Update { arg, .. } => rest_pats_in_expr(*arg),
            ExprV::Bin { left, right, .. } => rest_pats_in_expr(*left) + rest_pats_in_expr(*right),
            ExprV::Assign { left, right, .. } => rest_pats_in_pat_or_expr(left)
                + rest_pats_in_expr(*right),
            ExprV::Member { obj, prop } => rest_pats_in_expr_or_super(obj)
                + rest_pats_in_member_prop(prop),
            ExprV::Cond { test, cons, alt } => rest_pats_in_expr(*test)
                + rest_pats_in_expr(*cons)
                + rest_pats_in_expr(*alt),
            ExprV::Call { callee, args } => rest_pats_in_expr_or_super(callee)
                + rest_pats_in_expr_or_spreads(args),
            ExprV::New { callee, args } => rest_pats_in_expr(*callee) + (match args {
                Some(x) => rest_pats_in_expr_or_spreads(x),
                None => Seq::empty(),
            }),
            ExprV::Sequence { init, last } => rest_pats_in_exprs(init) + rest_pats_in_expr(*last),
            ExprV::Ident(_) => Seq::empty(),
            ExprV::Lit(_) => Seq::empty(),
            ExprV::Tpl(a) => rest_pats_in_tpl(a),
            ExprV::TaggedTpl { tag, tpl } => rest_pats_in_expr(*tag) + rest_pats_in_tpl(tpl),
            ExprV::Arrow { params, body, .. } => rest_pats_in_pats(params)
                + rest_pats_in_block_stmt_or_expr(body),
            ExprV::Class { class, .. } => rest_pats_in_class(*class),
            ExprV::Yield { arg, .. } => (match arg {
                Some(x) => rest_pats_in_expr(*x),
                None => Seq::empty(),
            }),
            ExprV::MetaProp { .. } => Seq::empty(),
            ExprV::Await(a) => rest_pats_in_expr(*a),
            ExprV::Paren(a) => rest_pats_in_expr(*a),
            ExprV::Ts { expr, .. } => rest_pats_in_expr(*expr),
            ExprV::OptChain(a) => rest_pats_in_expr(*a),
            ExprV::PrivateName(_) => Seq::empty(),
        }),
{
    reveal(rest_pats_in_expr);
    reveal(rest_pats_in_opt_expr_or_spreads);
    reveal(rest_pats_in_prop_or_spreads);
    reveal(rest_pats_in_function);
    reveal(rest_pats_in_pat_or_expr);
    reveal(rest_pats_in_expr_or_super);
    reveal(rest_pats_in_member_prop);
    reveal(rest_pats_in_expr_or_spreads);
    reveal(rest_pats_in_exprs);
    reveal(rest_pats_in_tpl);
    reveal(rest_pats_in_pats);
    reveal(rest_pats_in_block_stmt_or_expr);
    reveal(rest_pats_in_class);
}

/// What [`rest_pats_in_pat`] is, one level down.
pub proof fn lemma_rest_pats_in_pat(x: PatV)
    ensures
        rest_pats_in_pat(x) == (rest_of_pat(x) + match x {
            PatV::Ident(_) => Seq::empty(),
            PatV::Array(a) => rest_pats_in_opt_pats(a),
            PatV::Rest(a) => rest_pats_in_pat(*a),
            PatV::Object(a) => rest_pats_in_object_pat_props(a),
            PatV::Assign { left, right } => rest_pats_in_pat(*left) + rest_pats_in_expr(*right),
            PatV::Expr(a) => rest_pats_in_expr(*a),
        }),
{
    reveal(rest_pats_in_pat);
    reveal(rest_pats_in_opt_pats);
    reveal(rest_pats_in_object_pat_props);
    reveal(rest_pats_in_expr);
}

/// What [`rest_pats_in_object_pat_prop`] is, one level down.
pub proof fn lemma_rest_pats_in_object_pat_prop(x: ObjectPatPropV)
    ensures
        rest_pats_in_object_pat_prop(x) == (rest_of_object_pat_prop(x) + match x {
            ObjectPatPropV::KeyValue { key, value } => rest_pats_in_prop_name(key)
                + rest_pats_in_pat(*value),
            ObjectPatPropV::Assign { value, .. } => (match value {
                Some(x) => rest_pats_in_expr(*x),
                None => Seq::empty(),
            }),
            ObjectPatPropV::Rest(a) => rest_pats_in_pat(*a),
        }),
{
    reveal(rest_pats_in_object_pat_prop);
    reveal(rest_pats_in_prop_name);
    reveal(rest_pats_in_pat);
    reveal(rest_pats_in_expr);
}

/// What [`rest_pats_in_var_declarator`] is, one level down.
pub proof fn lemma_rest_pats_in_var_declarator(x: VarDeclaratorV)
    ensures
        rest_pats_in_var_declarator(x) == (rest_pats_in_pat(x.name) + (match x.init {
            Some(x) => rest_pats_in_expr(*x),
            None => Seq::empty(),
        })),
{
    reveal(rest_pats_in_var_declarator);
    reveal(rest_pats_in_pat);
    reveal(rest_pats_in_expr);
}

/// What [`rest_pats_in_var_decl`] is, one level down.
pub proof fn lemma_rest_pats_in_var_decl(x: VarDeclV)
    ensures
        rest_pats_in_var_decl(x) == (rest_pats_in_var_declarators(x.decls)),
{
    reveal(rest_pats_in_var_decl);
    reveal(rest_pats_in_var_declarators);
}

/// What [`rest_pats_in_decl`] is, one level down.
pub proof fn lemma_rest_pats_in_decl(x: DeclV)
    ensures
        rest_pats_in_decl(x) == (match x {
            DeclV::Class { class, .. } => rest_pats_in_class(class),
            DeclV::Fn { function, .. } => rest_pats_in_function(function),
            DeclV::Var(a) => rest_pats_in_var_decl(a),
        }),
{
    reveal(rest_pats_in_decl);
    reveal(rest_pats_in_class);
    reveal(rest_pats_in_function);
    reveal(rest_pats_in_var_decl);
}

/// What [`rest_pats_in_var_decl_or_expr`] is, one level down.
pub proof fn lemma_rest_pats_in_var_decl_or_expr(x: VarDeclOrExprV)
    ensures
        rest_pats_in_var_decl_or_expr(x) == (match x {
            VarDeclOrExprV::VarDecl(a) => rest_pats_in_var_decl(a),
            VarDeclOrExprV::Expr(a) => rest_pats_in_expr(*a),
        }),
{
    reveal(rest_pats_in_var_decl_or_expr);
    reveal(rest_pats_in_var_decl);
    reveal(rest_pats_in_expr);
}

/// What [`rest_pats_in_var_decl_or_pat`] is, one level down.
pub proof fn lemma_rest_pats_in_var_decl_or_pat(x: VarDeclOrPatV)
    ensures
        rest_pats_in_var_decl_or_pat(x) == (match x {
            VarDeclOrPatV::VarDecl(a) => rest_pats_in_var_decl(a),
            VarDeclOrPatV::Pat(a) => rest_pats_in_pat(a),
        }),
{
    reveal(rest_pats_in_var_decl_or_pat);
    reveal(rest_pats_in_var_decl);
    reveal(rest_pats_in_pat);
}

/// What [`rest_pats_in_switch_case`] is, one level down.
pub proof fn lemma_rest_pats_in_switch_case(x: SwitchCaseV)
    ensures
        rest_pats_in_switch_case(x) == ((match x.test {
            Some(x) => rest_pats_in_expr(*x),
            None => Seq::empty(),
        }) + rest_pats_in_stmts(x.cons)),
{
    reveal(rest_pats_in_switch_case);
    reveal(rest_pats_in_expr);
    reveal(rest_pats_in_stmts);
}

/// What [`rest_pats_in_catch_clause`] is, one level down.
pub proof fn lemma_rest_pats_in_catch_clause(x: CatchClauseV)
    ensures
        rest_pats_in_catch_clause(x) == ((match x.param {
            Some(x) => rest_pats_in_pat(x),
            None => Seq::empty(),
        }) + rest_pats_in_stmts(x.body)),
{
    reveal(rest_pats_in_catch_clause);
    reveal(rest_pats_in_pat);
    reveal(rest_pats_in_stmts);
}

/// What [`rest_pats_in_stmt`] is, one level down.
pub proof fn lemma_rest_pats_in_stmt(x: StmtV)
    ensures
        rest_pats_in_stmt(x) == (match x {
            StmtV::Block(a) => rest_pats_in_stmts(a),
            StmtV::Empty => Seq::empty(),
            StmtV::Debugger => Seq::empty(),
            StmtV::With { obj, body } => rest_pats_in_expr(*obj) + rest_pats_in_stmt(*body),
            StmtV::Return(a) => (match a {
                Some(x) => rest_pats_in_expr(*x),
                None => Seq::empty(),
            }),
            StmtV::Labeled { body, .. } => rest_pats_in_stmt(*body),
            StmtV::Break(_) => Seq::empty(),
            StmtV::Continue(_) => Seq::empty(),
            StmtV::If { test, cons, alt } => rest_pats_in_expr(*test)
                + rest_pats_in_stmt(*cons)
                + (match alt {
                Some(x) => rest_pats_in_stmt(*x),
                None => Seq::empty(),
            }),
            StmtV::Switch { discriminant, cases } => rest_pats_in_expr(*discriminant)
                + rest_pats_in_switch_cases(cases),
            StmtV::Throw(a) => rest_pats_in_expr(*a),
            StmtV::Try { block, handler, finalizer } => rest_pats_in_stmts(block) + (match handler {
                Some(x) => rest_pats_in_catch_clause(x),
                None => Seq::empty(),
            }) + (match finalizer {
                Some(x) => rest_pats_in_stmts(x),
                None => Seq::empty(),
            }),
            StmtV::While { test, body } => rest_pats_in_expr(*test) + rest_pats_in_stmt(*body),
            StmtV::DoWhile { test, body } => rest_pats_in_expr(*test) + rest_pats_in_stmt(*body),
            StmtV::For { init, test, update, body } => (match init {
                Some(x) => rest_pats_in_var_decl_or_expr(x),
                None => Seq::empty(),
            }) + (match test {
                Some(x) => rest_pats_in_expr(*x),
                None => Seq::empty(),
            }) + (match update {
                Some(x) => rest_pats_in_expr(*x),
                None => Seq::empty(),
            }) + rest_pats_in_stmt(*body),
            StmtV::ForIn { left, right, body } => rest_pats_in_var_decl_or_pat(left)
                + rest_pats_in_expr(*right)
                + rest_pats_in_stmt(*body),
            StmtV::ForOf { left, right, body, .. } => rest_pats_in_var_decl_or_pat(left)
                + rest_pats_in_expr(*right)
                + rest_pats_in_stmt(*body),
            StmtV::Decl(a) => rest_pats_in_decl(a),
            StmtV::Expr(a) => rest_pats_in_expr(*a),
        }),
{
    reveal(rest_pats_in_stmt);
    reveal(rest_pats_in_stmts);
    reveal(rest_pats_in_expr);
    reveal(rest_pats_in_switch_cases);
    reveal(rest_pats_in_catch_clause);
    reveal(rest_pats_in_var_decl_or_expr);
    reveal(rest_pats_in_var_decl_or_pat);
    reveal(rest_pats_in_decl);
}

/// What [`rest_pats_in_default_decl`] is, one level down.
pub proof fn lemma_rest_pats_in_default_decl(x: DefaultDeclV)
    ensures
        rest_pats_in_default_decl(x) == (match x {
            DefaultDeclV::Class { class, .. } => rest_pats_in_class(class),
            DefaultDeclV::Fn { function, .. } => rest_pats_in_function(function),
        }),
{
    reveal(rest_pats_in_default_decl);
    reveal(rest_pats_in_class);
    reveal(rest_pats_in_function);
}

/// What [`rest_pats_in_module_decl`] is, one level down.
pub proof fn lemma_rest_pats_in_module_decl(x: ModuleDeclV)
    ensures
        rest_pats_in_module_decl(x) == (match x {
            ModuleDeclV::Import { .. } => Seq::empty(),
            ModuleDeclV::ExportDecl(a) => rest_pats_in_decl(a),
            ModuleDeclV::ExportNamed { .. } => Seq::empty(),
            ModuleDeclV::ExportDefaultDecl(a) => rest_pats_in_default_decl(a),
            ModuleDeclV::ExportDefaultExpr(a) => rest_pats_in_expr(*a),
            ModuleDeclV::ExportAll { .. } => Seq::empty(),
        }),
{
    reveal(rest_pats_in_module_decl);
    reveal(rest_pats_in_decl);
    reveal(rest_pats_in_default_decl);
    reveal(rest_pats_in_expr);
}

/// What [`rest_pats_in_module_item`] is, one level down.
pub proof fn lemma_rest_pats_in_module_item(x: ModuleItemV)
    ensures
        rest_pats_in_module_item(x) == (match x {
            ModuleItemV::ModuleDecl(a) => rest_pats_in_module_decl(a),
            ModuleItemV::Stmt(a) => rest_pats_in_stmt(a),
        }),
{
    reveal(rest_pats_in_module_item);
    reveal(rest_pats_in_module_decl);
    reveal(rest_pats_in_stmt);
}

/// What [`rest_pats_in_module`] is, one level down.
pub proof fn lemma_rest_pats_in_module(x: ModuleV)
    ensures
        rest_pats_in_module(x) == (rest_pats_in_module_items(x.body)),
{
    reveal(rest_pats_in_module);
    reveal(rest_pats_in_module_items);
}

/// What [`rest_pats_in_class_members`] is, one item down.
pub proof fn lemma_rest_pats_in_class_members(s: Seq<ClassMemberV>)
    ensures
        rest_pats_in_class_members(s) == (if s.len() == 0 {
            Seq::empty()
        } else {
            rest_pats_in_class_members(s.drop_last()) + rest_pats_in_class_member(s.last())
        }),
{
    reveal(rest_pats_in_class_members);
    reveal(rest_pats_in_class_member);
}

/// What [`rest_pats_in_expr_or_spreads`] is, one item down.
pub proof fn lemma_rest_pats_in_expr_or_spreads(s: Seq<ExprOrSpreadV>)
    ensures
        rest_pats_in_expr_or_spreads(s) == (if s.len() == 0 {
            Seq::empty()
        } else {
            rest_pats_in_expr_or_spreads(s.drop_last()) + rest_pats_in_expr_or_spread(s.last())
        }),
{
    reveal(rest_pats_in_expr_or_spreads);
    reveal(rest_pats_in_expr_or_spread);
}

/// What [`rest_pats_in_exprs`] is, one item down.
pub proof fn lemma_rest_pats_in_exprs(s: Seq<ExprV>)
    ensures
        rest_pats_in_exprs(s) == (if s.len() == 0 {
            Seq::empty()
        } else {
            rest_pats_in_exprs(s.drop_last()) + rest_pats_in_expr(s.last())
        }),
{
    reveal(rest_pats_in_exprs);
    reveal(rest_pats_in_expr);
}

/// What [`rest_pats_in_module_items`] is, one item down.
pub proof fn lemma_rest_pats_in_module_items(s: Seq<ModuleItemV>)
    ensures
        rest_pats_in_module_items(s) == (if s.len() == 0 {
            Seq::empty()
        } else {
            rest_pats_in_module_items(s.drop_last()) + rest_pats_in_module_item(s.last())
        }),
{
    reveal(rest_pats_in_module_items);
    reveal(rest_pats_in_module_item);
}

/// What [`rest_pats_in_object_pat_props`] is, one item down.
pub proof fn lemma_rest_pats_in_object_pat_props(s: Seq<ObjectPatPropV>)
    ensures
        rest_pats_in_object_pat_props(s) == (if s.len() == 0 {
            Seq::empty()
        } else {
            rest_pats_in_object_pat_props(s.drop_last()) + rest_pats_in_object_pat_prop(s.last())
        }),
{
    reveal(rest_pats_in_object_pat_props);
    reveal(rest_pats_in_object_pat_prop);
}

/// What [`rest_pats_in_opt_expr_or_spreads`] is, one item down.
pub proof fn lemma_rest_pats_in_opt_expr_or_spreads(s: Seq<Option<ExprOrSpreadV>>)
    ensures
        rest_pats_in_opt_expr_or_spreads(s) == (if s.len() == 0 {
            Seq::empty()
        } else {
            rest_pats_in_opt_expr_or_spreads(s.drop_last()) + (match s.last() {
                Some(x) => rest_pats_in_expr_or_spread(x),
                None => Seq::empty(),
            })
        }),
{
    reveal(rest_pats_in_opt_expr_or_spreads);
    reveal(rest_pats_in_expr_or_spread);
}

/// What [`rest_pats_in_opt_pats`] is, one item down.
pub proof fn lemma_rest_pats_in_opt_pats(s: Seq<Option<PatV>>)
    ensures
        rest_pats_in_opt_pats(s) == (if s.len() == 0 {
            Seq::empty()
        } else {
            rest_pats_in_opt_pats(s.drop_last()) + (match s.last() {
                Some(x) => rest_pats_in_pat(x),
                None => Seq::empty(),
            })
        }),
{
    reveal(rest_pats_in_opt_pats);
    reveal(rest_pats_in_pat);
}

/// What [`rest_pats_in_pats`] is, one item down.
pub proof fn lemma_rest_pats_in_pats(s: Seq<PatV>)
    ensures
        rest_pats_in_pats(s) == (if s.len() == 0 {
            Seq::empty()
        } else {
            rest_pats_in_pats(s.drop_last()) + rest_pats_in_pat(s.last())
        }),
{
    reveal(rest_pats_in_pats);
    reveal(rest_pats_in_pat);
}

/// What [`rest_pats_in_prop_or_spreads`] is, one item down.
pub proof fn lemma_rest_pats_in_prop_or_spreads(s: Seq<PropOrSpreadV>)
    ensures
        rest_pats_in_prop_or_spreads(s) == (if s.len() == 0 {
            Seq::empty()
        } else {
            rest_pats_in_prop_or_spreads(s.drop_last()) + rest_pats_in_prop_or_spread(s.last())
        }),
{
    reveal(rest_pats_in_prop_or_spreads);
    reveal(rest_pats_in_prop_or_spread);
}

/// What [`rest_pats_in_stmts`] is, one item down.
pub proof fn lemma_rest_pats_in_stmts(s: Seq<StmtV>)
    ensures
        rest_pats_in_stmts(s) == (if s.len() == 0 {
            Seq::empty()
        } else {
            rest_pats_in_stmts(s.drop_last()) + rest_pats_in_stmt(s.last())
        }),
{
    reveal(rest_pats_in_stmts);
    reveal(rest_pats_in_stmt);
}

/// What [`rest_pats_in_switch_cases`] is, one item down.
pub proof fn lemma_rest_pats_in_switch_cases(s: Seq<SwitchCaseV>)
    ensures
        rest_pats_in_switch_cases(s) == (if s.len() == 0 {
            Seq::empty()
        } else {
            rest_pats_in_switch_cases(s.drop_last()) + rest_pats_in_switch_case(s.last())
        }),
{
    reveal(rest_pats_in_switch_cases);
    reveal(rest_pats_in_switch_case);
}

/// What [`rest_pats_in_var_declarators`] is, one item down.
pub proof fn lemma_rest_pats_in_var_declarators(s: Seq<VarDeclaratorV>)
    ensures
        rest_pats_in_var_declarators(s) == (if s.len() == 0 {
            Seq::empty()
        } else {
            rest_pats_in_var_declarators(s.drop_last()) + rest_pats_in_var_declarator(s.last())
        }),
{
    reveal(rest_pats_in_var_declarators);
    reveal(rest_pats_in_var_declarator);
}

/// Adds the rest patterns in a [`Tpl`] to `out`.
pub fn gather_rest_tpl(x: &Tpl, out: &mut Vec<Sight>)
    ensures
        sights_view(final(out)@) == sights_view(old(out)@) + rest_pats_in_tpl(x@),
    decreases x,
{
    let ghost before = sights_view(out@);
    proof {
        lemma_tpl_view(*x);
        lemma_rest_pats_in_tpl(x@);
        assert(before + Seq::<Sight>::empty() =~= before);
    }
    gather_rest_exprs(&x.exprs, out);
    assert(sights_view(out@) =~= before + rest_pats_in_tpl(x@));
}

/// Adds the rest patterns in a [`ExprOrSpread`] to `out`.
pub fn gather_rest_expr_or_spread(x: &ExprOrSpread, out: &mut Vec<Sight>)
    ensures
        sights_view(final(out)@) == sights_view(old(out)@) + rest_pats_in_expr_or_spread(x@),
    decreases x,
{
    let ghost before = sights_view(out@);
    proof {
        lemma_expr_or_spread_view(*x);
        lemma_rest_pats_in_expr_or_spread(x@);
        assert(before + Seq::<Sight>::empty() =~= before);
    }
    gather_rest_expr(&x.expr, out);
    assert(sights_view(out@) =~= before + rest_pats_in_expr_or_spread(x@));
}

/// Adds the rest patterns in a [`ExprOrSuper`] to `out`.
pub fn gather_rest_expr_or_super(x: &ExprOrSuper, out: &mut Vec<Sight>)
    ensures
        sights_view(final(out)@) == sights_view(old(out)@) + rest_pats_in_expr_or_super(x@),
    decreases x,
{
    let ghost before = sights_view(out@);
    proof {
        lemma_expr_or_super_view(*x);
        lemma_rest_pats_in_expr_or_super(x@);
        assert(before + Seq::<Sight>::empty() =~= before);
    }
    match x {
        ExprOrSuper::Super => {},
        ExprOrSuper::Expr(a) => {
            gather_rest_expr(a, out);
        },
    }
    assert(sights_view(out@) =~= before + rest_pats_in_expr_or_super(x@));
}

/// Adds the rest patterns in a [`MemberProp`] to `out`.
pub fn gather_rest_member_prop(x: &MemberProp, out: &mut Vec<Sight>)
    ensures
        sights_view(final(out)@) == sights_view(old(out)@) + rest_pats_in_member_prop(x@),
    decreases x,
{
    let ghost before = sights_view(out@);
    proof {
        lemma_member_prop_view(*x);
        lemma_rest_pats_in_member_prop(x@);
        assert(before + Seq::<Sight>::empty() =~= before);
    }
    match x {
        MemberProp::Ident(_) => {},
        MemberProp::Computed(a) => {
            gather_rest_expr(a, out);
        },
    }
    assert(sights_view(out@) =~= before + rest_pats_in_member_prop(x@));
}

/// Adds the rest patterns in a [`PatOrExpr`] to `out`.
pub fn gather_rest_pat_or_expr(x: &PatOrExpr, out: &mut Vec<Sight>)
    ensures
        sights_view(final(out)@) == sights_view(old(out)@) + rest_pats_in_pat_or_expr(x@),
    decreases x,
{
    let ghost before = sights_view(out@);
    proof {
        lemma_pat_or_expr_view(*x);
        lemma_rest_pats_in_pat_or_expr(x@);
        assert(before + Seq::<Sight>::empty() =~= before);
    }
    match x {
        PatOrExpr::Expr(a) => {
            gather_rest_expr(a, out);
        },
        PatOrExpr::Pat(a) => {
            gather_rest_pat(a, out);
        },
    }
    assert(sights_view(out@) =~= before + rest_pats_in_pat_or_expr(x@));
}

/// Adds the rest patterns in a [`PropName`] to `out`.
pub fn gather_rest_prop_name(x: &PropName, out: &mut Vec<Sight>)
    ensures
        sights_view(final(out)@) == sights_view(old(out)@) + rest_pats_in_prop_name(x@),
    decreases x,
{
    let ghost before = sights_view(out@);
    proof {
        lemma_prop_name_view(*x);
        lemma_rest_pats_in_prop_name(x@);
        assert(before + Seq::<Sight>::empty() =~= before);
    }
    match x {
        PropName::Ident(_) => {},
        PropName::Str(_) => {},
        PropName::Num(_) => {},
        PropName::Computed(a) => {
            gather_rest_expr(a, out);
        },
    }
    assert(sights_view(out@) =~= before + rest_pats_in_prop_name(x@));
}

/// Adds the rest patterns in a [`Prop`] to `out`.
pub fn gather_rest_prop(x: &Prop, out: &mut Vec<Sight>)
    ensures
        sights_view(final(out)@) == sights_view(old(out)@) + rest_pats_in_prop(x@),
    decreases x,
{
    let ghost before = sights_view(out@);
    proof {
        lemma_prop_view(*x);
        lemma_rest_pats_in_prop(x@);
        assert(before + Seq::<Sight>::empty() =~= before);
    }
    match x {
        Prop::Shorthand(_) => {},
        Prop::KeyValue { key, value } => {
            gather_rest_prop_name(key, out);
            gather_rest_expr(value, out);
        },
        Prop::Getter { key, body } => {
            gather_rest_prop_name(key, out);
            match body {
                Some(x) => {
                    gather_rest_stmts(x, out);
                },
                None => {},
            }
        },
        Prop::Setter { key, param, body } => {
            gather_rest_prop_name(key, out);
            gather_rest_pat(param, out);
            match body {
                Some(x) => {
                    gather_rest_stmts(x, out);
                },
                None => {},
            }
        },
        Prop::Method { key, function } => {
            gather_rest_prop_name(key, out);
            gather_rest_function(function, out);
        },
    }
    assert(sights_view(out@) =~= before + rest_pats_in_prop(x@));
}

/// Adds the rest patterns in a [`PropOrSpread`] to `out`.
pub fn gather_rest_prop_or_spread(x: &PropOrSpread, out: &mut Vec<Sight>)
    ensures
        sights_view(final(out)@) == sights_view(old(out)@) + rest_pats_in_prop_or_spread(x@),
    decreases x,
{
    let ghost before = sights_view(out@);
    proof {
        lemma_prop_or_spread_view(*x);
        lemma_rest_pats_in_prop_or_spread(x@);
        assert(before + Seq::<Sight>::empty() =~= before);
    }
    match x {
        PropOrSpread::Spread(a) => {
            gather_rest_expr(a, out);
        },
        PropOrSpread::Prop(a) => {
            gather_rest_prop(a, out);
        },
    }
    assert(sights_view(out@) =~= before + rest_pats_in_prop_or_spread(x@));
}

/// Adds the rest patterns in a [`Function`] to `out`.
pub fn gather_rest_function(x: &Function, out: &mut Vec<Sight>)
    ensures
        sights_view(final(out)@) == sights_view(old(out)@) + rest_pats_in_function(x@),
    decreases x,
{
    let ghost before = sights_view(out@);
    proof {
        lemma_function_view(*x);
        lemma_rest_pats_in_function(x@);
        assert(before + Seq::<Sight>::empty() =~= before);
    }
    gather_rest_pats(&x.params, out);
    match &x.body {
        Some(x) => {
            gather_rest_stmts(x, out);
        },
        None => {},
    }
    assert(sights_view(out@) =~= before + rest_pats_in_function(x@));
}

/// Adds the rest patterns in a [`Class`] to `out`.
pub fn gather_rest_class(x: &Class, out: &mut Vec<Sight>)
    ensures
        sights_view(final(out)@) == sights_view(old(out)@) + rest_pats_in_class(x@),
    decreases x,
{
    let ghost before = sights_view(out@);
    proof {
        lemma_class_view(*x);
        lemma_rest_pats_in_class(x@);
        assert(before + Seq::<Sight>::empty() =~= before);
    }
    match &x.super_class {
        Some(x) => {
            gather_rest_expr(x, out);
        },
        None => {},
    }
    gather_rest_class_members(&x.body, out);
    assert(sights_view(out@) =~= before + rest_pats_in_class(x@));
}

/// Adds the rest patterns in a [`ClassMember`] to `out`.
pub fn gather_rest_class_member(x: &ClassMember, out: &mut Vec<Sight>)
    ensures
        sights_view(final(out)@) == sights_view(old(out)@) + rest_pats_in_class_member(x@),
    decreases x,
{
    let ghost before = sights_view(out@);
    proof {
        lemma_class_member_view(*x);
        lemma_rest_pats_in_class_member(x@);
        assert(before + Seq::<Sight>::empty() =~= before);
    }
    match x {
        ClassMember::Constructor { key, params, body } => {
            gather_rest_prop_name(key, out);
            gather_rest_pats(params, out);
            match body {
                Some(x) => {
                    gather_rest_stmts(x, out);
                },
                None => {},
            }
        },
        ClassMember::Method { key, function, .. } => {
            gather_rest_prop_name(key, out);
            gather_rest_function(function, out);
        },
        ClassMember::Prop { key, value, .. } => {
            gather_rest_expr(key, out);
            match value {
                Some(x) => {
                    gather_rest_expr(x, out);
                },
                None => {},
            }
        },
    }
    assert(sights_view(out@) =~= before + rest_pats_in_class_member(x@));
}

/// Adds the rest patterns in a [`BlockStmtOrExpr`] to `out`.
pub fn gather_rest_block_stmt_or_expr(x: &BlockStmtOrExpr, out: &mut Vec<Sight>)
    ensures
        sights_view(final(out)@) == sights_view(old(out)@) + rest_pats_in_block_stmt_or_expr(x@),
    decreases x,
{
    let ghost before = sights_view(out@);
    proof {
        lemma_block_stmt_or_expr_view(*x);
        lemma_rest_pats_in_block_stmt_or_expr(x@);
        assert(before + Seq::<Sight>::empty() =~= before);
    }
    match x {
        BlockStmtOrExpr::Block(a) => {
            gather_rest_stmts(a, out);
        },
        BlockStmtOrExpr::Expr(a) => {
            gather_rest_expr(a, out);
        },
    }
    assert(sights_view(out@) =~= before + rest_pats_in_block_stmt_or_expr(x@));
}

/// Adds the rest patterns in a [`Expr`] to `out`.
pub fn gather_rest_expr(x: &Expr, out: &mut Vec<Sight>)
    ensures
        sights_view(final(out)@) == sights_view(old(out)@) + rest_pats_in_expr(x@),
    decreases x,
{
    let ghost before = sights_view(out@);
    proof {
        lemma_expr_view(*x);
        lemma_rest_pats_in_expr(x@);
        assert(before + Seq::<Sight>::empty() =~= before);
    }
    match x {
        Expr::This => {},
        Expr::Array(a) => {
            gather_rest_opt_expr_or_spreads(a, out);
        },
        Expr::Object(a) => {
            gather_rest_prop_or_spreads(a, out);
        },
        Expr::Fn { function, .. } => {
            gather_rest_function(function, out);
        },
        Expr::Unary { arg, .. } => {
            gather_rest_expr(arg, out);
        },
        Expr::Update { arg, .. } => {
            gather_rest_expr(arg, out);
        },
        Expr::Bin { left, right, .. } => {
            gather_rest_expr(left, out);
            gather_rest_expr(right, out);
        },
        Expr::Assign { left, right, .. } => {
            gather_rest_pat_or_expr(left, out);
            gather_rest_expr(right, out);
        },
        Expr::Member { obj, prop } => {
            gather_rest_expr_or_super(obj, out);
            gather_rest_member_prop(prop, out);
        },
        Expr::Cond { test, cons, alt } => {
            gather_rest_expr(test, out);
            gather_rest_expr(cons, out);
            gather_rest_expr(alt, out);
        },
        Expr::Call { callee, args } => {
            gather_rest_expr_or_super(callee, out);
            gather_rest_expr_or_spreads(args, out);
        },
        Expr::New { callee, args } => {
            gather_rest_expr(callee, out);
            match args {
                Some(x) => {
                    gather_rest_expr_or_spreads(x, out);
                },
                None => {},
            }
        },
        Expr::Sequence { init, last } => {
            gather_rest_exprs(init, out);
            gather_rest_expr(last, out);
        },
        Expr::Ident(_) => {},
        Expr::Lit(_) => {},
        Expr::Tpl(a) => {
            gather_rest_tpl(a, out);
        },
        Expr::TaggedTpl { tag, tpl } => {
            gather_rest_expr(tag, out);
            gather_rest_tpl(tpl, out);
        },
        Expr::Arrow { params, body, .. } => {
            gather_rest_pats(params, out);
            gather_rest_block_stmt_or_expr(body, out);
        },
        Expr::Class { class, .. } => {
            gather_rest_class(class, out);
        },
        Expr::Yield { arg, .. } => {
            match arg {
                Some(x) => {
                    gather_rest_expr(x, out);
                },
                None => {},
            }
        },
        Expr::MetaProp { .. } => {},
        Expr::Await(a) => {
            gather_rest_expr(a, out);
        },
        Expr::Paren(a) => {
            gather_rest_expr(a, out);
        },
        Expr::Ts { expr, .. } => {
            gather_rest_expr(expr, out);
        },
        Expr::OptChain(a) => {
            gather_rest_expr(a, out);
        },
        Expr::PrivateName(_) => {},
    }
    assert(sights_view(out@) =~= before + rest_pats_in_expr(x@));
}

/// Adds the rest patterns in a [`Pat`] to `out`.
pub fn gather_rest_pat(x: &Pat, out: &mut Vec<Sight>)
    ensures
        sights_view(final(out)@) == sights_view(old(out)@) + rest_pats_in_pat(x@),
    decreases x,
{
    let ghost before = sights_view(out@);
    proof {
        lemma_pat_view(*x);
        lemma_rest_pats_in_pat(x@);
        assert(before + Seq::<Sight>::empty() =~= before);
    }
    note_rest_pat(x, out);
    match x {
        Pat::Ident(_) => {},
        Pat::Array(a) => {
            gather_rest_opt_pats(a, out);
        },
        Pat::Rest(a) => {
            gather_rest_pat(a, out);
        },
        Pat::Object(a) => {
            gather_rest_object_pat_props(a, out);
        },
        Pat::Assign { left, right } => {
            gather_rest_pat(left, out);
            gather_rest_expr(right, out);
        },
        Pat::Expr(a) => {
            gather_rest_expr(a, out);
        },
    }
    assert(sights_view(out@) =~= before + rest_pats_in_pat(x@));
}

/// Adds the rest patterns in a [`ObjectPatProp`] to `out`.
pub fn gather_rest_object_pat_prop(x: &ObjectPatProp, out: &mut Vec<Sight>)
    ensures
        sights_view(final(out)@) == sights_view(old(out)@) + rest_pats_in_object_pat_prop(x@),
    decreases x,
{
    let ghost before = sights_view(out@);
    proof {
        lemma_object_pat_prop_view(*x);
        lemma_rest_pats_in_object_pat_prop(x@);
        assert(before + Seq::<Sight>::empty() =~= before);
    }
    note_rest_object_pat_prop(x, out);
    match x {
        ObjectPatProp::KeyValue { key, value } => {
            gather_rest_prop_name(key, out);
            gather_rest_pat(value, out);
        },
        ObjectPatProp::Assign { value, .. } => {
            match value {
                Some(x) => {
                    gather_rest_expr(x, out);
                },
                None => {},
            }
        },
        ObjectPatProp::Rest(a) => {
            gather_rest_pat(a, out);
        },
    }
    assert(sights_view(out@) =~= before + rest_pats_in_object_pat_prop(x@));
}

/// Adds the rest patterns in a [`VarDeclarator`] to `out`.
pub fn gather_rest_var_declarator(x: &VarDeclarator, out: &mut Vec<Sight>)
    ensures
        sights_view(final(out)@) == sights_view(old(out)@) + rest_pats_in_var_declarator(x@),
    decreases x,
{
    let ghost before = sights_view(out@);
    proof {
        lemma_var_declarator_view(*x);
        lemma_rest_pats_in_var_declarator(x@);
        assert(before + Seq::<Sight>::empty() =~= before);
    }
    gather_rest_pat(&x.name, out);
    match &x.init {
        Some(x) => {
            gather_rest_expr(x, out);
        },
        None => {},
    }
    assert(sights_view(out@) =~= before + rest_pats_in_var_declarator(x@));
}

/// Adds the rest patterns in a [`VarDecl`] to `out`.
pub fn gather_rest_var_decl(x: &VarDecl, out: &mut Vec<Sight>)
    ensures
        sights_view(final(out)@) == sights_view(old(out)@) + rest_pats_in_var_decl(x@),
    decreases x,
{
    let ghost before = sights_view(out@);
    proof {
        lemma_var_decl_view(*x);
        lemma_rest_pats_in_var_decl(x@);
        assert(before + Seq::<Sight>::empty() =~= before);
    }
    gather_rest_var_declarators(&x.decls, out);
    assert(sights_view(out@) =~= before + rest_pats_in_var_decl(x@));
}

/// Adds the rest patterns in a [`Decl`] to `out`.
pub fn gather_rest_decl(x: &Decl, out: &mut Vec<Sight>)
    ensures
        sights_view(final(out)@) == sights_view(old(out)@) + rest_pats_in_decl(x@),
    decreases x,
{
    let ghost before = sights_view(out@);
    proof {
        lemma_decl_view(*x);
        lemma_rest_pats_in_decl(x@);
        assert(before + Seq::<Sight>::empty() =~= before);
    }
    match x {
        Decl::Class { class, .. } => {
            gather_rest_class(class, out);
        },
        Decl::Fn { function, .. } => {
            gather_rest_function(function, out);
        },
        Decl::Var(a) => {
            gather_rest_var_decl(a, out);
        },
    }
    assert(sights_view(out@) =~= before + rest_pats_in_decl(x@));
}

/// Adds the rest patterns in a [`VarDeclOrExpr`] to `out`.
pub fn gather_rest_var_decl_or_expr(x: &VarDeclOrExpr, out: &mut Vec<Sight>)
    ensures
        sights_view(final(out)@) == sights_view(old(out)@) + rest_pats_in_var_decl_or_expr(x@),
    decreases x,
{
    let ghost before = sights_view(out@);
    proof {
        lemma_var_decl_or_expr_view(*x);
        lemma_rest_pats_in_var_decl_or_expr(x@);
        assert(before + Seq::<Sight>::empty() =~= before);
    }
    match x {
        VarDeclOrExpr::VarDecl(a) => {
            gather_rest_var_decl(a, out);
        },
        VarDeclOrExpr::Expr(a) => {
            gather_rest_expr(a, out);
        },
    }
    assert(sights_view(out@) =~= before + rest_pats_in_var_decl_or_expr(x@));
}

/// Adds the rest patterns in a [`VarDeclOrPat`] to `out`.
pub fn gather_rest_var_decl_or_pat(x: &VarDeclOrPat, out: &mut Vec<Sight>)
    ensures
        sights_view(final(out)@) == sights_view(old(out)@) + rest_pats_in_var_decl_or_pat(x@),
    decreases x,
{
    let ghost before = sights_view(out@);
    proof {
        lemma_var_decl_or_pat_view(*x);
        lemma_rest_pats_in_var_decl_or_pat(x@);
        assert(before + Seq::<Sight>::empty() =~= before);
    }
    match x {
        VarDeclOrPat::VarDecl(a) => {
            gather_rest_var_decl(a, out);
        },
        VarDeclOrPat::Pat(a) => {
            gather_rest_pat(a, out);
        },
    }
    assert(sights_view(out@) =~= before + rest_pats_in_var_decl_or_pat(x@));
}

/// Adds the rest patterns in a [`SwitchCase`] to `out`.
pub fn gather_rest_switch_case(x: &SwitchCase, out: &mut Vec<Sight>)
    ensures
        sights_view(final(out)@) == sights_view(old(out)@) + rest_pats_in_switch_case(x@),
    decreases x,
{
    let ghost before = sights_view(out@);
    proof {
        lemma_switch_case_view(*x);
        lemma_rest_pats_in_switch_case(x@);
        assert(before + Seq::<Sight>::empty() =~= before);
    }
    match &x.test {
        Some(x) => {
            gather_rest_expr(x, out);
        },
        None => {},
    }
    gather_rest_stmts(&x.cons, out);
    assert(sights_view(out@) =~= before + rest_pats_in_switch_case(x@));
}

/// Adds the rest patterns in a [`CatchClause`] to `out`.
pub fn gather_rest_catch_clause(x: &CatchClause, out: &mut Vec<Sight>)
    ensures
        sights_view(final(out)@) == sights_view(old(out)@) + rest_pats_in_catch_clause(x@),
    decreases x,
{
    let ghost before = sights_view(out@);
    proof {
        lemma_catch_clause_view(*x);
        lemma_rest_pats_in_catch_clause(x@);
        assert(before + Seq::<Sight>::empty() =~= before);
    }
    match &x.param {
        Some(x) => {
            gather_rest_pat(x, out);
        },
        None => {},
    }
    gather_rest_stmts(&x.body, out);
    assert(sights_view(out@) =~= before + rest_pats_in_catch_clause(x@));
}

/// Adds the rest patterns in a [`Stmt`] to `out`.
pub fn gather_rest_stmt(x: &Stmt, out: &mut Vec<Sight>)
    ensures
        sights_view(final(out)@) == sights_view(old(out)@) + rest_pats_in_stmt(x@),
    decreases x,
{
    let ghost before = sights_view(out@);
    proof {
        lemma_stmt_view(*x);
        lemma_rest_pats_in_stmt(x@);
        assert(before + Seq::<Sight>::empty() =~= before);
    }
    match x {
        Stmt::Block(a) => {
            gather_rest_stmts(a, out);
        },
        Stmt::Empty => {},
        Stmt::Debugger => {},
        Stmt::With { obj, body } => {
            gather_rest_expr(obj, out);
            gather_rest_stmt(body, out);
        },
        Stmt::Return(a) => {
            match a {
                Some(x) => {
                    gather_rest_expr(x, out);
                },
                None => {},
            }
        },
        Stmt::Labeled { body, .. } => {
            gather_rest_stmt(body, out);
        },
        Stmt::Break(_) => {},
        Stmt::Continue(_) => {},
        Stmt::If { test, cons, alt } => {
            gather_rest_expr(test, out);
            gather_rest_stmt(cons, out);
            match alt {
                Some(x) => {
                    gather_rest_stmt(x, out);
                },
                None => {},
            }
        },
        Stmt::Switch { discriminant, cases } => {
            gather_rest_expr(discriminant, out);
            gather_rest_switch_cases(cases, out);
        },
        Stmt::Throw(a) => {
            gather_rest_expr(a, out);
        },
        Stmt::Try { block, handler, finalizer } => {
            gather_rest_stmts(block, out);
            match handler {
                Some(x) => {
                    gather_rest_catch_clause(x, out);
                },
                None => {},
            }
            match finalizer {
                Some(x) => {
                    gather_rest_stmts(x, out);
                },
                None => {},
            }
        },
        Stmt::While { test, body } => {
            gather_rest_expr(test, out);
            gather_rest_stmt(body, out);
        },
        Stmt::DoWhile { test, body } => {
            gather_rest_expr(test, out);
            gather_rest_stmt(body, out);
        },
        Stmt::For { init, test, update, body } => {
            match init {
                Some(x) => {
                    gather_rest_var_decl_or_expr(x, out);
                },
                None => {},
            }
            match test {
                Some(x) => {
                    gather_rest_expr(x, out);
                },
                None => {},
            }
            match update {
                Some(x) => {
                    gather_rest_expr(x, out);
                },
                None => {},
            }
            gather_rest_stmt(body, out);
        },
        Stmt::ForIn { left, right, body } => {
            gather_rest_var_decl_or_pat(left, out);
            gather_rest_expr(right, out);
            gather_rest_stmt(body, out);
        },
        Stmt::ForOf { left, right, body, .. } => {
            gather_rest_var_decl_or_pat(left, out);
            gather_rest_expr(right, out);
            gather_rest_stmt(body, out);
        },
        Stmt::Decl(a) => {
            gather_rest_decl(a, out);
        },
        Stmt::Expr(a) => {
            gather_rest_expr(a, out);
        },
    }
    assert(sights_view(out@) =~= before + rest_pats_in_stmt(x@));
}

/// Adds the rest patterns in a [`DefaultDecl`] to `out`.
pub fn gather_rest_default_decl(x: &DefaultDecl, out: &mut Vec<Sight>)
    ensures
        sights_view(final(out)@) == sights_view(old(out)@) + rest_pats_in_default_decl(x@),
    decreases x,
{
    let ghost before = sights_view(out@);
    proof {
        lemma_default_decl_view(*x);
        lemma_rest_pats_in_default_decl(x@);
        assert(before + Seq::<Sight>::empty() =~= before);
    }
    match x {
        DefaultDecl::Class { class, .. } => {
            gather_rest_class(class, out);
        },
        DefaultDecl::Fn { function, .. } => {
            gather_rest_function(function, out);
        },
    }
    assert(sights_view(out@) =~= before + rest_pats_in_default_decl(x@));
}

/// Adds the rest patterns in a [`ModuleDecl`] to `out`.
pub fn gather_rest_module_decl(x: &ModuleDecl, out: &mut Vec<Sight>)
    ensures
        sights_view(final(out)@) == sights_view(old(out)@) + rest_pats_in_module_decl(x@),
    decreases x,
{
    let ghost before = sights_view(out@);
    proof {
        lemma_module_decl_view(*x);
        lemma_rest_pats_in_module_decl(x@);
        assert(before + Seq::<Sight>::empty() =~= before);
    }
    match x {
        ModuleDecl::Import { .. } => {},
        ModuleDecl::ExportDecl(a) => {
            gather_rest_decl(a, out);
        },
        ModuleDecl::ExportNamed { .. } => {},
        ModuleDecl::ExportDefaultDecl(a) => {
            gather_rest_default_decl(a, out);
        },
        ModuleDecl::ExportDefaultExpr(a) => {
            gather_rest_expr(a, out);
        },
        ModuleDecl::ExportAll { .. } => {},
    }
    assert(sights_view(out@) =~= before + rest_pats_in_module_decl(x@));
}

/// Adds the rest patterns in a [`ModuleItem`] to `out`.
pub fn gather_rest_module_item(x: &ModuleItem, out: &mut Vec<Sight>)
    ensures
        sights_view(final(out)@) == sights_view(old(out)@) + rest_pats_in_module_item(x@),
    decreases x,
{
    let ghost before = sights_view(out@);
    proof {
        lemma_module_item_view(*x);
        lemma_rest_pats_in_module_item(x@);
        assert(before + Seq::<Sight>::empty() =~= before);
    }
    match x {
        ModuleItem::ModuleDecl(a) => {
            gather_rest_module_decl(a, out);
        },
        ModuleItem::Stmt(a) => {
            gather_rest_stmt(a, out);
        },
    }
    assert(sights_view(out@) =~= before + rest_pats_in_module_item(x@));
}

/// Adds the rest patterns in a [`Module`] to `out`.
pub fn gather_rest_module(x: &Module, out: &mut Vec<Sight>)
    ensures
        sights_view(final(out)@) == sights_view(old(out)@) + rest_pats_in_module(x@),
    decreases x,
{
    let ghost before = sights_view(out@);
    proof {
        lemma_module_view(*x);
        lemma_rest_pats_in_module(x@);
        assert(before + Seq::<Sight>::empty() =~= before);
    }
    gather_rest_module_items(&x.body, out);
    assert(sights_view(out@) =~= before + rest_pats_in_module(x@));
}

/// Adds the rest patterns in the items of a list to `out`.
pub fn gather_rest_class_members(v: &Vec<ClassMember>, out: &mut Vec<Sight>)
    ensures
        sights_view(final(out)@) == sights_view(old(out)@)
            + rest_pats_in_class_members(class_members_view(v@)),
    decreases v,
{
    let ghost before = sights_view(out@);
    let ghost items = class_members_view(v@);
    proof {
        lemma_class_members_view(v@);
        lemma_rest_pats_in_class_members(items.take(0));
        assert(before + Seq::<Sight>::empty() =~= before);
    }
    let mut i: usize = 0;
    while i < v.len()
        invariant
            i <= v.len(),
            items.len() == v@.len(),
            forall|j: int|
                0 <= j < v@.len() ==> (#[trigger] items[j]) == class_member_view(v@[j]),
            sights_view(out@) == before + rest_pats_in_class_members(items.take(i as int)),
        decreases v.len() - i,
    {
        let ghost head = items.take(i as int);
        let ghost next = items.take(i + 1);
        proof {
            assert(next.drop_last() =~= head);
            assert(next.last() == items[i as int]);
            lemma_rest_pats_in_class_members(next);
            assert(before + rest_pats_in_class_members(head) + Seq::<Sight>::empty() =~= before + rest_pats_in_class_members(head));
        }
        gather_rest_class_member(&v[i], out);
        assert(sights_view(out@) =~= before + rest_pats_in_class_members(next));
        i += 1;
    }
    assert(items.take(i as int) =~= items);
}

/// Adds the rest patterns in the items of a list to `out`.
pub fn gather_rest_expr_or_spreads(v: &Vec<ExprOrSpread>, out: &mut Vec<Sight>)
    ensures
        sights_view(final(out)@) == sights_view(old(out)@)
            + rest_pats_in_expr_or_spreads(expr_or_spreads_view(v@)),
    decreases v,
{
    let ghost before = sights_view(out@);
    let ghost items = expr_or_spreads_view(v@);
    proof {
        lemma_expr_or_spreads_view(v@);
        lemma_rest_pats_in_expr_or_spreads(items.take(0));
        assert(before + Seq::<Sight>::empty() =~= before);
    }
    let mut i: usize = 0;
    while i < v.len()
        invariant
            i <= v.len(),
            items.len() == v@.len(),
            forall|j: int|
                0 <= j < v@.len() ==> (#[trigger] items[j]) == expr_or_spread_view(v@[j]),
            sights_view(out@) == before + rest_pats_in_expr_or_spreads(items.take(i as int)),
        decreases v.len() - i,
    {
        let ghost head = items.take(i as int);
        let ghost next = items.take(i + 1);
        proof {
            assert(next.drop_last() =~= head);
            assert(next.last() == items[i as int]);
            lemma_rest_pats_in_expr_or_spreads(next);
            assert(before + rest_pats_in_expr_or_spreads(head) + Seq::<Sight>::empty() =~= before + rest_pats_in_expr_or_spreads(head));
        }
        gather_rest_expr_or_spread(&v[i], out);
        assert(sights_view(out@) =~= before + rest_pats_in_expr_or_spreads(next));
        i += 1;
    }
    assert(items.take(i as int) =~= items);
}

/// Adds the rest patterns in the items of a list to `out`.
pub fn gather_rest_exprs(v: &Vec<Expr>, out: &mut Vec<Sight>)
    ensures
        sights_view(final(out)@) == sights_view(old(out)@) + rest_pats_in_exprs(exprs_view(v@)),
    decreases v,
{
    let ghost before = sights_view(out@);
    let ghost items = exprs_view(v@);
    proof {
        lemma_exprs_view(v@);
        lemma_rest_pats_in_exprs(items.take(0));
        assert(before + Seq::<Sight>::empty() =~= before);
    }
    let mut i: usize = 0;
    while i < v.len()
        invariant
            i <= v.len(),
            items.len() == v@.len(),
            forall|j: int|
                0 <= j < v@.len() ==> (#[trigger] items[j]) == expr_view(v@[j]),
            sights_view(out@) == before + rest_pats_in_exprs(items.take(i as int)),
        decreases v.len() - i,
    {
        let ghost head = items.take(i as int);
        let ghost next = items.take(i + 1);
        proof {
            assert(next.drop_last() =~= head);
            assert(next.last() == items[i as int]);
            lemma_rest_pats_in_exprs(next);
            assert(before + rest_pats_in_exprs(head) + Seq::<Sight>::empty() =~= before + rest_pats_in_exprs(head));
        }
        gather_rest_expr(&v[i], out);
        assert(sights_view(out@) =~= before + rest_pats_in_exprs(next));
        i += 1;
    }
    assert(items.take(i as int) =~= items);
}

/// Adds the rest patterns in the items of a list to `out`.
pub fn gather_rest_module_items(v: &Vec<ModuleItem>, out: &mut Vec<Sight>)
    ensures
        sights_view(final(out)@) == sights_view(old(out)@)
            + rest_pats_in_module_items(module_items_view(v@)),
    decreases v,
{
    let ghost before = sights_view(out@);
    let ghost items = module_items_view(v@);
    proof {
        lemma_module_items_view(v@);
        lemma_rest_pats_in_module_items(items.take(0));
        assert(before + Seq::<Sight>::empty() =~= before);
    }
    let mut i: usize = 0;
    while i < v.len()
        invariant
            i <= v.len(),
            items.len() == v@.len(),
            forall|j: int|
                0 <= j < v@.len() ==> (#[trigger] items[j]) == module_item_view(v@[j]),
            sights_view(out@) == before + rest_pats_in_module_items(items.take(i as int)),
        decreases v.len() - i,
    {
        let ghost head = items.take(i as int);
        let ghost next = items.take(i + 1);
        proof {
            assert(next.drop_last() =~= head);
            assert(next.last() == items[i as int]);
            lemma_rest_pats_in_module_items(next);
            assert(before + rest_pats_in_module_items(head) + Seq::<Sight>::empty() =~= before + rest_pats_in_module_items(head));
        }
        gather_rest_module_item(&v[i], out);
        assert(sights_view(out@) =~= before + rest_pats_in_module_items(next));
        i += 1;
    }
    assert(items.take(i as int) =~= items);
}

/// Adds the rest patterns in the items of a list to `out`.
pub fn gather_rest_object_pat_props(v: &Vec<ObjectPatProp>, out: &mut Vec<Sight>)
    ensures
        sights_view(final(out)@) == sights_view(old(out)@)
            + rest_pats_in_object_pat_props(object_pat_props_view(v@)),
    decreases v,
{
    let ghost before = sights_view(out@);
    let ghost items = object_pat_props_view(v@);
    proof {
        lemma_object_pat_props_view(v@);
        lemma_rest_pats_in_object_pat_props(items.take(0));
        assert(before + Seq::<Sight>::empty() =~= before);
    }
    let mut i: usize = 0;
    while i < v.len()
        invariant
            i <= v.len(),
            items.len() == v@.len(),
            forall|j: int|
                0 <= j < v@.len() ==> (#[trigger] items[j]) == object_pat_prop_view(v@[j]),
            sights_view(out@) == before + rest_pats_in_object_pat_props(items.take(i as int)),
        decreases v.len() - i,
    {
        let ghost head = items.take(i as int);
        let ghost next = items.take(i + 1);
        proof {
            assert(next.drop_last() =~= head);
            assert(next.last() == items[i as int]);
            lemma_rest_pats_in_object_pat_props(next);
            assert(before + rest_pats_in_object_pat_props(head) + Seq::<Sight>::empty() =~= before + rest_pats_in_object_pat_props(head));
        }
        gather_rest_object_pat_prop(&v[i], out);
        assert(sights_view(out@) =~= before + rest_pats_in_object_pat_props(next));
        i += 1;
    }
    assert(items.take(i as int) =~= items);
}

/// Adds the rest patterns in the items of a list to `out`.
pub fn gather_rest_opt_expr_or_spreads(v: &Vec<Option<ExprOrSpread>>, out: &mut Vec<Sight>)
    ensures
        sights_view(final(out)@) == sights_view(old(out)@)
            + rest_pats_in_opt_expr_or_spreads(opt_expr_or_spreads_view(v@)),
    decreases v,
{
    let ghost before = sights_view(out@);
    let ghost items = opt_expr_or_spreads_view(v@);
    proof {
        lemma_opt_expr_or_spreads_view(v@);
        lemma_rest_pats_in_opt_expr_or_spreads(items.take(0));
        assert(before + Seq::<Sight>::empty() =~= before);
    }
    let mut i: usize = 0;
    while i < v.len()
        invariant
            i <= v.len(),
            items.len() == v@.len(),
            forall|j: int|
                0 <= j < v@.len() ==> (#[trigger] items[j]) == match v@[j] {
                    Some(x) => Some(expr_or_spread_view(x)),
                    None => None,
                },
            sights_view(out@) == before + rest_pats_in_opt_expr_or_spreads(items.take(i as int)),
        decreases v.len() - i,
    {
        let ghost head = items.take(i as int);
        let ghost next = items.take(i + 1);
        proof {
            assert(next.drop_last() =~= head);
            assert(next.last() == items[i as int]);
            lemma_rest_pats_in_opt_expr_or_spreads(next);
            assert(before + rest_pats_in_opt_expr_or_spreads(head) + Seq::<Sight>::empty() =~= before + rest_pats_in_opt_expr_or_spreads(head));
        }
        match &v[i] {
            Some(x) => gather_rest_expr_or_spread(x, out),
            None => {},
        }
        assert(sights_view(out@) =~= before + rest_pats_in_opt_expr_or_spreads(next));
        i += 1;
    }
    assert(items.take(i as int) =~= items);
}

/// Adds the rest patterns in the items of a list to `out`.
pub fn gather_rest_opt_pats(v: &Vec<Option<Pat>>, out: &mut Vec<Sight>)
    ensures
        sights_view(final(out)@) == sights_view(old(out)@)
            + rest_pats_in_opt_pats(opt_pats_view(v@)),
    decreases v,
{
    let ghost before = sights_view(out@);
    let ghost items = opt_pats_view(v@);
    proof {
        lemma_opt_pats_view(v@);
        lemma_rest_pats_in_opt_pats(items.take(0));
        assert(before + Seq::<Sight>::empty() =~= before);
    }
    let mut i: usize = 0;
    while i < v.len()
        invariant
            i <= v.len(),
            items.len() == v@.len(),
            forall|j: int|
                0 <= j < v@.len() ==> (#[trigger] items[j]) == match v@[j] {
                    Some(x) => Some(pat_view(x)),
                    None => None,
                },
            sights_view(out@) == before + rest_pats_in_opt_pats(items.take(i as int)),
        decreases v.len() - i,
    {
        let ghost head = items.take(i as int);
        let ghost next = items.take(i + 1);
        proof {
            assert(next.drop_last() =~= head);
            assert(next.last() == items[i as int]);
            lemma_rest_pats_in_opt_pats(next);
            assert(before + rest_pats_in_opt_pats(head) + Seq::<Sight>::empty() =~= before + rest_pats_in_opt_pats(head));
        }
        match &v[i] {
            Some(x) => gather_rest_pat(x, out),
            None => {},
        }
        assert(sights_view(out@) =~= before + rest_pats_in_opt_pats(next));
        i += 1;
    }
    assert(items.take(i as int) =~= items);
}

/// Adds the rest patterns in the items of a list to `out`.
pub fn gather_rest_pats(v: &Vec<Pat>, out: &mut Vec<Sight>)
    ensures
        sights_view(final(out)@) == sights_view(old(out)@) + rest_pats_in_pats(pats_view(v@)),
    decreases v,
{
    let ghost before = sights_view(out@);
    let ghost items = pats_view(v@);
    proof {
        lemma_pats_view(v@);
        lemma_rest_pats_in_pats(items.take(0));
        assert(before + Seq::<Sight>::empty() =~= before);
    }
    let mut i: usize = 0;
    while i < v.len()
        invariant
            i <= v.len(),
            items.len() == v@.len(),
            forall|j: int|
                0 <= j < v@.len() ==> (#[trigger] items[j]) == pat_view(v@[j]),
            sights_view(out@) == before + rest_pats_in_pats(items.take(i as int)),
        decreases v.len() - i,
    {
        let ghost head = items.take(i as int);
        let ghost next = items.take(i + 1);
        proof {
            assert(next.drop_last() =~= head);
            assert(next.last() == items[i as int]);
            lemma_rest_pats_in_pats(next);
            assert(before + rest_pats_in_pats(head) + Seq::<Sight>::empty() =~= before + rest_pats_in_pats(head));
        }
        gather_rest_pat(&v[i], out);
        assert(sights_view(out@) =~= before + rest_pats_in_pats(next));
        i += 1;
    }
    assert(items.take(i as int) =~= items);
}

/// Adds the rest patterns in the items of a list to `out`.
pub fn gather_rest_prop_or_spreads(v: &Vec<PropOrSpread>, out: &mut Vec<Sight>)
    ensures
        sights_view(final(out)@) == sights_view(old(out)@)
            + rest_pats_in_prop_or_spreads(prop_or_spreads_view(v@)),
    decreases v,
{
    let ghost before = sights_view(out@);
    let ghost items = prop_or_spreads_view(v@);
    proof {
        lemma_prop_or_spreads_view(v@);
        lemma_rest_pats_in_prop_or_spreads(items.take(0));
        assert(before + Seq::<Sight>::empty() =~= before);
    }
    let mut i: usize = 0;
    while i < v.len()
        invariant
            i <= v.len(),
            items.len() == v@.len(),
            forall|j: int|
                0 <= j < v@.len() ==> (#[trigger] items[j]) == prop_or_spread_view(v@[j]),
            sights_view(out@) == before + rest_pats_in_prop_or_spreads(items.take(i as int)),
        decreases v.len() - i,
    {
        let ghost head = items.take(i as int);
        let ghost next = items.take(i + 1);
        proof {
            assert(next.drop_last() =~= head);
            assert(next.last() == items[i as int]);
            lemma_rest_pats_in_prop_or_spreads(next);
            assert(before + rest_pats_in_prop_or_spreads(head) + Seq::<Sight>::empty() =~= before + rest_pats_in_prop_or_spreads(head));
        }
        gather_rest_prop_or_spread(&v[i], out);
        assert(sights_view(out@) =~= before + rest_pats_in_prop_or_spreads(next));
        i += 1;
    }
    assert(items.take(i as int) =~= items);
}

/// Adds the rest patterns in the items of a list to `out`.
pub fn gather_rest_stmts(v: &Vec<Stmt>, out: &mut Vec<Sight>)
    ensures
        sights_view(final(out)@) == sights_view(old(out)@) + rest_pats_in_stmts(stmts_view(v@)),
    decreases v,
{
    let ghost before = sights_view(out@);
    let ghost items = stmts_view(v@);
    proof {
        lemma_stmts_view(v@);
        lemma_rest_pats_in_stmts(items.take(0));
        assert(before + Seq::<Sight>::empty() =~= before);
    }
    let mut i: usize = 0;
    while i < v.len()
        invariant
            i <= v.len(),
            items.len() == v@.len(),
            forall|j: int|
                0 <= j < v@.len() ==> (#[trigger] items[j]) == stmt_view(v@[j]),
            sights_view(out@) == before + rest_pats_in_stmts(items.take(i as int)),
        decreases v.len() - i,
    {
        let ghost head = items.take(i as int);
        let ghost next = items.take(i + 1);
        proof {
            assert(next.drop_last() =~= head);
            assert(next.last() == items[i as int]);
            lemma_rest_pats_in_stmts(next);
            assert(before + rest_pats_in_stmts(head) + Seq::<Sight>::empty() =~= before + rest_pats_in_stmts(head));
        }
        gather_rest_stmt(&v[i], out);
        assert(sights_view(out@) =~= before + rest_pats_in_stmts(next));
        i += 1;
    }
    assert(items.take(i as int) =~= items);
}

/// Adds the rest patterns in the items of a list to `out`.
pub fn gather_rest_switch_cases(v: &Vec<SwitchCase>, out: &mut Vec<Sight>)
    ensures
        sights_view(final(out)@) == sights_view(old(out)@)
            + rest_pats_in_switch_cases(switch_cases_view(v@)),
    decreases v,
{
    let ghost before = sights_view(out@);
    let ghost items = switch_cases_view(v@);
    proof {
        lemma_switch_cases_view(v@);
        lemma_rest_pats_in_switch_cases(items.take(0));
        assert(before + Seq::<Sight>::empty() =~= before);
    }
    let mut i: usize = 0;
    while i < v.len()
        invariant
            i <= v.len(),
            items.len() == v@.len(),
            forall|j: int|
                0 <= j < v@.len() ==> (#[trigger] items[j]) == switch_case_view(v@[j]),
            sights_view(out@) == before + rest_pats_in_switch_cases(items.take(i as int)),
        decreases v.len() - i,
    {
        let ghost head = items.take(i as int);
        let ghost next = items.take(i + 1);
        proof {
            assert(next.drop_last() =~= head);
            assert(next.last() == items[i as int]);
            lemma_rest_pats_in_switch_cases(next);
            assert(before + rest_pats_in_switch_cases(head) + Seq::<Sight>::empty() =~= before + rest_pats_in_switch_cases(head));
        }
        gather_rest_switch_case(&v[i], out);
        assert(sights_view(out@) =~= before + rest_pats_in_switch_cases(next));
        i += 1;
    }
    assert(items.take(i as int) =~= items);
}

/// Adds the rest patterns in the items of a list to `out`.
pub fn gather_rest_var_declarators(v: &Vec<VarDeclarator>, out: &mut Vec<Sight>)
    ensures
        sights_view(final(out)@) == sights_view(old(out)@)
            + rest_pats_in_var_declarators(var_declarators_view(v@)),
    decreases v,
{
    let ghost before = sights_view(out@);
    let ghost items = var_declarators_view(v@);
    proof {
        lemma_var_declarators_view(v@);
        lemma_rest_pats_in_var_declarators(items.take(0));
        assert(before + Seq::<Sight>::empty() =~= before);
    }
    let mut i: usize = 0;
    while i < v.len()
        invariant
            i <= v.len(),
            items.len() == v@.len(),
            forall|j: int|
                0 <= j < v@.len() ==> (#[trigger] items[j]) == var_declarator_view(v@[j]),
            sights_view(out@) == before + rest_pats_in_var_declarators(items.take(i as int)),
        decreases v.len() - i,
    {
        let ghost head = items.take(i as int);
        let ghost next = items.take(i + 1);
        proof {
            assert(next.drop_last() =~= head);
            assert(next.last() == items[i as int]);
            lemma_rest_pats_in_var_declarators(next);
            assert(before + rest_pats_in_var_declarators(head) + Seq::<Sight>::empty() =~= before + rest_pats_in_var_declarators(head));
        }
        gather_rest_var_declarator(&v[i], out);
        assert(sights_view(out@) =~= before + rest_pats_in_var_declarators(next));
        i += 1;
    }
    assert(items.take(i as int) =~= items);
}

} // verus!
