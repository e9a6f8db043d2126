//! Dead-code removal makes a quiet tree of a tame one.

use vstd::prelude::*;
use crate::model::{
    BlockStmtOrExprV, CatchClauseV, ClassMemberV, ClassV, DeclV, DefaultDeclV, ExprOrSpreadV,
    ExprOrSuperV, ExprV, FunctionV, MemberPropV, ModuleDeclV, ModuleItemV, ModuleV, ObjectPatPropV,
    PatOrExprV, PatV, PropNameV, PropOrSpreadV, PropV, StmtV, SwitchCaseV, TplV, VarDeclOrExprV,
    VarDeclOrPatV, VarDeclV, VarDeclaratorV,
};
use crate::fold::{
    folded_block_stmt_or_expr, folded_catch_clause, folded_class, folded_class_member,
    folded_class_members, folded_decl, folded_default_decl, folded_each_module_items,
    folded_each_stmts, folded_expr, folded_expr_or_spread, folded_expr_or_spreads,
    folded_expr_or_super, folded_exprs, folded_function, folded_member_prop, folded_module,
    folded_module_decl, folded_module_item, folded_module_items, folded_object_pat_prop,
    folded_object_pat_props, folded_opt_expr_or_spreads, folded_opt_pats, folded_pat,
    folded_pat_or_expr, folded_pats, folded_prop, folded_prop_name, folded_prop_or_spread,
    folded_prop_or_spreads, folded_stmt, folded_stmts, folded_switch_case, folded_switch_cases,
    folded_tpl, folded_var_decl, folded_var_decl_or_expr, folded_var_decl_or_pat,
    folded_var_declarator, folded_var_declarators, lemma_folded_block_stmt_or_expr,
    lemma_folded_catch_clause, lemma_folded_class, lemma_folded_class_member,
    lemma_folded_class_members, lemma_folded_decl, lemma_folded_default_decl,
    lemma_folded_each_module_items, lemma_folded_each_stmts, lemma_folded_expr,
    lemma_folded_expr_or_spread, lemma_folded_expr_or_spreads, lemma_folded_expr_or_super,
    lemma_folded_exprs, lemma_folded_function, lemma_folded_member_prop, lemma_folded_module,
    lemma_folded_module_decl, lemma_folded_module_item, lemma_folded_module_items,
    lemma_folded_object_pat_prop, lemma_folded_object_pat_props, lemma_folded_opt_expr_or_spreads,
    lemma_folded_opt_pats, lemma_folded_pat, lemma_folded_pat_or_expr, lemma_folded_pats,
    lemma_folded_prop, lemma_folded_prop_name, lemma_folded_prop_or_spread,
    lemma_folded_prop_or_spreads, lemma_folded_stmt, lemma_folded_stmts, lemma_folded_switch_case,
    lemma_folded_switch_cases, lemma_folded_tpl, lemma_folded_var_decl,
    lemma_folded_var_decl_or_expr, lemma_folded_var_decl_or_pat, lemma_folded_var_declarator,
    lemma_folded_var_declarators,
};
use crate::simplify::{
    simplified_expr, simplified_object_pat_prop, simplified_pat, simplified_stmt,
};
use crate::steady::{
    is_quiet_here, is_quiet_stmt_here,
};
use crate::tame::{
    lemma_tame_block_stmt_or_expr_is, lemma_tame_catch_clause_is, lemma_tame_class_is,
    lemma_tame_class_member_is, lemma_tame_class_members_is, lemma_tame_decl_is,
    lemma_tame_default_decl_is, lemma_tame_expr_is, lemma_tame_expr_or_spread_is,
    lemma_tame_expr_or_spreads_is, lemma_tame_expr_or_super_is, lemma_tame_exprs_is,
    lemma_tame_function_is, lemma_tame_member_prop_is, lemma_tame_module_decl_is,
    lemma_tame_module_is, lemma_tame_module_item_is, lemma_tame_module_items_is,
    lemma_tame_object_pat_prop_is, lemma_tame_object_pat_props_is,
    lemma_tame_opt_expr_or_spreads_is, lemma_tame_opt_pats_is, lemma_tame_pat_is,
    lemma_tame_pat_or_expr_is, lemma_tame_pats_is, lemma_tame_prop_is, lemma_tame_prop_name_is,
    lemma_tame_prop_or_spread_is, lemma_tame_prop_or_spreads_is, lemma_tame_stmt_is,
    lemma_tame_stmts_is, lemma_tame_switch_case_is, lemma_tame_switch_cases_is, lemma_tame_tpl_is,
    lemma_tame_var_decl_is, lemma_tame_var_decl_or_expr_is, lemma_tame_var_decl_or_pat_is,
    lemma_tame_var_declarator_is, lemma_tame_var_declarators_is, tame_block_stmt_or_expr,
    tame_catch_clause, tame_class, tame_class_member, tame_class_members, tame_decl,
    tame_default_decl, tame_expr, tame_expr_or_spread, tame_expr_or_spreads, tame_expr_or_super,
    tame_exprs, tame_function, tame_member_prop, tame_module, tame_module_decl, tame_module_item,
    tame_module_items, tame_object_pat_prop, tame_object_pat_props, tame_opt_expr_or_spreads,
    tame_opt_pats, tame_pat, tame_pat_or_expr, tame_pats, tame_prop, tame_prop_name,
    tame_prop_or_spread, tame_prop_or_spreads, tame_stmt, tame_stmts, tame_switch_case,
    tame_switch_cases, tame_tpl, tame_var_decl, tame_var_decl_or_expr, tame_var_decl_or_pat,
    tame_var_declarator, tame_var_declarators,
};
use crate::quiet::{
    lemma_quiet_block_stmt_or_expr_is, lemma_quiet_catch_clause_is, lemma_quiet_class_is,
    lemma_quiet_class_member_is, lemma_quiet_class_members_is, lemma_quiet_decl_is,
    lemma_quiet_default_decl_is, lemma_quiet_expr_or_spread_is, lemma_quiet_expr_or_spreads_is,
    lemma_quiet_expr_or_super_is, lemma_quiet_exprs_is, lemma_quiet_function_is,
    lemma_quiet_member_prop_is, lemma_quiet_module_decl_is, lemma_quiet_module_is,
    lemma_quiet_module_item_is, lemma_quiet_object_pat_props_is,
    lemma_quiet_opt_expr_or_spreads_is, lemma_quiet_opt_pats_is, lemma_quiet_pat_or_expr_is,
    lemma_quiet_pats_is, lemma_quiet_prop_is, lemma_quiet_prop_name_is,
    lemma_quiet_prop_or_spread_is, lemma_quiet_prop_or_spreads_is, lemma_quiet_switch_case_is,
    lemma_quiet_switch_cases_is, lemma_quiet_tpl_is, lemma_quiet_var_decl_is,
    lemma_quiet_var_decl_or_expr_is, lemma_quiet_var_decl_or_pat_is, lemma_quiet_var_declarator_is,
    lemma_quiet_var_declarators_is, quiet_block_stmt_or_expr, quiet_catch_clause, quiet_class,
    quiet_class_member, quiet_class_members, quiet_decl, quiet_default_decl, quiet_expr,
    quiet_expr_or_spread, quiet_expr_or_spreads, quiet_expr_or_super, quiet_exprs, quiet_function,
    quiet_member_prop, quiet_module, quiet_module_decl, quiet_module_item, quiet_module_items,
    quiet_object_pat_prop, quiet_object_pat_props, quiet_opt_expr_or_spreads, quiet_opt_pats,
    quiet_parts_of_expr, quiet_parts_of_object_pat_prop, quiet_parts_of_pat, quiet_parts_of_stmt,
    quiet_pat, quiet_pat_or_expr, quiet_pats, quiet_prop, quiet_prop_name, quiet_prop_or_spread,
    quiet_prop_or_spreads, quiet_stmt, quiet_stmts, quiet_switch_case, quiet_switch_cases,
    quiet_tpl, quiet_var_decl, quiet_var_decl_or_expr, quiet_var_decl_or_pat, quiet_var_declarator,
    quiet_var_declarators,
};
use crate::quieting::{
    lemma_operands_stay, lemma_simplified_expr_is_quiet, lemma_simplified_items_is_quiet,
    lemma_simplified_list_is_quiet, lemma_simplified_object_pat_prop_is_quiet,
    lemma_simplified_pat_is_quiet, lemma_simplified_stmt_is_quiet, lemma_stmt_stays,
};

verus! {

/// Without its dead code a tame [`Tpl`] is quiet.
pub proof fn lemma_folded_tpl_is_quiet(x: TplV)
    requires
        tame_tpl(x),
    ensures
        quiet_tpl(folded_tpl(x)),
    decreases x,
{
    lemma_tame_tpl_is(x);
    lemma_folded_tpl(x);
    lemma_folded_exprs_is_quiet(x.exprs);
    lemma_quiet_tpl_is(folded_tpl(x));
}

/// Without its dead code a tame [`ExprOrSpread`] is quiet.
pub proof fn lemma_folded_expr_or_spread_is_quiet(x: ExprOrSpreadV)
    requires
        tame_expr_or_spread(x),
    ensures
        quiet_expr_or_spread(folded_expr_or_spread(x)),
    decreases x,
{
    lemma_tame_expr_or_spread_is(x);
    lemma_folded_expr_or_spread(x);
    lemma_folded_expr_is_quiet(x.expr);
    lemma_quiet_expr_or_spread_is(folded_expr_or_spread(x));
}

/// Without its dead code a tame [`ExprOrSuper`] is quiet.
pub proof fn lemma_folded_expr_or_super_is_quiet(x: ExprOrSuperV)
    requires
        tame_expr_or_super(x),
    ensures
        quiet_expr_or_super(folded_expr_or_super(x)),
    decreases x,
{
    lemma_tame_expr_or_super_is(x);
    lemma_folded_expr_or_super(x);
    match x {
        ExprOrSuperV::Super => {},
        ExprOrSuperV::Expr(a) => {
            lemma_folded_expr_is_quiet(*a);
        },
    }
    lemma_quiet_expr_or_super_is(folded_expr_or_super(x));
}

/// Without its dead code a tame [`MemberProp`] is quiet.
pub proof fn lemma_folded_member_prop_is_quiet(x: MemberPropV)
    requires
        tame_member_prop(x),
    ensures
        quiet_member_prop(folded_member_prop(x)),
    decreases x,
{
    lemma_tame_member_prop_is(x);
    lemma_folded_member_prop(x);
    match x {
        MemberPropV::Ident(_) => {},
        MemberPropV::Computed(a) => {
            lemma_folded_expr_is_quiet(*a);
        },
    }
    lemma_quiet_member_prop_is(folded_member_prop(x));
}

/// Without its dead code a tame [`PatOrExpr`] is quiet.
pub proof fn lemma_folded_pat_or_expr_is_quiet(x: PatOrExprV)
    requires
        tame_pat_or_expr(x),
    ensures
        quiet_pat_or_expr(folded_pat_or_expr(x)),
    decreases x,
{
    lemma_tame_pat_or_expr_is(x);
    lemma_folded_pat_or_expr(x);
    match x {
        PatOrExprV::Expr(a) => {
            lemma_folded_expr_is_quiet(*a);
        },
        PatOrExprV::Pat(a) => {
            lemma_folded_pat_is_quiet(*a);
        },
    }
    lemma_quiet_pat_or_expr_is(folded_pat_or_expr(x));
}

/// Without its dead code a tame [`PropName`] is quiet.
pub proof fn lemma_folded_prop_name_is_quiet(x: PropNameV)
    requires
        tame_prop_name(x),
    ensures
        quiet_prop_name(folded_prop_name(x)),
    decreases x,
{
    lemma_tame_prop_name_is(x);
    lemma_folded_prop_name(x);
    match x {
        PropNameV::Ident(_) => {},
        PropNameV::Str(_) => {},
        PropNameV::Num(_) => {},
        PropNameV::Computed(a) => {
            lemma_folded_expr_is_quiet(*a);
        },
    }
    lemma_quiet_prop_name_is(folded_prop_name(x));
}

/// Without its dead code a tame [`Prop`] is quiet.
pub proof fn lemma_folded_prop_is_quiet(x: PropV)
    requires
        tame_prop(x),
    ensures
        quiet_prop(folded_prop(x)),
    decreases x,
{
    lemma_tame_prop_is(x);
    lemma_folded_prop(x);
    match x {
        PropV::Shorthand(_) => {},
        PropV::KeyValue { key, value } => {
            lemma_folded_prop_name_is_quiet(key);
            lemma_folded_expr_is_quiet(*value);
        },
        PropV::Getter { key, body } => {
            lemma_folded_prop_name_is_quiet(key);
            match body {
                Some(x) => {
                    lemma_folded_stmts_is_quiet(x);
                },
                None => {},
            }
        },
        PropV::Setter { key, param, body } => {
            lemma_folded_prop_name_is_quiet(key);
            lemma_folded_pat_is_quiet(param);
            match body {
                Some(x) => {
                    lemma_folded_stmts_is_quiet(x);
                },
                None => {},
            }
        },
        PropV::Method { key, function } => {
            lemma_folded_prop_name_is_quiet(key);
            lemma_folded_function_is_quiet(function);
        },
    }
    lemma_quiet_prop_is(folded_prop(x));
}

/// Without its dead code a tame [`PropOrSpread`] is quiet.
pub proof fn lemma_folded_prop_or_spread_is_quiet(x: PropOrSpreadV)
    requires
        tame_prop_or_spread(x),
    ensures
        quiet_prop_or_spread(folded_prop_or_spread(x)),
    decreases x,
{
    lemma_tame_prop_or_spread_is(x);
    lemma_folded_prop_or_spread(x);
    match x {
        PropOrSpreadV::Spread(a) => {
            lemma_folded_expr_is_quiet(*a);
        },
        PropOrSpreadV::Prop(a) => {
            lemma_folded_prop_is_quiet(*a);
        },
    }
    lemma_quiet_prop_or_spread_is(folded_prop_or_spread(x));
}

/// Without its dead code a tame [`Function`] is quiet.
pub proof fn lemma_folded_function_is_quiet(x: FunctionV)
    requires
        tame_function(x),
    ensures
        quiet_function(folded_function(x)),
    decreases x,
{
    lemma_tame_function_is(x);
    lemma_folded_function(x);
    lemma_folded_pats_is_quiet(x.params);
    match x.body {
        Some(x) => {
            lemma_folded_stmts_is_quiet(x);
        },
        None => {},
    }
    lemma_quiet_function_is(folded_function(x));
}

/// Without its dead code a tame [`Class`] is quiet.
pub proof fn lemma_folded_class_is_quiet(x: ClassV)
    requires
        tame_class(x),
    ensures
        quiet_class(folded_class(x)),
    decreases x,
{
    lemma_tame_class_is(x);
    lemma_folded_class(x);
    match x.super_class {
        Some(x) => {
            lemma_folded_expr_is_quiet(*x);
        },
        None => {},
    }
    lemma_folded_class_members_is_quiet(x.body);
    lemma_quiet_class_is(folded_class(x));
}

/// Without its dead code a tame [`ClassMember`] is quiet.
pub proof fn lemma_folded_class_member_is_quiet(x: ClassMemberV)
    requires
        tame_class_member(x),
    ensures
        quiet_class_member(folded_class_member(x)),
    decreases x,
{
    lemma_tame_class_member_is(x);
    lemma_folded_class_member(x);
    match x {
        ClassMemberV::Constructor { key, params, body } => {
            lemma_folded_prop_name_is_quiet(key);
            lemma_folded_pats_is_quiet(params);
            match body {
                Some(x) => {
                    lemma_folded_stmts_is_quiet(x);
                },
                None => {},
            }
        },
        ClassMemberV::Method { key, function, .. } => {
            lemma_folded_prop_name_is_quiet(key);
            lemma_folded_function_is_quiet(function);
        },
        ClassMemberV::Prop { key, value, .. } => {
            lemma_folded_expr_is_quiet(*key);
            match value {
                Some(x) => {
                    lemma_folded_expr_is_quiet(*x);
                },
                None => {},
            }
        },
    }
    lemma_quiet_class_member_is(folded_class_member(x));
}

/// Without its dead code a tame [`BlockStmtOrExpr`] is quiet.
pub proof fn lemma_folded_block_stmt_or_expr_is_quiet(x: BlockStmtOrExprV)
    requires
        tame_block_stmt_or_expr(x),
    ensures
        quiet_block_stmt_or_expr(folded_block_stmt_or_expr(x)),
    decreases x,
{
    lemma_tame_block_stmt_or_expr_is(x);
    lemma_folded_block_stmt_or_expr(x);
    match x {
        BlockStmtOrExprV::Block(a) => {
            lemma_folded_stmts_is_quiet(a);
        },
        BlockStmtOrExprV::Expr(a) => {
            lemma_folded_expr_is_quiet(*a);
        },
    }
    lemma_quiet_block_stmt_or_expr_is(folded_block_stmt_or_expr(x));
}

/// Without its dead code a tame [`Expr`] is quiet.
pub proof fn lemma_folded_expr_is_quiet(x: ExprV)
    requires
        tame_expr(x),
    ensures
        quiet_expr(folded_expr(x)),
    decreases x,
{
    lemma_tame_expr_is(x);
    lemma_folded_expr(x);
    match x {
        ExprV::This => {},
        ExprV::Array(a) => {
            lemma_folded_opt_expr_or_spreads_is_quiet(a);
        },
        ExprV::Object(a) => {
            lemma_folded_prop_or_spreads_is_quiet(a);
        },
        ExprV::Fn { function, .. } => {
            lemma_folded_function_is_quiet(*function);
        },
        ExprV::Unary { arg, .. } => {
            lemma_folded_expr_is_quiet(*arg);
        },
        ExprV::Update { arg, .. } => {
            lemma_folded_expr_is_quiet(*arg);
        },
        ExprV::Bin { left, right, .. } => {
            lemma_folded_expr_is_quiet(*left);
            lemma_folded_expr_is_quiet(*right);
        },
        ExprV::Assign { left, right, .. } => {
            lemma_folded_pat_or_expr_is_quiet(left);
            lemma_folded_expr_is_quiet(*right);
        },
        ExprV::Member { obj, prop } => {
            lemma_folded_expr_or_super_is_quiet(obj);
            lemma_folded_member_prop_is_quiet(prop);
        },
        ExprV::Cond { test, cons, alt } => {
            lemma_folded_expr_is_quiet(*test);
            lemma_folded_expr_is_quiet(*cons);
            lemma_folded_expr_is_quiet(*alt);
        },
        ExprV::Call { callee, args } => {
            lemma_folded_expr_or_super_is_quiet(callee);
            lemma_folded_expr_or_spreads_is_quiet(args);
        },
        ExprV::New { callee, args } => {
            lemma_folded_expr_is_quiet(*callee);
            match args {
                Some(x) => {
                    lemma_folded_expr_or_spreads_is_quiet(x);
                },
                None => {},
            }
        },
        ExprV::Sequence { init, last } => {
            lemma_folded_exprs_is_quiet(init);
            lemma_folded_expr_is_quiet(*last);
        },
        ExprV::Ident(_) => {},
        ExprV::Lit(_) => {},
        ExprV::Tpl(a) => {
            lemma_folded_tpl_is_quiet(a);
        },
        ExprV::TaggedTpl { tag, tpl } => {
            lemma_folded_expr_is_quiet(*tag);
            lemma_folded_tpl_is_quiet(tpl);
        },
        ExprV::Arrow { params, body, .. } => {
            lemma_folded_pats_is_quiet(params);
            lemma_folded_block_stmt_or_expr_is_quiet(body);
        },
        ExprV::Class { class, .. } => {
            lemma_folded_class_is_quiet(*class);
        },
        ExprV::Yield { arg, .. } => {
            match arg {
                Some(x) => {
                    lemma_folded_expr_is_quiet(*x);
                },
                None => {},
            }
        },
        ExprV::MetaProp { .. } => {},
        ExprV::Await(a) => {
            lemma_folded_expr_is_quiet(*a);
        },
        ExprV::Paren(a) => {
            lemma_folded_expr_is_quiet(*a);
        },
        ExprV::Ts { expr, .. } => {
            lemma_folded_expr_is_quiet(*expr);
        },
        ExprV::OptChain(a) => {
            lemma_folded_expr_is_quiet(*a);
        },
        ExprV::PrivateName(_) => {},
    }
    lemma_operands_stay(x);
    assert forall|y: ExprV| quiet_parts_of_expr(y) && is_quiet_here(y) implies quiet_expr(
        #[trigger] simplified_expr(y),
    ) by {
        lemma_simplified_expr_is_quiet(y);
    }
}

/// Without its dead code a tame [`Pat`] is quiet.
pub proof fn lemma_folded_pat_is_quiet(x: PatV)
    requires
        tame_pat(x),
    ensures
        quiet_pat(folded_pat(x)),
    decreases x,
{
    lemma_tame_pat_is(x);
    lemma_folded_pat(x);
    match x {
        PatV::Ident(_) => {},
        PatV::Array(a) => {
            lemma_folded_opt_pats_is_quiet(a);
        },
        PatV::Rest(a) => {
            lemma_folded_pat_is_quiet(*a);
        },
        PatV::Object(a) => {
            lemma_folded_object_pat_props_is_quiet(a);
        },
        PatV::Assign { left, right } => {
            lemma_folded_pat_is_quiet(*left);
            lemma_folded_expr_is_quiet(*right);
        },
        PatV::Expr(a) => {
            lemma_folded_expr_is_quiet(*a);
        },
    }
    assert forall|y: PatV| quiet_parts_of_pat(y) implies quiet_pat(
        #[trigger] simplified_pat(y),
    ) by {
        lemma_simplified_pat_is_quiet(y);
    }
}

/// Without its dead code a tame [`ObjectPatProp`] is quiet.
pub proof fn lemma_folded_object_pat_prop_is_quiet(x: ObjectPatPropV)
    requires
        tame_object_pat_prop(x),
    ensures
        quiet_object_pat_prop(folded_object_pat_prop(x)),
    decreases x,
{
    lemma_tame_object_pat_prop_is(x);
    lemma_folded_object_pat_prop(x);
    match x {
        ObjectPatPropV::KeyValue { key, value } => {
            lemma_folded_prop_name_is_quiet(key);
            lemma_folded_pat_is_quiet(*value);
        },
        ObjectPatPropV::Assign { value, .. } => {
            match value {
                Some(x) => {
                    lemma_folded_expr_is_quiet(*x);
                },
                None => {},
            }
        },
        ObjectPatPropV::Rest(a) => {
            lemma_folded_pat_is_quiet(*a);
        },
    }
    assert forall|y: ObjectPatPropV| quiet_parts_of_object_pat_prop(y) implies quiet_object_pat_prop(
        #[trigger] simplified_object_pat_prop(y),
    ) by {
        lemma_simplified_object_pat_prop_is_quiet(y);
    }
}

/// Without its dead code a tame [`VarDeclarator`] is quiet.
pub proof fn lemma_folded_var_declarator_is_quiet(x: VarDeclaratorV)
    requires
        tame_var_declarator(x),
    ensures
        quiet_var_declarator(folded_var_declarator(x)),
    decreases x,
{
    lemma_tame_var_declarator_is(x);
    lemma_folded_var_declarator(x);
    lemma_folded_pat_is_quiet(x.name);
    match x.init {
        Some(x) => {
            lemma_folded_expr_is_quiet(*x);
        },
        None => {},
    }
    lemma_quiet_var_declarator_is(folded_var_declarator(x));
}

/// Without its dead code a tame [`VarDecl`] is quiet.
pub proof fn lemma_folded_var_decl_is_quiet(x: VarDeclV)
    requires
        tame_var_decl(x),
    ensures
        quiet_var_decl(folded_var_decl(x)),
    decreases x,
{
    lemma_tame_var_decl_is(x);
    lemma_folded_var_decl(x);
    lemma_folded_var_declarators_is_quiet(x.decls);
    lemma_quiet_var_decl_is(folded_var_decl(x));
}

/// Without its dead code a tame [`Decl`] is quiet.
pub proof fn lemma_folded_decl_is_quiet(x: DeclV)
    requires
        tame_decl(x),
    ensures
        quiet_decl(folded_decl(x)),
    decreases x,
{
    lemma_tame_decl_is(x);
    lemma_folded_decl(x);
    match x {
        DeclV::Class { class, .. } => {
            lemma_folded_class_is_quiet(class);
        },
        DeclV::Fn { function, .. } => {
            lemma_folded_function_is_quiet(function);
        },
        DeclV::Var(a) => {
            lemma_folded_var_decl_is_quiet(a);
        },
    }
    lemma_quiet_decl_is(folded_decl(x));
}

/// Without its dead code a tame [`VarDeclOrExpr`] is quiet.
pub proof fn lemma_folded_var_decl_or_expr_is_quiet(x: VarDeclOrExprV)
    requires
        tame_var_decl_or_expr(x),
    ensures
        quiet_var_decl_or_expr(folded_var_decl_or_expr(x)),
    decreases x,
{
    lemma_tame_var_decl_or_expr_is(x);
    lemma_folded_var_decl_or_expr(x);
    match x {
        VarDeclOrExprV::VarDecl(a) => {
            lemma_folded_var_decl_is_quiet(a);
        },
        VarDeclOrExprV::Expr(a) => {
            lemma_folded_expr_is_quiet(*a);
        },
    }
    lemma_quiet_var_decl_or_expr_is(folded_var_decl_or_expr(x));
}

/// Without its dead code a tame [`VarDeclOrPat`] is quiet.
pub proof fn lemma_folded_var_decl_or_pat_is_quiet(x: VarDeclOrPatV)
    requires
        tame_var_decl_or_pat(x),
    ensures
        quiet_var_decl_or_pat(folded_var_decl_or_pat(x)),
    decreases x,
{
    lemma_tame_var_decl_or_pat_is(x);
    lemma_folded_var_decl_or_pat(x);
    match x {
        VarDeclOrPatV::VarDecl(a) => {
            lemma_folded_var_decl_is_quiet(a);
        },
        VarDeclOrPatV::Pat(a) => {
            lemma_folded_pat_is_quiet(a);
        },
    }
    lemma_quiet_var_decl_or_pat_is(folded_var_decl_or_pat(x));
}

/// Without its dead code a tame [`SwitchCase`] is quiet.
pub proof fn lemma_folded_switch_case_is_quiet(x: SwitchCaseV)
    requires
        tame_switch_case(x),
    ensures
        quiet_switch_case(folded_switch_case(x)),
    decreases x,
{
    lemma_tame_switch_case_is(x);
    lemma_folded_switch_case(x);
    match x.test {
        Some(x) => {
            lemma_folded_expr_is_quiet(*x);
        },
        None => {},
    }
    lemma_folded_stmts_is_quiet(x.cons);
    lemma_quiet_switch_case_is(folded_switch_case(x));
}

/// Without its dead code a tame [`CatchClause`] is quiet.
pub proof fn lemma_folded_catch_clause_is_quiet(x: CatchClauseV)
    requires
        tame_catch_clause(x),
    ensures
        quiet_catch_clause(folded_catch_clause(x)),
    decreases x,
{
    lemma_tame_catch_clause_is(x);
    lemma_folded_catch_clause(x);
    match x.param {
        Some(x) => {
            lemma_folded_pat_is_quiet(x);
        },
        None => {},
    }
    lemma_folded_stmts_is_quiet(x.body);
    lemma_quiet_catch_clause_is(folded_catch_clause(x));
}

/// Without its dead code a tame [`Stmt`] is quiet.
pub proof fn lemma_folded_stmt_is_quiet(x: StmtV)
    requires
        tame_stmt(x),
    ensures
        quiet_stmt(folded_stmt(x)),
    decreases x,
{
    lemma_tame_stmt_is(x);
    lemma_folded_stmt(x);
    match x {
        StmtV::Block(a) => {
            lemma_folded_stmts_is_quiet(a);
        },
        StmtV::Empty => {},
        StmtV::Debugger => {},
        StmtV::With { obj, body } => {
            lemma_folded_expr_is_quiet(*obj);
            lemma_folded_stmt_is_quiet(*body);
        },
        StmtV::Return(a) => {
            match a {
                Some(x) => {
                    lemma_folded_expr_is_quiet(*x);
                },
                None => {},
            }
        },
        StmtV::Labeled { body, .. } => {
            lemma_folded_stmt_is_quiet(*body);
        },
        StmtV::Break(_) => {},
        StmtV::Continue(_) => {},
        StmtV::If { test, cons, alt } => {
            lemma_folded_expr_is_quiet(*test);
            lemma_folded_stmt_is_quiet(*cons);
            match alt {
                Some(x) => {
                    lemma_folded_stmt_is_quiet(*x);
                },
                None => {},
            }
        },
        StmtV::Switch { discriminant, cases } => {
            lemma_folded_expr_is_quiet(*discriminant);
            lemma_folded_switch_cases_is_quiet(cases);
        },
        StmtV::Throw(a) => {
            lemma_folded_expr_is_quiet(*a);
        },
        StmtV::Try { block, handler, finalizer } => {
            lemma_folded_stmts_is_quiet(block);
            match handler {
                Some(x) => {
                    lemma_folded_catch_clause_is_quiet(x);
                },
                None => {},
            }
            match finalizer {
                Some(x) => {
                    lemma_folded_stmts_is_quiet(x);
                },
                None => {},
            }
        },
        StmtV::While { test, body } => {
            lemma_folded_expr_is_quiet(*test);
            lemma_folded_stmt_is_quiet(*body);
        },
        StmtV::DoWhile { test, body } => {
            lemma_folded_expr_is_quiet(*test);
            lemma_folded_stmt_is_quiet(*body);
        },
        StmtV::For { init, test, update, body } => {
            match init {
                Some(x) => {
                    lemma_folded_var_decl_or_expr_is_quiet(x);
                },
                None => {},
            }
            match test {
                Some(x) => {
                    lemma_folded_expr_is_quiet(*x);
                },
                None => {},
            }
            match update {
                Some(x) => {
                    lemma_folded_expr_is_quiet(*x);
                },
                None => {},
            }
            lemma_folded_stmt_is_quiet(*body);
        },
        StmtV::ForIn { left, right, body } => {
            lemma_folded_var_decl_or_pat_is_quiet(left);
            lemma_folded_expr_is_quiet(*right);
            lemma_folded_stmt_is_quiet(*body);
        },
        StmtV::ForOf { left, right, body, .. } => {
            lemma_folded_var_decl_or_pat_is_quiet(left);
            lemma_folded_expr_is_quiet(*right);
            lemma_folded_stmt_is_quiet(*body);
        },
        StmtV::Decl(a) => {
            lemma_folded_decl_is_quiet(a);
        },
        StmtV::Expr(a) => {
            lemma_folded_expr_is_quiet(*a);
        },
    }
    lemma_stmt_stays(x);
    assert forall|y: StmtV| quiet_parts_of_stmt(y) && is_quiet_stmt_here(y) implies quiet_stmt(
        #[trigger] simplified_stmt(y),
    ) by {
        lemma_simplified_stmt_is_quiet(y);
    }
}

/// Without its dead code a tame [`DefaultDecl`] is quiet.
pub proof fn lemma_folded_default_decl_is_quiet(x: DefaultDeclV)
    requires
        tame_default_decl(x),
    ensures
        quiet_default_decl(folded_default_decl(x)),
    decreases x,
{
    lemma_tame_default_decl_is(x);
    lemma_folded_default_decl(x);
    match x {
        DefaultDeclV::Class { class, .. } => {
            lemma_folded_class_is_quiet(class);
        },
        DefaultDeclV::Fn { function, .. } => {
            lemma_folded_function_is_quiet(function);
        },
    }
    lemma_quiet_default_decl_is(folded_default_decl(x));
}

/// Without its dead code a tame [`ModuleDecl`] is quiet.
pub proof fn lemma_folded_module_decl_is_quiet(x: ModuleDeclV)
    requires
        tame_module_decl(x),
    ensures
        quiet_module_decl(folded_module_decl(x)),
    decreases x,
{
    lemma_tame_module_decl_is(x);
    lemma_folded_module_decl(x);
    match x {
        ModuleDeclV::Import { .. } => {},
        ModuleDeclV::ExportDecl(a) => {
            lemma_folded_decl_is_quiet(a);
        },
        ModuleDeclV::ExportNamed { .. } => {},
        ModuleDeclV::ExportDefaultDecl(a) => {
            lemma_folded_default_decl_is_quiet(a);
        },
        ModuleDeclV::ExportDefaultExpr(a) => {
            lemma_folded_expr_is_quiet(*a);
        },
        ModuleDeclV::ExportAll { .. } => {},
    }
    lemma_quiet_module_decl_is(folded_module_decl(x));
}

/// Without its dead code a tame [`ModuleItem`] is quiet.
pub proof fn lemma_folded_module_item_is_quiet(x: ModuleItemV)
    requires
        tame_module_item(x),
    ensures
        quiet_module_item(folded_module_item(x)),
    decreases x,
{
    lemma_tame_module_item_is(x);
    lemma_folded_module_item(x);
    match x {
        ModuleItemV::ModuleDecl(a) => {
            lemma_folded_module_decl_is_quiet(a);
        },
        ModuleItemV::Stmt(a) => {
            lemma_folded_stmt_is_quiet(a);
        },
    }
    lemma_quiet_module_item_is(folded_module_item(x));
}

/// Without its dead code a tame [`Module`] is quiet.
pub proof fn lemma_folded_module_is_quiet(x: ModuleV)
    requires
        tame_module(x),
    ensures
        quiet_module(folded_module(x)),
    decreases x,
{
    lemma_tame_module_is(x);
    lemma_folded_module(x);
    lemma_folded_module_items_is_quiet(x.body);
    lemma_quiet_module_is(folded_module(x));
}

/// Without its dead code a tame list is quiet.
pub proof fn lemma_folded_class_members_is_quiet(s: Seq<ClassMemberV>)
    requires
        tame_class_members(s),
    ensures
        quiet_class_members(folded_class_members(s)),
    decreases s,
{
    lemma_tame_class_members_is(s);
    lemma_folded_class_members(s);
    assert forall|i: int| 0 <= i < s.len() implies quiet_class_member(#[trigger] folded_class_members(s)[i]) by {
        lemma_folded_class_member_is_quiet(s[i]);
    }
    lemma_quiet_class_members_is(folded_class_members(s));
}

/// Without its dead code a tame list is quiet.
pub proof fn lemma_folded_expr_or_spreads_is_quiet(s: Seq<ExprOrSpreadV>)
    requires
        tame_expr_or_spreads(s),
    ensures
        quiet_expr_or_spreads(folded_expr_or_spreads(s)),
    decreases s,
{
    lemma_tame_expr_or_spreads_is(s);
    lemma_folded_expr_or_spreads(s);
    assert forall|i: int| 0 <= i < s.len() implies quiet_expr_or_spread(#[trigger] folded_expr_or_spreads(s)[i]) by {
        lemma_folded_expr_or_spread_is_quiet(s[i]);
    }
    lemma_quiet_expr_or_spreads_is(folded_expr_or_spreads(s));
}

/// Without its dead code a tame list is quiet.
pub proof fn lemma_folded_exprs_is_quiet(s: Seq<ExprV>)
    requires
        tame_exprs(s),
    ensures
        quiet_exprs(folded_exprs(s)),
    decreases s,
{
    lemma_tame_exprs_is(s);
    lemma_folded_exprs(s);
    assert forall|i: int| 0 <= i < s.len() implies quiet_expr(#[trigger] folded_exprs(s)[i]) by {
        lemma_folded_expr_is_quiet(s[i]);
    }
    lemma_quiet_exprs_is(folded_exprs(s));
}

/// Without its dead code a tame list is quiet.
pub proof fn lemma_folded_module_items_is_quiet(s: Seq<ModuleItemV>)
    requires
        tame_module_items(s),
    ensures
        quiet_module_items(folded_module_items(s)),
    decreases s,
{
    lemma_tame_module_items_is(s);
    lemma_folded_each_module_items(s);
    assert forall|i: int| 0 <= i < s.len() implies quiet_module_item(#[trigger] folded_each_module_items(s)[i]) by {
        lemma_folded_module_item_is_quiet(s[i]);
    }
    lemma_folded_module_items(s);
    lemma_simplified_items_is_quiet(folded_each_module_items(s));
}

/// Without its dead code a tame list is quiet.
pub proof fn lemma_folded_object_pat_props_is_quiet(s: Seq<ObjectPatPropV>)
    requires
        tame_object_pat_props(s),
    ensures
        quiet_object_pat_props(folded_object_pat_props(s)),
    decreases s,
{
    lemma_tame_object_pat_props_is(s);
    lemma_folded_object_pat_props(s);
    assert forall|i: int| 0 <= i < s.len() implies quiet_object_pat_prop(#[trigger] folded_object_pat_props(s)[i]) by {
        lemma_folded_object_pat_prop_is_quiet(s[i]);
    }
    lemma_quiet_object_pat_props_is(folded_object_pat_props(s));
}

/// Without its dead code a tame list is quiet.
pub proof fn lemma_folded_opt_expr_or_spreads_is_quiet(s: Seq<Option<ExprOrSpreadV>>)
    requires
        tame_opt_expr_or_spreads(s),
    ensures
        quiet_opt_expr_or_spreads(folded_opt_expr_or_spreads(s)),
    decreases s,
{
    lemma_tame_opt_expr_or_spreads_is(s);
    lemma_folded_opt_expr_or_spreads(s);
    assert forall|i: int| 0 <= i < s.len() implies (match (#[trigger] folded_opt_expr_or_spreads(s)[i]) {
        Some(x) => quiet_expr_or_spread(x),
        None => true,
    }) by {
        match s[i] {
            Some(x) => lemma_folded_expr_or_spread_is_quiet(x),
            None => {},
        }
    }
    lemma_quiet_opt_expr_or_spreads_is(folded_opt_expr_or_spreads(s));
}

/// Without its dead code a tame list is quiet.
pub proof fn lemma_folded_opt_pats_is_quiet(s: Seq<Option<PatV>>)
    requires
        tame_opt_pats(s),
    ensures
        quiet_opt_pats(folded_opt_pats(s)),
    decreases s,
{
    lemma_tame_opt_pats_is(s);
    lemma_folded_opt_pats(s);
    assert forall|i: int| 0 <= i < s.len() implies (match (#[trigger] folded_opt_pats(s)[i]) {
        Some(x) => quiet_pat(x),
        None => true,
    }) by {
        match s[i] {
            Some(x) => lemma_folded_pat_is_quiet(x),
            None => {},
        }
    }
    lemma_quiet_opt_pats_is(folded_opt_pats(s));
}

/// Without its dead code a tame list is quiet.
pub proof fn lemma_folded_pats_is_quiet(s: Seq<PatV>)
    requires
        tame_pats(s),
    ensures
        quiet_pats(folded_pats(s)),
    decreases s,
{
    lemma_tame_pats_is(s);
    lemma_folded_pats(s);
    assert forall|i: int| 0 <= i < s.len() implies quiet_pat(#[trigger] folded_pats(s)[i]) by {
        lemma_folded_pat_is_quiet(s[i]);
    }
    lemma_quiet_pats_is(folded_pats(s));
}

/// Without its dead code a tame list is quiet.
pub proof fn lemma_folded_prop_or_spreads_is_quiet(s: Seq<PropOrSpreadV>)
    requires
        tame_prop_or_spreads(s),
    ensures
        quiet_prop_or_spreads(folded_prop_or_spreads(s)),
    decreases s,
{
    lemma_tame_prop_or_spreads_is(s);
    lemma_folded_prop_or_spreads(s);
    assert forall|i: int| 0 <= i < s.len() implies quiet_prop_or_spread(#[trigger] folded_prop_or_spreads(s)[i]) by {
        lemma_folded_prop_or_spread_is_quiet(s[i]);
    }
    lemma_quiet_prop_or_spreads_is(folded_prop_or_spreads(s));
}

/// Without its dead code a tame list is quiet.
pub proof fn lemma_folded_stmts_is_quiet(s: Seq<StmtV>)
    requires
        tame_stmts(s),
    ensures
        quiet_stmts(folded_stmts(s)),
    decreases s,
{
    lemma_tame_stmts_is(s);
    lemma_folded_each_stmts(s);
    assert forall|i: int| 0 <= i < s.len() implies quiet_stmt(#[trigger] folded_each_stmts(s)[i]) by {
        lemma_folded_stmt_is_quiet(s[i]);
    }
    lemma_folded_stmts(s);
    lemma_simplified_list_is_quiet(folded_each_stmts(s));
}

/// Without its dead code a tame list is quiet.
pub proof fn lemma_folded_switch_cases_is_quiet(s: Seq<SwitchCaseV>)
    requires
        tame_switch_cases(s),
    ensures
        quiet_switch_cases(folded_switch_cases(s)),
    decreases s,
{
    lemma_tame_switch_cases_is(s);
    lemma_folded_switch_cases(s);
    assert forall|i: int| 0 <= i < s.len() implies quiet_switch_case(#[trigger] folded_switch_cases(s)[i]) by {
        lemma_folded_switch_case_is_quiet(s[i]);
    }
    lemma_quiet_switch_cases_is(folded_switch_cases(s));
}

/// Without its dead code a tame list is quiet.
pub proof fn lemma_folded_var_declarators_is_quiet(s: Seq<VarDeclaratorV>)
    requires
        tame_var_declarators(s),
    ensures
        quiet_var_declarators(folded_var_declarators(s)),
    decreases s,
{
    lemma_tame_var_declarators_is(s);
    lemma_folded_var_declarators(s);
    assert forall|i: int| 0 <= i < s.len() implies quiet_var_declarator(#[trigger] folded_var_declarators(s)[i]) by {
        lemma_folded_var_declarator_is_quiet(s[i]);
    }
    lemma_quiet_var_declarators_is(folded_var_declarators(s));
}

} // verus!
