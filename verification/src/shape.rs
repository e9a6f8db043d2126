//! Questions about the form of an expression.

use vstd::prelude::*;
use crate::ast::{Expr, ExprOrSpread, Lit, TsCast, UnaryOp};
use crate::model::{ExprOrSpreadV, ExprV, LitV};
use crate::purity::{is_ident_ref_to, is_ident_ref_to_impl};
use crate::text::str_eq;
use crate::view::{lemma_expr_or_spread_view, lemma_expr_view, lemma_exprs_view, lemma_tpl_view};

verus! {

/// Whether the value of `e` is the same whenever `e` is evaluated: a boolean,
/// a string, a number or `null`; `!`, `~` and `void` of such a value; `undefined`,
/// `Infinity` and `NaN`; a template whose expressions are all of this kind.
pub open spec fn is_immutable_value(e: ExprV) -> bool
    decreases e,
{
    match e {
        ExprV::Lit(LitV::Bool(_)) | ExprV::Lit(LitV::Str(_)) | ExprV::Lit(LitV::Num(_))
        | ExprV::Lit(LitV::Null) => true,
        ExprV::Unary { op, arg } => (op == UnaryOp::Bang || op == UnaryOp::Tilde || op
            == UnaryOp::Void) && is_immutable_value(*arg),
        ExprV::Ts { cast: TsCast::TypeCast, expr } => is_immutable_value(*expr),
        ExprV::Ident(i) => i.sym == "undefined"@ || i.sym == "Infinity"@ || i.sym == "NaN"@,
        ExprV::Tpl(t) => forall|i: int|
            0 <= i < t.exprs.len() ==> is_immutable_value(#[trigger] t.exprs[i]),
        _ => false,
    }
}

/// Whether `e` is a numeric literal.
pub open spec fn is_number(e: ExprV) -> bool {
    e matches ExprV::Lit(LitV::Num(_))
}

/// Whether `e` is a string literal.
pub open spec fn is_str(e: ExprV) -> bool {
    e matches ExprV::Lit(LitV::Str(_))
}

/// Whether `e` is an array literal.
pub open spec fn is_array_lit(e: ExprV) -> bool {
    e is Array
}

/// Whether `e` is `void` of something.
pub open spec fn is_void(e: ExprV) -> bool {
    e matches ExprV::Unary { op: UnaryOp::Void, .. }
}

/// Whether `e` is `...arguments`.
pub open spec fn is_rest_arguments(e: ExprOrSpreadV) -> bool {
    e.spread && is_ident_ref_to(e.expr, "arguments"@)
}

/// Decides [`is_immutable_value`].
pub fn is_immutable_value_impl(e: &Expr) -> (r: bool)
    ensures
        r == is_immutable_value(e@),
    decreases e,
{
    proof {
        lemma_expr_view(*e);
    }
    match e {
        Expr::Lit(Lit::Bool(_)) | Expr::Lit(Lit::Str(_)) | Expr::Lit(Lit::Num(_)) | Expr::Lit(
            Lit::Null,
        ) => true,
        Expr::Unary { op, arg } => match op {
            UnaryOp::Bang | UnaryOp::Tilde | UnaryOp::Void => is_immutable_value_impl(arg),
            _ => false,
        },
        Expr::Ts { cast: TsCast::TypeCast, expr } => is_immutable_value_impl(expr),
        Expr::Ident(i) => str_eq(i.sym.as_str(), "undefined") || str_eq(i.sym.as_str(), "Infinity")
            || str_eq(i.sym.as_str(), "NaN"),
        Expr::Tpl(t) => {
            proof {
                lemma_tpl_view(*t);
                lemma_exprs_view(t.exprs@);
            }
            let ghost items = t@.exprs;
            let mut i: usize = 0;
            while i < t.exprs.len()
                invariant
                    i <= t.exprs.len(),
                    *e matches Expr::Tpl(w) && w == *t,
                    e@ matches ExprV::Tpl(w) && w.exprs == items,
                    items.len() == t.exprs@.len(),
                    forall|j: int| 0 <= j < t.exprs@.len() ==> (#[trigger] items[j]) == t.exprs@[j]@,
                    forall|j: int| 0 <= j < i ==> is_immutable_value(#[trigger] items[j]),
                decreases t.exprs.len() - i,
            {
                if !is_immutable_value_impl(&t.exprs[i]) {
                    assert(!is_immutable_value(items[i as int]));
                    return false;
                }
                i += 1;
            }
            true
        },
        _ => false,
    }
}

/// Decides [`is_number`].
pub fn is_number_impl(e: &Expr) -> (r: bool)
    ensures
        r == is_number(e@),
{
    proof {
        lemma_expr_view(*e);
    }
    match e {
        Expr::Lit(Lit::Num(_)) => true,
        _ => false,
    }
}

/// Decides [`is_str`].
pub fn is_str_impl(e: &Expr) -> (r: bool)
    ensures
        r == is_str(e@),
{
    proof {
        lemma_expr_view(*e);
    }
    match e {
        Expr::Lit(Lit::Str(_)) => true,
        _ => false,
    }
}

/// Decides [`is_array_lit`].
pub fn is_array_lit_impl(e: &Expr) -> (r: bool)
    ensures
        r == is_array_lit(e@),
{
    proof {
        lemma_expr_view(*e);
    }
    match e {
        Expr::Array(_) => true,
        _ => false,
    }
}

/// Decides [`is_void`].
pub fn is_void_impl(e: &Expr) -> (r: bool)
    ensures
        r == is_void(e@),
{
    proof {
        lemma_expr_view(*e);
    }
    match e {
        Expr::Unary { op: UnaryOp::Void, .. } => true,
        _ => false,
    }
}

/// Check if `e` is `...arguments`
pub fn is_rest_arguments_impl(e: &ExprOrSpread) -> (r: bool)
    ensures
        r == is_rest_arguments(e@),
{
    proof {
        lemma_expr_or_spread_view(*e);
    }
    e.spread && is_ident_ref_to_impl(&e.expr, "arguments")
}

} // verus!
