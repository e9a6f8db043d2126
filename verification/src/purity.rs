//! Which expressions can be evaluated without anyone noticing.

use vstd::prelude::*;
use crate::ast::{Expr, ExprOrSuper, Prop, PropName, PropOrSpread, TsCast};
use crate::model::{ExprOrSpreadV, ExprOrSuperV, ExprV, PropNameV, PropOrSpreadV, PropV};
use crate::text::str_eq;
use crate::view::{
    lemma_expr_or_spread_view, lemma_expr_or_spreads_view, lemma_expr_or_super_view,
    lemma_expr_view, lemma_exprs_view,
    lemma_function_view, lemma_opt_expr_or_spreads_view, lemma_prop_name_view,
    lemma_prop_or_spread_view, lemma_prop_or_spreads_view, lemma_prop_view, lemma_stmts_view,
};

verus! {

/// Whether `e` is the identifier `name`.
pub open spec fn is_ident_ref_to(e: ExprV, name: Seq<char>) -> bool {
    e matches ExprV::Ident(i) && i.sym == name
}

/// Whether calling `e` is known to have no effect, whatever the arguments:
/// `Date`, a member of `Math`, or a function expression with an empty body.
pub open spec fn is_pure_callee(e: ExprV) -> bool {
    ||| is_ident_ref_to(e, "Date"@)
    ||| (e matches ExprV::Member { obj: ExprOrSuperV::Expr(o), .. } && is_ident_ref_to(*o, "Math"@))
    ||| (e matches ExprV::Fn { function, .. } && (function.body matches Some(b) && b.len() == 0))
}

/// Whether `new callee(args)` builds a `Date` from no arguments.
pub open spec fn is_plain_date(callee: ExprV, args: Option<Seq<ExprOrSpreadV>>) -> bool {
    is_ident_ref_to(callee, "Date"@) && (args matches Some(a) ==> a.len() == 0)
}

/// Whether evaluating `e` may have an effect beyond its value.
///
/// Of the constructions with `new` only that of a `Date` from no arguments
/// has none.
pub open spec fn may_have_side_effects(e: ExprV) -> bool
    decreases e,
{
    if is_pure_callee(e) {
        false
    } else {
        match e {
            ExprV::Lit(_) | ExprV::Ident(_) | ExprV::This | ExprV::PrivateName(_) => false,
            ExprV::Ts { cast, expr } => cast != TsCast::ConstAssertion && may_have_side_effects(
                *expr,
            ),
            ExprV::Paren(x) => may_have_side_effects(*x),
            ExprV::OptChain(x) => may_have_side_effects(*x),
            ExprV::Fn { .. } | ExprV::Arrow { .. } => false,
            ExprV::Class { .. } => true,
            ExprV::Array(elems) => exists|i: int|
                0 <= i < elems.len() && ((#[trigger] elems[i]) matches Some(el)
                    && may_have_side_effects(el.expr)),
            ExprV::Unary { arg, .. } => may_have_side_effects(*arg),
            ExprV::Bin { left, right, .. } => may_have_side_effects(*left)
                || may_have_side_effects(*right),
            ExprV::Tpl(_) | ExprV::TaggedTpl { .. } | ExprV::MetaProp { .. } => true,
            ExprV::Await(_) | ExprV::Yield { .. } | ExprV::Member { .. } | ExprV::Update {
                ..
            } | ExprV::Assign { .. } => true,
            ExprV::New { callee, args } => !is_plain_date(*callee, args),
            ExprV::Call { callee, .. } => !(callee matches ExprOrSuperV::Expr(c) && is_pure_callee(*c)),
            ExprV::Sequence { init, last } => (exists|i: int|
                0 <= i < init.len() && may_have_side_effects(#[trigger] init[i]))
                || may_have_side_effects(*last),
            ExprV::Cond { test, cons, alt } => may_have_side_effects(*test)
                || may_have_side_effects(*cons) || may_have_side_effects(*alt),
            ExprV::Object(props) => exists|i: int|
                0 <= i < props.len() && member_may_have_side_effects(#[trigger] props[i]),
        }
    }
}

/// Whether evaluating a member of an object literal may have an effect: a
/// spread always may, a shorthand never does, and of the others the computed
/// key and the value decide.
pub open spec fn member_may_have_side_effects(p: PropOrSpreadV) -> bool
    decreases p,
{
    match p {
        PropOrSpreadV::Spread(_) => true,
        PropOrSpreadV::Prop(prop) => match *prop {
            PropV::Shorthand(_) => false,
            PropV::KeyValue { key, value } => key_may_have_side_effects(key)
                || may_have_side_effects(*value),
            PropV::Getter { key, .. } => key_may_have_side_effects(key),
            PropV::Setter { key, .. } => key_may_have_side_effects(key),
            PropV::Method { key, .. } => key_may_have_side_effects(key),
        },
    }
}

/// Whether a property key is computed by an expression that may have an effect.
pub open spec fn key_may_have_side_effects(key: PropNameV) -> bool
    decreases key,
{
    match key {
        PropNameV::Computed(e) => may_have_side_effects(*e),
        _ => false,
    }
}

/// Is `e` an IdentifierReference to `id`?
pub fn is_ident_ref_to_impl(e: &Expr, id: &str) -> (r: bool)
    ensures
        r == is_ident_ref_to(e@, id@),
{
    proof {
        lemma_expr_view(*e);
    }
    match e {
        Expr::Ident(i) => str_eq(i.sym.as_str(), id),
        _ => false,
    }
}

/// Decides [`is_pure_callee`].
pub fn is_pure_callee_impl(e: &Expr) -> (r: bool)
    ensures
        r == is_pure_callee(e@),
{
    proof {
        lemma_expr_view(*e);
    }
    if is_ident_ref_to_impl(e, "Date") {
        return true;
    }
    match e {
        Expr::Member { obj, .. } => {
            proof {
                lemma_expr_or_super_view(*obj);
            }
            match obj {
                ExprOrSuper::Expr(o) => is_ident_ref_to_impl(o, "Math"),
                ExprOrSuper::Super => false,
            }
        },
        Expr::Fn { function, .. } => {
            proof {
                lemma_function_view(**function);
            }
            match &function.body {
                Some(stmts) => {
                    proof {
                        lemma_stmts_view(stmts@);
                    }
                    stmts.len() == 0
                },
                None => false,
            }
        },
        _ => false,
    }
}

/// Whether `e` is `new Date` or `new Date()`.
pub fn is_plain_date_impl(e: &Expr) -> (r: bool)
    ensures
        r == (e@ matches ExprV::New { callee, args } && is_plain_date(*callee, args)),
{
    proof {
        lemma_expr_view(*e);
    }
    match e {
        Expr::New { callee, args } => {
            if !is_ident_ref_to_impl(callee, "Date") {
                return false;
            }
            match args {
                Some(a) => {
                    proof {
                        lemma_expr_or_spreads_view(a@);
                    }
                    a.len() == 0
                },
                None => true,
            }
        },
        _ => false,
    }
}

/// Decides [`may_have_side_effects`].
pub fn may_have_side_effects_impl(e: &Expr) -> (r: bool)
    ensures
        r == may_have_side_effects(e@),
    decreases e,
{
    proof {
        lemma_expr_view(*e);
    }
    if is_pure_callee_impl(e) {
        return false;
    }
    match e {
        Expr::Lit(_) | Expr::Ident(_) | Expr::This | Expr::PrivateName(_) => false,
        Expr::Ts { cast, expr } => match cast {
            TsCast::ConstAssertion => false,
            _ => may_have_side_effects_impl(expr),
        },
        Expr::Paren(x) => may_have_side_effects_impl(x),
        Expr::OptChain(x) => may_have_side_effects_impl(x),
        Expr::Fn { .. } | Expr::Arrow { .. } => false,
        Expr::Class { .. } => true,
        Expr::Array(elems) => {
            proof {
                lemma_opt_expr_or_spreads_view(elems@);
            }
            let ghost items = e@->Array_0;
            let mut i: usize = 0;
            while i < elems.len()
                invariant
                    i <= elems.len(),
                    *e matches Expr::Array(v) && v == *elems,
                    e@ matches ExprV::Array(v) && v == items,
                    !is_pure_callee(e@),
                    items.len() == elems@.len(),
                    forall|j: int|
                        0 <= j < elems@.len() ==> (#[trigger] items[j]) == (match elems@[j] {
                            Some(x) => Some(x@),
                            None => None,
                        }),
                    forall|j: int|
                        0 <= j < i ==> !((#[trigger] items[j]) matches Some(el)
                            && may_have_side_effects(el.expr)),
                decreases elems.len() - i,
            {
                match &elems[i] {
                    Some(el) => {
                        proof {
                            lemma_expr_or_spread_view(*el);
                        }
                        if may_have_side_effects_impl(&el.expr) {
                            assert(items[i as int] matches Some(x) && may_have_side_effects(
                                x.expr,
                            ));
                            return true;
                        }
                    },
                    None => {},
                }
                i += 1;
            }
            false
        },
        Expr::Unary { arg, .. } => may_have_side_effects_impl(arg),
        Expr::Bin { left, right, .. } => may_have_side_effects_impl(left)
            || may_have_side_effects_impl(right),
        Expr::Tpl(_) | Expr::TaggedTpl { .. } | Expr::MetaProp { .. } => true,
        Expr::Await(_) | Expr::Yield { .. } | Expr::Member { .. } | Expr::Update { .. }
        | Expr::Assign { .. } => true,
        Expr::New { .. } => !is_plain_date_impl(e),
        Expr::Call { callee, .. } => {
            proof {
                lemma_expr_or_super_view(*callee);
            }
            match callee {
                ExprOrSuper::Expr(c) => !is_pure_callee_impl(c),
                ExprOrSuper::Super => true,
            }
        },
        Expr::Sequence { init, last } => {
            proof {
                lemma_exprs_view(init@);
            }
            let ghost items = e@->Sequence_init;
            let mut i: usize = 0;
            while i < init.len()
                invariant
                    i <= init.len(),
                    *e matches Expr::Sequence { init: v, .. } && v == *init,
                    e@ matches ExprV::Sequence { init: v, .. } && v == items,
                    !is_pure_callee(e@),
                    items.len() == init@.len(),
                    forall|j: int| 0 <= j < init@.len() ==> (#[trigger] items[j]) == init@[j]@,
                    forall|j: int| 0 <= j < i ==> !may_have_side_effects(#[trigger] items[j]),
                decreases init.len() - i,
            {
                if may_have_side_effects_impl(&init[i]) {
                    assert(may_have_side_effects(items[i as int]));
                    return true;
                }
                i += 1;
            }
            may_have_side_effects_impl(last)
        },
        Expr::Cond { test, cons, alt } => may_have_side_effects_impl(test)
            || may_have_side_effects_impl(cons) || may_have_side_effects_impl(alt),
        Expr::Object(props) => {
            proof {
                lemma_prop_or_spreads_view(props@);
            }
            let ghost items = e@->Object_0;
            let mut i: usize = 0;
            while i < props.len()
                invariant
                    i <= props.len(),
                    *e matches Expr::Object(v) && v == *props,
                    e@ matches ExprV::Object(v) && v == items,
                    !is_pure_callee(e@),
                    items.len() == props@.len(),
                    forall|j: int| 0 <= j < props@.len() ==> (#[trigger] items[j]) == props@[j]@,
                    forall|j: int|
                        0 <= j < i ==> !member_may_have_side_effects(#[trigger] items[j]),
                decreases props.len() - i,
            {
                if member_may_have_side_effects_impl(&props[i]) {
                    assert(member_may_have_side_effects(items[i as int]));
                    return true;
                }
                i += 1;
            }
            false
        },
    }
}

/// Decides [`member_may_have_side_effects`].
pub fn member_may_have_side_effects_impl(p: &PropOrSpread) -> (r: bool)
    ensures
        r == member_may_have_side_effects(p@),
    decreases p,
{
    proof {
        lemma_prop_or_spread_view(*p);
    }
    match p {
        PropOrSpread::Spread(_) => true,
        PropOrSpread::Prop(prop) => {
            proof {
                lemma_prop_view(**prop);
            }
            match &**prop {
                Prop::Shorthand(_) => false,
                Prop::KeyValue { key, value } => key_may_have_side_effects_impl(key)
                    || may_have_side_effects_impl(value),
                Prop::Getter { key, .. } => key_may_have_side_effects_impl(key),
                Prop::Setter { key, .. } => key_may_have_side_effects_impl(key),
                Prop::Method { key, .. } => key_may_have_side_effects_impl(key),
            }
        },
    }
}

/// Decides [`key_may_have_side_effects`].
pub fn key_may_have_side_effects_impl(key: &PropName) -> (r: bool)
    ensures
        r == key_may_have_side_effects(key@),
    decreases key,
{
    proof {
        lemma_prop_name_view(*key);
    }
    match key {
        PropName::Computed(e) => may_have_side_effects_impl(e),
        _ => false,
    }
}

} // verus!
