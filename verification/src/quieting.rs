//! What the rules of dead-code removal make of quiet parts is quiet.
//!
//! A tree is quiet where no rule applies to it or to a part of it, and the
//! expressions that the rules reduce can be looked at. The lemmas here say of each rule
//! that it leaves a quiet tree when the parts that it is given are quiet, and
//! that a tame tree stays one that rests when its parts are simplified.

use vstd::prelude::*;
use crate::ast::BinaryOp;
use crate::coerce::pure_bool_of;
use crate::dce::{lemma_simplified_list_idempotent, lemma_simplified_list_tidies};
use crate::effects::{
    as_array, as_sequence, effects_of, effects_of_all, effects_of_elements, effects_of_key,
    effects_of_member, effects_of_members, ignored, is_droppable, kept_args, kept_element,
    kept_elements,
};
use crate::fold::{
    folded_expr_or_spread,
    folded_catch_clause, folded_each_stmts, folded_expr, folded_expr_or_spreads,
    folded_expr_or_super, folded_exprs, folded_opt_expr_or_spreads, folded_prop_name,
    folded_prop_or_spread, folded_prop_or_spreads, folded_stmt, folded_stmts, folded_tpl,
    lemma_folded_catch_clause, lemma_folded_each_stmts, lemma_folded_expr,
    lemma_folded_expr_or_spread, lemma_folded_expr_or_spreads, lemma_folded_expr_or_super,
    lemma_folded_exprs, lemma_folded_opt_expr_or_spreads, lemma_folded_prop,
    lemma_folded_prop_name, lemma_folded_prop_or_spread, lemma_folded_prop_or_spreads,
    lemma_folded_stmt, lemma_folded_stmts, lemma_folded_tpl,
};
use crate::model::{
    ExprOrSpreadV, ExprOrSuperV, ExprV, ModuleItemV, ObjectPatPropV, PatV, PropNameV,
    PropOrSpreadV, PropV, StmtV,
};
use crate::purity::is_pure_callee;
use crate::quiet::{
    lemma_quiet_expr_is, lemma_quiet_expr_or_spread_is, lemma_quiet_expr_or_spreads_is,
    lemma_quiet_exprs_is, lemma_quiet_module_items_is, lemma_quiet_object_pat_prop_is,
    lemma_quiet_opt_expr_or_spreads_is, lemma_quiet_pat_is, lemma_quiet_prop_is,
    lemma_quiet_prop_name_is, lemma_quiet_prop_or_spread_is, lemma_quiet_prop_or_spreads_is,
    lemma_quiet_stmt_is, lemma_quiet_stmts_is, lemma_quiet_tpl_is, quiet_expr,
    quiet_expr_or_spread, quiet_module_item, quiet_module_items, quiet_object_pat_prop,
    quiet_parts_of_expr, quiet_parts_of_object_pat_prop, quiet_parts_of_pat, quiet_parts_of_stmt,
    quiet_pat, quiet_prop_name, quiet_prop_or_spread, quiet_stmt, quiet_stmts,
};
use crate::simplify::{
    block_of, is_empty_stmt, is_transfer, kept_operands, simplified_expr, simplified_items,
    simplified_list, simplified_object_pat_prop, simplified_pat, simplified_stmt,
};
use crate::steady::{
    all_rest, element_looked, first_stays, is_kept, is_pure_use, is_quiet_here, is_quiet_stmt_here,
    is_tame_here, is_tame_stmt_here, key_rests, lemma_all_effects_are_steady,
    lemma_effects_are_steady, lemma_kept_elements_concat, lemma_looking_again,
    lemma_reduction_rests, lemma_resting_can_be_looked_at, looked, may_be_pure_callee, may_vanish,
    member_rests, rests, surely_stays,
};
use crate::value::Value;

verus! {

/// No more is kept of the operands of a sequence than there are.
pub proof fn lemma_kept_operands_len(s: Seq<ExprV>)
    ensures
        kept_operands(s).len() <= s.len(),
    decreases s.len(),
{
    if s.len() > 0 {
        lemma_kept_operands_len(s.drop_last());
    }
}

/// Where all the operands of a sequence are kept as they are, the reduction
/// keeps each of them as it is.
pub proof fn lemma_fixed_operands_are_kept(s: Seq<ExprV>)
    requires
        kept_operands(s) == s,
    ensures
        forall|i: int| 0 <= i < s.len() ==> is_kept(#[trigger] s[i]),
    decreases s.len(),
{
    if s.len() > 0 {
        let head = s.drop_last();
        let kept = kept_operands(head);
        lemma_kept_operands_len(head);
        match ignored(s.last()) {
            Some(x) => {
                assert(kept_operands(s) =~= kept.push(x));
                assert(kept.len() == head.len());
                assert(kept =~= head) by {
                    assert forall|i: int| 0 <= i < head.len() implies kept[i] == head[i] by {
                        assert(kept.push(x)[i] == s[i]);
                    }
                }
                assert(kept.push(x)[s.len() - 1] == s[s.len() - 1]);
                lemma_fixed_operands_are_kept(head);
                assert forall|i: int| 0 <= i < s.len() implies is_kept(#[trigger] s[i]) by {
                    if i < s.len() - 1 {
                        assert(head[i] == s[i]);
                    }
                }
            },
            None => {
                assert(kept_operands(s) =~= kept);
            },
        }
    }
}

/// Where the reduction keeps each operand of a sequence as it is, all of
/// them are kept.
pub proof fn lemma_kept_operands_are_fixed(s: Seq<ExprV>)
    requires
        forall|i: int| 0 <= i < s.len() ==> is_kept(#[trigger] s[i]),
    ensures
        kept_operands(s) == s,
    decreases s.len(),
{
    if s.len() > 0 {
        let head = s.drop_last();
        assert forall|i: int| 0 <= i < head.len() implies is_kept(#[trigger] head[i]) by {
            assert(head[i] == s[i]);
        }
        lemma_kept_operands_are_fixed(head);
        assert(is_kept(s[s.len() - 1]));
        assert(kept_operands(s) =~= head.push(s.last()));
        assert(head.push(s.last()) =~= s);
    } else {
        assert(kept_operands(s) =~= s);
    }
}

/// Every effect of a quiet expression is quiet.
pub proof fn lemma_effects_are_quiet(e: ExprV, k: int)
    requires
        quiet_expr(e),
        0 <= k < effects_of(e).len(),
    ensures
        quiet_expr(effects_of(e)[k]),
    decreases e, 2nat,
{
    lemma_quiet_expr_is(e);
    match e {
        ExprV::Unary { arg, .. } => lemma_effects_are_quiet(*arg, k),
        ExprV::Bin { left, right, .. } => {
            if k < effects_of(*left).len() {
                lemma_effects_are_quiet(*left, k);
            } else {
                lemma_effects_are_quiet(*right, k - effects_of(*left).len());
            }
        },
        ExprV::Sequence { init, last } => {
            lemma_quiet_exprs_is(init);
            if k < effects_of_all(init).len() {
                lemma_all_effects_are_quiet(init, k);
            } else {
                lemma_effects_are_quiet(*last, k - effects_of_all(init).len());
            }
        },
        ExprV::Paren(x) => lemma_effects_are_quiet(*x, k),
        ExprV::Ts { expr, .. } => lemma_effects_are_quiet(*expr, k),
        ExprV::OptChain(x) => lemma_effects_are_quiet(*x, k),
        ExprV::Object(props) => {
            lemma_quiet_prop_or_spreads_is(props);
            lemma_member_effects_are_quiet(props, k);
        },
        ExprV::Array(elems) => {
            lemma_quiet_opt_expr_or_spreads_is(elems);
            lemma_element_effects_are_quiet(elems, k);
        },
        _ => {},
    }
}

/// Every effect of a list of quiet expressions is quiet.
pub proof fn lemma_all_effects_are_quiet(s: Seq<ExprV>, k: int)
    requires
        forall|i: int| 0 <= i < s.len() ==> quiet_expr(#[trigger] s[i]),
        0 <= k < effects_of_all(s).len(),
    ensures
        quiet_expr(effects_of_all(s)[k]),
    decreases s, 1nat,
{
    let t = s.drop_last();
    if k < effects_of_all(t).len() {
        assert forall|i: int| 0 <= i < t.len() implies quiet_expr(#[trigger] t[i]) by {
            assert(t[i] == s[i]);
        }
        lemma_all_effects_are_quiet(t, k);
    } else {
        assert(quiet_expr(s[s.len() - 1]));
        lemma_effects_are_quiet(s.last(), k - effects_of_all(t).len());
    }
}

/// Whether the elements of an array literal are quiet.
pub open spec fn quiet_elements(s: Seq<Option<ExprOrSpreadV>>) -> bool {
    forall|i: int|
        0 <= i < s.len() ==> (match (#[trigger] s[i]) {
            Some(x) => quiet_expr_or_spread(x),
            None => true,
        })
}

/// Every effect of the quiet elements of an array is quiet.
pub proof fn lemma_element_effects_are_quiet(s: Seq<Option<ExprOrSpreadV>>, k: int)
    requires
        quiet_elements(s),
        0 <= k < effects_of_elements(s).len(),
    ensures
        quiet_expr(effects_of_elements(s)[k]),
    decreases s, 1nat,
{
    let t = s.drop_last();
    if k < effects_of_elements(t).len() {
        assert forall|i: int| 0 <= i < t.len() implies (match (#[trigger] t[i]) {
            Some(x) => quiet_expr_or_spread(x),
            None => true,
        }) by {
            assert(t[i] == s[i]);
        }
        lemma_element_effects_are_quiet(t, k);
    } else {
        let el = s[s.len() - 1]->0;
        assert(quiet_expr_or_spread(el));
        lemma_quiet_expr_or_spread_is(el);
        lemma_effects_are_quiet(el.expr, k - effects_of_elements(t).len());
    }
}

/// Every effect of the quiet members of an object is quiet.
pub proof fn lemma_member_effects_are_quiet(s: Seq<PropOrSpreadV>, k: int)
    requires
        forall|i: int| 0 <= i < s.len() ==> quiet_prop_or_spread(#[trigger] s[i]),
        0 <= k < effects_of_members(s).len(),
    ensures
        quiet_expr(effects_of_members(s)[k]),
    decreases s, 1nat,
{
    let t = s.drop_last();
    let before = effects_of_members(t).len();
    let m = effects_of_member(s.last());
    assert(effects_of_members(s) == effects_of_members(t) + m);
    if k < before {
        assert forall|i: int| 0 <= i < t.len() implies quiet_prop_or_spread(#[trigger] t[i]) by {
            assert(t[i] == s[i]);
        }
        lemma_member_effects_are_quiet(t, k);
    } else {
        assert(quiet_prop_or_spread(s[s.len() - 1]));
        lemma_quiet_prop_or_spread_is(s.last());
        match s.last() {
            PropOrSpreadV::Spread(x) => {
                assert(m == effects_of(*x));
                lemma_effects_are_quiet(*x, k - before)
            },
            PropOrSpreadV::Prop(prop) => {
                lemma_quiet_prop_is(*prop);
                match *prop {
                    PropV::Shorthand(_) => {},
                    PropV::KeyValue { key, value } => {
                        assert(m == effects_of_key(key) + effects_of(*value));
                        if k - before < effects_of_key(key).len() {
                            lemma_key_effects_are_quiet(key, k - before);
                        } else {
                            lemma_effects_are_quiet(*value, k - before - effects_of_key(key).len());
                        }
                    },
                    PropV::Getter { key, .. } => {
                        assert(m == effects_of_key(key));
                        lemma_key_effects_are_quiet(key, k - before)
                    },
                    PropV::Setter { key, .. } => {
                        assert(m == effects_of_key(key));
                        lemma_key_effects_are_quiet(key, k - before)
                    },
                    PropV::Method { key, .. } => {
                        assert(m == effects_of_key(key));
                        lemma_key_effects_are_quiet(key, k - before)
                    },
                }
            },
        }
    }
}

/// Every effect of a quiet property key is quiet.
pub proof fn lemma_key_effects_are_quiet(key: PropNameV, k: int)
    requires
        quiet_prop_name(key),
        0 <= k < effects_of_key(key).len(),
    ensures
        quiet_expr(effects_of_key(key)[k]),
    decreases key, 0nat,
{
    lemma_quiet_prop_name_is(key);
    match key {
        PropNameV::Computed(e) => lemma_effects_are_quiet(*e, k),
        _ => {},
    }
}

/// The sequence of quiet expressions that the reduction keeps and can look
/// at again is quiet, and the reduction keeps it as it is.
pub proof fn lemma_sequence_of_quiet(fx: Seq<ExprV>)
    requires
        fx.len() > 0,
        forall|k: int|
            0 <= k < fx.len() ==> quiet_expr(#[trigger] fx[k]) && is_kept(fx[k]) && looked(
                fx[k],
                false,
                false,
            ),
    ensures
        as_sequence(fx) matches Some(s) && quiet_expr(s) && is_kept(s),
{
    let init = fx.drop_last();
    let s = ExprV::Sequence { init, last: Box::new(fx.last()) };
    assert forall|i: int| 0 <= i < init.len() implies quiet_expr(#[trigger] init[i]) && is_kept(
        init[i],
    ) && looked(init[i], false, false) by {
        assert(init[i] == fx[i]);
    }
    assert(quiet_expr(fx[fx.len() - 1]) && is_kept(fx[fx.len() - 1]));
    lemma_kept_operands_are_fixed(init);
    lemma_quiet_exprs_is(init);
    lemma_quiet_expr_is(s);
    assert(is_quiet_here(s));
    assert(ignored(s) == Some(s));
}

/// Whether an element is quiet and kept by the reduction as it is.
pub open spec fn is_quiet_element(el: Option<ExprOrSpreadV>) -> bool {
    el matches Some(x) && quiet_expr_or_spread(x) && (x.spread || is_kept(x.expr))
}

/// What is kept of a quiet element is quiet, and is kept as it is.
pub proof fn lemma_kept_element_is_quiet(el: ExprOrSpreadV, flat: bool)
    requires
        quiet_expr_or_spread(el),
        element_looked(el, flat, false),
    ensures
        forall|j: int|
            0 <= j < kept_element(el).len() ==> is_quiet_element(#[trigger] kept_element(el)[j]),
        kept_elements(kept_element(el)) == kept_element(el),
    decreases el, 0nat,
{
    let none = Seq::<Option<ExprOrSpreadV>>::empty();
    let tail = kept_element(el);
    assert(kept_elements(none) =~= none);
    lemma_quiet_expr_or_spread_is(el);
    if el.spread {
        assert(tail =~= seq![Some(el)]);
        assert(tail.drop_last() =~= none);
        assert(tail.last() == Some(el));
        assert(kept_elements(tail) =~= kept_elements(none) + kept_element(el));
        assert(kept_elements(tail) =~= tail);
    } else {
        match ignored(el.expr) {
            Some(x) => {
                lemma_reduction_is_quiet(el.expr, flat);
                let kept = ExprOrSpreadV { spread: false, expr: x };
                lemma_quiet_expr_or_spread_is(kept);
                assert(tail =~= seq![Some(kept)]);
                assert(tail.drop_last() =~= none);
                assert(tail.last() == Some(kept));
                assert(kept_element(kept) =~= seq![Some(kept)]);
                assert(kept_elements(tail) =~= kept_elements(none) + kept_element(kept));
                assert(kept_elements(tail) =~= tail);
            },
            None => {
                assert(tail =~= none);
            },
        }
    }
}

/// What is kept of quiet elements is quiet, and is kept as it is.
pub proof fn lemma_kept_elements_are_quiet(s: Seq<Option<ExprOrSpreadV>>, flat: bool)
    requires
        quiet_elements(s),
        forall|i: int|
            0 <= i < s.len() ==> ((#[trigger] s[i]) matches Some(el) ==> element_looked(
                el,
                flat,
                false,
            )),
    ensures
        forall|j: int|
            0 <= j < kept_elements(s).len() ==> is_quiet_element(#[trigger] kept_elements(s)[j]),
        kept_elements(kept_elements(s)) == kept_elements(s),
    decreases s, 1nat,
{
    let none = Seq::<Option<ExprOrSpreadV>>::empty();
    assert(kept_elements(none) =~= none);
    if s.len() == 0 {
        assert(kept_elements(s) =~= none);
    } else {
        let t = s.drop_last();
        let head = kept_elements(t);
        let tail = match s.last() {
            Some(el) => kept_element(el),
            None => Seq::empty(),
        };
        assert forall|i: int| 0 <= i < t.len() implies (match (#[trigger] t[i]) {
            Some(x) => quiet_expr_or_spread(x),
            None => true,
        }) by {
            assert(t[i] == s[i]);
        }
        assert forall|i: int| 0 <= i < t.len() implies ((#[trigger] t[i]) matches Some(el)
            ==> element_looked(el, flat, false)) by {
            assert(t[i] == s[i]);
        }
        lemma_kept_elements_are_quiet(t, flat);
        assert(match s[s.len() - 1] {
            Some(x) => quiet_expr_or_spread(x),
            None => true,
        });
        assert(s[s.len() - 1] matches Some(el) ==> element_looked(el, flat, false));
        assert(kept_elements(s) == head + tail);
        lemma_kept_elements_concat(head, tail);
        match s.last() {
            Some(el) => {
                lemma_kept_element_is_quiet(el, flat);
            },
            None => {
                assert(tail =~= none);
            },
        }
        assert(kept_elements(tail) == tail);
        assert forall|j: int| 0 <= j < kept_elements(s).len() implies is_quiet_element(
            #[trigger] kept_elements(s)[j],
        ) by {
            if j < head.len() {
                assert(kept_elements(s)[j] == head[j]);
            } else {
                assert(kept_elements(s)[j] == tail[j - head.len()]);
            }
        }
    }
}

/// What is kept of the quiet arguments of a call is quiet, and is kept as it is.
pub proof fn lemma_kept_args_are_quiet(s: Seq<ExprOrSpreadV>, flat: bool)
    requires
        forall|i: int| 0 <= i < s.len() ==> quiet_expr_or_spread(#[trigger] s[i]),
        forall|i: int| 0 <= i < s.len() ==> element_looked(#[trigger] s[i], flat, false),
    ensures
        forall|j: int| 0 <= j < kept_args(s).len() ==> is_quiet_element(#[trigger] kept_args(s)[j]),
        kept_elements(kept_args(s)) == kept_args(s),
    decreases s, 1nat,
{
    let none = Seq::<Option<ExprOrSpreadV>>::empty();
    assert(kept_elements(none) =~= none);
    if s.len() == 0 {
        assert(kept_args(s) =~= none);
    } else {
        let t = s.drop_last();
        let head = kept_args(t);
        let tail = kept_element(s.last());
        assert forall|i: int| 0 <= i < t.len() implies quiet_expr_or_spread(#[trigger] t[i]) by {
            assert(t[i] == s[i]);
        }
        assert forall|i: int| 0 <= i < t.len() implies element_looked(
            #[trigger] t[i],
            flat,
            false,
        ) by {
            assert(t[i] == s[i]);
        }
        lemma_kept_args_are_quiet(t, flat);
        assert(quiet_expr_or_spread(s[s.len() - 1]));
        assert(element_looked(s[s.len() - 1], flat, false));
        assert(kept_args(s) == head + tail);
        lemma_kept_elements_concat(head, tail);
        lemma_kept_element_is_quiet(s.last(), flat);
        assert forall|j: int| 0 <= j < kept_args(s).len() implies is_quiet_element(
            #[trigger] kept_args(s)[j],
        ) by {
            if j < head.len() {
                assert(kept_args(s)[j] == head[j]);
            } else {
                assert(kept_args(s)[j] == tail[j - head.len()]);
            }
        }
    }
}

/// The array of quiet elements that the reduction keeps is quiet, and is kept.
pub proof fn lemma_array_of_quiet(kept: Seq<Option<ExprOrSpreadV>>)
    requires
        kept.len() > 0,
        forall|j: int| 0 <= j < kept.len() ==> is_quiet_element(#[trigger] kept[j]),
        kept_elements(kept) == kept,
    ensures
        as_array(kept) == Some(ExprV::Array(kept)),
        quiet_expr(ExprV::Array(kept)),
        is_kept(ExprV::Array(kept)),
{
    let r = ExprV::Array(kept);
    assert forall|i: int| 0 <= i < kept.len() implies (match (#[trigger] kept[i]) {
        Some(x) => quiet_expr_or_spread(x),
        None => true,
    }) by {
        assert(is_quiet_element(kept[i]));
    }
    lemma_quiet_opt_expr_or_spreads_is(kept);
    lemma_quiet_expr_is(r);
    assert(ignored(r) == as_array(kept_elements(kept)));
}

/// Every effect of a quiet expression that rests is quiet, is kept by the
/// reduction as it is, and can be looked at again.
pub proof fn lemma_effects_are_settled(e: ExprV, k: int)
    requires
        quiet_expr(e),
        rests(e, false),
        !is_pure_use(e, false),
        0 <= k < effects_of(e).len(),
    ensures
        quiet_expr(effects_of(e)[k]),
        is_kept(effects_of(e)[k]),
        looked(effects_of(e)[k], false, false),
{
    lemma_effects_are_quiet(e, k);
    lemma_effects_are_steady(e, k);
    lemma_resting_can_be_looked_at(effects_of(e)[k], false, false);
}

/// What the reduction keeps of a quiet expression that it can look at is
/// quiet, and the reduction keeps it as it is.
pub proof fn lemma_reduction_is_quiet(e: ExprV, flat: bool)
    requires
        quiet_expr(e),
        looked(e, flat, false),
        ignored(e) is Some,
    ensures
        quiet_expr(ignored(e)->0),
        is_kept(ignored(e)->0),
    decreases e, 2nat,
{
    lemma_quiet_expr_is(e);
    match e {
        ExprV::Paren(x) => lemma_reduction_is_quiet(*x, flat),
        ExprV::Bin { op, left, right } => {
            if op != BinaryOp::LogicalAnd && op != BinaryOp::LogicalOr {
                match (ignored(*left), ignored(*right)) {
                    (Some(l), Some(r)) => {
                        lemma_reduction_is_quiet(*left, true);
                        lemma_reduction_is_quiet(*right, true);
                        lemma_looking_again(*left, true);
                        lemma_looking_again(*right, true);
                        let fx = effects_of(l) + effects_of(r);
                        assert forall|k: int| 0 <= k < fx.len() implies quiet_expr(
                            #[trigger] fx[k],
                        ) && is_kept(fx[k]) && looked(fx[k], false, false) by {
                            if k < effects_of(l).len() {
                                lemma_effects_are_settled(l, k);
                            } else {
                                lemma_effects_are_settled(r, k - effects_of(l).len());
                            }
                        }
                        lemma_sequence_of_quiet(fx);
                    },
                    (Some(l), None) => lemma_reduction_is_quiet(*left, true),
                    (None, Some(r)) => lemma_reduction_is_quiet(*right, true),
                    (None, None) => {},
                }
            }
        },
        ExprV::Unary { op, arg } => {
            if is_droppable(op) {
                lemma_reduction_is_quiet(*arg, flat);
            }
        },
        ExprV::Array(elems) => {
            lemma_quiet_opt_expr_or_spreads_is(elems);
            lemma_kept_elements_are_quiet(elems, flat);
            lemma_array_of_quiet(kept_elements(elems));
        },
        ExprV::Call { callee: ExprOrSuperV::Expr(c), args } => {
            if is_pure_callee(*c) {
                lemma_quiet_expr_or_spreads_is(args);
                lemma_kept_args_are_quiet(args, flat);
                lemma_array_of_quiet(kept_args(args));
            }
        },
        ExprV::TaggedTpl { tag, tpl } => {
            if is_pure_callee(*tag) {
                lemma_quiet_tpl_is(tpl);
                lemma_quiet_exprs_is(tpl.exprs);
                let fx = effects_of_all(tpl.exprs);
                assert forall|k: int| 0 <= k < fx.len() implies quiet_expr(#[trigger] fx[k])
                    && is_kept(fx[k]) && looked(fx[k], false, false) by {
                    lemma_all_effects_are_quiet(tpl.exprs, k);
                    lemma_all_effects_are_steady(tpl.exprs, k);
                    lemma_resting_can_be_looked_at(fx[k], false, false);
                }
                lemma_sequence_of_quiet(fx);
            }
        },
        ExprV::Sequence { init, last } => {
            lemma_quiet_exprs_is(init);
            assert(kept_operands(init) == init);
            match ignored(*last) {
                Some(l) => {
                    lemma_reduction_is_quiet(*last, flat);
                    let s = ExprV::Sequence { init, last: Box::new(l) };
                    lemma_quiet_expr_is(s);
                    assert(is_quiet_here(s));
                    assert(ignored(s) == Some(s));
                },
                None => {
                    lemma_fixed_operands_are_kept(init);
                    assert forall|k: int| 0 <= k < init.len() implies quiet_expr(
                        #[trigger] init[k],
                    ) && is_kept(init[k]) && looked(init[k], false, false) by {
                        assert(looked(init[k], false, false));
                    }
                    lemma_sequence_of_quiet(init);
                },
            }
        },
        _ => {},
    }
}

/// Whether each of the expressions is quiet and can be looked at.
pub open spec fn quiet_and_looked(s: Seq<ExprV>) -> bool {
    forall|i: int| 0 <= i < s.len() ==> quiet_expr(#[trigger] s[i]) && looked(s[i], false, false)
}

/// What is kept of quiet operands of a sequence is quiet and can be looked
/// at again, and the reduction keeps each of them as it is.
pub proof fn lemma_kept_operands_are_quiet(s: Seq<ExprV>)
    requires
        quiet_and_looked(s),
    ensures
        forall|j: int|
            0 <= j < kept_operands(s).len() ==> quiet_expr(#[trigger] kept_operands(s)[j])
                && is_kept(kept_operands(s)[j]) && looked(kept_operands(s)[j], false, false),
    decreases s.len(),
{
    if s.len() > 0 {
        let head = s.drop_last();
        let kept = kept_operands(head);
        assert forall|i: int| 0 <= i < head.len() implies quiet_expr(#[trigger] head[i]) && looked(
            head[i],
            false,
            false,
        ) by {
            assert(head[i] == s[i]);
        }
        lemma_kept_operands_are_quiet(head);
        assert(quiet_expr(s[s.len() - 1]) && looked(s[s.len() - 1], false, false));
        match ignored(s.last()) {
            Some(x) => {
                lemma_reduction_is_quiet(s.last(), false);
                lemma_looking_again(s.last(), false);
                assert(kept_operands(s) =~= kept.push(x));
                assert forall|j: int| 0 <= j < kept_operands(s).len() implies quiet_expr(
                    #[trigger] kept_operands(s)[j],
                ) && is_kept(kept_operands(s)[j]) && looked(kept_operands(s)[j], false, false) by {
                    if j < kept.len() {
                        assert(kept_operands(s)[j] == kept[j]);
                    }
                }
            },
            None => {
                assert(kept_operands(s) =~= kept);
            },
        }
    }
}

/// The rule for expressions makes a quiet expression of quiet parts, where
/// the operands of a sequence can be looked at.
pub proof fn lemma_simplified_expr_is_quiet(y: ExprV)
    requires
        quiet_parts_of_expr(y),
        is_quiet_here(y),
    ensures
        quiet_expr(simplified_expr(y)),
{
    match y {
        ExprV::Sequence { init, last } => {
            lemma_quiet_exprs_is(init);
            let kept = kept_operands(init);
            lemma_kept_operands_are_quiet(init);
            lemma_kept_operands_are_fixed(kept);
            lemma_quiet_exprs_is(kept);
            let r = ExprV::Sequence { init: kept, last };
            assert(is_quiet_here(r));
            lemma_quiet_expr_is(r);
        },
        _ => {
            lemma_quiet_expr_is(y);
        },
    }
}

/// What a block of quiet statements becomes is quiet.
pub proof fn lemma_block_of_is_quiet(stmts: Seq<StmtV>)
    requires
        quiet_stmts(stmts),
    ensures
        quiet_stmt(block_of(stmts)),
{
    lemma_quiet_stmts_is(stmts);
    lemma_quiet_stmt_is(StmtV::Empty);
    lemma_quiet_stmt_is(StmtV::Block(stmts));
    if stmts.len() == 1 {
        assert(quiet_stmt(stmts[0]));
    }
}

/// The rule for statements makes a quiet statement of quiet parts, where
/// the expression that it reduces can be looked at. A `try` has to hold something to try
/// and something to catch or to finish: the block that the rule makes of
/// another one can be one that the rule for blocks would not leave.
pub proof fn lemma_simplified_stmt_is_quiet(y: StmtV)
    requires
        quiet_parts_of_stmt(y),
        is_quiet_stmt_here(y),
    ensures
        quiet_stmt(simplified_stmt(y)),
{
    lemma_quiet_stmt_is(StmtV::Empty);
    match y {
        StmtV::If { test, cons, alt } => {
            match pure_bool_of(*test) {
                Value::Known(_) => {},
                Value::Unknown => {
                    if alt matches Some(a) && !is_empty_stmt(*a) {
                        lemma_quiet_stmt_is(y);
                    } else if *cons == StmtV::Empty {
                        match ignored(*test) {
                            Some(e) => {
                                lemma_reduction_is_quiet(*test, false);
                                lemma_looking_again(*test, false);
                                lemma_quiet_stmt_is(StmtV::Expr(Box::new(e)));
                            },
                            None => {},
                        }
                    } else {
                        lemma_quiet_stmt_is(StmtV::If { test, cons, alt: None });
                    }
                },
            }
        },
        StmtV::Expr(e) => {
            match ignored(*e) {
                Some(x) => {
                    lemma_reduction_is_quiet(*e, false);
                    lemma_looking_again(*e, false);
                    lemma_quiet_stmt_is(StmtV::Expr(Box::new(x)));
                },
                None => {},
            }
        },
        StmtV::Block(stmts) => lemma_block_of_is_quiet(stmts),
        _ => {
            lemma_quiet_stmt_is(y);
        },
    }
}

/// The rule for patterns makes a quiet pattern of quiet parts.
pub proof fn lemma_simplified_pat_is_quiet(y: PatV)
    requires
        quiet_parts_of_pat(y),
    ensures
        quiet_pat(simplified_pat(y)),
{
    lemma_quiet_pat_is(y);
}

/// The rule for the properties of object patterns makes a quiet property of
/// quiet parts.
pub proof fn lemma_simplified_object_pat_prop_is_quiet(y: ObjectPatPropV)
    requires
        quiet_parts_of_object_pat_prop(y),
    ensures
        quiet_object_pat_prop(simplified_object_pat_prop(y)),
{
    lemma_quiet_object_pat_prop_is(y);
    lemma_quiet_object_pat_prop_is(simplified_object_pat_prop(y));
}

/// Every statement that the rules for lists leave is one of the list.
pub proof fn lemma_simplified_list_holds(s: Seq<StmtV>, j: int)
    requires
        0 <= j < simplified_list(s).len(),
    ensures
        exists|i: int| 0 <= i < s.len() && s[i] == simplified_list(s)[j],
    decreases s.len(),
{
    if s.len() > 0 {
        let t = s.drop_first();
        if s[0] is Empty {
            lemma_simplified_list_holds(t, j);
            let i = choose|i: int| 0 <= i < t.len() && t[i] == simplified_list(t)[j];
            assert(s[i + 1] == simplified_list(s)[j]);
        } else if is_transfer(s[0]) {
            assert(s[0] == simplified_list(s)[j]);
        } else if j == 0 {
            assert(s[0] == simplified_list(s)[j]);
        } else {
            lemma_simplified_list_holds(t, j - 1);
            let i = choose|i: int| 0 <= i < t.len() && t[i] == simplified_list(t)[j - 1];
            assert(s[i + 1] == simplified_list(s)[j]);
        }
    }
}

/// The rules for lists make a quiet list of quiet statements.
pub proof fn lemma_simplified_list_is_quiet(s: Seq<StmtV>)
    requires
        forall|i: int| 0 <= i < s.len() ==> quiet_stmt(#[trigger] s[i]),
    ensures
        quiet_stmts(simplified_list(s)),
{
    let out = simplified_list(s);
    lemma_simplified_list_idempotent(s);
    lemma_quiet_stmts_is(out);
    assert forall|j: int| 0 <= j < out.len() implies quiet_stmt(#[trigger] out[j]) by {
        lemma_simplified_list_holds(s, j);
        let i = choose|i: int| 0 <= i < s.len() && s[i] == out[j];
        assert(quiet_stmt(s[i]));
    }
}

/// Whether the rules for the items of a module leave a list as it is.
pub open spec fn is_tidy_items(s: Seq<ModuleItemV>) -> bool {
    &&& forall|i: int| 0 <= i < s.len() ==> (#[trigger] s[i]) != ModuleItemV::Stmt(StmtV::Empty)
    &&& forall|i: int|
        0 <= i < s.len() - 1 ==> !((#[trigger] s[i]) matches ModuleItemV::Stmt(st) && is_transfer(
            st,
        ))
}

/// What the rules for the items of a module make of a list is tidy, and
/// holds items of the list only.
pub proof fn lemma_simplified_items_tidies(s: Seq<ModuleItemV>)
    ensures
        is_tidy_items(simplified_items(s)),
        forall|j: int|
            0 <= j < simplified_items(s).len() ==> exists|i: int|
                0 <= i < s.len() && s[i] == #[trigger] simplified_items(s)[j],
    decreases s.len(),
{
    if s.len() > 0 {
        let t = s.drop_first();
        let r = simplified_items(t);
        let out = simplified_items(s);
        lemma_simplified_items_tidies(t);
        assert forall|j: int| 0 <= j < r.len() implies exists|i: int|
            0 <= i < s.len() && s[i] == #[trigger] r[j] by {
            let i = choose|i: int| 0 <= i < t.len() && t[i] == r[j];
            assert(s[i + 1] == r[j]);
        }
        let skipped = s[0] matches ModuleItemV::Stmt(st) && st is Empty;
        let last = s[0] matches ModuleItemV::Stmt(st) && !(st is Empty) && is_transfer(st);
        if skipped {
            assert(out == r);
        } else if last {
            assert(out =~= seq![s[0]]);
            assert forall|j: int| 0 <= j < out.len() implies exists|i: int|
                0 <= i < s.len() && s[i] == #[trigger] out[j] by {
                assert(s[0] == out[j]);
            }
        } else {
            assert(out =~= seq![s[0]] + r);
            assert forall|j: int| 0 <= j < out.len() implies exists|i: int|
                0 <= i < s.len() && s[i] == #[trigger] out[j] by {
                if j == 0 {
                    assert(s[0] == out[j]);
                } else {
                    assert(out[j] == r[j - 1]);
                }
            }
            assert forall|i: int| 0 <= i < out.len() implies (#[trigger] out[i])
                != ModuleItemV::Stmt(StmtV::Empty) by {
                if i > 0 {
                    assert(out[i] == r[i - 1]);
                }
            }
            assert forall|i: int| 0 <= i < out.len() - 1 implies !((#[trigger] out[i]) matches ModuleItemV::Stmt(
                st,
            ) && is_transfer(st)) by {
                if i > 0 {
                    assert(out[i] == r[i - 1]);
                }
            }
        }
    }
}

/// The rules for the items of a module leave a tidy list as it is.
pub proof fn lemma_tidy_items_are_fixed(s: Seq<ModuleItemV>)
    requires
        is_tidy_items(s),
    ensures
        simplified_items(s) == s,
    decreases s.len(),
{
    if s.len() > 0 {
        let t = s.drop_first();
        if s[0] matches ModuleItemV::Stmt(st) && is_transfer(st) {
            assert(s.len() == 1);
            assert(s =~= seq![s[0]]);
        } else {
            assert forall|i: int| 0 <= i < t.len() implies (#[trigger] t[i]) != ModuleItemV::Stmt(
                StmtV::Empty,
            ) by {
                assert(t[i] == s[i + 1]);
            }
            assert forall|i: int| 0 <= i < t.len() - 1 implies !((#[trigger] t[i]) matches ModuleItemV::Stmt(
                st,
            ) && is_transfer(st)) by {
                assert(t[i] == s[i + 1]);
            }
            lemma_tidy_items_are_fixed(t);
            assert(seq![s[0]] + t =~= s);
        }
    } else {
        assert(s =~= Seq::<ModuleItemV>::empty());
    }
}

/// The rules for the items of a module make a quiet list of quiet items.
pub proof fn lemma_simplified_items_is_quiet(s: Seq<ModuleItemV>)
    requires
        forall|i: int| 0 <= i < s.len() ==> quiet_module_item(#[trigger] s[i]),
    ensures
        quiet_module_items(simplified_items(s)),
{
    let out = simplified_items(s);
    lemma_simplified_items_tidies(s);
    lemma_tidy_items_are_fixed(out);
    lemma_quiet_module_items_is(out);
    assert forall|j: int| 0 <= j < out.len() implies quiet_module_item(#[trigger] out[j]) by {
        let i = choose|i: int| 0 <= i < s.len() && s[i] == out[j];
        assert(quiet_module_item(s[i]));
    }
}

/// Simplifying the parts of an expression does not change whether it is a
/// callee that may be known to have no effect.
pub proof fn lemma_callee_stays(c: ExprV)
    ensures
        may_be_pure_callee(folded_expr(c)) == may_be_pure_callee(c),
{
    lemma_folded_expr(c);
    match c {
        ExprV::Member { obj, .. } => {
            lemma_folded_expr_or_super(obj);
            match obj {
                ExprOrSuperV::Expr(o) => {
                    lemma_folded_expr(*o);
                },
                ExprOrSuperV::Super => {},
            }
        },
        _ => {},
    }
}

/// An expression that is a use of something without effect once its parts
/// are simplified was one that may become such a use.
pub proof fn lemma_use_stays(e: ExprV)
    ensures
        is_pure_use(folded_expr(e), false) ==> is_pure_use(e, true),
{
    lemma_folded_expr(e);
    match e {
        ExprV::Call { callee, .. } => {
            lemma_folded_expr_or_super(callee);
            match callee {
                ExprOrSuperV::Expr(c) => lemma_callee_stays(*c),
                ExprOrSuperV::Super => {},
            }
        },
        ExprV::TaggedTpl { tag, .. } => lemma_callee_stays(*tag),
        _ => {},
    }
}

/// What is kept of operands that rest does rest.
pub proof fn lemma_kept_operands_rest(s: Seq<ExprV>)
    requires
        forall|i: int| 0 <= i < s.len() ==> rests(#[trigger] s[i], false),
    ensures
        all_rest(kept_operands(s)),
    decreases s.len(),
{
    if s.len() > 0 {
        let head = s.drop_last();
        let kept = kept_operands(head);
        assert forall|i: int| 0 <= i < head.len() implies rests(#[trigger] head[i], false) by {
            assert(head[i] == s[i]);
        }
        lemma_kept_operands_rest(head);
        assert(rests(s[s.len() - 1], false));
        match ignored(s.last()) {
            Some(x) => {
                lemma_reduction_rests(s.last());
                assert(kept_operands(s) =~= kept.push(x));
                assert forall|j: int| 0 <= j < kept_operands(s).len() implies !is_pure_use(
                    #[trigger] kept_operands(s)[j],
                    false,
                ) && rests(kept_operands(s)[j], false) by {
                    if j < kept.len() {
                        assert(kept_operands(s)[j] == kept[j]);
                    }
                }
            },
            None => {
                assert(kept_operands(s) =~= kept);
            },
        }
    }
}

/// An expression that rests, whatever its parts become, rests once they are
/// simplified.
pub proof fn lemma_folding_rests(e: ExprV)
    requires
        rests(e, true),
    ensures
        rests(folded_expr(e), false),
    decreases e,
{
    lemma_folded_expr(e);
    match e {
        ExprV::Unary { arg, .. } => {
            lemma_use_stays(*arg);
            lemma_folding_rests(*arg);
        },
        ExprV::Bin { left, right, .. } => {
            lemma_use_stays(*left);
            lemma_folding_rests(*left);
            lemma_use_stays(*right);
            lemma_folding_rests(*right);
        },
        ExprV::Paren(x) => {
            lemma_use_stays(*x);
            lemma_folding_rests(*x);
        },
        ExprV::OptChain(x) => {
            lemma_use_stays(*x);
            lemma_folding_rests(*x);
        },
        ExprV::Ts { expr, .. } => {
            lemma_use_stays(*expr);
            lemma_folding_rests(*expr);
        },
        ExprV::Sequence { init, last } => {
            let fi = folded_exprs(init);
            lemma_folded_exprs(init);
            assert forall|i: int| 0 <= i < fi.len() implies rests(#[trigger] fi[i], false) by {
                assert(!is_pure_use(init[i], true) && rests(init[i], true));
                lemma_folding_rests(init[i]);
            }
            lemma_kept_operands_rest(fi);
            lemma_use_stays(*last);
            lemma_folding_rests(*last);
            let r = ExprV::Sequence { init: kept_operands(fi), last: Box::new(folded_expr(*last)) };
            assert(folded_expr(e) == r);
            assert(rests(r, false));
        },
        ExprV::Array(elems) => {
            let fe = folded_opt_expr_or_spreads(elems);
            lemma_folded_opt_expr_or_spreads(elems);
            assert forall|i: int| 0 <= i < fe.len() implies ((#[trigger] fe[i]) matches Some(el)
                ==> !is_pure_use(el.expr, false) && rests(el.expr, false)) by {
                match elems[i] {
                    Some(el) => {
                        assert(!is_pure_use(el.expr, true) && rests(el.expr, true));
                        lemma_folded_expr_or_spread(el);
                        lemma_use_stays(el.expr);
                        lemma_folding_rests(el.expr);
                    },
                    None => {},
                }
            }
            assert(folded_expr(e) == ExprV::Array(fe));
        },
        ExprV::Object(props) => {
            let fp = folded_prop_or_spreads(props);
            lemma_folded_prop_or_spreads(props);
            assert forall|i: int| 0 <= i < fp.len() implies member_rests(
                #[trigger] fp[i],
                false,
            ) by {
                assert(member_rests(props[i], true));
                lemma_folding_member_rests(props[i]);
            }
            assert(folded_expr(e) == ExprV::Object(fp));
        },
        ExprV::Call { callee, args } => {
            let fa = folded_expr_or_spreads(args);
            let fc = folded_expr_or_super(callee);
            lemma_folded_expr_or_super(callee);
            lemma_folded_expr_or_spreads(args);
            let r = ExprV::Call { callee: fc, args: fa };
            assert(folded_expr(e) == r);
            if is_pure_use(r, false) {
                match callee {
                    ExprOrSuperV::Expr(c) => lemma_callee_stays(*c),
                    ExprOrSuperV::Super => {},
                }
                assert(is_pure_use(e, true));
                assert forall|i: int| 0 <= i < fa.len() implies ((#[trigger] fa[i]).spread
                    ==> !is_pure_use(fa[i].expr, false)) && rests(fa[i].expr, false) by {
                    assert((args[i].spread ==> !is_pure_use(args[i].expr, true)) && rests(
                        args[i].expr,
                        true,
                    ));
                    lemma_folded_expr_or_spread(args[i]);
                    lemma_use_stays(args[i].expr);
                    lemma_folding_rests(args[i].expr);
                }
            }
        },
        ExprV::TaggedTpl { tag, tpl } => {
            let ft = folded_tpl(tpl);
            lemma_folded_tpl(tpl);
            lemma_folded_exprs(tpl.exprs);
            let r = ExprV::TaggedTpl { tag: Box::new(folded_expr(*tag)), tpl: ft };
            assert(folded_expr(e) == r);
            if is_pure_use(r, false) {
                lemma_callee_stays(*tag);
                assert(is_pure_use(e, true));
                assert forall|i: int| 0 <= i < ft.exprs.len() implies !is_pure_use(
                    #[trigger] ft.exprs[i],
                    false,
                ) && rests(ft.exprs[i], false) by {
                    assert(!is_pure_use(tpl.exprs[i], true) && rests(tpl.exprs[i], true));
                    lemma_use_stays(tpl.exprs[i]);
                    lemma_folding_rests(tpl.exprs[i]);
                }
            }
        },
        _ => {},
    }
}

/// A member of an object literal that rests, whatever its parts become,
/// rests once they are simplified.
pub proof fn lemma_folding_member_rests(p: PropOrSpreadV)
    requires
        member_rests(p, true),
    ensures
        member_rests(folded_prop_or_spread(p), false),
    decreases p,
{
    lemma_folded_prop_or_spread(p);
    match p {
        PropOrSpreadV::Spread(x) => {
            lemma_use_stays(*x);
            lemma_folding_rests(*x);
        },
        PropOrSpreadV::Prop(prop) => {
            lemma_folded_prop(*prop);
            match *prop {
                PropV::Shorthand(_) => {},
                PropV::KeyValue { key, value } => {
                    lemma_folding_key_rests(key);
                    lemma_use_stays(*value);
                    lemma_folding_rests(*value);
                },
                PropV::Getter { key, .. } => lemma_folding_key_rests(key),
                PropV::Setter { key, .. } => lemma_folding_key_rests(key),
                PropV::Method { key, .. } => lemma_folding_key_rests(key),
            }
        },
    }
}

/// A property key that rests, whatever its parts become, rests once they
/// are simplified.
pub proof fn lemma_folding_key_rests(key: PropNameV)
    requires
        key_rests(key, true),
    ensures
        key_rests(folded_prop_name(key), false),
    decreases key,
{
    lemma_folded_prop_name(key);
    match key {
        PropNameV::Computed(e) => {
            lemma_use_stays(*e);
            lemma_folding_rests(*e);
        },
        _ => {},
    }
}

/// What is kept of operands that can be looked at can be looked at again.
pub proof fn lemma_kept_operands_are_looked_at(s: Seq<ExprV>)
    requires
        forall|i: int| 0 <= i < s.len() ==> looked(#[trigger] s[i], false, false),
    ensures
        forall|j: int|
            0 <= j < kept_operands(s).len() ==> looked(#[trigger] kept_operands(s)[j], false, false),
    decreases s.len(),
{
    if s.len() > 0 {
        let head = s.drop_last();
        let kept = kept_operands(head);
        assert forall|i: int| 0 <= i < head.len() implies looked(
            #[trigger] head[i],
            false,
            false,
        ) by {
            assert(head[i] == s[i]);
        }
        lemma_kept_operands_are_looked_at(head);
        assert(looked(s[s.len() - 1], false, false));
        match ignored(s.last()) {
            Some(x) => {
                lemma_looking_again(s.last(), false);
                assert(kept_operands(s) =~= kept.push(x));
                assert forall|j: int| 0 <= j < kept_operands(s).len() implies looked(
                    #[trigger] kept_operands(s)[j],
                    false,
                    false,
                ) by {
                    if j < kept.len() {
                        assert(kept_operands(s)[j] == kept[j]);
                    }
                }
            },
            None => {
                assert(kept_operands(s) =~= kept);
            },
        }
    }
}

/// An expression that can be looked at, whatever its parts become, can be
/// looked at once they are simplified.
pub proof fn lemma_folding_is_looked_at(e: ExprV, flat: bool)
    requires
        looked(e, flat, true),
    ensures
        looked(folded_expr(e), flat, false),
    decreases e,
{
    lemma_folded_expr(e);
    match e {
        ExprV::Paren(x) => lemma_folding_is_looked_at(*x, flat),
        ExprV::Unary { op, arg } => {
            if is_droppable(op) {
                lemma_folding_is_looked_at(*arg, flat);
            } else if flat {
                lemma_use_stays(*arg);
                lemma_folding_rests(*arg);
            }
        },
        ExprV::Bin { op, left, right } => {
            if op == BinaryOp::LogicalAnd || op == BinaryOp::LogicalOr {
                if flat {
                    lemma_use_stays(*left);
                    lemma_folding_rests(*left);
                    lemma_use_stays(*right);
                    lemma_folding_rests(*right);
                }
            } else {
                lemma_folding_is_looked_at(*left, true);
                lemma_folding_is_looked_at(*right, true);
            }
        },
        ExprV::Ts { expr, .. } => {
            if flat {
                lemma_use_stays(*expr);
                lemma_folding_rests(*expr);
            }
        },
        ExprV::OptChain(x) => {
            if flat {
                lemma_use_stays(*x);
                lemma_folding_rests(*x);
            }
        },
        ExprV::Sequence { init, last } => {
            let fi = folded_exprs(init);
            lemma_folded_exprs(init);
            assert forall|i: int| 0 <= i < fi.len() implies looked(#[trigger] fi[i], false, false) by {
                assert(looked(init[i], false, true));
                lemma_folding_is_looked_at(init[i], false);
            }
            lemma_kept_operands_are_looked_at(fi);
            if flat {
                assert forall|i: int| 0 <= i < fi.len() implies rests(#[trigger] fi[i], false) by {
                    assert(!is_pure_use(init[i], true) && rests(init[i], true));
                    lemma_folding_rests(init[i]);
                }
                lemma_kept_operands_rest(fi);
            }
            lemma_folding_is_looked_at(*last, flat);
            let r = ExprV::Sequence { init: kept_operands(fi), last: Box::new(folded_expr(*last)) };
            assert(folded_expr(e) == r);
            assert(looked(r, flat, false));
        },
        ExprV::Array(elems) => {
            let fe = folded_opt_expr_or_spreads(elems);
            lemma_folded_opt_expr_or_spreads(elems);
            assert forall|i: int| 0 <= i < fe.len() implies ((#[trigger] fe[i]) matches Some(el)
                ==> element_looked(el, flat, false)) by {
                match elems[i] {
                    Some(el) => {
                        assert(element_looked(el, flat, true));
                        lemma_folding_element_is_looked_at(el, flat);
                    },
                    None => {},
                }
            }
            assert(folded_expr(e) == ExprV::Array(fe));
        },
        ExprV::Object(props) => {
            let fp = folded_prop_or_spreads(props);
            lemma_folded_prop_or_spreads(props);
            if flat {
                assert forall|i: int| 0 <= i < fp.len() implies member_rests(
                    #[trigger] fp[i],
                    false,
                ) by {
                    assert(member_rests(props[i], true));
                    lemma_folding_member_rests(props[i]);
                }
            }
            assert(folded_expr(e) == ExprV::Object(fp));
        },
        ExprV::Call { callee, args } => {
            let fa = folded_expr_or_spreads(args);
            let fc = folded_expr_or_super(callee);
            lemma_folded_expr_or_super(callee);
            lemma_folded_expr_or_spreads(args);
            let r = ExprV::Call { callee: fc, args: fa };
            assert(folded_expr(e) == r);
            if is_pure_use(r, false) {
                match callee {
                    ExprOrSuperV::Expr(c) => lemma_callee_stays(*c),
                    ExprOrSuperV::Super => {},
                }
                assert(is_pure_use(e, true));
                assert forall|i: int| 0 <= i < fa.len() implies element_looked(
                    #[trigger] fa[i],
                    flat,
                    false,
                ) by {
                    assert(element_looked(args[i], flat, true));
                    lemma_folding_element_is_looked_at(args[i], flat);
                }
            }
        },
        ExprV::TaggedTpl { tag, tpl } => {
            let ft = folded_tpl(tpl);
            lemma_folded_tpl(tpl);
            lemma_folded_exprs(tpl.exprs);
            let r = ExprV::TaggedTpl { tag: Box::new(folded_expr(*tag)), tpl: ft };
            assert(folded_expr(e) == r);
            if is_pure_use(r, false) {
                lemma_callee_stays(*tag);
                assert(is_pure_use(e, true));
                assert forall|i: int| 0 <= i < ft.exprs.len() implies !is_pure_use(
                    #[trigger] ft.exprs[i],
                    false,
                ) && rests(ft.exprs[i], false) by {
                    assert(!is_pure_use(tpl.exprs[i], true) && rests(tpl.exprs[i], true));
                    lemma_use_stays(tpl.exprs[i]);
                    lemma_folding_rests(tpl.exprs[i]);
                }
            }
        },
        _ => {},
    }
}

/// An element that can be looked at, whatever its parts become, can be
/// looked at once they are simplified.
pub proof fn lemma_folding_element_is_looked_at(el: ExprOrSpreadV, flat: bool)
    requires
        element_looked(el, flat, true),
    ensures
        element_looked(folded_expr_or_spread(el), flat, false),
    decreases el,
{
    lemma_folded_expr_or_spread(el);
    if el.spread {
        if flat {
            lemma_use_stays(el.expr);
            lemma_folding_rests(el.expr);
        }
    } else {
        lemma_folding_is_looked_at(el.expr, flat);
    }
}

/// The operands of a tame sequence can be looked at once they are simplified.
pub proof fn lemma_operands_stay(x: ExprV)
    requires
        is_tame_here(x),
    ensures
        x matches ExprV::Sequence { init, .. } ==> forall|i: int|
            0 <= i < folded_exprs(init).len() ==> looked(
                #[trigger] folded_exprs(init)[i],
                false,
                false,
            ),
{
    match x {
        ExprV::Sequence { init, .. } => {
            lemma_folded_exprs(init);
            assert forall|i: int| 0 <= i < folded_exprs(init).len() implies looked(
                #[trigger] folded_exprs(init)[i],
                false,
                false,
            ) by {
                assert(looked(init[i], false, true));
                lemma_folding_is_looked_at(init[i], false);
            }
        },
        _ => {},
    }
}

/// A statement that is sure to stay is not simplified to the empty statement.
pub proof fn lemma_stays(s: StmtV)
    requires
        surely_stays(s),
    ensures
        !(folded_stmt(s) is Empty),
{
    lemma_folded_stmt(s);
    match s {
        StmtV::Expr(e) => {
            lemma_folded_expr(*e);
            match *e {
                ExprV::Call { callee, .. } => {
                    lemma_folded_expr_or_super(callee);
                    match callee {
                        ExprOrSuperV::Expr(c) => lemma_callee_stays(*c),
                        ExprOrSuperV::Super => {},
                    }
                },
                _ => {},
            }
        },
        _ => {},
    }
}

/// A list whose first statement is sure to stay is not simplified to nothing.
pub proof fn lemma_first_stays(s: Seq<StmtV>)
    requires
        first_stays(s),
    ensures
        folded_stmts(s).len() > 0,
{
    lemma_folded_stmts(s);
    lemma_folded_each_stmts(s);
    lemma_stays(s[0]);
}

/// A statement that cannot vanish is not simplified to the empty statement.
pub proof fn lemma_cannot_vanish(s: StmtV)
    requires
        !may_vanish(s),
    ensures
        !(folded_stmt(s) is Empty),
{
    if surely_stays(s) {
        lemma_stays(s);
    } else {
        match s {
            StmtV::Block(b) => {
                lemma_folded_stmt(s);
                lemma_first_stays(b);
                lemma_folded_stmts(b);
                lemma_simplified_list_tidies(folded_each_stmts(b));
                let fb = folded_stmts(b);
                assert(!(fb[0] is Empty));
            },
            _ => {},
        }
    }
}

/// Of a tame statement with its parts simplified, the expression that the
/// rule reduces can be looked at, and a `try` holds something to try and something to
/// catch or to finish.
pub proof fn lemma_stmt_stays(x: StmtV)
    requires
        is_tame_stmt_here(x),
    ensures
        x matches StmtV::Expr(e) ==> looked(folded_expr(*e), false, false),
        x matches StmtV::If { test, cons, .. } ==> (folded_stmt(*cons) == StmtV::Empty ==> looked(
            folded_expr(*test),
            false,
            false,
        )),
        x matches StmtV::Try { block, handler, finalizer } ==> folded_stmts(block).len() > 0 && ((
        handler matches Some(h) && folded_catch_clause(h).body.len() > 0) || (
        finalizer matches Some(f) && folded_stmts(f).len() > 0)),
{
    match x {
        StmtV::Expr(e) => lemma_folding_is_looked_at(*e, false),
        StmtV::If { test, cons, .. } => {
            if may_vanish(*cons) {
                lemma_folding_is_looked_at(*test, false);
            } else {
                lemma_cannot_vanish(*cons);
            }
        },
        StmtV::Try { block, handler, finalizer } => {
            lemma_first_stays(block);
            match handler {
                Some(h) => {
                    lemma_folded_catch_clause(h);
                    if first_stays(h.body) {
                        lemma_first_stays(h.body);
                    }
                },
                None => {},
            }
            match finalizer {
                Some(f) => {
                    if first_stays(f) {
                        lemma_first_stays(f);
                    }
                },
                None => {},
            }
        },
        _ => {},
    }
}

} // verus!
