//! What holds between the rules for side effects and the reduction of
//! expressions whose value is not used.

use vstd::prelude::*;
use crate::effects::{
    effects_of, effects_of_all, effects_of_elements, effects_of_key, effects_of_member,
    effects_of_members, ignored, is_droppable, kept_element, kept_elements,
};
use crate::model::{ExprOrSpreadV, ExprOrSuperV, ExprV, PropNameV, PropOrSpreadV, PropV};
use crate::ast::BinaryOp;
use crate::purity::{
    is_pure_callee, key_may_have_side_effects, may_have_side_effects, member_may_have_side_effects,
};

verus! {

/// Whether the rules for side effects and the reduction agree on `e`.
///
/// They disagree on two forms, which the reduction takes for free of
/// effects and the rules do not: a tagged template whose tag is known to
/// have no effect, and a spread in an object literal. An expression is
/// regular where neither stands at a place that the reduction looks at.
pub open spec fn is_regular(e: ExprV) -> bool
    decreases e,
{
    match e {
        ExprV::TaggedTpl { tag, .. } => !is_pure_callee(*tag),
        ExprV::Unary { arg, .. } => is_regular(*arg),
        ExprV::Paren(x) => is_regular(*x),
        ExprV::OptChain(x) => is_regular(*x),
        ExprV::Ts { expr, .. } => is_regular(*expr),
        ExprV::Bin { left, right, .. } => is_regular(*left) && is_regular(*right),
        ExprV::Sequence { init, last } => (forall|i: int|
            0 <= i < init.len() ==> is_regular(#[trigger] init[i])) && is_regular(*last),
        ExprV::Array(elems) => forall|i: int|
            0 <= i < elems.len() ==> ((#[trigger] elems[i]) matches Some(el) ==> is_regular(
                el.expr,
            )),
        ExprV::Object(props) => forall|i: int|
            0 <= i < props.len() ==> is_regular_member(#[trigger] props[i]),
        _ => true,
    }
}

/// Whether a member of an object literal is no spread and has regular parts.
pub open spec fn is_regular_member(p: PropOrSpreadV) -> bool
    decreases p,
{
    match p {
        PropOrSpreadV::Spread(_) => false,
        PropOrSpreadV::Prop(prop) => match *prop {
            PropV::Shorthand(_) => true,
            PropV::KeyValue { key, value } => is_regular_key(key) && is_regular(*value),
            PropV::Getter { key, .. } => is_regular_key(key),
            PropV::Setter { key, .. } => is_regular_key(key),
            PropV::Method { key, .. } => is_regular_key(key),
        },
    }
}

/// Whether a property key is computed by a regular expression, if it is computed.
pub open spec fn is_regular_key(key: PropNameV) -> bool
    decreases key,
{
    match key {
        PropNameV::Computed(e) => is_regular(*e),
        _ => true,
    }
}

/// Every effect of an expression is an expression that is kept whole.
pub proof fn lemma_effects_are_kept(e: ExprV, k: int)
    requires
        0 <= k < effects_of(e).len(),
    ensures
        effects_of(effects_of(e)[k]) == seq![effects_of(e)[k]],
    decreases e, 2nat,
{
    match e {
        ExprV::Unary { arg, .. } => lemma_effects_are_kept(*arg, k),
        ExprV::Bin { left, right, .. } => {
            if k < effects_of(*left).len() {
                lemma_effects_are_kept(*left, k);
            } else {
                lemma_effects_are_kept(*right, k - effects_of(*left).len());
            }
        },
        ExprV::Sequence { init, last } => {
            if k < effects_of_all(init).len() {
                lemma_all_effects_are_kept(init, k);
            } else {
                lemma_effects_are_kept(*last, k - effects_of_all(init).len());
            }
        },
        ExprV::Paren(x) => lemma_effects_are_kept(*x, k),
        ExprV::Ts { expr, .. } => lemma_effects_are_kept(*expr, k),
        ExprV::OptChain(x) => lemma_effects_are_kept(*x, k),
        ExprV::Object(props) => lemma_member_effects_are_kept(props, k),
        ExprV::Array(elems) => lemma_element_effects_are_kept(elems, k),
        _ => {},
    }
}

/// Every effect of a list of expressions is an expression that is kept whole.
pub proof fn lemma_all_effects_are_kept(s: Seq<ExprV>, k: int)
    requires
        0 <= k < effects_of_all(s).len(),
    ensures
        effects_of(effects_of_all(s)[k]) == seq![effects_of_all(s)[k]],
    decreases s, 1nat,
{
    if k < effects_of_all(s.drop_last()).len() {
        lemma_all_effects_are_kept(s.drop_last(), k);
    } else {
        lemma_effects_are_kept(s.last(), k - effects_of_all(s.drop_last()).len());
    }
}

/// Every effect of the elements of an array is an expression that is kept whole.
pub proof fn lemma_element_effects_are_kept(s: Seq<Option<ExprOrSpreadV>>, k: int)
    requires
        0 <= k < effects_of_elements(s).len(),
    ensures
        effects_of(effects_of_elements(s)[k]) == seq![effects_of_elements(s)[k]],
    decreases s, 1nat,
{
    if k < effects_of_elements(s.drop_last()).len() {
        lemma_element_effects_are_kept(s.drop_last(), k);
    } else {
        lemma_effects_are_kept(s.last()->0.expr, k - effects_of_elements(s.drop_last()).len());
    }
}

/// Every effect of the members of an object is an expression that is kept whole.
pub proof fn lemma_member_effects_are_kept(s: Seq<PropOrSpreadV>, k: int)
    requires
        0 <= k < effects_of_members(s).len(),
    ensures
        effects_of(effects_of_members(s)[k]) == seq![effects_of_members(s)[k]],
    decreases s, 1nat,
{
    let before = effects_of_members(s.drop_last()).len();
    let m = effects_of_member(s.last());
    assert(effects_of_members(s) == effects_of_members(s.drop_last()) + m);
    if k < before {
        lemma_member_effects_are_kept(s.drop_last(), k);
    } else {
        match s.last() {
            PropOrSpreadV::Spread(x) => {
                assert(m == effects_of(*x));
                lemma_effects_are_kept(*x, k - before)
            },
            PropOrSpreadV::Prop(prop) => match *prop {
                PropV::Shorthand(_) => {},
                PropV::KeyValue { key, value } => {
                    assert(m == effects_of_key(key) + effects_of(*value));
                    if k - before < effects_of_key(key).len() {
                        lemma_key_effects_are_kept(key, k - before);
                    } else {
                        lemma_effects_are_kept(*value, k - before - effects_of_key(key).len());
                    }
                },
                PropV::Getter { key, .. } => {
                    assert(m == effects_of_key(key));
                    lemma_key_effects_are_kept(key, k - before)
                },
                PropV::Setter { key, .. } => {
                    assert(m == effects_of_key(key));
                    lemma_key_effects_are_kept(key, k - before)
                },
                PropV::Method { key, .. } => {
                    assert(m == effects_of_key(key));
                    lemma_key_effects_are_kept(key, k - before)
                },
            },
        }
    }
}

/// Every effect of a property key is an expression that is kept whole.
pub proof fn lemma_key_effects_are_kept(key: PropNameV, k: int)
    requires
        0 <= k < effects_of_key(key).len(),
    ensures
        effects_of(effects_of_key(key)[k]) == seq![effects_of_key(key)[k]],
    decreases key, 0nat,
{
    match key {
        PropNameV::Computed(e) => lemma_effects_are_kept(*e, k),
        _ => {},
    }
}

/// A list of expressions that are kept whole has effects, unless it is empty.
pub proof fn lemma_kept_have_effects(s: Seq<ExprV>)
    requires
        s.len() > 0,
        forall|k: int| 0 <= k < s.len() ==> effects_of(#[trigger] s[k]) == seq![s[k]],
    ensures
        effects_of_all(s).len() > 0,
{
}

/// An expression without effects may have no side effects, where it is regular.
pub proof fn lemma_no_effects_no_side_effects(e: ExprV)
    requires
        is_regular(e),
        effects_of(e).len() == 0,
    ensures
        !may_have_side_effects(e),
    decreases e, 2nat,
{
    match e {
        ExprV::Unary { arg, .. } => lemma_no_effects_no_side_effects(*arg),
        ExprV::Bin { left, right, .. } => {
            lemma_no_effects_no_side_effects(*left);
            lemma_no_effects_no_side_effects(*right);
        },
        ExprV::Sequence { init, last } => {
            lemma_all_without_effects(init);
            lemma_no_effects_no_side_effects(*last);
        },
        ExprV::Paren(x) => lemma_no_effects_no_side_effects(*x),
        ExprV::Ts { expr, .. } => lemma_no_effects_no_side_effects(*expr),
        ExprV::OptChain(x) => lemma_no_effects_no_side_effects(*x),
        ExprV::Object(props) => lemma_members_without_effects(props),
        ExprV::Array(elems) => lemma_elements_without_effects(elems),
        _ => {},
    }
}

/// The expressions of a list without effects may have no side effects.
pub proof fn lemma_all_without_effects(s: Seq<ExprV>)
    requires
        forall|i: int| 0 <= i < s.len() ==> is_regular(#[trigger] s[i]),
        effects_of_all(s).len() == 0,
    ensures
        forall|i: int| 0 <= i < s.len() ==> !may_have_side_effects(#[trigger] s[i]),
    decreases s, 1nat,
{
    if s.len() > 0 {
        let t = s.drop_last();
        assert forall|i: int| 0 <= i < t.len() implies is_regular(#[trigger] t[i]) by {
            assert(t[i] == s[i]);
        }
        lemma_all_without_effects(t);
        lemma_no_effects_no_side_effects(s.last());
        assert forall|i: int| 0 <= i < s.len() implies !may_have_side_effects(#[trigger] s[i]) by {
            if i < s.len() - 1 {
                assert(t[i] == s[i]);
            }
        }
    }
}

/// The elements of an array without effects may have no side effects.
pub proof fn lemma_elements_without_effects(s: Seq<Option<ExprOrSpreadV>>)
    requires
        forall|i: int|
            0 <= i < s.len() ==> ((#[trigger] s[i]) matches Some(el) ==> is_regular(el.expr)),
        effects_of_elements(s).len() == 0,
    ensures
        forall|i: int|
            0 <= i < s.len() ==> !((#[trigger] s[i]) matches Some(el) && may_have_side_effects(
                el.expr,
            )),
    decreases s, 1nat,
{
    if s.len() > 0 {
        let t = s.drop_last();
        assert forall|i: int| 0 <= i < t.len() implies ((#[trigger] t[i]) matches Some(el)
            ==> is_regular(el.expr)) by {
            assert(t[i] == s[i]);
        }
        lemma_elements_without_effects(t);
        match s.last() {
            Some(el) => lemma_no_effects_no_side_effects(el.expr),
            None => {},
        }
        assert forall|i: int| 0 <= i < s.len() implies !((#[trigger] s[i]) matches Some(el)
            && may_have_side_effects(el.expr)) by {
            if i < s.len() - 1 {
                assert(t[i] == s[i]);
            }
        }
    }
}

/// The members of an object without effects may have no side effects.
pub proof fn lemma_members_without_effects(s: Seq<PropOrSpreadV>)
    requires
        forall|i: int| 0 <= i < s.len() ==> is_regular_member(#[trigger] s[i]),
        effects_of_members(s).len() == 0,
    ensures
        forall|i: int| 0 <= i < s.len() ==> !member_may_have_side_effects(#[trigger] s[i]),
    decreases s, 1nat,
{
    if s.len() > 0 {
        let t = s.drop_last();
        assert forall|i: int| 0 <= i < t.len() implies is_regular_member(#[trigger] t[i]) by {
            assert(t[i] == s[i]);
        }
        lemma_members_without_effects(t);
        let m = effects_of_member(s.last());
        assert(effects_of_members(s) == effects_of_members(t) + m);
        match s.last() {
            PropOrSpreadV::Spread(_) => {},
            PropOrSpreadV::Prop(prop) => match *prop {
                PropV::Shorthand(_) => {},
                PropV::KeyValue { key, value } => {
                    assert(m == effects_of_key(key) + effects_of(*value));
                    lemma_key_without_effects(key);
                    lemma_no_effects_no_side_effects(*value);
                },
                PropV::Getter { key, .. } => {
                    assert(m == effects_of_key(key));
                    lemma_key_without_effects(key)
                },
                PropV::Setter { key, .. } => {
                    assert(m == effects_of_key(key));
                    lemma_key_without_effects(key)
                },
                PropV::Method { key, .. } => {
                    assert(m == effects_of_key(key));
                    lemma_key_without_effects(key)
                },
            },
        }
        assert forall|i: int| 0 <= i < s.len() implies !member_may_have_side_effects(
            #[trigger] s[i],
        ) by {
            if i < s.len() - 1 {
                assert(t[i] == s[i]);
            }
        }
    }
}

/// A property key without effects may have no side effects.
pub proof fn lemma_key_without_effects(key: PropNameV)
    requires
        is_regular_key(key),
        effects_of_key(key).len() == 0,
    ensures
        !key_may_have_side_effects(key),
    decreases key, 0nat,
{
    match key {
        PropNameV::Computed(e) => lemma_no_effects_no_side_effects(*e),
        _ => {},
    }
}

/// The effects of two lists of elements joined are the effects of the two joined.
pub proof fn lemma_effects_of_elements_concat(
    a: Seq<Option<ExprOrSpreadV>>,
    b: Seq<Option<ExprOrSpreadV>>,
)
    ensures
        effects_of_elements(a + b) == effects_of_elements(a) + effects_of_elements(b),
    decreases b.len(),
{
    if b.len() == 0 {
        assert(a + b =~= a);
        assert(effects_of_elements(a) + effects_of_elements(b) =~= effects_of_elements(a));
    } else {
        assert((a + b).drop_last() =~= a + b.drop_last());
        assert((a + b).last() == b.last());
        lemma_effects_of_elements_concat(a, b.drop_last());
        let tail = match b.last() {
            Some(el) => effects_of(el.expr),
            None => Seq::empty(),
        };
        assert(effects_of_elements(a) + effects_of_elements(b.drop_last()) + tail
            =~= effects_of_elements(a) + (effects_of_elements(b.drop_last()) + tail));
    }
}

/// Soundness of dropping: where nothing has to stay of a regular expression
/// whose value is not used, the expression may have no side effects.
pub proof fn lemma_dropped_has_no_side_effects(e: ExprV)
    requires
        is_regular(e),
        ignored(e) is None,
    ensures
        !may_have_side_effects(e),
    decreases e, 4nat,
{
    match e {
        ExprV::Paren(x) => lemma_dropped_has_no_side_effects(*x),
        ExprV::Bin { op, left, right } => {
            if op != BinaryOp::LogicalAnd && op != BinaryOp::LogicalOr {
                match (ignored(*left), ignored(*right)) {
                    (Some(l), Some(r)) => {
                        lemma_reduced_to_nothing(*left);
                        lemma_reduced_to_nothing(*right);
                    },
                    (None, None) => {
                        lemma_dropped_has_no_side_effects(*left);
                        lemma_dropped_has_no_side_effects(*right);
                    },
                    _ => {},
                }
            }
        },
        ExprV::Unary { op, arg } => {
            if is_droppable(op) {
                lemma_dropped_has_no_side_effects(*arg);
            }
        },
        ExprV::Array(elems) => {
            assert(effects_of_elements(kept_elements(elems)).len() == 0);
            lemma_kept_elements(elems);
        },
        ExprV::Sequence { init, last } => {
            lemma_dropped_has_no_side_effects(*last);
        },
        _ => {},
    }
}

/// Where what has to stay of a regular expression has no effects, the
/// expression may have no side effects.
pub proof fn lemma_reduced_to_nothing(e: ExprV)
    requires
        is_regular(e),
        ignored(e) matches Some(x) && effects_of(x).len() == 0,
    ensures
        !may_have_side_effects(e),
    decreases e, 3nat,
{
    let x = ignored(e)->0;
    match e {
        ExprV::Paren(y) => lemma_reduced_to_nothing(*y),
        ExprV::Bin { op, left, right } => {
            if op == BinaryOp::LogicalAnd || op == BinaryOp::LogicalOr {
                lemma_no_effects_no_side_effects(e);
            } else {
                match (ignored(*left), ignored(*right)) {
                    (Some(l), Some(r)) => {
                        let fx = effects_of(l) + effects_of(r);
                        assert(fx.len() > 0);
                        assert forall|k: int| 0 <= k < fx.len() implies effects_of(
                            #[trigger] fx[k],
                        ) == seq![fx[k]] by {
                            if k < effects_of(l).len() {
                                lemma_effects_are_kept(l, k);
                            } else {
                                lemma_effects_are_kept(r, k - effects_of(l).len());
                            }
                        }
                        lemma_kept_have_effects(fx);
                        assert(fx.drop_last().push(fx.last()) =~= fx);
                    },
                    (Some(l), None) => {
                        lemma_reduced_to_nothing(*left);
                        lemma_dropped_has_no_side_effects(*right);
                    },
                    (None, Some(r)) => {
                        lemma_dropped_has_no_side_effects(*left);
                        lemma_reduced_to_nothing(*right);
                    },
                    (None, None) => {},
                }
            }
        },
        ExprV::Unary { op, arg } => {
            if is_droppable(op) {
                lemma_reduced_to_nothing(*arg);
            } else {
                lemma_no_effects_no_side_effects(e);
            }
        },
        ExprV::Array(elems) => {
            lemma_kept_elements(elems);
        },
        ExprV::Sequence { init, last } => {
            match ignored(*last) {
                Some(l) => {
                    lemma_all_without_effects(init);
                    lemma_reduced_to_nothing(*last);
                },
                None => {
                    assert(init.drop_last().push(init.last()) =~= init);
                    lemma_all_without_effects(init);
                    lemma_dropped_has_no_side_effects(*last);
                },
            }
        },
        ExprV::Call { callee: ExprOrSuperV::Expr(c), args } => {
            if !is_pure_callee(*c) {
                lemma_no_effects_no_side_effects(e);
            }
        },
        ExprV::TaggedTpl { .. } => {},
        ExprV::Lit(_) | ExprV::Ident(_) | ExprV::Fn { .. } => {},
        _ => lemma_no_effects_no_side_effects(e),
    }
}

/// Where what has to stay of the elements of an array has no effects, the
/// elements may have no side effects.
pub proof fn lemma_kept_elements(s: Seq<Option<ExprOrSpreadV>>)
    requires
        forall|i: int|
            0 <= i < s.len() ==> ((#[trigger] s[i]) matches Some(el) ==> is_regular(el.expr)),
        effects_of_elements(kept_elements(s)).len() == 0,
    ensures
        forall|i: int|
            0 <= i < s.len() ==> !((#[trigger] s[i]) matches Some(el) && may_have_side_effects(
                el.expr,
            )),
    decreases s, 2nat,
{
    if s.len() > 0 {
        let t = s.drop_last();
        let tail = match s.last() {
            Some(el) => kept_element(el),
            None => Seq::empty(),
        };
        lemma_effects_of_elements_concat(kept_elements(t), tail);
        assert forall|i: int| 0 <= i < t.len() implies ((#[trigger] t[i]) matches Some(el)
            ==> is_regular(el.expr)) by {
            assert(t[i] == s[i]);
        }
        lemma_kept_elements(t);
        match s.last() {
            Some(el) => {
                if el.spread {
                    assert(tail =~= seq![Some(el)]);
                    assert(tail.drop_last() =~= Seq::<Option<ExprOrSpreadV>>::empty());
                    assert(effects_of_elements(tail) =~= effects_of(el.expr));
                    lemma_no_effects_no_side_effects(el.expr);
                } else {
                    match ignored(el.expr) {
                        Some(x) => {
                            let kept = ExprOrSpreadV { spread: false, expr: x };
                            assert(tail =~= seq![Some(kept)]);
                            assert(tail.drop_last() =~= Seq::<Option<ExprOrSpreadV>>::empty());
                            assert(effects_of_elements(tail) =~= effects_of(x));
                            lemma_reduced_to_nothing(el.expr);
                        },
                        None => lemma_dropped_has_no_side_effects(el.expr),
                    }
                }
            },
            None => {},
        }
        assert forall|i: int| 0 <= i < s.len() implies !((#[trigger] s[i]) matches Some(el)
            && may_have_side_effects(el.expr)) by {
            if i < s.len() - 1 {
                assert(t[i] == s[i]);
            }
        }
    }
}

} // verus!
