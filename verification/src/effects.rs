//! What is left of an expression when only its effects matter.

use vstd::prelude::*;
use crate::ast::{
    BinaryOp, Expr, ExprOrSpread, ExprOrSuper, Lit, Number, Prop, PropName, PropOrSpread, UnaryOp,
};
use crate::model::{
    ExprOrSpreadV, ExprOrSuperV, ExprV, LitV, NumberV, PropNameV, PropOrSpreadV, PropV,
};
use crate::number::ZERO;
use crate::purity::{is_plain_date, is_plain_date_impl, is_pure_callee, is_pure_callee_impl};
use crate::view::{
    exprs_view, lemma_expr_or_spread_view, lemma_expr_or_spreads_view, lemma_expr_or_super_view,
    lemma_expr_view, lemma_exprs_view, lemma_exprs_view_push, lemma_exprs_view_subrange,
    lemma_opt_expr_or_spreads_view, lemma_opt_expr_or_spreads_view_push, lemma_prop_name_view,
    lemma_prop_or_spread_view, lemma_prop_or_spreads_view, lemma_prop_view, lemma_tpl_view,
    opt_expr_or_spreads_view,
};

verus! {

/// `void 0`, the shortest expression whose value is `undefined`.
pub open spec fn undefined_value() -> ExprV {
    ExprV::Unary {
        op: UnaryOp::Void,
        arg: Box::new(ExprV::Lit(LitV::Num(NumberV { bits: ZERO, text: "0"@ }))),
    }
}

/// The sub-expressions of `e` whose evaluation may be observed, in the order
/// in which `e` evaluates them.
///
/// Literals, `this`, functions, identifiers and private names have none.
/// Updates, assignments, `yield`, `await`, meta-properties, member accesses,
/// calls, `new` (but for a `Date` built from no arguments), conditional
/// expressions, templates and classes are kept whole. Of every other form the
/// effects are those of its operands.
pub open spec fn effects_of(e: ExprV) -> Seq<ExprV>
    decreases e,
{
    match e {
        ExprV::Lit(_) | ExprV::This | ExprV::Fn { .. } | ExprV::Arrow { .. } | ExprV::Ident(_)
        | ExprV::PrivateName(_) => Seq::empty(),
        ExprV::Update { .. } | ExprV::Assign { .. } | ExprV::Yield { .. } | ExprV::Await(_)
        | ExprV::MetaProp { .. } | ExprV::Call { .. } | ExprV::Member { .. } | ExprV::Cond { .. }
        | ExprV::TaggedTpl { .. } | ExprV::Tpl(_) | ExprV::Class { .. } => seq![e],
        ExprV::New { callee, args } => if is_plain_date(*callee, args) {
            Seq::empty()
        } else {
            seq![e]
        },
        ExprV::Unary { arg, .. } => effects_of(*arg),
        ExprV::Bin { left, right, .. } => effects_of(*left) + effects_of(*right),
        ExprV::Sequence { init, last } => effects_of_all(init) + effects_of(*last),
        ExprV::Paren(x) => effects_of(*x),
        ExprV::Ts { expr, .. } => effects_of(*expr),
        ExprV::OptChain(x) => effects_of(*x),
        ExprV::Object(props) => effects_of_members(props),
        ExprV::Array(elems) => effects_of_elements(elems),
    }
}

/// The effects of each expression of a list, one after the other.
pub open spec fn effects_of_all(s: Seq<ExprV>) -> Seq<ExprV>
    decreases s,
{
    if s.len() == 0 {
        Seq::empty()
    } else {
        effects_of_all(s.drop_last()) + effects_of(s.last())
    }
}

/// The effects of the elements of an array literal.
pub open spec fn effects_of_elements(s: Seq<Option<ExprOrSpreadV>>) -> Seq<ExprV>
    decreases s,
{
    if s.len() == 0 {
        Seq::empty()
    } else {
        effects_of_elements(s.drop_last()) + match s.last() {
            Some(el) => effects_of(el.expr),
            None => Seq::empty(),
        }
    }
}

/// The effects of the arguments of a call.
pub open spec fn effects_of_args(s: Seq<ExprOrSpreadV>) -> Seq<ExprV>
    decreases s,
{
    if s.len() == 0 {
        Seq::empty()
    } else {
        effects_of_args(s.drop_last()) + effects_of(s.last().expr)
    }
}

/// The effects of the members of an object literal.
pub open spec fn effects_of_members(s: Seq<PropOrSpreadV>) -> Seq<ExprV>
    decreases s,
{
    if s.len() == 0 {
        Seq::empty()
    } else {
        effects_of_members(s.drop_last()) + effects_of_member(s.last())
    }
}

/// The effects of one member of an object literal: those of its computed key,
/// then those of its value.
pub open spec fn effects_of_member(p: PropOrSpreadV) -> Seq<ExprV>
    decreases p,
{
    match p {
        PropOrSpreadV::Spread(x) => effects_of(*x),
        PropOrSpreadV::Prop(prop) => match *prop {
            PropV::Shorthand(_) => Seq::empty(),
            PropV::KeyValue { key, value } => effects_of_key(key) + effects_of(*value),
            PropV::Getter { key, .. } => effects_of_key(key),
            PropV::Setter { key, .. } => effects_of_key(key),
            PropV::Method { key, .. } => effects_of_key(key),
        },
    }
}

/// The effects of a property key: those of the expression that computes it.
pub open spec fn effects_of_key(key: PropNameV) -> Seq<ExprV>
    decreases key,
{
    match key {
        PropNameV::Computed(e) => effects_of(*e),
        _ => Seq::empty(),
    }
}

/// `val` after the effects of `exprs`: `val` itself where there are none, and
/// otherwise the sequence of the effects with `val` last.
pub open spec fn preserved(val: ExprV, exprs: Seq<ExprV>) -> ExprV {
    let fx = effects_of_all(exprs);
    if fx.len() == 0 {
        val
    } else {
        ExprV::Sequence { init: fx, last: Box::new(val) }
    }
}

/// The sequence expression of the given operands; none where there are none.
pub open spec fn as_sequence(fx: Seq<ExprV>) -> Option<ExprV> {
    if fx.len() == 0 {
        None
    } else {
        Some(ExprV::Sequence { init: fx.drop_last(), last: Box::new(fx.last()) })
    }
}

/// Whether the result of the operator can be dropped whatever its operand is.
pub open spec fn is_droppable(op: UnaryOp) -> bool {
    op != UnaryOp::Delete
}

/// What has to stay of `e` where its value is not used: `None` where nothing
/// of it can be observed.
pub open spec fn ignored(e: ExprV) -> Option<ExprV>
    decreases e,
{
    match e {
        ExprV::Lit(_) | ExprV::Ident(_) => None,
        ExprV::Paren(x) => ignored(*x),
        ExprV::Bin { op, left, right } => if op == BinaryOp::LogicalAnd || op
            == BinaryOp::LogicalOr {
            Some(e)
        } else {
            match (ignored(*left), ignored(*right)) {
                (Some(l), Some(r)) => as_sequence(effects_of(l) + effects_of(r)),
                (Some(l), None) => Some(l),
                (None, Some(r)) => Some(r),
                (None, None) => None,
            }
        },
        ExprV::Unary { op, arg } => if is_droppable(op) {
            ignored(*arg)
        } else {
            Some(e)
        },
        ExprV::Array(elems) => as_array(kept_elements(elems)),
        ExprV::Object(props) => if props.len() == 0 {
            None
        } else {
            Some(e)
        },
        ExprV::Call { callee: ExprOrSuperV::Expr(c), args } => if is_pure_callee(*c) {
            as_array(kept_args(args))
        } else {
            Some(e)
        },
        ExprV::TaggedTpl { tag, tpl } => if is_pure_callee(*tag) {
            as_sequence(effects_of_all(tpl.exprs))
        } else {
            Some(e)
        },
        ExprV::Fn { .. } => None,
        ExprV::Sequence { init, last } => match ignored(*last) {
            Some(l) => Some(ExprV::Sequence { init, last: Box::new(l) }),
            None => as_sequence(init),
        },
        _ => Some(e),
    }
}

/// The array literal of the given elements; none where there are none.
pub open spec fn as_array(elems: Seq<Option<ExprOrSpreadV>>) -> Option<ExprV> {
    if elems.len() == 0 {
        None
    } else {
        Some(ExprV::Array(elems))
    }
}

/// What has to stay of an element whose value is not used: a spread as it is,
/// another element as far as it has to stay.
pub open spec fn kept_element(el: ExprOrSpreadV) -> Seq<Option<ExprOrSpreadV>>
    decreases el,
{
    if el.spread {
        seq![Some(el)]
    } else {
        match ignored(el.expr) {
            Some(x) => seq![Some(ExprOrSpreadV { spread: false, expr: x })],
            None => Seq::empty(),
        }
    }
}

/// What has to stay of the elements of an array literal whose value is not used.
pub open spec fn kept_elements(s: Seq<Option<ExprOrSpreadV>>) -> Seq<Option<ExprOrSpreadV>>
    decreases s,
{
    if s.len() == 0 {
        Seq::empty()
    } else {
        kept_elements(s.drop_last()) + match s.last() {
            Some(el) => kept_element(el),
            None => Seq::empty(),
        }
    }
}

/// What has to stay of the arguments of a call that itself has no effect.
pub open spec fn kept_args(s: Seq<ExprOrSpreadV>) -> Seq<Option<ExprOrSpreadV>>
    decreases s,
{
    if s.len() == 0 {
        Seq::empty()
    } else {
        kept_args(s.drop_last()) + kept_element(s.last())
    }
}

/// Makes `void 0`.
pub fn undefined() -> (r: Expr)
    ensures
        r@ == undefined_value(),
{
    let zero = Expr::Lit(Lit::Num(Number { bits: ZERO, text: "0".to_owned() }));
    let r = Expr::Unary { op: UnaryOp::Void, arg: Box::new(zero) };
    proof {
        lemma_expr_view(zero);
        lemma_expr_view(r);
    }
    r
}

/// Add side effects of `e` to `v`, preserving order.
pub fn add_effects(v: &mut Vec<Expr>, e: Expr)
    ensures
        exprs_view(final(v)@) == exprs_view(old(v)@) + effects_of(e@),
    decreases e,
{
    proof {
        lemma_expr_view(e);
        lemma_exprs_view_push(v@, e);
        assert(exprs_view(v@) + Seq::<ExprV>::empty() =~= exprs_view(v@));
        assert(exprs_view(v@) + seq![e@] =~= exprs_view(v@).push(e@));
    }
    let plain_date = is_plain_date_impl(&e);
    match e {
        Expr::Lit(_) | Expr::This | Expr::Fn { .. } | Expr::Arrow { .. } | Expr::Ident(_)
        | Expr::PrivateName(_) => {},
        // In most cases there is nothing to take apart in these.
        Expr::Update { .. } | Expr::Assign { .. } | Expr::Yield { .. } | Expr::Await(_)
        | Expr::MetaProp { .. } | Expr::Call { .. } | Expr::Member { .. } | Expr::TaggedTpl { .. }
        | Expr::Tpl(_) | Expr::Class { .. } => {
            v.push(e);
        },
        // The test could not be decided, so both branches may run.
        Expr::Cond { .. } => {
            v.push(e);
        },
        Expr::New { .. } => {
            if !plain_date {
                v.push(e);
            }
        },
        Expr::Unary { arg, .. } => add_effects(v, *arg),
        Expr::Bin { left, right, .. } => {
            let ghost before = exprs_view(v@);
            add_effects(v, *left);
            add_effects(v, *right);
            assert(before + effects_of(left@) + effects_of(right@) =~= before + (effects_of(left@)
                + effects_of(right@)));
        },
        Expr::Sequence { init, last } => {
            let ghost before = exprs_view(v@);
            let ghost items = exprs_view(init@);
            proof {
                lemma_exprs_view(init@);
                assert(items.take(0) =~= Seq::<ExprV>::empty());
                assert(before + Seq::<ExprV>::empty() =~= before);
            }
            let ghost all = init@;
            for x in it: init
                invariant
                    it.seq() == all,
                    e matches Expr::Sequence { init: w, .. } && w@ == all,
                    items.len() == all.len(),
                    forall|j: int| 0 <= j < all.len() ==> (#[trigger] items[j]) == all[j]@,
                    exprs_view(v@) == before + effects_of_all(items.take(it.index() as int)),
            {
                let ghost i = it.index() as int;
                proof {
                    assert(items.take(i + 1).drop_last() =~= items.take(i));
                    assert(items.take(i + 1).last() == items[i]);
                }
                add_effects(v, x);
                assert(before + effects_of_all(items.take(i)) + effects_of(items[i]) =~= before + (
                effects_of_all(items.take(i)) + effects_of(items[i])));
            }
            proof {
                assert(items.take(items.len() as int) =~= items);
            }
            add_effects(v, *last);
            assert(before + effects_of_all(items) + effects_of(last@) =~= before + (effects_of_all(
                items,
            ) + effects_of(last@)));
        },
        Expr::Paren(x) => add_effects(v, *x),
        Expr::Ts { expr, .. } => add_effects(v, *expr),
        Expr::OptChain(x) => add_effects(v, *x),
        Expr::Object(props) => {
            let ghost before = exprs_view(v@);
            let ghost items = e@->Object_0;
            proof {
                lemma_prop_or_spreads_view(props@);
                assert(items.take(0) =~= Seq::<PropOrSpreadV>::empty());
                assert(before + Seq::<ExprV>::empty() =~= before);
            }
            let ghost all = props@;
            for p in it: props
                invariant
                    it.seq() == all,
                    e matches Expr::Object(w) && w@ == all,
                    items.len() == all.len(),
                    forall|j: int| 0 <= j < all.len() ==> (#[trigger] items[j]) == all[j]@,
                    exprs_view(v@) == before + effects_of_members(items.take(it.index() as int)),
            {
                let ghost i = it.index() as int;
                proof {
                    assert(items.take(i + 1).drop_last() =~= items.take(i));
                    assert(items.take(i + 1).last() == items[i]);
                }
                add_member_effects(v, p);
                assert(before + effects_of_members(items.take(i)) + effects_of_member(items[i])
                    =~= before + (effects_of_members(items.take(i)) + effects_of_member(items[i])));
            }
            proof {
                assert(items.take(items.len() as int) =~= items);
            }
        },
        Expr::Array(elems) => {
            let ghost before = exprs_view(v@);
            let ghost items = e@->Array_0;
            proof {
                lemma_opt_expr_or_spreads_view(elems@);
                assert(items.take(0) =~= Seq::<Option<ExprOrSpreadV>>::empty());
                assert(before + Seq::<ExprV>::empty() =~= before);
            }
            let ghost all = elems@;
            for el in it: elems
                invariant
                    it.seq() == all,
                    e matches Expr::Array(w) && w@ == all,
                    items.len() == all.len(),
                    forall|j: int|
                        0 <= j < all.len() ==> (#[trigger] items[j]) == (match all[j] {
                            Some(x) => Some(x@),
                            None => None,
                        }),
                    exprs_view(v@) == before + effects_of_elements(items.take(it.index() as int)),
            {
                let ghost i = it.index() as int;
                let ghost mid = exprs_view(v@);
                proof {
                    assert(items.take(i + 1).drop_last() =~= items.take(i));
                    assert(items.take(i + 1).last() == items[i]);
                    assert(mid + Seq::<ExprV>::empty() =~= mid);
                }
                match el {
                    Some(x) => {
                        proof {
                            lemma_expr_or_spread_view(x);
                        }
                        add_effects(v, x.expr);
                        assert(before + effects_of_elements(items.take(i)) + effects_of(x.expr@)
                            =~= before + (effects_of_elements(items.take(i)) + effects_of(
                            x.expr@,
                        )));
                    },
                    None => {
                        assert(effects_of_elements(items.take(i)) + Seq::<ExprV>::empty()
                            =~= effects_of_elements(items.take(i)));
                    },
                }
            }
            proof {
                assert(items.take(items.len() as int) =~= items);
            }
        },
    }
}

/// Add the side effects of a member of an object literal to `v`.
fn add_member_effects(v: &mut Vec<Expr>, p: PropOrSpread)
    ensures
        exprs_view(final(v)@) == exprs_view(old(v)@) + effects_of_member(p@),
    decreases p,
{
    proof {
        lemma_prop_or_spread_view(p);
        assert(exprs_view(v@) + Seq::<ExprV>::empty() =~= exprs_view(v@));
    }
    match p {
        PropOrSpread::Spread(x) => add_effects(v, *x),
        PropOrSpread::Prop(prop) => {
            proof {
                lemma_prop_view(*prop);
            }
            match *prop {
                Prop::Shorthand(_) => {},
                Prop::KeyValue { key, value } => {
                    let ghost before = exprs_view(v@);
                    add_key_effects(v, key);
                    add_effects(v, *value);
                    assert(before + effects_of_key(key@) + effects_of(value@) =~= before + (
                    effects_of_key(key@) + effects_of(value@)));
                },
                Prop::Getter { key, .. } => add_key_effects(v, key),
                Prop::Setter { key, .. } => add_key_effects(v, key),
                Prop::Method { key, .. } => add_key_effects(v, key),
            }
        },
    }
}

/// Add the side effects of a property key to `v`.
fn add_key_effects(v: &mut Vec<Expr>, key: PropName)
    ensures
        exprs_view(final(v)@) == exprs_view(old(v)@) + effects_of_key(key@),
    decreases key,
{
    proof {
        lemma_prop_name_view(key);
        assert(exprs_view(v@) + Seq::<ExprV>::empty() =~= exprs_view(v@));
    }
    match key {
        PropName::Computed(e) => add_effects(v, *e),
        _ => {},
    }
}

/// Add the side effects of each expression of `exprs` to `v`.
fn add_all_effects(v: &mut Vec<Expr>, exprs: Vec<Expr>)
    ensures
        exprs_view(final(v)@) == exprs_view(old(v)@) + effects_of_all(exprs_view(exprs@)),
{
    let ghost before = exprs_view(v@);
    let ghost items = exprs_view(exprs@);
    proof {
        lemma_exprs_view(exprs@);
        assert(items.take(0) =~= Seq::<ExprV>::empty());
        assert(before + Seq::<ExprV>::empty() =~= before);
    }
    let ghost all = exprs@;
    for x in it: exprs
        invariant
            it.seq() == all,
            items.len() == all.len(),
            forall|j: int| 0 <= j < all.len() ==> (#[trigger] items[j]) == all[j]@,
            exprs_view(v@) == before + effects_of_all(items.take(it.index() as int)),
    {
        let ghost i = it.index() as int;
        proof {
            assert(items.take(i + 1).drop_last() =~= items.take(i));
            assert(items.take(i + 1).last() == items[i]);
        }
        add_effects(v, x);
        assert(before + effects_of_all(items.take(i)) + effects_of(items[i]) =~= before + (
        effects_of_all(items.take(i)) + effects_of(items[i])));
    }
    proof {
        assert(items.take(items.len() as int) =~= items);
    }
}

/// Make a new expression which evaluates `val` preserving side effects, if any.
pub fn preserve_effects(val: Expr, exprs: Vec<Expr>) -> (r: Expr)
    ensures
        r@ == preserved(val@, exprs_view(exprs@)),
{
    let mut fx: Vec<Expr> = Vec::new();
    proof {
        lemma_exprs_view(fx@);
        assert(exprs_view(fx@) =~= Seq::<ExprV>::empty());
    }
    add_all_effects(&mut fx, exprs);
    proof {
        assert(Seq::<ExprV>::empty() + effects_of_all(exprs_view(exprs@)) =~= effects_of_all(
            exprs_view(exprs@),
        ));
        lemma_exprs_view(fx@);
    }
    if fx.len() == 0 {
        val
    } else {
        let r = Expr::Sequence { init: fx, last: Box::new(val) };
        proof {
            lemma_expr_view(r);
        }
        r
    }
}

/// Computes [`as_sequence`].
fn sequence_of(fx: Vec<Expr>) -> (r: Option<Expr>)
    ensures
        match r {
            Some(x) => as_sequence(exprs_view(fx@)) == Some(x@),
            None => as_sequence(exprs_view(fx@)) is None,
        },
{
    let mut fx = fx;
    let ghost all = fx@;
    proof {
        lemma_exprs_view(all);
    }
    match fx.pop() {
        Some(last) => {
            let r = Expr::Sequence { init: fx, last: Box::new(last) };
            proof {
                lemma_expr_view(r);
                lemma_exprs_view_subrange(all, 0, all.len() - 1);
                assert(all.subrange(0, all.len() - 1) =~= fx@);
            }
            Some(r)
        },
        None => None,
    }
}

/// Computes [`as_array`].
fn array_of(elems: Vec<Option<ExprOrSpread>>) -> (r: Option<Expr>)
    ensures
        match r {
            Some(x) => as_array(opt_expr_or_spreads_view(elems@)) == Some(x@),
            None => as_array(opt_expr_or_spreads_view(elems@)) is None,
        },
{
    proof {
        lemma_opt_expr_or_spreads_view(elems@);
    }
    if elems.len() == 0 {
        None
    } else {
        let r = Expr::Array(elems);
        proof {
            lemma_expr_view(r);
        }
        Some(r)
    }
}

/// Adds to `out` what has to stay of the element `el`.
fn keep_element(out: &mut Vec<Option<ExprOrSpread>>, el: ExprOrSpread)
    ensures
        opt_expr_or_spreads_view(final(out)@) == opt_expr_or_spreads_view(old(out)@) + kept_element(
            el@,
        ),
    decreases el,
{
    let ghost before = opt_expr_or_spreads_view(out@);
    proof {
        lemma_expr_or_spread_view(el);
        assert(before + Seq::<Option<ExprOrSpreadV>>::empty() =~= before);
    }
    if el.spread {
        proof {
            lemma_opt_expr_or_spreads_view_push(out@, Some(el));
            assert(before + seq![Some(el@)] =~= before.push(Some(el@)));
        }
        out.push(Some(el));
    } else {
        match ignore_result(el.expr) {
            Some(x) => {
                let kept = ExprOrSpread { spread: false, expr: x };
                proof {
                    lemma_expr_or_spread_view(kept);
                    lemma_opt_expr_or_spreads_view_push(out@, Some(kept));
                    assert(before + seq![Some(kept@)] =~= before.push(Some(kept@)));
                }
                out.push(Some(kept));
            },
            None => {},
        }
    }
}

/// Ignores the result.
///
/// Returns
///  - `Some` if `e` has a side effect.
///  - `None` if `e` does not have a side effect.
pub fn ignore_result(e: Expr) -> (r: Option<Expr>)
    ensures
        match r {
            Some(x) => ignored(e@) == Some(x@),
            None => ignored(e@) is None,
        },
    decreases e,
{
    proof {
        lemma_expr_view(e);
    }
    let pure_call = match &e {
        Expr::Call { callee, .. } => {
            proof {
                lemma_expr_or_super_view(*callee);
            }
            match callee {
                ExprOrSuper::Expr(c) => is_pure_callee_impl(c),
                ExprOrSuper::Super => false,
            }
        },
        Expr::TaggedTpl { tag, .. } => is_pure_callee_impl(tag),
        _ => false,
    };
    match e {
        Expr::Lit(_) | Expr::Ident(_) => None,
        Expr::Paren(x) => ignore_result(*x),
        Expr::Bin { op, left, right } => {
            if op == BinaryOp::LogicalAnd || op == BinaryOp::LogicalOr {
                return Some(Expr::Bin { op, left, right });
            }
            let l = ignore_result(*left);
            let r = ignore_result(*right);
            match (l, r) {
                (Some(l), Some(r)) => {
                    let mut fx: Vec<Expr> = Vec::new();
                    proof {
                        lemma_exprs_view(fx@);
                        assert(exprs_view(fx@) =~= Seq::<ExprV>::empty());
                        assert(Seq::<ExprV>::empty() + effects_of(l@) =~= effects_of(l@));
                    }
                    add_effects(&mut fx, l);
                    add_effects(&mut fx, r);
                    sequence_of(fx)
                },
                (Some(l), None) => Some(l),
                (None, Some(r)) => Some(r),
                (None, None) => None,
            }
        },
        Expr::Unary { op, arg } => match op {
            UnaryOp::Void | UnaryOp::TypeOf | UnaryOp::Plus | UnaryOp::Minus | UnaryOp::Bang
            | UnaryOp::Tilde => ignore_result(*arg),
            UnaryOp::Delete => Some(Expr::Unary { op, arg }),
        },
        Expr::Array(elems) => {
            let ghost items = e@->Array_0;
            let mut out: Vec<Option<ExprOrSpread>> = Vec::new();
            proof {
                lemma_opt_expr_or_spreads_view(elems@);
                lemma_opt_expr_or_spreads_view(out@);
                assert(opt_expr_or_spreads_view(out@) =~= Seq::<Option<ExprOrSpreadV>>::empty());
                assert(items.take(0) =~= Seq::<Option<ExprOrSpreadV>>::empty());
            }
            let ghost all = elems@;
            for el in it: elems
                invariant
                    it.seq() == all,
                    e matches Expr::Array(w) && w@ == all,
                    items.len() == all.len(),
                    forall|j: int|
                        0 <= j < all.len() ==> (#[trigger] items[j]) == (match all[j] {
                            Some(x) => Some(x@),
                            None => None,
                        }),
                    opt_expr_or_spreads_view(out@) == kept_elements(
                        items.take(it.index() as int),
                    ),
            {
                let ghost i = it.index() as int;
                let ghost mid = opt_expr_or_spreads_view(out@);
                proof {
                    assert(items.take(i + 1).drop_last() =~= items.take(i));
                    assert(items.take(i + 1).last() == items[i]);
                    assert(mid + Seq::<Option<ExprOrSpreadV>>::empty() =~= mid);
                }
                match el {
                    Some(x) => keep_element(&mut out, x),
                    None => {},
                }
            }
            proof {
                assert(items.take(items.len() as int) =~= items);
            }
            array_of(out)
        },
        Expr::Object(props) => {
            proof {
                lemma_prop_or_spreads_view(props@);
            }
            if props.len() == 0 {
                None
            } else {
                Some(Expr::Object(props))
            }
        },
        Expr::Call { callee, args } => {
            if !pure_call {
                return Some(Expr::Call { callee, args });
            }
            let ghost items = e@->Call_args;
            let mut out: Vec<Option<ExprOrSpread>> = Vec::new();
            proof {
                lemma_expr_or_spreads_view(args@);
                lemma_opt_expr_or_spreads_view(out@);
                assert(opt_expr_or_spreads_view(out@) =~= Seq::<Option<ExprOrSpreadV>>::empty());
                assert(items.take(0) =~= Seq::<ExprOrSpreadV>::empty());
            }
            let ghost all = args@;
            for el in it: args
                invariant
                    it.seq() == all,
                    e matches Expr::Call { args: w, .. } && w@ == all,
                    items.len() == all.len(),
                    forall|j: int| 0 <= j < all.len() ==> (#[trigger] items[j]) == all[j]@,
                    opt_expr_or_spreads_view(out@) == kept_args(items.take(it.index() as int)),
            {
                let ghost i = it.index() as int;
                proof {
                    assert(items.take(i + 1).drop_last() =~= items.take(i));
                    assert(items.take(i + 1).last() == items[i]);
                }
                keep_element(&mut out, el);
            }
            proof {
                assert(items.take(items.len() as int) =~= items);
            }
            array_of(out)
        },
        Expr::TaggedTpl { tag, tpl } => {
            if !pure_call {
                return Some(Expr::TaggedTpl { tag, tpl });
            }
            proof {
                lemma_tpl_view(tpl);
            }
            let mut fx: Vec<Expr> = Vec::new();
            proof {
                lemma_exprs_view(fx@);
                assert(exprs_view(fx@) =~= Seq::<ExprV>::empty());
                assert(Seq::<ExprV>::empty() + effects_of_all(exprs_view(tpl.exprs@))
                    =~= effects_of_all(exprs_view(tpl.exprs@)));
            }
            add_all_effects(&mut fx, tpl.exprs);
            sequence_of(fx)
        },
        // Function expressions are useless if they are not used.
        Expr::Fn { .. } => None,
        Expr::Sequence { init, last } => match ignore_result(*last) {
            Some(l) => {
                let r = Expr::Sequence { init, last: Box::new(l) };
                proof {
                    lemma_expr_view(r);
                }
                Some(r)
            },
            None => sequence_of(init),
        },
        _ => Some(e),
    }
}

} // verus!
