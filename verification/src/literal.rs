//! Which expressions are literals that can be copied around, and what a copy costs.

use vstd::prelude::*;
use crate::ast::{Expr, Lit, Prop, PropName, PropOrSpread, TsCast};
use crate::model::{ExprOrSpreadV, ExprV, LitV, PropNameV, PropOrSpreadV, PropV};
use crate::number::{infinite, integral, is_infinite, is_integral};
use crate::text::byte_len;
use crate::view::{
    lemma_expr_or_spread_view, lemma_expr_view, lemma_exprs_view, lemma_opt_expr_or_spreads_view,
    lemma_prop_name_view, lemma_prop_or_spread_view, lemma_prop_or_spreads_view, lemma_prop_view,
    lemma_tpl_view,
};

verus! {

/// What the walk over a subtree has found so far.
pub struct Tally {
    /// Whether everything seen so far can stand in a literal.
    pub is_lit: bool,
    /// What writing out what was seen so far costs.
    pub cost: nat,
}

/// The tally once something was seen that cannot stand in a literal.
pub open spec fn fail(t: Tally) -> Tally {
    Tally { is_lit: false, cost: t.cost }
}

/// The tally with a higher cost.
pub open spec fn charge(t: Tally, by: nat) -> Tally {
    Tally { is_lit: t.is_lit, cost: t.cost + by }
}

/// The tally after `e`. Once the tally has failed it stays as it is.
///
/// Identifiers, regular expressions, templates with expressions in them and
/// every form that computes something fail it. An array costs 2 and 1 for each
/// of its elements; a hole fails where values outside JSON are not allowed,
/// and so does an infinite number.
pub open spec fn tally_expr(e: ExprV, allow_non_json_value: bool, t: Tally) -> Tally
    decreases e,
{
    if !t.is_lit {
        t
    } else {
        match e {
            ExprV::Lit(LitV::Regex(_)) => fail(t),
            ExprV::Lit(LitV::Num(n)) => if !allow_non_json_value && is_infinite(n.bits) {
                fail(t)
            } else {
                t
            },
            ExprV::Lit(_) => t,
            ExprV::Tpl(tpl) => if tpl.exprs.len() > 0 {
                fail(t)
            } else {
                t
            },
            ExprV::Paren(x) => tally_expr(*x, allow_non_json_value, t),
            ExprV::Ts { cast, expr } => if cast == TsCast::TypeCast || cast == TsCast::As {
                tally_expr(*expr, allow_non_json_value, t)
            } else {
                fail(t)
            },
            ExprV::Array(elems) => {
                let after = tally_elements(
                    elems,
                    allow_non_json_value,
                    charge(t, 2 + elems.len()),
                );
                if !allow_non_json_value && has_hole(elems) {
                    fail(after)
                } else {
                    after
                }
            },
            ExprV::Object(props) => tally_members(props, allow_non_json_value, t),
            _ => fail(t),
        }
    }
}

/// Whether one of the elements is a hole.
pub open spec fn has_hole(elems: Seq<Option<ExprOrSpreadV>>) -> bool {
    exists|i: int| 0 <= i < elems.len() && (#[trigger] elems[i]) is None
}

/// The tally after the elements of an array literal: a spread fails it.
pub open spec fn tally_elements(
    s: Seq<Option<ExprOrSpreadV>>,
    allow_non_json_value: bool,
    t: Tally,
) -> Tally
    decreases s,
{
    if s.len() == 0 {
        t
    } else {
        let before = tally_elements(s.drop_last(), allow_non_json_value, t);
        match s.last() {
            Some(el) => if !before.is_lit {
                before
            } else if el.spread {
                fail(before)
            } else {
                tally_expr(el.expr, allow_non_json_value, before)
            },
            None => before,
        }
    }
}

/// The tally after the members of an object literal.
pub open spec fn tally_members(s: Seq<PropOrSpreadV>, allow_non_json_value: bool, t: Tally) -> Tally
    decreases s,
{
    if s.len() == 0 {
        t
    } else {
        tally_member(
            s.last(),
            allow_non_json_value,
            tally_members(s.drop_last(), allow_non_json_value, t),
        )
    }
}

/// The tally after one member of an object literal: a property with a key and
/// a value costs what its key and its value cost and 1, also where one of
/// them fails the tally; every other member fails the tally.
pub open spec fn tally_member(p: PropOrSpreadV, allow_non_json_value: bool, t: Tally) -> Tally
    decreases p,
{
    if !t.is_lit {
        t
    } else {
        match p {
            PropOrSpreadV::Spread(_) => fail(t),
            PropOrSpreadV::Prop(prop) => match *prop {
                PropV::KeyValue { key, value } => {
                    charge(
                        tally_expr(
                            *value,
                            allow_non_json_value,
                            tally_key(key, allow_non_json_value, t),
                        ),
                        1,
                    )
                },
                _ => fail(t),
            },
        }
    }
}

/// The tally after a property key: a name or a string costs 2 and its length
/// in bytes, a whole number costs 5, and every other key fails the tally.
pub open spec fn tally_key(key: PropNameV, allow_non_json_value: bool, t: Tally) -> Tally {
    if !t.is_lit {
        t
    } else {
        match key {
            PropNameV::Str(s) => charge(t, 2 + byte_len(s.value)),
            PropNameV::Ident(i) => charge(t, 2 + byte_len(i.sym)),
            PropNameV::Num(n) => if is_integral(n.bits) {
                charge(t, 5)
            } else {
                fail(t)
            },
            PropNameV::Computed(_) => fail(t),
        }
    }
}

/// Whether `e` is a literal, and what writing it out costs.
pub open spec fn literal_cost(e: ExprV, allow_non_json_value: bool) -> Tally {
    tally_expr(e, allow_non_json_value, Tally { is_lit: true, cost: 0 })
}

/// Whether `e` is a literal, values outside JSON allowed.
pub open spec fn is_literal_expr(e: ExprV) -> bool {
    literal_cost(e, true).is_lit
}

/// A cost as a machine number: the largest one where it does not fit.
pub open spec fn clipped(cost: nat) -> usize {
    if cost <= usize::MAX {
        cost as usize
    } else {
        usize::MAX
    }
}

/// A tally with its cost as a machine number.
struct Count {
    is_lit: bool,
    cost: usize,
}

impl Count {
    spec fn stands_for(&self, t: Tally) -> bool {
        self.is_lit == t.is_lit && self.cost == clipped(t.cost)
    }

    fn fail(&mut self, Ghost(t): Ghost<Tally>)
        requires
            old(self).stands_for(t),
        ensures
            final(self).stands_for(fail(t)),
    {
        self.is_lit = false;
    }

    fn charge(&mut self, by: usize, Ghost(t): Ghost<Tally>)
        requires
            old(self).stands_for(t),
        ensures
            final(self).stands_for(charge(t, by as nat)),
    {
        self.cost = self.cost.saturating_add(by);
    }
}

/// Computes [`tally_expr`].
fn count_expr(e: &Expr, allow_non_json_value: bool, c: &mut Count, Ghost(t): Ghost<Tally>)
    requires
        old(c).stands_for(t),
    ensures
        final(c).stands_for(tally_expr(e@, allow_non_json_value, t)),
    decreases e,
{
    proof {
        lemma_expr_view(*e);
    }
    if !c.is_lit {
        return ;
    }
    match e {
        Expr::Lit(Lit::Regex(_)) => c.fail(Ghost(t)),
        Expr::Lit(Lit::Num(n)) => {
            if !allow_non_json_value && infinite(n.bits) {
                c.fail(Ghost(t));
            }
        },
        Expr::Lit(_) => {},
        Expr::Tpl(tpl) => {
            proof {
                lemma_tpl_view(*tpl);
                lemma_exprs_view(tpl.exprs@);
            }
            if tpl.exprs.len() > 0 {
                c.fail(Ghost(t));
            }
        },
        Expr::Paren(x) => count_expr(x, allow_non_json_value, c, Ghost(t)),
        Expr::Ts { cast, expr } => match cast {
            TsCast::TypeCast | TsCast::As => count_expr(expr, allow_non_json_value, c, Ghost(t)),
            _ => c.fail(Ghost(t)),
        },
        Expr::Array(elems) => {
            let ghost items = e@->Array_0;
            proof {
                lemma_opt_expr_or_spreads_view(elems@);
            }
            c.charge(2, Ghost(t));
            c.charge(elems.len(), Ghost(charge(t, 2)));
            let ghost start = charge(t, 2 + items.len());
            assert(charge(charge(t, 2), elems.len() as nat) == start);
            let mut hole = false;
            let mut i: usize = 0;
            assert(items.take(0) =~= Seq::<Option<ExprOrSpreadV>>::empty());
            while i < elems.len()
                invariant
                    i <= elems.len(),
                    *e matches Expr::Array(w) && w == *elems,
                    items.len() == elems@.len(),
                    forall|j: int|
                        0 <= j < elems@.len() ==> (#[trigger] items[j]) == (match elems@[j] {
                            Some(x) => Some(x@),
                            None => None,
                        }),
                    c.stands_for(tally_elements(items.take(i as int), allow_non_json_value, start)),
                    hole == has_hole(items.take(i as int)),
                decreases elems.len() - i,
            {
                let ghost head = items.take(i as int);
                let ghost next = items.take(i + 1);
                let ghost before = tally_elements(head, allow_non_json_value, start);
                proof {
                    assert(next.drop_last() =~= head);
                    assert(next.last() == items[i as int]);
                    if has_hole(head) {
                        let k = choose|k: int| 0 <= k < head.len() && (#[trigger] head[k]) is None;
                        assert(next[k] is None);
                    }
                    if has_hole(next) && !has_hole(head) {
                        let k = choose|k: int| 0 <= k < next.len() && (#[trigger] next[k]) is None;
                        if k < i {
                            assert(head[k] is None);
                        }
                    }
                }
                match &elems[i] {
                    Some(el) => {
                        proof {
                            lemma_expr_or_spread_view(*el);
                        }
                        if c.is_lit {
                            if el.spread {
                                c.fail(Ghost(before));
                            } else {
                                count_expr(&el.expr, allow_non_json_value, c, Ghost(before));
                            }
                        }
                    },
                    None => {
                        hole = true;
                        assert(next[i as int] is None);
                    },
                }
                i += 1;
            }
            assert(items.take(i as int) =~= items);
            if !allow_non_json_value && hole {
                c.fail(Ghost(tally_elements(items, allow_non_json_value, start)));
            }
        },
        Expr::Object(props) => {
            let ghost items = e@->Object_0;
            proof {
                lemma_prop_or_spreads_view(props@);
            }
            let mut i: usize = 0;
            assert(items.take(0) =~= Seq::<PropOrSpreadV>::empty());
            while i < props.len()
                invariant
                    i <= props.len(),
                    *e matches Expr::Object(w) && w == *props,
                    items.len() == props@.len(),
                    forall|j: int| 0 <= j < props@.len() ==> (#[trigger] items[j]) == props@[j]@,
                    c.stands_for(tally_members(items.take(i as int), allow_non_json_value, t)),
                decreases props.len() - i,
            {
                let ghost head = items.take(i as int);
                let ghost next = items.take(i + 1);
                proof {
                    assert(next.drop_last() =~= head);
                    assert(next.last() == items[i as int]);
                }
                count_member(
                    &props[i],
                    allow_non_json_value,
                    c,
                    Ghost(tally_members(head, allow_non_json_value, t)),
                );
                i += 1;
            }
            assert(items.take(i as int) =~= items);
        },
        _ => c.fail(Ghost(t)),
    }
}

/// Computes [`tally_member`].
fn count_member(p: &PropOrSpread, allow_non_json_value: bool, c: &mut Count, Ghost(t): Ghost<Tally>)
    requires
        old(c).stands_for(t),
    ensures
        final(c).stands_for(tally_member(p@, allow_non_json_value, t)),
    decreases p,
{
    proof {
        lemma_prop_or_spread_view(*p);
    }
    if !c.is_lit {
        return ;
    }
    match p {
        PropOrSpread::Spread(_) => c.fail(Ghost(t)),
        PropOrSpread::Prop(prop) => {
            proof {
                lemma_prop_view(**prop);
            }
            match &**prop {
                Prop::KeyValue { key, value } => {
                    count_key(key, allow_non_json_value, c, Ghost(t));
                    let ghost t1 = tally_key(key@, allow_non_json_value, t);
                    count_expr(value, allow_non_json_value, c, Ghost(t1));
                    c.charge(1, Ghost(tally_expr(value@, allow_non_json_value, t1)));
                },
                _ => c.fail(Ghost(t)),
            }
        },
    }
}

/// Computes [`tally_key`].
fn count_key(key: &PropName, allow_non_json_value: bool, c: &mut Count, Ghost(t): Ghost<Tally>)
    requires
        old(c).stands_for(t),
    ensures
        final(c).stands_for(tally_key(key@, allow_non_json_value, t)),
{
    proof {
        lemma_prop_name_view(*key);
    }
    if !c.is_lit {
        return ;
    }
    match key {
        PropName::Str(s) => {
            let len = s.value.as_str().as_bytes().len();
            assert(len == byte_len(s.value@));
            c.charge(2, Ghost(t));
            c.charge(len, Ghost(charge(t, 2)));
            assert(charge(charge(t, 2), byte_len(s.value@)) == charge(t, 2 + byte_len(s.value@)));
        },
        PropName::Ident(i) => {
            let len = i.sym.as_str().as_bytes().len();
            assert(len == byte_len(i.sym@));
            c.charge(2, Ghost(t));
            c.charge(len, Ghost(charge(t, 2)));
            assert(charge(charge(t, 2), byte_len(i.sym@)) == charge(t, 2 + byte_len(i.sym@)));
        },
        PropName::Num(n) => {
            if integral(n.bits) {
                c.charge(5, Ghost(t));
            } else {
                c.fail(Ghost(t));
            }
        },
        PropName::Computed(_) => c.fail(Ghost(t)),
    }
}

/// Whether `e` is a literal and what writing it out costs: see [`literal_cost`].
pub fn calc_literal_cost(e: &Expr, allow_non_json_value: bool) -> (r: (bool, usize))
    ensures
        r.0 == literal_cost(e@, allow_non_json_value).is_lit,
        r.1 == clipped(literal_cost(e@, allow_non_json_value).cost),
{
    let mut c = Count { is_lit: true, cost: 0 };
    count_expr(e, allow_non_json_value, &mut c, Ghost(Tally { is_lit: true, cost: 0 }));
    (c.is_lit, c.cost)
}

/// Whether `e` is a literal, values outside JSON allowed.
pub fn is_literal(e: &Expr) -> (r: bool)
    ensures
        r == is_literal_expr(e@),
{
    calc_literal_cost(e, true).0
}

} // verus!
