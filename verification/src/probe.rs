//! Questions about a tree that a walk over it answers.

use vstd::prelude::*;
use crate::ast::{Expr, Ident, ObjectPatProp, Pat, Stmt};
use crate::model::{ExprV, IdentV, ObjectPatPropV, PatV};
use crate::occurs::{collect_stmts, occurrences_in_stmts};
use crate::rest_walk::{gather_rest_pats, rest_pats_in_pats};
use crate::text::str_eq;
use crate::this_walk::{gather_this_stmts, this_exprs_in_stmts};
use crate::usage::{occurrences_view, Mark, Occurrence, OccurrenceV};
use crate::view::{
    lemma_expr_view, lemma_object_pat_prop_view, lemma_pat_view, pats_view, stmts_view,
};

verus! {

/// What a walk looks for.
#[derive(Debug, Clone, Copy, PartialEq, Eq, Structural)]
pub enum Sight {
    /// The expression `this`.
    This,
    /// A rest pattern: `...rest`.
    Rest,
}

/// The model of a list of sights: the list itself.
pub open spec fn sights_view(s: Seq<Sight>) -> Seq<Sight> {
    s
}

/// What an expression itself shows of `this`.
pub open spec fn this_of(e: ExprV) -> Seq<Sight> {
    match e {
        ExprV::This => seq![Sight::This],
        _ => Seq::empty(),
    }
}

/// What a pattern itself shows of rest patterns.
pub open spec fn rest_of_pat(p: PatV) -> Seq<Sight> {
    match p {
        PatV::Rest(_) => seq![Sight::Rest],
        _ => Seq::empty(),
    }
}

/// What a property of an object pattern itself shows of rest patterns.
pub open spec fn rest_of_object_pat_prop(p: ObjectPatPropV) -> Seq<Sight> {
    match p {
        ObjectPatPropV::Rest(_) => seq![Sight::Rest],
        _ => Seq::empty(),
    }
}

/// Adds [`this_of`] the expression to `out`.
pub fn note_this(e: &Expr, out: &mut Vec<Sight>)
    ensures
        sights_view(final(out)@) == sights_view(old(out)@) + this_of(e@),
{
    proof {
        lemma_expr_view(*e);
        assert(out@ + Seq::<Sight>::empty() =~= out@);
        assert(out@ + seq![Sight::This] =~= out@.push(Sight::This));
    }
    match e {
        Expr::This => out.push(Sight::This),
        _ => {},
    }
}

/// Adds [`rest_of_pat`] the pattern to `out`.
pub fn note_rest_pat(p: &Pat, out: &mut Vec<Sight>)
    ensures
        sights_view(final(out)@) == sights_view(old(out)@) + rest_of_pat(p@),
{
    proof {
        lemma_pat_view(*p);
        assert(out@ + Seq::<Sight>::empty() =~= out@);
        assert(out@ + seq![Sight::Rest] =~= out@.push(Sight::Rest));
    }
    match p {
        Pat::Rest(_) => out.push(Sight::Rest),
        _ => {},
    }
}

/// Adds [`rest_of_object_pat_prop`] the property to `out`.
pub fn note_rest_object_pat_prop(p: &ObjectPatProp, out: &mut Vec<Sight>)
    ensures
        sights_view(final(out)@) == sights_view(old(out)@) + rest_of_object_pat_prop(p@),
{
    proof {
        lemma_object_pat_prop_view(*p);
        assert(out@ + Seq::<Sight>::empty() =~= out@);
        assert(out@ + seq![Sight::Rest] =~= out@.push(Sight::Rest));
    }
    match p {
        ObjectPatProp::Rest(_) => out.push(Sight::Rest),
        _ => {},
    }
}

/// Whether `this` stands in the statements, outside the functions and
/// constructors among them.
pub fn contains_this_expr(body: &Vec<Stmt>) -> (r: bool)
    ensures
        r == (this_exprs_in_stmts(stmts_view(body@)).len() > 0),
{
    let mut out: Vec<Sight> = Vec::new();
    gather_this_stmts(body, &mut out);
    proof {
        let found = this_exprs_in_stmts(stmts_view(body@));
        assert(Seq::<Sight>::empty() + found =~= found);
    }
    out.len() > 0
}

/// Whether a rest pattern stands in the patterns, at any depth.
pub fn has_rest_pat(pats: &Vec<Pat>) -> (r: bool)
    ensures
        r == (rest_pats_in_pats(pats_view(pats@)).len() > 0),
{
    let mut out: Vec<Sight> = Vec::new();
    gather_rest_pats(pats, &mut out);
    proof {
        let found = rest_pats_in_pats(pats_view(pats@));
        assert(Seq::<Sight>::empty() + found =~= found);
    }
    out.len() > 0
}

/// Whether one of the occurrences is of the binding; with `reads_only`,
/// whether one of them reads it.
pub open spec fn occurs_among(occs: Seq<OccurrenceV>, id: IdentV, reads_only: bool) -> bool {
    exists|i: int|
        0 <= i < occs.len() && (#[trigger] occs[i]).id == id && (reads_only ==> occs[i].mark
            is Read)
}

/// Decides [`occurs_among`].
pub fn occurs_among_impl(occs: &Vec<Occurrence>, id: &Ident, reads_only: bool) -> (r: bool)
    ensures
        r == occurs_among(occurrences_view(occs@), id@, reads_only),
{
    let ghost all = occurrences_view(occs@);
    let mut i: usize = 0;
    while i < occs.len()
        invariant
            i <= occs.len(),
            all == occurrences_view(occs@),
            forall|j: int|
                0 <= j < i ==> !((#[trigger] all[j]).id == id@ && (reads_only ==> all[j].mark
                    is Read)),
        decreases occs.len() - i,
    {
        let o = &occs[i];
        assert(all[i as int] == o@);
        let is_read = match &o.mark {
            Mark::Read => true,
            _ => false,
        };
        if o.id.ctxt == id.ctxt && str_eq(o.id.sym.as_str(), id.sym.as_str()) && (!reads_only
            || is_read) {
            return true;
        }
        i += 1;
    }
    false
}

/// Whether the statements refer to the binding: an expression of theirs, at
/// any depth, reads it.
pub fn contains_ident_ref(body: &Vec<Stmt>, ident: &Ident) -> (r: bool)
    ensures
        r == occurs_among(occurrences_in_stmts(stmts_view(body@)), ident@, true),
{
    let mut occs: Vec<Occurrence> = Vec::new();
    assert(occurrences_view(occs@) =~= Seq::<OccurrenceV>::empty());
    collect_stmts(body, &mut occs);
    proof {
        let found = occurrences_in_stmts(stmts_view(body@));
        assert(Seq::<OccurrenceV>::empty() + found =~= found);
    }
    occurs_among_impl(&occs, ident, true)
}

/// Finds the places that name a binding.
pub struct UsageFinder {}

impl UsageFinder {
    /// Whether the statements name the binding at all: to declare it, to
    /// write to it or to read it.
    pub fn find(ident: &Ident, node: &Vec<Stmt>) -> (r: bool)
        ensures
            r == occurs_among(occurrences_in_stmts(stmts_view(node@)), ident@, false),
    {
        let mut occs: Vec<Occurrence> = Vec::new();
        assert(occurrences_view(occs@) =~= Seq::<OccurrenceV>::empty());
        collect_stmts(node, &mut occs);
        proof {
            let found = occurrences_in_stmts(stmts_view(node@));
            assert(Seq::<OccurrenceV>::empty() + found =~= found);
        }
        occurs_among_impl(&occs, ident, false)
    }
}

} // verus!
