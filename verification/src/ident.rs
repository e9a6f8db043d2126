//! Identifiers: the bindings they stand for and the names made from them.

use vstd::prelude::*;
use crate::ast::{Expr, Ident, MemberProp};
use crate::model::{ExprV, IdentV, MemberPropV};
use crate::text::chars_of;
use crate::view::{lemma_expr_view, lemma_member_prop_view};

verus! {

/// A binding: a name and the scope it was resolved in.
pub type Id = (String, u32);

/// The binding that an identifier stands for.
pub fn id(i: &Ident) -> (r: Id)
    ensures
        r.0@ == i@.sym,
        r.1 == i@.ctxt,
{
    (i.sym.clone(), i.ctxt)
}

/// Whether a character can begin an identifier, as `unicode_xid` decides it.
pub uninterp spec fn is_xid_start(c: char) -> bool;

/// Whether a character can continue an identifier, as `unicode_xid` decides it.
pub uninterp spec fn is_xid_continue(c: char) -> bool;

/// `UnicodeXID::is_xid_start` of `unicode_xid`: whether the character has the
/// Unicode property `XID_Start`. The answer depends on the character alone.
#[verifier::external_body]
fn xid_start(c: char) -> (r: bool)
    ensures
        r == is_xid_start(c),
{
    unicode_xid::UnicodeXID::is_xid_start(c)
}

/// `UnicodeXID::is_xid_continue` of `unicode_xid`: whether the character has
/// the Unicode property `XID_Continue`. The answer depends on the character alone.
#[verifier::external_body]
fn xid_continue(c: char) -> (r: bool)
    ensures
        r == is_xid_continue(c),
{
    unicode_xid::UnicodeXID::is_xid_continue(c)
}

/// Whether a name can be written as an identifier: it is not empty, begins
/// with a character that can begin one and goes on with characters that can
/// continue one.
pub open spec fn is_identifier(s: Seq<char>) -> bool {
    &&& s.len() > 0
    &&& is_xid_start(s[0])
    &&& forall|i: int| 1 <= i < s.len() ==> is_xid_continue(#[trigger] s[i])
}

/// Decides [`is_identifier`].
pub fn is_valid_ident(s: &str) -> (r: bool)
    ensures
        r == is_identifier(s@),
{
    let cs = chars_of(s);
    if cs.len() == 0 {
        return false;
    }
    if !xid_start(cs[0]) {
        return false;
    }
    let mut i: usize = 1;
    while i < cs.len()
        invariant
            1 <= i <= cs.len(),
            cs@ == s@,
            forall|j: int| 1 <= j < i ==> is_xid_continue(#[trigger] cs@[j]),
        decreases cs.len() - i,
    {
        if !xid_continue(cs[i]) {
            return false;
        }
        i += 1;
    }
    true
}

/// The name that stands for the value of `e`: `_name` for the identifier
/// `name` and for a member of that name, and `default` for anything else.
pub open spec fn alias_name(e: ExprV, default: Seq<char>) -> Seq<char>
    decreases e,
{
    match e {
        ExprV::Ident(i) => seq!['_'] + i.sym,
        ExprV::Member { prop: MemberPropV::Ident(i), .. } => seq!['_'] + i.sym,
        ExprV::Member { prop: MemberPropV::Computed(x), .. } => alias_name(*x, default),
        _ => default,
    }
}

/// Computes [`alias_name`].
fn alias_name_impl(e: &Expr, default: &str) -> (r: String)
    ensures
        r@ == alias_name(e@, default@),
    decreases e,
{
    proof {
        lemma_expr_view(*e);
        reveal_strlit("_");
        assert("_"@ =~= seq!['_']);
    }
    match e {
        Expr::Ident(i) => String::from_str("_").concat(i.sym.as_str()),
        Expr::Member { prop, .. } => {
            proof {
                lemma_member_prop_view(*prop);
            }
            match prop {
                MemberProp::Ident(i) => String::from_str("_").concat(i.sym.as_str()),
                MemberProp::Computed(x) => alias_name_impl(x, default),
            }
        },
        _ => String::from_str(default),
    }
}

/// Used to determine super_class_ident: an identifier named after `e`, in the
/// scope `fresh`, which the caller has made for it.
pub fn alias_ident_for(e: &Expr, default: &str, fresh: u32) -> (r: Ident)
    ensures
        r@ == (IdentV { sym: alias_name(e@, default@), ctxt: fresh }),
{
    Ident { sym: alias_name_impl(e, default), ctxt: fresh }
}

/// Returns `(ident, aliased)`: an identifier as it is, and an alias for
/// anything else.
pub fn alias_if_required(e: &Expr, default: &str, fresh: u32) -> (r: (Ident, bool))
    ensures
        match e@ {
            ExprV::Ident(i) => r.0@ == i && !r.1,
            _ => r.0@ == (IdentV { sym: alias_name(e@, default@), ctxt: fresh }) && r.1,
        },
{
    proof {
        lemma_expr_view(*e);
    }
    match e {
        Expr::Ident(i) => (Ident { sym: i.sym.clone(), ctxt: i.ctxt }, false),
        _ => (alias_ident_for(e, default, fresh), true),
    }
}

/// Names made from an identifier.
pub trait IdentExt: Sized {
    /// The identifier that the methods speak of.
    spec fn ident(&self) -> IdentV;

    /// The identifier with `prefix` before its name, in the same scope.
    fn prefix(&self, prefix: &str) -> (r: Ident)
        ensures
            r@ == (IdentV { sym: prefix@ + self.ident().sym, ctxt: self.ident().ctxt }),
    ;

    /// The identifier in the scope `fresh`, which the caller has made for it.
    fn private(self, fresh: u32) -> (r: Ident)
        ensures
            r@ == (IdentV { sym: self.ident().sym, ctxt: fresh }),
    ;
}

impl IdentExt for Ident {
    open spec fn ident(&self) -> IdentV {
        self@
    }

    fn prefix(&self, prefix: &str) -> (r: Ident) {
        Ident { sym: String::from_str(prefix).concat(self.sym.as_str()), ctxt: self.ctxt }
    }

    fn private(self, fresh: u32) -> (r: Ident) {
        Ident { sym: self.sym, ctxt: fresh }
    }
}

} // verus!
