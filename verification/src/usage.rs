//! How a tree uses a binding: what each node says of the bindings it names.

use vstd::prelude::*;
use crate::text::{chars_of, holds_text, holds_text_impl};
use crate::ast::{
    Annotation, AssignOp, Decl, Expr, Ident, Lit, Number, ObjectPatProp, Pat, PatOrExpr, Prop,
    Regex, Stmt, Str, VarDecl, VarDeclOrExpr, VarDeclOrPat,
};
use crate::model::{
    DeclV, ExprV, IdentV, LitV, ObjectPatPropV, PatOrExprV, PatV, PropV, StmtV, VarDeclOrExprV,
    VarDeclOrPatV, VarDeclV, VarDeclaratorV,
};
use crate::view::{
    lemma_decl_view, lemma_expr_view, lemma_object_pat_prop_view, lemma_pat_or_expr_view,
    lemma_pat_view, lemma_prop_view, lemma_stmt_view, lemma_var_decl_or_expr_view,
    lemma_var_decl_or_pat_view, lemma_var_decl_view, lemma_var_declarator_view,
    lemma_var_declarators_view,
};

verus! {

/// What an occurrence of a binding does with it.
#[derive(Debug, PartialEq, Eq)]
pub enum Mark {
    /// A variable declaration declares it, with or without an initial value;
    /// `value` is that value where it is a literal other than a regular expression.
    Decl { has_init: bool, value: Option<Lit>, annotation: Annotation },
    /// A plain `=` assigns to it; `value` is what is assigned where that is a
    /// literal other than a regular expression.
    Assign { value: Option<Lit> },
    /// A pattern binds it.
    Bind,
    /// An expression reads it.
    Read,
    /// Something else names it: a function or class declaration, an update,
    /// the head of a loop, a pattern that is no plain name.
    Other,
}

/// An occurrence of a binding.
#[derive(Debug, PartialEq, Eq)]
pub struct Occurrence {
    pub id: Ident,
    pub mark: Mark,
}

/// The model of [`Mark`].
pub enum MarkV {
    Decl { has_init: bool, value: Option<LitV>, annotation: Annotation },
    Assign { value: Option<LitV> },
    Bind,
    Read,
    Other,
}

/// The model of [`Occurrence`].
pub struct OccurrenceV {
    pub id: IdentV,
    pub mark: MarkV,
}

impl View for Mark {
    type V = MarkV;

    open spec fn view(&self) -> MarkV {
        match self {
            Mark::Decl { has_init, value, annotation } => MarkV::Decl {
                has_init: *has_init,
                value: match value {
                    Some(l) => Some(l@),
                    None => None,
                },
                annotation: *annotation,
            },
            Mark::Assign { value } => MarkV::Assign {
                value: match value {
                    Some(l) => Some(l@),
                    None => None,
                },
            },
            Mark::Bind => MarkV::Bind,
            Mark::Read => MarkV::Read,
            Mark::Other => MarkV::Other,
        }
    }
}

impl View for Occurrence {
    type V = OccurrenceV;

    open spec fn view(&self) -> OccurrenceV {
        OccurrenceV { id: self.id@, mark: self.mark@ }
    }
}

/// The model of a list of occurrences.
pub open spec fn occurrences_view(s: Seq<Occurrence>) -> Seq<OccurrenceV> {
    Seq::new(s.len(), |i: int| s[i]@)
}

/// The literal that `e` is, where it is one that can be copied: any literal
/// but a regular expression.
pub open spec fn primitive(e: ExprV) -> Option<LitV> {
    match e {
        ExprV::Lit(LitV::Regex(_)) => None,
        ExprV::Lit(l) => Some(l),
        _ => None,
    }
}

/// One occurrence.
pub open spec fn one(id: IdentV, mark: MarkV) -> Seq<OccurrenceV> {
    seq![OccurrenceV { id, mark }]
}

/// What an expression itself says: a name is read, `name = value` assigns,
/// `name++` and anything else that writes to a name as an expression do
/// something else with it, and so does the own name of a function or class.
pub open spec fn expr_marks(e: ExprV) -> Seq<OccurrenceV> {
    match e {
        ExprV::Ident(i) => one(i, MarkV::Read),
        ExprV::Assign { op, left: PatOrExprV::Pat(p), right } => match *p {
            PatV::Ident(i) => if op == AssignOp::Assign {
                one(i, MarkV::Assign { value: primitive(*right) })
            } else {
                Seq::empty()
            },
            _ => Seq::empty(),
        },
        ExprV::Assign { left: PatOrExprV::Expr(x), .. } => match *x {
            ExprV::Ident(i) => one(i, MarkV::Other),
            _ => Seq::empty(),
        },
        ExprV::Update { arg, .. } => match *arg {
            ExprV::Ident(i) => one(i, MarkV::Other),
            _ => Seq::empty(),
        },
        ExprV::Fn { ident: Some(i), .. } => one(i, MarkV::Other),
        ExprV::Class { ident: Some(i), .. } => one(i, MarkV::Other),
        _ => Seq::empty(),
    }
}

/// What a pattern itself says: a name is bound; a name that stands as an
/// expression is written to.
pub open spec fn pat_marks(p: PatV) -> Seq<OccurrenceV> {
    match p {
        PatV::Ident(i) => one(i, MarkV::Bind),
        PatV::Expr(x) => match *x {
            ExprV::Ident(i) => one(i, MarkV::Other),
            _ => Seq::empty(),
        },
        _ => Seq::empty(),
    }
}

/// What a property of an object pattern itself says: `{ key }` binds `key`.
pub open spec fn object_pat_prop_marks(p: ObjectPatPropV) -> Seq<OccurrenceV> {
    match p {
        ObjectPatPropV::Assign { key, .. } => one(key, MarkV::Other),
        _ => Seq::empty(),
    }
}

/// What a property of an object literal itself says: `{ name }` reads `name`.
pub open spec fn prop_marks(p: PropV) -> Seq<OccurrenceV> {
    match p {
        PropV::Shorthand(i) => one(i, MarkV::Read),
        _ => Seq::empty(),
    }
}

/// What one binding of a variable declaration says: a plain name is declared.
pub open spec fn declarator_mark(d: VarDeclaratorV, annotation: Annotation) -> Seq<OccurrenceV> {
    match d.name {
        PatV::Ident(i) => one(
            i,
            MarkV::Decl {
                has_init: d.init is Some,
                value: match d.init {
                    Some(e) => primitive(*e),
                    None => None,
                },
                annotation,
            },
        ),
        _ => Seq::empty(),
    }
}

/// What the bindings of a variable declaration say.
pub open spec fn declarator_marks(s: Seq<VarDeclaratorV>, annotation: Annotation) -> Seq<
    OccurrenceV,
>
    decreases s.len(),
{
    if s.len() == 0 {
        Seq::empty()
    } else {
        declarator_marks(s.drop_last(), annotation) + declarator_mark(s.last(), annotation)
    }
}

/// What a variable declaration itself says.
pub open spec fn var_decl_marks(d: VarDeclV) -> Seq<OccurrenceV> {
    declarator_marks(d.decls, d.annotation)
}

/// What a declaration itself says: a function or a class declares its name in
/// a way of its own.
pub open spec fn decl_marks(d: DeclV) -> Seq<OccurrenceV> {
    match d {
        DeclV::Fn { ident, .. } => one(ident, MarkV::Other),
        DeclV::Class { ident, .. } => one(ident, MarkV::Other),
        DeclV::Var(_) => Seq::empty(),
    }
}

/// What the head of a loop says of one binding it declares: the loop owns it.
pub open spec fn head_mark(d: VarDeclaratorV) -> Seq<OccurrenceV> {
    match d.name {
        PatV::Ident(i) => one(i, MarkV::Other),
        _ => Seq::empty(),
    }
}

/// What the head of a loop says of the bindings it declares.
pub open spec fn head_marks(s: Seq<VarDeclaratorV>) -> Seq<OccurrenceV>
    decreases s.len(),
{
    if s.len() == 0 {
        Seq::empty()
    } else {
        head_marks(s.drop_last()) + head_mark(s.last())
    }
}

/// What a statement itself says: a loop owns the bindings its head declares.
pub open spec fn stmt_marks(s: StmtV) -> Seq<OccurrenceV> {
    match s {
        StmtV::For { init: Some(VarDeclOrExprV::VarDecl(d)), .. } => head_marks(d.decls),
        StmtV::ForIn { left: VarDeclOrPatV::VarDecl(d), .. } => head_marks(d.decls),
        StmtV::ForOf { left: VarDeclOrPatV::VarDecl(d), .. } => head_marks(d.decls),
        _ => Seq::empty(),
    }
}

/// A copy of an identifier.
pub fn copy_ident(i: &Ident) -> (r: Ident)
    ensures
        r@ == i@,
{
    Ident { sym: i.sym.clone(), ctxt: i.ctxt }
}

/// A copy of a literal.
pub fn copy_lit(l: &Lit) -> (r: Lit)
    ensures
        r@ == l@,
{
    match l {
        Lit::Str(s) => Lit::Str(Str { value: s.value.clone(), has_escape: s.has_escape }),
        Lit::Bool(b) => Lit::Bool(*b),
        Lit::Null => Lit::Null,
        Lit::Num(n) => Lit::Num(Number { bits: n.bits, text: n.text.clone() }),
        Lit::BigInt(d) => Lit::BigInt(d.clone()),
        Lit::Regex(r) => Lit::Regex(Regex { exp: r.exp.clone(), flags: r.flags.clone() }),
    }
}

/// Computes [`primitive`].
pub fn primitive_of(e: &Expr) -> (r: Option<Lit>)
    ensures
        match r {
            Some(l) => primitive(e@) == Some(l@),
            None => primitive(e@) is None,
        },
{
    proof {
        lemma_expr_view(*e);
    }
    match e {
        Expr::Lit(Lit::Regex(_)) => None,
        Expr::Lit(l) => Some(copy_lit(l)),
        _ => None,
    }
}

/// Adds one occurrence to `out`.
fn note(out: &mut Vec<Occurrence>, id: &Ident, mark: Mark)
    ensures
        occurrences_view(final(out)@) == occurrences_view(old(out)@) + one(id@, mark@),
{
    let occ = Occurrence { id: copy_ident(id), mark };
    out.push(occ);
    assert(occurrences_view(out@) =~= occurrences_view(old(out)@) + one(id@, mark@));
}

/// Adds what [`expr_marks`] says of `e` to `out`.
pub fn note_expr(e: &Expr, out: &mut Vec<Occurrence>)
    ensures
        occurrences_view(final(out)@) == occurrences_view(old(out)@) + expr_marks(e@),
{
    proof {
        lemma_expr_view(*e);
        assert(occurrences_view(out@) + Seq::<OccurrenceV>::empty() =~= occurrences_view(out@));
    }
    match e {
        Expr::Ident(i) => note(out, i, Mark::Read),
        Expr::Assign { op, left, right } => {
            proof {
                lemma_pat_or_expr_view(*left);
            }
            match left {
                PatOrExpr::Pat(p) => {
                    proof {
                        lemma_pat_view(**p);
                    }
                    match &**p {
                        Pat::Ident(i) => {
                            if *op == AssignOp::Assign {
                                let value = primitive_of(right);
                                note(out, i, Mark::Assign { value });
                            }
                        },
                        _ => {},
                    }
                },
                PatOrExpr::Expr(x) => {
                    proof {
                        lemma_expr_view(**x);
                    }
                    match &**x {
                        Expr::Ident(i) => note(out, i, Mark::Other),
                        _ => {},
                    }
                },
            }
        },
        Expr::Update { arg, .. } => {
            proof {
                lemma_expr_view(**arg);
            }
            match &**arg {
                Expr::Ident(i) => note(out, i, Mark::Other),
                _ => {},
            }
        },
        Expr::Fn { ident: Some(i), .. } => note(out, i, Mark::Other),
        Expr::Class { ident: Some(i), .. } => note(out, i, Mark::Other),
        _ => {},
    }
}

/// Adds what [`pat_marks`] says of `p` to `out`.
pub fn note_pat(p: &Pat, out: &mut Vec<Occurrence>)
    ensures
        occurrences_view(final(out)@) == occurrences_view(old(out)@) + pat_marks(p@),
{
    proof {
        lemma_pat_view(*p);
        assert(occurrences_view(out@) + Seq::<OccurrenceV>::empty() =~= occurrences_view(out@));
    }
    match p {
        Pat::Ident(i) => note(out, i, Mark::Bind),
        Pat::Expr(x) => {
            proof {
                lemma_expr_view(**x);
            }
            match &**x {
                Expr::Ident(i) => note(out, i, Mark::Other),
                _ => {},
            }
        },
        _ => {},
    }
}

/// Adds what [`object_pat_prop_marks`] says of `p` to `out`.
pub fn note_object_pat_prop(p: &ObjectPatProp, out: &mut Vec<Occurrence>)
    ensures
        occurrences_view(final(out)@) == occurrences_view(old(out)@) + object_pat_prop_marks(p@),
{
    proof {
        lemma_object_pat_prop_view(*p);
        assert(occurrences_view(out@) + Seq::<OccurrenceV>::empty() =~= occurrences_view(out@));
    }
    match p {
        ObjectPatProp::Assign { key, .. } => note(out, key, Mark::Other),
        _ => {},
    }
}

/// Adds what [`prop_marks`] says of `p` to `out`.
pub fn note_prop(p: &Prop, out: &mut Vec<Occurrence>)
    ensures
        occurrences_view(final(out)@) == occurrences_view(old(out)@) + prop_marks(p@),
{
    proof {
        lemma_prop_view(*p);
        assert(occurrences_view(out@) + Seq::<OccurrenceV>::empty() =~= occurrences_view(out@));
    }
    match p {
        Prop::Shorthand(i) => note(out, i, Mark::Read),
        _ => {},
    }
}

/// Adds what [`var_decl_marks`] says of `d` to `out`.
pub fn note_var_decl(d: &VarDecl, out: &mut Vec<Occurrence>)
    ensures
        occurrences_view(final(out)@) == occurrences_view(old(out)@) + var_decl_marks(d@),
{
    let ghost before = occurrences_view(out@);
    let ghost items = d@.decls;
    proof {
        lemma_var_decl_view(*d);
        lemma_var_declarators_view(d.decls@);
        assert(before + Seq::<OccurrenceV>::empty() =~= before);
        assert(items.take(0) =~= Seq::<VarDeclaratorV>::empty());
    }
    let mut i: usize = 0;
    while i < d.decls.len()
        invariant
            i <= d.decls.len(),
            items.len() == d.decls@.len(),
            forall|j: int| 0 <= j < d.decls@.len() ==> (#[trigger] items[j]) == d.decls@[j]@,
            occurrences_view(out@) == before + declarator_marks(
                items.take(i as int),
                d.annotation,
            ),
        decreases d.decls.len() - i,
    {
        let ghost head = items.take(i as int);
        let ghost next = items.take(i + 1);
        let ghost mid = occurrences_view(out@);
        let x = &d.decls[i];
        proof {
            assert(next.drop_last() =~= head);
            assert(next.last() == items[i as int]);
            lemma_var_declarator_view(*x);
            lemma_pat_view(x.name);
            assert(mid + Seq::<OccurrenceV>::empty() =~= mid);
        }
        match &x.name {
            Pat::Ident(id) => {
                let value = match &x.init {
                    Some(e) => primitive_of(e),
                    None => None,
                };
                let has_init = x.init.is_some();
                note(out, id, Mark::Decl { has_init, value, annotation: d.annotation });
            },
            _ => {},
        }
        assert(occurrences_view(out@) =~= before + (declarator_marks(head, d.annotation)
            + declarator_mark(items[i as int], d.annotation)));
        i += 1;
    }
    assert(items.take(i as int) =~= items);
}

/// Adds what [`decl_marks`] says of `d` to `out`.
pub fn note_decl(d: &Decl, out: &mut Vec<Occurrence>)
    ensures
        occurrences_view(final(out)@) == occurrences_view(old(out)@) + decl_marks(d@),
{
    proof {
        lemma_decl_view(*d);
        assert(occurrences_view(out@) + Seq::<OccurrenceV>::empty() =~= occurrences_view(out@));
    }
    match d {
        Decl::Fn { ident, .. } => note(out, ident, Mark::Other),
        Decl::Class { ident, .. } => note(out, ident, Mark::Other),
        Decl::Var(_) => {},
    }
}

/// Adds what [`head_marks`] says of the bindings of `d` to `out`.
fn note_head(d: &VarDecl, out: &mut Vec<Occurrence>)
    ensures
        occurrences_view(final(out)@) == occurrences_view(old(out)@) + head_marks(d@.decls),
{
    let ghost before = occurrences_view(out@);
    let ghost items = d@.decls;
    proof {
        lemma_var_decl_view(*d);
        lemma_var_declarators_view(d.decls@);
        assert(before + Seq::<OccurrenceV>::empty() =~= before);
        assert(items.take(0) =~= Seq::<VarDeclaratorV>::empty());
    }
    let mut i: usize = 0;
    while i < d.decls.len()
        invariant
            i <= d.decls.len(),
            items.len() == d.decls@.len(),
            forall|j: int| 0 <= j < d.decls@.len() ==> (#[trigger] items[j]) == d.decls@[j]@,
            occurrences_view(out@) == before + head_marks(items.take(i as int)),
        decreases d.decls.len() - i,
    {
        let ghost head = items.take(i as int);
        let ghost next = items.take(i + 1);
        let ghost mid = occurrences_view(out@);
        let x = &d.decls[i];
        proof {
            assert(next.drop_last() =~= head);
            assert(next.last() == items[i as int]);
            lemma_var_declarator_view(*x);
            lemma_pat_view(x.name);
            assert(mid + Seq::<OccurrenceV>::empty() =~= mid);
        }
        match &x.name {
            Pat::Ident(id) => note(out, id, Mark::Other),
            _ => {},
        }
        assert(occurrences_view(out@) =~= before + (head_marks(head) + head_mark(items[i as int])));
        i += 1;
    }
    assert(items.take(i as int) =~= items);
}

/// Adds what [`stmt_marks`] says of `s` to `out`.
pub fn note_stmt(s: &Stmt, out: &mut Vec<Occurrence>)
    ensures
        occurrences_view(final(out)@) == occurrences_view(old(out)@) + stmt_marks(s@),
{
    proof {
        lemma_stmt_view(*s);
        assert(occurrences_view(out@) + Seq::<OccurrenceV>::empty() =~= occurrences_view(out@));
    }
    match s {
        Stmt::For { init: Some(init), .. } => {
            proof {
                lemma_var_decl_or_expr_view(*init);
            }
            match init {
                VarDeclOrExpr::VarDecl(d) => note_head(d, out),
                VarDeclOrExpr::Expr(_) => {},
            }
        },
        Stmt::ForIn { left, .. } => {
            proof {
                lemma_var_decl_or_pat_view(*left);
            }
            match left {
                VarDeclOrPat::VarDecl(d) => note_head(d, out),
                VarDeclOrPat::Pat(_) => {},
            }
        },
        Stmt::ForOf { left, .. } => {
            proof {
                lemma_var_decl_or_pat_view(*left);
            }
            match left {
                VarDeclOrPat::VarDecl(d) => note_head(d, out),
                VarDeclOrPat::Pat(_) => {},
            }
        },
        _ => {},
    }
}

/// What the comments in front of a declaration say of it: that it is a
/// compile-time define where one of them holds `@define`, else that it is a
/// constant where one of them holds `@const`, and else nothing.
pub open spec fn annotation_in(comments: Seq<Seq<char>>) -> Annotation {
    if exists|i: int| 0 <= i < comments.len() && holds_text(#[trigger] comments[i], "@define"@) {
        Annotation::Define
    } else if exists|i: int|
        0 <= i < comments.len() && holds_text(#[trigger] comments[i], "@const"@) {
        Annotation::Const
    } else {
        Annotation::Plain
    }
}

/// The model of a list of texts.
pub open spec fn texts_view(s: Seq<String>) -> Seq<Seq<char>> {
    Seq::new(s.len(), |i: int| s[i]@)
}

/// Reads the annotation of a declaration off the comments in front of it.
pub fn annotation_of(comments: &Vec<String>) -> (r: Annotation)
    ensures
        r == annotation_in(texts_view(comments@)),
{
    let ghost all = texts_view(comments@);
    let define = chars_of("@define");
    let constant = chars_of("@const");
    let mut is_const = false;
    let mut i: usize = 0;
    while i < comments.len()
        invariant
            i <= comments.len(),
            all == texts_view(comments@),
            define@ == "@define"@,
            constant@ == "@const"@,
            forall|j: int| 0 <= j < i ==> !holds_text(#[trigger] all[j], "@define"@),
            is_const == (exists|j: int| 0 <= j < i && holds_text(#[trigger] all[j], "@const"@)),
        decreases comments.len() - i,
    {
        let text = chars_of(comments[i].as_str());
        assert(text@ == all[i as int]);
        if holds_text_impl(&text, &define) {
            return Annotation::Define;
        }
        if holds_text_impl(&text, &constant) {
            is_const = true;
        }
        i += 1;
    }
    if is_const {
        Annotation::Const
    } else {
        Annotation::Plain
    }
}

} // verus!
