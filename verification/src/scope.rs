//! The bindings that each list of statements declares.
//!
//! A scope maps the bindings declared in it to what is known of their use. The
//! scopes of a program stand in one arena; a scope names the scope around it
//! by its place there, and looks a binding up in the scopes around it without
//! ever changing them.

use vstd::prelude::*;
use crate::ast::{Decl, Ident, ObjectPatProp, Pat, Stmt, VarDecl};
use crate::model::{DeclV, IdentV, ObjectPatPropV, PatV, StmtV, VarDeclaratorV};
use crate::occurs::{collect_stmts, occurrences_in_stmts};
use crate::usage::{copy_ident, occurrences_view, Mark, Occurrence, OccurrenceV};
use crate::view::{
    lemma_decl_view, lemma_object_pat_prop_view, lemma_object_pat_props_view, lemma_opt_pats_view,
    lemma_pat_view, lemma_stmt_view, lemma_stmts_view, lemma_var_decl_view,
    lemma_var_declarator_view, lemma_var_declarators_view,
};

verus! {

#[verifier::external_type_specification]
#[verifier::external_body]
pub struct ExFxHasher(fxhash::FxHasher);

#[verifier::external_type_specification]
#[verifier::external_body]
#[verifier::reject_recursive_types(H)]
pub struct ExBuildHasherDefault<H>(std::hash::BuildHasherDefault<H>);

/// What is known of the use of a binding.
#[derive(Debug, Clone, Copy, PartialEq, Eq, Structural)]
pub struct VarInfo {
    /// Count of usage.
    pub cnt: usize,
}

/// The map that a scope keeps: from a binding, by its name and scope token, to its use.
pub type Vars = fxhash::FxHashMap<(String, u32), VarInfo>;

/// The model of [`Vars`].
pub type VarMap = Map<(Seq<char>, u32), VarInfo>;

/// What a map from bindings to their use holds.
pub uninterp spec fn vars_held(m: Vars) -> VarMap;

/// `FxHashMap::default` of `fxhash`: a map that holds nothing.
#[verifier::external_body]
fn new_vars() -> (r: Vars)
    ensures
        vars_held(r) == VarMap::empty(),
{
    fxhash::FxHashMap::default()
}

/// `HashMap::insert` on an `FxHashMap` of `fxhash`: the map holds `info` for
/// the binding afterwards, whatever it held for it before, and is otherwise
/// as it was.
#[verifier::external_body]
fn put_var(m: &mut Vars, sym: String, ctxt: u32, info: VarInfo)
    ensures
        vars_held(*final(m)) == vars_held(*old(m)).insert((sym@, ctxt), info),
{
    m.insert((sym, ctxt), info);
}

/// `HashMap::get` on an `FxHashMap` of `fxhash`: what the map holds for the
/// binding, if it holds anything for it.
#[verifier::external_body]
fn get_var(m: &Vars, sym: &String, ctxt: u32) -> (r: Option<VarInfo>)
    ensures
        r == (if vars_held(*m).contains_key((sym@, ctxt)) {
            Some(vars_held(*m)[(sym@, ctxt)])
        } else {
            None
        }),
{
    m.get(&(sym.clone(), ctxt)).copied()
}

/// The bindings declared in one list of statements.
pub struct Scope {
    parent: Option<usize>,
    vars: Vars,
}

/// The key of a binding.
pub open spec fn key(id: IdentV) -> (Seq<char>, u32) {
    (id.sym, id.ctxt)
}

impl Scope {
    /// The place of the scope around this one in the arena.
    pub closed spec fn parent(&self) -> Option<usize> {
        self.parent
    }

    /// What the scope holds for the bindings declared in it.
    pub closed spec fn vars(&self) -> VarMap {
        vars_held(self.vars)
    }

    /// A scope that declares nothing.
    pub fn new(parent: Option<usize>) -> (r: Scope)
        ensures
            r.parent() == parent,
            r.vars() == VarMap::empty(),
    {
        Scope { parent, vars: new_vars() }
    }

    /// The place of the scope around this one in the arena.
    pub fn enclosing(&self) -> (r: Option<usize>)
        ensures
            r == self.parent(),
    {
        self.parent
    }

    /// Declares a binding: it has not been used yet.
    pub fn declare(&mut self, id: &Ident)
        ensures
            final(self).parent() == old(self).parent(),
            final(self).vars() == old(self).vars().insert(key(id@), VarInfo { cnt: 0 }),
    {
        put_var(&mut self.vars, id.sym.clone(), id.ctxt, VarInfo { cnt: 0 });
    }

    /// What the scope holds for a binding.
    pub fn get(&self, id: &Ident) -> (r: Option<VarInfo>)
        ensures
            r == (if self.vars().contains_key(key(id@)) {
                Some(self.vars()[key(id@)])
            } else {
                None
            }),
    {
        get_var(&self.vars, &id.sym, id.ctxt)
    }

    /// Records a use of a binding that the scope declares: its count goes up
    /// by one. Tells whether the scope declares the binding.
    pub fn record_use(&mut self, id: &Ident) -> (r: bool)
        ensures
            final(self).parent() == old(self).parent(),
            r == old(self).vars().contains_key(key(id@)),
            final(self).vars() == used(old(self).vars(), key(id@)),
    {
        match get_var(&self.vars, &id.sym, id.ctxt) {
            Some(info) => {
                let cnt: usize = if info.cnt < usize::MAX {
                    info.cnt + 1
                } else {
                    info.cnt
                };
                put_var(&mut self.vars, id.sym.clone(), id.ctxt, VarInfo { cnt });
                true
            },
            None => false,
        }
    }

    /// Records a use for each occurrence that reads a binding.
    pub fn record_uses(&mut self, occs: &Vec<Occurrence>)
        ensures
            final(self).parent() == old(self).parent(),
            final(self).vars() == used_each(old(self).vars(), occurrences_view(occs@)),
    {
        let ghost all = occurrences_view(occs@);
        let ghost start = self.vars();
        let mut i: usize = 0;
        assert(all.take(0) =~= Seq::<OccurrenceV>::empty());
        while i < occs.len()
            invariant
                i <= occs.len(),
                all == occurrences_view(occs@),
                self.parent() == old(self).parent(),
                self.vars() == used_each(start, all.take(i as int)),
            decreases occs.len() - i,
        {
            proof {
                assert(all.take(i + 1).drop_last() =~= all.take(i as int));
                assert(all.take(i + 1).last() == all[i as int]);
            }
            match &occs[i].mark {
                Mark::Read => {
                    self.record_use(&occs[i].id);
                },
                _ => {},
            }
            i += 1;
        }
        assert(all.take(i as int) =~= all);
    }

    /// Declares each of the bindings.
    pub fn declare_each(&mut self, ids: &Vec<Ident>)
        ensures
            final(self).parent() == old(self).parent(),
            final(self).vars() == declared(old(self).vars(), idents_view(ids@)),
    {
        let ghost all = idents_view(ids@);
        let ghost start = self.vars();
        let mut i: usize = 0;
        assert(all.take(0) =~= Seq::<IdentV>::empty());
        while i < ids.len()
            invariant
                i <= ids.len(),
                all == idents_view(ids@),
                self.parent() == old(self).parent(),
                self.vars() == declared(start, all.take(i as int)),
            decreases ids.len() - i,
        {
            proof {
                assert(all.take(i + 1).drop_last() =~= all.take(i as int));
                assert(all.take(i + 1).last() == all[i as int]);
            }
            self.declare(&ids[i]);
            i += 1;
        }
        assert(all.take(i as int) =~= all);
    }
}

/// The model of a list of identifiers.
pub open spec fn idents_view(s: Seq<Ident>) -> Seq<IdentV> {
    Seq::new(s.len(), |i: int| s[i]@)
}

/// The map with each of the bindings declared, in their order.
pub open spec fn declared(m: VarMap, ids: Seq<IdentV>) -> VarMap
    decreases ids.len(),
{
    if ids.len() == 0 {
        m
    } else {
        declared(m, ids.drop_last()).insert(key(ids.last()), VarInfo { cnt: 0 })
    }
}

/// What is known of a binding after one more use. The count stays where it
/// is once it is the largest that the machine holds.
pub open spec fn bumped(info: VarInfo) -> VarInfo {
    VarInfo {
        cnt: if info.cnt < usize::MAX {
            (info.cnt + 1) as usize
        } else {
            info.cnt
        },
    }
}

/// The map after a use of the binding with key `k`: the count of the binding
/// has gone up where the map holds it, and nothing has changed where not.
pub open spec fn used(m: VarMap, k: (Seq<char>, u32)) -> VarMap {
    if m.contains_key(k) {
        m.insert(k, bumped(m[k]))
    } else {
        m
    }
}

/// The map after a use for each of the occurrences that reads a binding, in
/// their order.
pub open spec fn used_each(m: VarMap, occs: Seq<OccurrenceV>) -> VarMap
    decreases occs.len(),
{
    if occs.len() == 0 {
        m
    } else if occs.last().mark is Read {
        used(used_each(m, occs.drop_last()), key(occs.last().id))
    } else {
        used_each(m, occs.drop_last())
    }
}

/// The names that a pattern binds, in the order of the source.
pub open spec fn bound_names(p: PatV) -> Seq<IdentV>
    decreases p,
{
    match p {
        PatV::Ident(i) => seq![i],
        PatV::Array(elems) => bound_names_of_elements(elems),
        PatV::Rest(x) => bound_names(*x),
        PatV::Object(props) => bound_names_of_props(props),
        PatV::Assign { left, .. } => bound_names(*left),
        PatV::Expr(_) => Seq::empty(),
    }
}

/// The names that the elements of an array pattern bind.
pub open spec fn bound_names_of_elements(s: Seq<Option<PatV>>) -> Seq<IdentV>
    decreases s,
{
    if s.len() == 0 {
        Seq::empty()
    } else {
        bound_names_of_elements(s.drop_last()) + match s.last() {
            Some(p) => bound_names(p),
            None => Seq::empty(),
        }
    }
}

/// The names that the properties of an object pattern bind.
pub open spec fn bound_names_of_props(s: Seq<ObjectPatPropV>) -> Seq<IdentV>
    decreases s,
{
    if s.len() == 0 {
        Seq::empty()
    } else {
        bound_names_of_props(s.drop_last()) + match s.last() {
            ObjectPatPropV::KeyValue { value, .. } => bound_names(*value),
            ObjectPatPropV::Assign { key, .. } => seq![key],
            ObjectPatPropV::Rest(p) => bound_names(*p),
        }
    }
}

/// The names that the bindings of a variable declaration bind.
pub open spec fn bound_names_of_declarators(s: Seq<VarDeclaratorV>) -> Seq<IdentV>
    decreases s.len(),
{
    if s.len() == 0 {
        Seq::empty()
    } else {
        bound_names_of_declarators(s.drop_last()) + bound_names(s.last().name)
    }
}

/// The names that the variable declarations among the statements bind.
pub open spec fn declared_names(s: Seq<StmtV>) -> Seq<IdentV>
    decreases s.len(),
{
    if s.len() == 0 {
        Seq::empty()
    } else {
        declared_names(s.drop_last()) + match s.last() {
            StmtV::Decl(DeclV::Var(d)) => bound_names_of_declarators(d.decls),
            _ => Seq::empty(),
        }
    }
}

/// Finds all idents of variable
pub fn find_bound_names(p: &Pat, found: &mut Vec<Ident>)
    ensures
        idents_view(final(found)@) == idents_view(old(found)@) + bound_names(p@),
    decreases p,
{
    let ghost before = idents_view(found@);
    proof {
        lemma_pat_view(*p);
        assert(before + Seq::<IdentV>::empty() =~= before);
    }
    match p {
        Pat::Ident(i) => {
            found.push(copy_ident(i));
            assert(idents_view(found@) =~= before + seq![i@]);
        },
        Pat::Array(elems) => {
            let ghost items = p@->Array_0;
            proof {
                lemma_opt_pats_view(elems@);
                assert(items.take(0) =~= Seq::<Option<PatV>>::empty());
            }
            let mut i: usize = 0;
            while i < elems.len()
                invariant
                    i <= elems.len(),
                    *p matches Pat::Array(w) && w == *elems,
                    items.len() == elems@.len(),
                    forall|j: int|
                        0 <= j < elems@.len() ==> (#[trigger] items[j]) == (match elems@[j] {
                            Some(x) => Some(x@),
                            None => None,
                        }),
                    idents_view(found@) == before + bound_names_of_elements(items.take(i as int)),
                decreases elems.len() - i,
            {
                let ghost head = items.take(i as int);
                let ghost next = items.take(i + 1);
                let ghost mid = idents_view(found@);
                proof {
                    assert(next.drop_last() =~= head);
                    assert(next.last() == items[i as int]);
                    assert(mid + Seq::<IdentV>::empty() =~= mid);
                }
                match &elems[i] {
                    Some(x) => find_bound_names(x, found),
                    None => {},
                }
                assert(idents_view(found@) =~= before + bound_names_of_elements(next));
                i += 1;
            }
            assert(items.take(i as int) =~= items);
        },
        Pat::Rest(x) => find_bound_names(x, found),
        Pat::Object(props) => {
            let ghost items = p@->Object_0;
            proof {
                lemma_object_pat_props_view(props@);
                assert(items.take(0) =~= Seq::<ObjectPatPropV>::empty());
            }
            let mut i: usize = 0;
            while i < props.len()
                invariant
                    i <= props.len(),
                    *p matches Pat::Object(w) && w == *props,
                    items.len() == props@.len(),
                    forall|j: int| 0 <= j < props@.len() ==> (#[trigger] items[j]) == props@[j]@,
                    idents_view(found@) == before + bound_names_of_props(items.take(i as int)),
                decreases props.len() - i,
            {
                let ghost head = items.take(i as int);
                let ghost next = items.take(i + 1);
                let ghost mid = idents_view(found@);
                proof {
                    assert(next.drop_last() =~= head);
                    assert(next.last() == items[i as int]);
                    lemma_object_pat_prop_view(props@[i as int]);
                }
                match &props[i] {
                    ObjectPatProp::KeyValue { value, .. } => find_bound_names(value, found),
                    ObjectPatProp::Assign { key, .. } => {
                        found.push(copy_ident(key));
                        assert(idents_view(found@) =~= mid + seq![key@]);
                    },
                    ObjectPatProp::Rest(x) => find_bound_names(x, found),
                }
                assert(idents_view(found@) =~= before + bound_names_of_props(next));
                i += 1;
            }
            assert(items.take(i as int) =~= items);
        },
        Pat::Assign { left, .. } => find_bound_names(left, found),
        Pat::Expr(_) => {},
    }
}

/// Adds the names that a variable declaration binds to `found`.
pub fn find_declared(d: &VarDecl, found: &mut Vec<Ident>)
    ensures
        idents_view(final(found)@) == idents_view(old(found)@) + bound_names_of_declarators(
            d@.decls,
        ),
{
    let ghost before = idents_view(found@);
    let ghost items = d@.decls;
    proof {
        lemma_var_decl_view(*d);
        lemma_var_declarators_view(d.decls@);
        assert(before + Seq::<IdentV>::empty() =~= before);
        assert(items.take(0) =~= Seq::<VarDeclaratorV>::empty());
    }
    let mut i: usize = 0;
    while i < d.decls.len()
        invariant
            i <= d.decls.len(),
            items.len() == d.decls@.len(),
            forall|j: int| 0 <= j < d.decls@.len() ==> (#[trigger] items[j]) == d.decls@[j]@,
            idents_view(found@) == before + bound_names_of_declarators(items.take(i as int)),
        decreases d.decls.len() - i,
    {
        let ghost head = items.take(i as int);
        let ghost next = items.take(i + 1);
        proof {
            assert(next.drop_last() =~= head);
            assert(next.last() == items[i as int]);
            lemma_var_declarator_view(d.decls@[i as int]);
        }
        find_bound_names(&d.decls[i].name, found);
        assert(idents_view(found@) =~= before + bound_names_of_declarators(next));
        i += 1;
    }
    assert(items.take(i as int) =~= items);
}

/// The scope of a list of statements: it declares what the variable
/// declarations of the list bind.
pub fn scope_of(stmts: &Vec<Stmt>, parent: Option<usize>) -> (r: Scope)
    ensures
        r.parent() == parent,
        r.vars() == declared(
            VarMap::empty(),
            declared_names(crate::view::stmts_view(stmts@)),
        ),
{
    let ghost items = crate::view::stmts_view(stmts@);
    let mut found: Vec<Ident> = Vec::new();
    proof {
        lemma_stmts_view(stmts@);
        assert(idents_view(found@) =~= Seq::<IdentV>::empty());
        assert(items.take(0) =~= Seq::<StmtV>::empty());
    }
    let mut i: usize = 0;
    while i < stmts.len()
        invariant
            i <= stmts.len(),
            items.len() == stmts@.len(),
            forall|j: int| 0 <= j < stmts@.len() ==> (#[trigger] items[j]) == stmts@[j]@,
            idents_view(found@) == declared_names(items.take(i as int)),
        decreases stmts.len() - i,
    {
        let ghost head = items.take(i as int);
        let ghost next = items.take(i + 1);
        let ghost mid = idents_view(found@);
        proof {
            assert(next.drop_last() =~= head);
            assert(next.last() == items[i as int]);
            lemma_stmt_view(stmts@[i as int]);
            assert(mid + Seq::<IdentV>::empty() =~= mid);
        }
        match &stmts[i] {
            Stmt::Decl(d) => {
                proof {
                    lemma_decl_view(*d);
                }
                match d {
                    Decl::Var(v) => find_declared(v, &mut found),
                    _ => {},
                }
            },
            _ => {},
        }
        i += 1;
    }
    assert(items.take(i as int) =~= items);
    let mut scope = Scope::new(parent);
    scope.declare_each(&found);
    scope
}

/// The scope of a list of statements with the uses that the list makes of
/// its bindings: it declares what the variable declarations of the list
/// bind, and counts for each of them the places in the list that read it.
pub fn tracked_scope_of(stmts: &Vec<Stmt>, parent: Option<usize>) -> (r: Scope)
    ensures
        r.parent() == parent,
        r.vars() == used_each(
            declared(VarMap::empty(), declared_names(crate::view::stmts_view(stmts@))),
            occurrences_in_stmts(crate::view::stmts_view(stmts@)),
        ),
{
    let mut scope = scope_of(stmts, parent);
    let mut occs: Vec<Occurrence> = Vec::new();
    assert(occurrences_view(occs@) =~= Seq::<OccurrenceV>::empty());
    collect_stmts(stmts, &mut occs);
    assert(Seq::<OccurrenceV>::empty() + occurrences_in_stmts(crate::view::stmts_view(stmts@))
        =~= occurrences_in_stmts(crate::view::stmts_view(stmts@)));
    scope.record_uses(&occs);
    scope
}

/// The scopes of a program: each scope but the outermost ones names a scope
/// that entered the arena before it.
pub struct Scopes {
    records: Vec<Scope>,
}

impl Scopes {
    /// The scopes, in the order in which they entered the arena.
    pub closed spec fn records(&self) -> Seq<Scope> {
        self.records@
    }

    /// Whether each scope names an earlier one as the scope around it.
    pub open spec fn wf(&self) -> bool {
        forall|i: int|
            0 <= i < self.records().len() ==> ((#[trigger] self.records()[i]).parent() matches Some(
                p,
            ) ==> p < i)
    }

    /// What the scope at `at` or a scope around it holds for a binding: the
    /// innermost scope that declares it decides.
    pub open spec fn visible(&self, at: int, k: (Seq<char>, u32)) -> Option<VarInfo>
        decreases at,
    {
        if 0 <= at < self.records().len() {
            let s = self.records()[at];
            if s.vars().contains_key(k) {
                Some(s.vars()[k])
            } else {
                match s.parent() {
                    Some(p) => if p < at {
                        self.visible(p as int, k)
                    } else {
                        None
                    },
                    None => None,
                }
            }
        } else {
            None
        }
    }

    /// An arena without scopes.
    pub fn new() -> (r: Scopes)
        ensures
            r.wf(),
            r.records().len() == 0,
    {
        Scopes { records: Vec::new() }
    }

    /// Puts a scope into the arena and says where it stands.
    pub fn enter(&mut self, scope: Scope) -> (r: usize)
        requires
            old(self).wf(),
            scope.parent() matches Some(p) ==> p < old(self).records().len(),
        ensures
            final(self).wf(),
            r == old(self).records().len(),
            final(self).records() == old(self).records().push(scope),
    {
        let at = self.records.len();
        self.records.push(scope);
        at
    }

    /// Looks a binding up in the scope at `at` and in the scopes around it.
    pub fn lookup(&self, at: usize, id: &Ident) -> (r: Option<VarInfo>)
        requires
            self.wf(),
        ensures
            r == self.visible(at as int, key(id@)),
        decreases at,
    {
        if at >= self.records.len() {
            return None;
        }
        match self.records[at].get(id) {
            Some(info) => Some(info),
            None => match self.records[at].enclosing() {
                Some(p) => {
                    if p < at {
                        self.lookup(p, id)
                    } else {
                        None
                    }
                },
                None => None,
            },
        }
    }
}

} // verus!
