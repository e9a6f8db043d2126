//! Inlining of constants: which bindings are replaced by their value, and how.
//!
//! A binding is a constant where its name is written in capitals or its
//! declaration is annotated as one. It is inlined where it is declared once,
//! gets its value once, that value is a literal that can be copied, and the
//! copies do not make the program longer. Where a constant gets its value in
//! one branch only it is inlined all the same: whoever does not want that can
//! give the variable an ordinary name.

use vstd::prelude::*;
use crate::ast::{
    Annotation, AssignOp, Expr, Ident, Lit, Pat, PatOrExpr, Prop, PropName, Stmt, VarDecl,
    VarDeclarator, Decl,
};
use crate::model::{
    DeclV, ExprV, IdentV, LitV, PatOrExprV, PatV, PropNameV, PropV, StmtV, VarDeclV,
    VarDeclaratorV,
};
use crate::occurs::{collect_stmts, occurrences_in_stmts};
use crate::replace::{
    lemma_replaced_each_stmts, lemma_replaced_stmts, replace_stmt, replaced_each_stmts,
    replaced_stmt, replaced_stmts,
};
use crate::same::same_stmts;
use crate::copy::copy_stmts;
use crate::text::chars_of;
use crate::usage::{copy_ident, copy_lit, occurrences_view, Mark, MarkV, Occurrence, OccurrenceV};
use crate::view::{
    lemma_decl_view, lemma_expr_view, lemma_pat_or_expr_view, lemma_pat_view, lemma_prop_name_view,
    lemma_prop_view, lemma_stmt_view, lemma_stmts_view, lemma_stmts_view_push, lemma_var_decl_view,
    lemma_var_declarator_view, lemma_var_declarators_view, lemma_var_declarators_view_push,
    stmts_view, var_declarators_view,
};

verus! {

/// What the inlining of constants can be told.
#[derive(Debug, Clone, Copy, PartialEq, Eq)]
pub struct InlineConfig {
    /// Inline every string constant, also where that makes the program longer.
    pub inline_all_strings: bool,
}

/// A binding with the value that replaces it.
#[derive(Debug, PartialEq, Eq)]
pub struct Constant {
    pub id: Ident,
    pub value: Lit,
}

/// The model of [`Constant`].
pub struct ConstantV {
    pub id: IdentV,
    pub value: LitV,
}

impl View for Constant {
    type V = ConstantV;

    open spec fn view(&self) -> ConstantV {
        ConstantV { id: self.id@, value: self.value@ }
    }
}

/// The model of a list of constants.
pub open spec fn constants_view(s: Seq<Constant>) -> Seq<ConstantV> {
    Seq::new(s.len(), |i: int| s[i]@)
}

/// The value of the first constant of `env` that is `id`.
pub open spec fn lookup(env: Seq<ConstantV>, id: IdentV) -> Option<LitV>
    decreases env.len(),
{
    if env.len() == 0 {
        None
    } else if env[0].id == id {
        Some(env[0].value)
    } else {
        lookup(env.drop_first(), id)
    }
}

/// Whether a name is written as constants are: in capital letters and
/// underscores, with a letter among them.
pub open spec fn is_constant_name(s: Seq<char>) -> bool {
    &&& forall|i: int| 0 <= i < s.len() ==> 'A' <= (#[trigger] s[i]) <= 'Z' || s[i] == '_'
    &&& exists|i: int| 0 <= i < s.len() && 'A' <= (#[trigger] s[i]) <= 'Z'
}

/// How often a binding occurs in each way.
pub struct Usage {
    pub decls: nat,
    pub assigns: nat,
    pub binds: nat,
    pub reads: nat,
    pub others: nat,
}

/// The usage with one more occurrence of the given kind.
pub open spec fn counted(u: Usage, m: MarkV) -> Usage {
    match m {
        MarkV::Decl { .. } => Usage { decls: u.decls + 1, ..u },
        MarkV::Assign { .. } => Usage { assigns: u.assigns + 1, ..u },
        MarkV::Bind => Usage { binds: u.binds + 1, ..u },
        MarkV::Read => Usage { reads: u.reads + 1, ..u },
        MarkV::Other => Usage { others: u.others + 1, ..u },
    }
}

/// How often `id` occurs in each way among `occs`.
pub open spec fn usage_of(occs: Seq<OccurrenceV>, id: IdentV) -> Usage
    decreases occs.len(),
{
    if occs.len() == 0 {
        Usage { decls: 0, assigns: 0, binds: 0, reads: 0, others: 0 }
    } else if occs.last().id == id {
        counted(usage_of(occs.drop_last(), id), occs.last().mark)
    } else {
        usage_of(occs.drop_last(), id)
    }
}

/// The first declaration of `id` among `occs`.
pub open spec fn declared(occs: Seq<OccurrenceV>, id: IdentV) -> Option<MarkV>
    decreases occs.len(),
{
    if occs.len() == 0 {
        None
    } else if occs[0].id == id && occs[0].mark is Decl {
        Some(occs[0].mark)
    } else {
        declared(occs.drop_first(), id)
    }
}

/// The first assignment to `id` among `occs`.
pub open spec fn assigned(occs: Seq<OccurrenceV>, id: IdentV) -> Option<MarkV>
    decreases occs.len(),
{
    if occs.len() == 0 {
        None
    } else if occs[0].id == id && occs[0].mark is Assign {
        Some(occs[0].mark)
    } else {
        assigned(occs.drop_first(), id)
    }
}

/// Whether the program with the binding kept is at least as long as the
/// program with the binding inlined, for a string that takes `len` bytes with
/// its quotes and is read `reads` times.
///
/// Kept, the program holds `var xx=;` and the string once, and some 4 bytes at
/// each read. Inlined, it holds the string at each read, less one quote that
/// constant folding is expected to remove.
pub open spec fn stays_small(len: nat, reads: nat) -> bool {
    8 + len + 4 * reads >= (len - 1) * reads
}

/// Whether copying the literal to `reads` places is accepted: any literal but a
/// string always is, and a string where that is forced or [`stays_small`].
pub open spec fn worth_inlining(cfg: InlineConfig, value: LitV, reads: nat) -> bool {
    match value {
        LitV::Str(s) => cfg.inline_all_strings || stays_small(s.value.len() + 2, reads),
        _ => true,
    }
}

/// The one value that `id` gets, where it gets exactly one and that is a
/// literal that can be copied: the initial value of its declaration where it
/// has one and nothing is assigned, and the value of the one assignment where
/// the declaration has none.
pub open spec fn value_of(occs: Seq<OccurrenceV>, id: IdentV) -> Option<LitV> {
    let u = usage_of(occs, id);
    match declared(occs, id) {
        Some(MarkV::Decl { has_init: true, value, .. }) => if u.assigns == 0 {
            value
        } else {
            None
        },
        Some(MarkV::Decl { has_init: false, .. }) => if u.assigns == 1 {
            match assigned(occs, id) {
                Some(MarkV::Assign { value }) => value,
                _ => None,
            }
        } else {
            None
        },
        _ => None,
    }
}

/// What the declaration of `id` is annotated with.
pub open spec fn annotation_of(occs: Seq<OccurrenceV>, id: IdentV) -> Annotation {
    match declared(occs, id) {
        Some(MarkV::Decl { annotation, .. }) => annotation,
        _ => Annotation::Plain,
    }
}

/// The value that replaces `id`, where `id` is inlined.
///
/// The binding is a constant by its name or by annotation; a variable
/// declaration declares it once and nothing else binds or changes it; it has
/// one value; and copying that value is accepted, or the binding is a define.
pub open spec fn inlined_value(occs: Seq<OccurrenceV>, id: IdentV, cfg: InlineConfig) -> Option<
    LitV,
> {
    let u = usage_of(occs, id);
    if u.decls == 1 && u.others == 0 && u.binds == u.decls + u.assigns && (is_constant_name(id.sym)
        || annotation_of(occs, id) != Annotation::Plain) {
        match value_of(occs, id) {
            Some(l) => if annotation_of(occs, id) == Annotation::Define || worth_inlining(
                cfg,
                l,
                u.reads,
            ) {
                Some(l)
            } else {
                None
            },
            None => None,
        }
    } else {
        None
    }
}

/// The constants among the bindings that the first `n` occurrences declare.
pub open spec fn constants_upto(occs: Seq<OccurrenceV>, cfg: InlineConfig, n: nat) -> Seq<ConstantV>
    decreases n,
{
    if n == 0 || n > occs.len() {
        Seq::empty()
    } else {
        let before = constants_upto(occs, cfg, (n - 1) as nat);
        let o = occs[n - 1];
        if o.mark is Decl {
            match inlined_value(occs, o.id, cfg) {
                Some(l) => before.push(ConstantV { id: o.id, value: l }),
                None => before,
            }
        } else {
            before
        }
    }
}

/// The bindings that are inlined, each with its value, in the order of their declarations.
pub open spec fn constants(occs: Seq<OccurrenceV>, cfg: InlineConfig) -> Seq<ConstantV> {
    constants_upto(occs, cfg, occs.len())
}

/// A read of a constant is its value, and so is the assignment that gives a
/// constant its value.
pub open spec fn replaced_use(e: ExprV, env: Seq<ConstantV>) -> ExprV {
    match e {
        ExprV::Ident(i) => match lookup(env, i) {
            Some(l) => ExprV::Lit(l),
            None => e,
        },
        ExprV::Assign { op: AssignOp::Assign, left: PatOrExprV::Pat(p), right } => match *p {
            PatV::Ident(i) => if lookup(env, i) is Some {
                *right
            } else {
                e
            },
            _ => e,
        },
        _ => e,
    }
}

/// `{ name }` with a constant for `name` is `{ name: value }`.
pub open spec fn replaced_shorthand(p: PropV, env: Seq<ConstantV>) -> PropV {
    match p {
        PropV::Shorthand(i) => match lookup(env, i) {
            Some(l) => PropV::KeyValue {
                key: PropNameV::Ident(i),
                value: Box::new(ExprV::Lit(l)),
            },
            None => p,
        },
        _ => p,
    }
}

/// Whether a binding of a variable declaration declares a constant.
pub open spec fn declares_constant(d: VarDeclaratorV, env: Seq<ConstantV>) -> bool {
    d.name matches PatV::Ident(i) && lookup(env, i) is Some
}

/// The bindings of a variable declaration that declare no constant.
pub open spec fn remaining(s: Seq<VarDeclaratorV>, env: Seq<ConstantV>) -> Seq<VarDeclaratorV>
    decreases s.len(),
{
    if s.len() == 0 {
        Seq::empty()
    } else if declares_constant(s.last(), env) {
        remaining(s.drop_last(), env)
    } else {
        remaining(s.drop_last(), env).push(s.last())
    }
}

/// A variable declaration loses the bindings that declare constants.
pub open spec fn replaced_bindings(d: VarDeclV, env: Seq<ConstantV>) -> VarDeclV {
    VarDeclV { kind: d.kind, annotation: d.annotation, decls: remaining(d.decls, env) }
}

/// Whether a statement is a variable declaration that declares nothing.
pub open spec fn is_emptied(s: StmtV) -> bool {
    s matches StmtV::Decl(DeclV::Var(d)) && d.decls.len() == 0
}

/// The statement, or the empty statement in place of a declaration that
/// declares nothing.
pub open spec fn settled(s: StmtV) -> StmtV {
    if is_emptied(s) {
        StmtV::Empty
    } else {
        s
    }
}

/// A statement that holds another one holds the empty statement in place of a
/// declaration that declares nothing.
pub open spec fn replaced_body(s: StmtV, env: Seq<ConstantV>) -> StmtV {
    match s {
        StmtV::With { obj, body } => StmtV::With { obj, body: Box::new(settled(*body)) },
        StmtV::Labeled { label, body } => StmtV::Labeled { label, body: Box::new(settled(*body)) },
        StmtV::If { test, cons, alt } => StmtV::If {
            test,
            cons: Box::new(settled(*cons)),
            alt: match alt {
                Some(a) => Some(Box::new(settled(*a))),
                None => None,
            },
        },
        StmtV::While { test, body } => StmtV::While { test, body: Box::new(settled(*body)) },
        StmtV::DoWhile { test, body } => StmtV::DoWhile { test, body: Box::new(settled(*body)) },
        StmtV::For { init, test, update, body } => StmtV::For {
            init,
            test,
            update,
            body: Box::new(settled(*body)),
        },
        StmtV::ForIn { left, right, body } => StmtV::ForIn {
            left,
            right,
            body: Box::new(settled(*body)),
        },
        StmtV::ForOf { is_await, left, right, body } => StmtV::ForOf {
            is_await,
            left,
            right,
            body: Box::new(settled(*body)),
        },
        _ => s,
    }
}

/// A list of statements loses the declarations that declare nothing.
pub open spec fn without_emptied(s: Seq<StmtV>, env: Seq<ConstantV>) -> Seq<StmtV>
    decreases s.len(),
{
    if s.len() == 0 {
        Seq::empty()
    } else if is_emptied(s.last()) {
        without_emptied(s.drop_last(), env)
    } else {
        without_emptied(s.drop_last(), env).push(s.last())
    }
}

/// The program with its constants inlined.
pub open spec fn inlined(program: Seq<StmtV>, cfg: InlineConfig) -> Seq<StmtV> {
    replaced_stmts(program, constants(occurrences_in_stmts(program), cfg))
}

/// Finds the first constant of `env` that is `id`.
pub fn find(env: &Vec<Constant>, id: &Ident) -> (r: Option<usize>)
    ensures
        match r {
            Some(k) => k < env.len() && lookup(constants_view(env@), id@) == Some(env@[k as int]@.value),
            None => lookup(constants_view(env@), id@) is None,
        },
{
    let ghost all = constants_view(env@);
    let mut i: usize = 0;
    assert(all.skip(0) =~= all);
    while i < env.len()
        invariant
            i <= env.len(),
            all == constants_view(env@),
            lookup(all, id@) == lookup(all.skip(i as int), id@),
        decreases env.len() - i,
    {
        proof {
            assert(all.skip(i as int)[0] == all[i as int]);
            assert(all.skip(i as int).drop_first() =~= all.skip(i + 1));
        }
        if env[i].id.same(id) {
            return Some(i);
        }
        i += 1;
    }
    None
}

/// Decides [`is_constant_name`].
pub fn is_constant_name_impl(name: &str) -> (r: bool)
    ensures
        r == is_constant_name(name@),
{
    let cs = chars_of(name);
    let mut letter = false;
    let mut i: usize = 0;
    while i < cs.len()
        invariant
            i <= cs.len(),
            cs@ == name@,
            forall|j: int| 0 <= j < i ==> 'A' <= (#[trigger] cs@[j]) <= 'Z' || cs@[j] == '_',
            letter == exists|j: int| 0 <= j < i && 'A' <= (#[trigger] cs@[j]) <= 'Z',
        decreases cs.len() - i,
    {
        let c = cs[i];
        if 'A' <= c && c <= 'Z' {
            letter = true;
        } else if c != '_' {
            assert(!('A' <= cs@[i as int] <= 'Z' || cs@[i as int] == '_'));
            return false;
        }
        i += 1;
    }
    letter
}

/// [`Usage`] in machine numbers.
pub struct Counts {
    pub decls: usize,
    pub assigns: usize,
    pub binds: usize,
    pub reads: usize,
    pub others: usize,
}

impl Counts {
    pub open spec fn stand_for(&self, u: Usage) -> bool {
        &&& self.decls == u.decls
        &&& self.assigns == u.assigns
        &&& self.binds == u.binds
        &&& self.reads == u.reads
        &&& self.others == u.others
    }

    pub open spec fn sum(&self) -> int {
        self.decls + self.assigns + self.binds + self.reads + self.others
    }
}

/// Computes [`usage_of`].
pub fn count(occs: &Vec<Occurrence>, id: &Ident) -> (r: Counts)
    ensures
        r.stand_for(usage_of(occurrences_view(occs@), id@)),
        r.sum() <= occs.len(),
{
    let ghost all = occurrences_view(occs@);
    let mut c = Counts { decls: 0, assigns: 0, binds: 0, reads: 0, others: 0 };
    let mut i: usize = 0;
    assert(all.take(0) =~= Seq::<OccurrenceV>::empty());
    while i < occs.len()
        invariant
            i <= occs.len(),
            all == occurrences_view(occs@),
            c.stand_for(usage_of(all.take(i as int), id@)),
            c.sum() <= i,
        decreases occs.len() - i,
    {
        proof {
            assert(all.take(i + 1).drop_last() =~= all.take(i as int));
            assert(all.take(i + 1).last() == all[i as int]);
        }
        if occs[i].id.same(id) {
            match &occs[i].mark {
                Mark::Decl { .. } => {
                    c.decls = c.decls + 1;
                },
                Mark::Assign { .. } => {
                    c.assigns = c.assigns + 1;
                },
                Mark::Bind => {
                    c.binds = c.binds + 1;
                },
                Mark::Read => {
                    c.reads = c.reads + 1;
                },
                Mark::Other => {
                    c.others = c.others + 1;
                },
            }
        }
        i += 1;
    }
    assert(all.take(i as int) =~= all);
    c
}

/// Finds the first declaration of `id`, or its first assignment.
fn first(occs: &Vec<Occurrence>, id: &Ident, assignment: bool) -> (r: Option<usize>)
    ensures
        match r {
            Some(k) => k < occs.len() && (if assignment {
                assigned(occurrences_view(occs@), id@)
            } else {
                declared(occurrences_view(occs@), id@)
            }) == Some(occs@[k as int]@.mark),
            None => (if assignment {
                assigned(occurrences_view(occs@), id@)
            } else {
                declared(occurrences_view(occs@), id@)
            }) is None,
        },
{
    let ghost all = occurrences_view(occs@);
    let mut i: usize = 0;
    assert(all.skip(0) =~= all);
    while i < occs.len()
        invariant
            i <= occs.len(),
            all == occurrences_view(occs@),
            assignment ==> assigned(all, id@) == assigned(all.skip(i as int), id@),
            !assignment ==> declared(all, id@) == declared(all.skip(i as int), id@),
        decreases occs.len() - i,
    {
        proof {
            assert(all.skip(i as int)[0] == all[i as int]);
            assert(all.skip(i as int).drop_first() =~= all.skip(i + 1));
            assert(all[i as int] == occs@[i as int]@);
        }
        if occs[i].id.same(id) {
            let hit = match &occs[i].mark {
                Mark::Decl { .. } => !assignment,
                Mark::Assign { .. } => assignment,
                _ => false,
            };
            if hit {
                return Some(i);
            }
        }
        i += 1;
    }
    None
}

/// Decides [`stays_small`].
fn stays_small_impl(chars: usize, reads: usize) -> (r: bool)
    ensures
        r == stays_small((chars + 2) as nat, reads as nat),
{
    let len: u128 = chars as u128 + 2;
    let n: u128 = reads as u128;
    assert((len - 1) * n <= 0x1_0000_0000_0000_0000 * 0xffff_ffff_ffff_ffff) by (nonlinear_arith)
        requires
            0 <= len - 1 <= 0x1_0000_0000_0000_0000,
            0 <= n <= 0xffff_ffff_ffff_ffff,
    ;
    8 + len + 4 * n >= (len - 1) * n
}

/// Decides [`worth_inlining`].
pub fn worth_inlining_impl(cfg: &InlineConfig, value: &Lit, reads: usize) -> (r: bool)
    ensures
        r == worth_inlining(*cfg, value@, reads as nat),
{
    match value {
        Lit::Str(s) => cfg.inline_all_strings || stays_small_impl(
            s.value.as_str().unicode_len(),
            reads,
        ),
        _ => true,
    }
}

/// Computes [`inlined_value`].
pub fn inlined_value_impl(occs: &Vec<Occurrence>, id: &Ident, cfg: &InlineConfig) -> (r: Option<Lit>)
    ensures
        match r {
            Some(l) => inlined_value(occurrences_view(occs@), id@, *cfg) == Some(l@),
            None => inlined_value(occurrences_view(occs@), id@, *cfg) is None,
        },
{
    let c = count(occs, id);
    if !(c.decls == 1 && c.others == 0 && c.binds == c.decls + c.assigns) {
        return None;
    }
    let decl = match first(occs, id, false) {
        Some(k) => k,
        None => {
            return None;
        },
    };
    match &occs[decl].mark {
        Mark::Decl { has_init, value, annotation } => {
            if !(is_constant_name_impl(id.sym.as_str()) || *annotation != Annotation::Plain) {
                return None;
            }
            let found: Option<&Lit> = if *has_init {
                if c.assigns == 0 {
                    value.as_ref()
                } else {
                    None
                }
            } else if c.assigns == 1 {
                match first(occs, id, true) {
                    Some(k) => match &occs[k].mark {
                        Mark::Assign { value } => value.as_ref(),
                        _ => None,
                    },
                    None => None,
                }
            } else {
                None
            };
            match found {
                Some(l) => {
                    if *annotation == Annotation::Define || worth_inlining_impl(cfg, l, c.reads) {
                        Some(copy_lit(l))
                    } else {
                        None
                    }
                },
                None => None,
            }
        },
        _ => None,
    }
}

/// Computes [`constants`]: the bindings to inline, each with its value.
pub fn find_constants(occs: &Vec<Occurrence>, cfg: &InlineConfig) -> (r: Vec<Constant>)
    ensures
        constants_view(r@) == constants(occurrences_view(occs@), *cfg),
{
    let ghost all = occurrences_view(occs@);
    let mut env: Vec<Constant> = Vec::new();
    let mut i: usize = 0;
    assert(constants_view(env@) =~= Seq::<ConstantV>::empty());
    while i < occs.len()
        invariant
            i <= occs.len(),
            all == occurrences_view(occs@),
            constants_view(env@) == constants_upto(all, *cfg, i as nat),
        decreases occs.len() - i,
    {
        let ghost before = constants_view(env@);
        let is_decl = match &occs[i].mark {
            Mark::Decl { .. } => true,
            _ => false,
        };
        if is_decl {
            match inlined_value_impl(occs, &occs[i].id, cfg) {
                Some(l) => {
                    let c = Constant { id: copy_ident(&occs[i].id), value: l };
                    env.push(c);
                    assert(constants_view(env@) =~= before.push(c@));
                },
                None => {},
            }
        }
        i += 1;
    }
    env
}

/// Applies [`replaced_use`].
pub fn replace_use(e: Expr, env: &Vec<Constant>) -> (r: Expr)
    ensures
        r@ == replaced_use(e@, constants_view(env@)),
{
    proof {
        lemma_expr_view(e);
    }
    let found: Option<usize> = match &e {
        Expr::Ident(i) => find(env, i),
        Expr::Assign { op: AssignOp::Assign, left, .. } => {
            proof {
                lemma_pat_or_expr_view(*left);
            }
            match left {
                PatOrExpr::Pat(p) => {
                    proof {
                        lemma_pat_view(**p);
                    }
                    match &**p {
                        Pat::Ident(i) => find(env, i),
                        _ => None,
                    }
                },
                PatOrExpr::Expr(_) => None,
            }
        },
        _ => None,
    };
    match found {
        Some(k) => match e {
            Expr::Assign { right, .. } => *right,
            _ => {
                let r = Expr::Lit(copy_lit(&env[k].value));
                proof {
                    lemma_expr_view(r);
                }
                r
            },
        },
        None => e,
    }
}

/// Applies [`replaced_shorthand`].
pub fn replace_shorthand(p: Prop, env: &Vec<Constant>) -> (r: Prop)
    ensures
        r@ == replaced_shorthand(p@, constants_view(env@)),
{
    proof {
        lemma_prop_view(p);
    }
    let found: Option<usize> = match &p {
        Prop::Shorthand(i) => find(env, i),
        _ => None,
    };
    match found {
        Some(k) => match p {
            Prop::Shorthand(i) => {
                let value = Expr::Lit(copy_lit(&env[k].value));
                let key = PropName::Ident(i);
                let r = Prop::KeyValue { key, value: Box::new(value) };
                proof {
                    lemma_expr_view(value);
                    lemma_prop_name_view(key);
                    lemma_prop_view(r);
                }
                r
            },
            _ => p,
        },
        None => p,
    }
}

/// Applies [`replaced_bindings`].
pub fn replace_bindings(d: VarDecl, env: &Vec<Constant>) -> (r: VarDecl)
    ensures
        r@ == replaced_bindings(d@, constants_view(env@)),
{
    let ghost items = var_declarators_view(d.decls@);
    let ghost all = d.decls@;
    let ghost envv = constants_view(env@);
    proof {
        lemma_var_decl_view(d);
        lemma_var_declarators_view(all);
    }
    let kind = d.kind;
    let annotation = d.annotation;
    let mut out: Vec<VarDeclarator> = Vec::new();
    proof {
        lemma_var_declarators_view(out@);
        assert(var_declarators_view(out@) =~= Seq::<VarDeclaratorV>::empty());
        assert(items.take(0) =~= Seq::<VarDeclaratorV>::empty());
    }
    for x in it: d.decls
        invariant
            it.seq() == all,
            envv == constants_view(env@),
            items.len() == all.len(),
            forall|j: int| 0 <= j < all.len() ==> (#[trigger] items[j]) == all[j]@,
            var_declarators_view(out@) == remaining(items.take(it.index() as int), envv),
    {
        let ghost i = it.index() as int;
        proof {
            assert(items.take(i + 1).drop_last() =~= items.take(i));
            assert(items.take(i + 1).last() == items[i]);
            lemma_var_declarator_view(x);
            lemma_pat_view(x.name);
        }
        let hit = match &x.name {
            Pat::Ident(id) => find(env, id).is_some(),
            _ => false,
        };
        if !hit {
            proof {
                lemma_var_declarators_view_push(out@, x);
            }
            out.push(x);
        }
    }
    proof {
        assert(items.take(items.len() as int) =~= items);
    }
    let r = VarDecl { kind, annotation, decls: out };
    proof {
        lemma_var_decl_view(r);
    }
    r
}

/// Decides [`is_emptied`].
pub fn is_emptied_impl(s: &Stmt) -> (r: bool)
    ensures
        r == is_emptied(s@),
{
    proof {
        lemma_stmt_view(*s);
    }
    match s {
        Stmt::Decl(d) => {
            proof {
                lemma_decl_view(*d);
            }
            match d {
                Decl::Var(v) => {
                    proof {
                        lemma_var_decl_view(*v);
                        lemma_var_declarators_view(v.decls@);
                    }
                    v.decls.len() == 0
                },
                _ => false,
            }
        },
        _ => false,
    }
}

/// Applies [`settled`].
fn settle(s: Box<Stmt>) -> (r: Box<Stmt>)
    ensures
        r@ == settled(s@),
{
    if is_emptied_impl(&s) {
        proof {
            lemma_stmt_view(Stmt::Empty);
        }
        Box::new(Stmt::Empty)
    } else {
        s
    }
}

/// Applies [`replaced_body`].
pub fn replace_body(s: Stmt, env: &Vec<Constant>) -> (r: Stmt)
    ensures
        r@ == replaced_body(s@, constants_view(env@)),
{
    proof {
        lemma_stmt_view(s);
    }
    let r = match s {
        Stmt::With { obj, body } => Stmt::With { obj, body: settle(body) },
        Stmt::Labeled { label, body } => Stmt::Labeled { label, body: settle(body) },
        Stmt::If { test, cons, alt } => Stmt::If {
            test,
            cons: settle(cons),
            alt: match alt {
                Some(a) => Some(settle(a)),
                None => None,
            },
        },
        Stmt::While { test, body } => Stmt::While { test, body: settle(body) },
        Stmt::DoWhile { test, body } => Stmt::DoWhile { test, body: settle(body) },
        Stmt::For { init, test, update, body } => Stmt::For {
            init,
            test,
            update,
            body: settle(body),
        },
        Stmt::ForIn { left, right, body } => Stmt::ForIn { left, right, body: settle(body) },
        Stmt::ForOf { is_await, left, right, body } => Stmt::ForOf {
            is_await,
            left,
            right,
            body: settle(body),
        },
        _ => s,
    };
    proof {
        lemma_stmt_view(r);
    }
    r
}

/// Replaces the constants in each statement of a list and takes the
/// declarations that declare nothing any more out of it.
pub fn replace_stmts(v: Vec<Stmt>, env: &Vec<Constant>) -> (r: Vec<Stmt>)
    ensures
        stmts_view(r@) == replaced_stmts(stmts_view(v@), constants_view(env@)),
    decreases v,
{
    let ghost all = v@;
    let ghost items = stmts_view(all);
    let ghost envv = constants_view(env@);
    let ghost each = replaced_each_stmts(items, envv);
    proof {
        lemma_stmts_view(all);
        lemma_replaced_each_stmts(items, envv);
        lemma_replaced_stmts(items, envv);
    }
    let mut out: Vec<Stmt> = Vec::new();
    proof {
        lemma_stmts_view(out@);
        assert(stmts_view(out@) =~= Seq::<StmtV>::empty());
        assert(each.take(0) =~= Seq::<StmtV>::empty());
    }
    for x in it: v
        invariant
            it.seq() == all,
            v@ == all,
            envv == constants_view(env@),
            items.len() == all.len(),
            each.len() == all.len(),
            forall|j: int| 0 <= j < all.len() ==> (#[trigger] items[j]) == all[j]@,
            forall|j: int|
                0 <= j < all.len() ==> (#[trigger] each[j]) == replaced_stmt(items[j], envv),
            stmts_view(out@) == without_emptied(each.take(it.index() as int), envv),
    {
        let ghost i = it.index() as int;
        proof {
            assert(each.take(i + 1).drop_last() =~= each.take(i));
            assert(each.take(i + 1).last() == each[i]);
        }
        let y = replace_stmt(x, env);
        if !is_emptied_impl(&y) {
            proof {
                lemma_stmts_view_push(out@, y);
            }
            out.push(y);
        }
    }
    proof {
        assert(each.take(each.len() as int) =~= each);
    }
    out
}

/// Inlines the constants of a program: see [`inlined`].
pub fn inline_vars(program: Vec<Stmt>, cfg: &InlineConfig) -> (r: Vec<Stmt>)
    ensures
        stmts_view(r@) == inlined(stmts_view(program@), *cfg),
{
    let mut occs: Vec<Occurrence> = Vec::new();
    assert(occurrences_view(occs@) =~= Seq::<OccurrenceV>::empty());
    collect_stmts(&program, &mut occs);
    assert(Seq::<OccurrenceV>::empty() + occurrences_in_stmts(stmts_view(program@))
        =~= occurrences_in_stmts(stmts_view(program@)));
    let env = find_constants(&occs, cfg);
    replace_stmts(program, &env)
}

/// Whether inlining the constants of `src` gives `expected`.
pub fn fold(src: &Vec<Stmt>, expected: &Vec<Stmt>, cfg: &InlineConfig) -> (r: bool)
    ensures
        r == (inlined(stmts_view(src@), *cfg) == stmts_view(expected@)),
{
    let out = inline_vars(copy_stmts(src), cfg);
    same_stmts(&out, expected)
}

/// Whether inlining constants leaves `s` as it is.
pub fn fold_same(s: &Vec<Stmt>, cfg: &InlineConfig) -> (r: bool)
    ensures
        r == (inlined(stmts_view(s@), *cfg) == stmts_view(s@)),
{
    fold(s, s, cfg)
}

/// A string that is not worth inlining at some number of reads is not worth
/// inlining at any higher number.
pub proof fn lemma_worth_inlining_antitone(cfg: InlineConfig, value: LitV, reads: nat, more: nat)
    requires
        reads <= more,
        worth_inlining(cfg, value, more),
    ensures
        worth_inlining(cfg, value, reads),
{
    match value {
        LitV::Str(s) => {
            let len = s.value.len() + 2;
            if !cfg.inline_all_strings {
                assert((len - 1) * reads <= 8 + len + 4 * reads) by (nonlinear_arith)
                    requires
                        (len - 1) * more <= 8 + len + 4 * more,
                        reads <= more,
                        len >= 2,
                ;
            }
        },
        _ => {},
    }
}

/// A string of more than three characters that inlining is not forced for
/// stops being worth inlining once it is read often enough.
pub proof fn lemma_worth_inlining_ends(cfg: InlineConfig, value: LitV, reads: nat)
    requires
        !cfg.inline_all_strings,
        value matches LitV::Str(s) && s.value.len() > 3,
        reads > value->Str_0.value.len() + 10,
    ensures
        !worth_inlining(cfg, value, reads),
{
    let len = value->Str_0.value.len() + 2;
    assert((len - 1) * reads > 8 + len + 4 * reads) by (nonlinear_arith)
        requires
            len >= 6,
            reads > len + 8,
    ;
}

/// An occurrence that declares nothing leaves the first declaration of a
/// binding where it is, wherever it is added at the end.
pub proof fn lemma_declared_push(occs: Seq<OccurrenceV>, o: OccurrenceV, id: IdentV)
    requires
        !(o.mark is Decl),
    ensures
        declared(occs.push(o), id) == declared(occs, id),
    decreases occs.len(),
{
    let more = occs.push(o);
    if occs.len() == 0 {
        assert(more.drop_first() =~= Seq::<OccurrenceV>::empty());
        assert(declared(more.drop_first(), id) is None);
    } else {
        assert(more[0] == occs[0]);
        assert(more.drop_first() =~= occs.drop_first().push(o));
        lemma_declared_push(occs.drop_first(), o, id);
    }
}

/// An occurrence that assigns nothing leaves the first assignment to a
/// binding where it is.
pub proof fn lemma_assigned_push(occs: Seq<OccurrenceV>, o: OccurrenceV, id: IdentV)
    requires
        !(o.mark is Assign),
    ensures
        assigned(occs.push(o), id) == assigned(occs, id),
    decreases occs.len(),
{
    let more = occs.push(o);
    if occs.len() == 0 {
        assert(more.drop_first() =~= Seq::<OccurrenceV>::empty());
        assert(assigned(more.drop_first(), id) is None);
    } else {
        assert(more[0] == occs[0]);
        assert(more.drop_first() =~= occs.drop_first().push(o));
        lemma_assigned_push(occs.drop_first(), o, id);
    }
}

/// One more read never turns a binding that is kept into one that is
/// inlined: where the binding is inlined in a program that reads it once
/// more, it is inlined, with the same value, in the program without that read.
pub proof fn lemma_one_more_read(occs: Seq<OccurrenceV>, id: IdentV, cfg: InlineConfig)
    ensures
        inlined_value(occs.push(OccurrenceV { id, mark: MarkV::Read }), id, cfg) matches Some(l)
            ==> inlined_value(occs, id, cfg) == Some(l),
{
    let o = OccurrenceV { id, mark: MarkV::Read };
    let more = occs.push(o);
    assert(more.drop_last() =~= occs);
    assert(more.last() == o);
    let u = usage_of(occs, id);
    assert(usage_of(more, id) == Usage { reads: u.reads + 1, ..u });
    lemma_declared_push(occs, o, id);
    lemma_assigned_push(occs, o, id);
    assert(value_of(more, id) == value_of(occs, id));
    assert(annotation_of(more, id) == annotation_of(occs, id));
    match value_of(occs, id) {
        Some(l) => {
            if worth_inlining(cfg, l, u.reads + 1) {
                lemma_worth_inlining_antitone(cfg, l, u.reads, u.reads + 1);
            }
        },
        None => {},
    }
}

/// A binding that is no define and whose one value is a string of more than
/// three characters is kept once the program reads it often enough, unless
/// inlining is forced.
pub proof fn lemma_many_reads_keep_the_binding(
    occs: Seq<OccurrenceV>,
    id: IdentV,
    cfg: InlineConfig,
)
    requires
        !cfg.inline_all_strings,
        annotation_of(occs, id) != Annotation::Define,
        value_of(occs, id) matches Some(LitV::Str(s)) && s.value.len() > 3 && usage_of(
            occs,
            id,
        ).reads > s.value.len() + 10,
    ensures
        inlined_value(occs, id, cfg) is None,
{
    lemma_worth_inlining_ends(cfg, value_of(occs, id)->0, usage_of(occs, id).reads);
}

} // verus!
