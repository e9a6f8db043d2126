//! The rules that remove dead code, one node at a time.
//!
//! Each rule sees a node whose parts have been simplified already; [`crate::fold`]
//! applies them from the leaves of a tree up.

use vstd::prelude::*;
use crate::ast::{Decl, Expr, ModuleItem, ObjectPatProp, Pat, Stmt, UnaryOp, VarDeclKind};
use crate::coerce::{as_pure_bool, pure_bool_of};
use crate::effects::{ignore_result, ignored};
use crate::fold::{
    fold_module_item, fold_stmt, folded_each_module_items, folded_each_stmts, folded_module_item,
    folded_module_items, folded_stmt, folded_stmts, lemma_folded_each_module_items,
    lemma_folded_each_stmts, lemma_folded_module_items, lemma_folded_stmts,
};
use crate::model::{CatchClauseV, DeclV, ExprV, ModuleItemV, ObjectPatPropV, PatV, StmtV};
use crate::purity::{
    is_ident_ref_to, is_ident_ref_to_impl, may_have_side_effects, may_have_side_effects_impl,
};
use crate::value::Value;
use crate::view::{
    exprs_view, lemma_catch_clause_view, lemma_decl_view, lemma_expr_view, lemma_exprs_view, lemma_exprs_view_push,
    lemma_module_item_view, lemma_module_items_view, lemma_module_items_view_push,
    lemma_object_pat_prop_view, lemma_pat_view, lemma_stmt_view, lemma_stmts_view,
    lemma_stmts_view_push, lemma_var_decl_view, module_items_view, stmts_view,
};

verus! {

/// The operands of a sequence whose values are not used, as far as they have to stay.
pub open spec fn kept_operands(s: Seq<ExprV>) -> Seq<ExprV>
    decreases s.len(),
{
    if s.len() == 0 {
        Seq::empty()
    } else {
        kept_operands(s.drop_last()) + match ignored(s.last()) {
            Some(x) => seq![x],
            None => Seq::empty(),
        }
    }
}

/// A sequence keeps of each operand but the last what has to stay of it.
pub open spec fn simplified_expr(e: ExprV) -> ExprV {
    match e {
        ExprV::Sequence { init, last } => ExprV::Sequence { init: kept_operands(init), last },
        _ => e,
    }
}

/// Whether `e` is a default that a binding has anyway: `undefined`, or `void`
/// of something without side effects.
pub open spec fn is_undefined_default(e: ExprV) -> bool {
    is_ident_ref_to(e, "undefined"@) || (e matches ExprV::Unary { op: UnaryOp::Void, arg }
        && !may_have_side_effects(*arg))
}

/// A pattern loses a default that it has anyway.
pub open spec fn simplified_pat(p: PatV) -> PatV {
    match p {
        PatV::Assign { left, right } => if is_undefined_default(*right) {
            *left
        } else {
            p
        },
        _ => p,
    }
}

/// A property of an object pattern loses a default that it has anyway.
pub open spec fn simplified_object_pat_prop(p: ObjectPatPropV) -> ObjectPatPropV {
    match p {
        ObjectPatPropV::Assign { key, value: Some(e) } => if is_undefined_default(*e) {
            ObjectPatPropV::Assign { key, value: None }
        } else {
            p
        },
        _ => p,
    }
}

/// Whether a statement does nothing: the empty statement and the empty block.
pub open spec fn is_empty_stmt(s: StmtV) -> bool {
    match s {
        StmtV::Empty => true,
        StmtV::Block(b) => b.len() == 0,
        _ => false,
    }
}

/// Whether a `catch` clause is absent or has an empty body.
pub open spec fn is_empty_handler(h: Option<CatchClauseV>) -> bool {
    match h {
        Some(c) => c.body.len() == 0,
        None => true,
    }
}

/// Whether a block is absent or empty.
pub open spec fn is_empty_block(b: Option<Seq<StmtV>>) -> bool {
    match b {
        Some(stmts) => stmts.len() == 0,
        None => true,
    }
}

/// Whether a statement declares a name that only its block knows: `let`,
/// `const` and class declarations.
pub open spec fn is_lexical_decl(s: StmtV) -> bool {
    match s {
        StmtV::Decl(DeclV::Class { .. }) => true,
        StmtV::Decl(DeclV::Var(v)) => v.kind != VarDeclKind::Var,
        _ => false,
    }
}

/// What a block of simplified statements becomes: the empty statement where
/// it is empty, and its only statement where it has one. A block stays
/// around a lexical declaration, whose name would otherwise reach the
/// statements around the block.
pub open spec fn block_of(stmts: Seq<StmtV>) -> StmtV {
    if stmts.len() == 0 {
        StmtV::Empty
    } else if stmts.len() == 1 && !is_lexical_decl(stmts[0]) {
        stmts[0]
    } else {
        StmtV::Block(stmts)
    }
}

/// What an `if` becomes whose test is not known or can be observed: it
/// loses an alternate that does nothing, and without a body it is what has
/// to stay of its test.
pub open spec fn undecided(test: ExprV, cons: StmtV, alt: Option<Box<StmtV>>) -> StmtV {
    if alt matches Some(a) && !is_empty_stmt(*a) {
        StmtV::If { test: Box::new(test), cons: Box::new(cons), alt }
    } else if cons == StmtV::Empty {
        match ignored(test) {
            Some(e) => StmtV::Expr(Box::new(e)),
            None => StmtV::Empty,
        }
    } else {
        StmtV::If { test: Box::new(test), cons: Box::new(cons), alt: None }
    }
}

/// What a statement becomes once its parts are simplified.
///
/// - An `if` whose test is known and cannot be observed becomes the branch
///   that runs, or the empty statement where there is none. Any other `if`
///   is left [`undecided`].
/// - An expression statement becomes what has to stay of its expression, or
///   the empty statement.
/// - A block becomes what [`block_of`] says.
/// - A `try` with an empty block becomes its `finally` block, or the empty
///   statement; one with nothing to catch and nothing to finish becomes its
///   block. Either block stays a block, whatever it holds.
pub open spec fn simplified_stmt(s: StmtV) -> StmtV {
    match s {
        StmtV::If { test, cons, alt } => match pure_bool_of(*test) {
            Value::Known(true) => *cons,
            Value::Known(false) => match alt {
                Some(a) => *a,
                None => StmtV::Empty,
            },
            Value::Unknown => undecided(*test, *cons, alt),
        },
        StmtV::Expr(e) => match ignored(*e) {
            Some(x) => StmtV::Expr(Box::new(x)),
            None => StmtV::Empty,
        },
        StmtV::Block(stmts) => block_of(stmts),
        StmtV::Try { block, handler, finalizer } => if block.len() == 0 {
            match finalizer {
                Some(f) => StmtV::Block(f),
                None => StmtV::Empty,
            }
        } else if is_empty_handler(handler) && is_empty_block(finalizer) {
            StmtV::Block(block)
        } else {
            s
        },
        _ => s,
    }
}

/// Whether control never passes a statement: `throw`, `return`, `continue`, `break`.
pub open spec fn is_transfer(s: StmtV) -> bool {
    s is Throw || s is Return || s is Continue || s is Break
}

/// What a list of simplified statements becomes: empty statements leave it,
/// and it ends with the first statement that control never passes.
pub open spec fn simplified_list(s: Seq<StmtV>) -> Seq<StmtV>
    decreases s.len(),
{
    if s.len() == 0 {
        Seq::empty()
    } else if s[0] is Empty {
        simplified_list(s.drop_first())
    } else if is_transfer(s[0]) {
        seq![s[0]]
    } else {
        seq![s[0]] + simplified_list(s.drop_first())
    }
}

/// Applies [`simplified_expr`].
pub fn simplify_expr(e: Expr) -> (r: Expr)
    ensures
        r@ == simplified_expr(e@),
{
    proof {
        lemma_expr_view(e);
    }
    match e {
        Expr::Sequence { init, last } => {
            let ghost items = exprs_view(init@);
            let ghost all = init@;
            let mut out: Vec<Expr> = Vec::new();
            proof {
                lemma_exprs_view(all);
                lemma_exprs_view(out@);
                assert(exprs_view(out@) =~= Seq::<ExprV>::empty());
                assert(items.take(0) =~= Seq::<ExprV>::empty());
            }
            for x in it: init
                invariant
                    it.seq() == all,
                    items.len() == all.len(),
                    forall|j: int| 0 <= j < all.len() ==> (#[trigger] items[j]) == all[j]@,
                    exprs_view(out@) == kept_operands(items.take(it.index() as int)),
            {
                let ghost i = it.index() as int;
                let ghost before = exprs_view(out@);
                proof {
                    assert(items.take(i + 1).drop_last() =~= items.take(i));
                    assert(items.take(i + 1).last() == items[i]);
                    assert(before + Seq::<ExprV>::empty() =~= before);
                }
                match ignore_result(x) {
                    Some(y) => {
                        proof {
                            lemma_exprs_view_push(out@, y);
                            assert(before + seq![y@] =~= before.push(y@));
                        }
                        out.push(y);
                    },
                    None => {},
                }
            }
            proof {
                assert(items.take(items.len() as int) =~= items);
            }
            let r = Expr::Sequence { init: out, last };
            proof {
                lemma_expr_view(r);
            }
            r
        },
        _ => e,
    }
}

/// Decides [`is_undefined_default`].
fn is_undefined_default_impl(e: &Expr) -> (r: bool)
    ensures
        r == is_undefined_default(e@),
{
    proof {
        lemma_expr_view(*e);
    }
    if is_ident_ref_to_impl(e, "undefined") {
        return true;
    }
    match e {
        Expr::Unary { op: UnaryOp::Void, arg } => !may_have_side_effects_impl(arg),
        _ => false,
    }
}

/// Applies [`simplified_pat`].
pub fn simplify_pat(p: Pat) -> (r: Pat)
    ensures
        r@ == simplified_pat(p@),
{
    proof {
        lemma_pat_view(p);
    }
    match p {
        Pat::Assign { left, right } => {
            if is_undefined_default_impl(&right) {
                *left
            } else {
                Pat::Assign { left, right }
            }
        },
        _ => p,
    }
}

/// Applies [`simplified_object_pat_prop`].
pub fn simplify_object_pat_prop(p: ObjectPatProp) -> (r: ObjectPatProp)
    ensures
        r@ == simplified_object_pat_prop(p@),
{
    proof {
        lemma_object_pat_prop_view(p);
    }
    match p {
        ObjectPatProp::Assign { key, value: Some(e) } => {
            if is_undefined_default_impl(&e) {
                let r = ObjectPatProp::Assign { key, value: None };
                proof {
                    lemma_object_pat_prop_view(r);
                }
                r
            } else {
                ObjectPatProp::Assign { key, value: Some(e) }
            }
        },
        _ => p,
    }
}

/// Decides [`is_empty_stmt`].
pub fn is_empty_stmt_impl(s: &Stmt) -> (r: bool)
    ensures
        r == is_empty_stmt(s@),
{
    proof {
        lemma_stmt_view(*s);
    }
    match s {
        Stmt::Empty => true,
        Stmt::Block(b) => {
            proof {
                lemma_stmts_view(b@);
            }
            b.len() == 0
        },
        _ => false,
    }
}

/// Decides [`is_lexical_decl`].
pub fn is_lexical_decl_impl(s: &Stmt) -> (r: bool)
    ensures
        r == is_lexical_decl(s@),
{
    proof {
        lemma_stmt_view(*s);
    }
    match s {
        Stmt::Decl(d) => {
            proof {
                lemma_decl_view(*d);
            }
            match d {
                Decl::Class { .. } => true,
                Decl::Var(v) => {
                    proof {
                        lemma_var_decl_view(*v);
                    }
                    match v.kind {
                        VarDeclKind::Var => false,
                        _ => true,
                    }
                },
                Decl::Fn { .. } => false,
            }
        },
        _ => false,
    }
}

/// Makes [`block_of`] the statements.
pub fn into_block(stmts: Vec<Stmt>) -> (r: Stmt)
    ensures
        r@ == block_of(stmts_view(stmts@)),
{
    proof {
        lemma_stmts_view(stmts@);
        lemma_stmt_view(Stmt::Empty);
    }
    let mut stmts = stmts;
    if stmts.len() == 0 {
        Stmt::Empty
    } else if stmts.len() == 1 && !is_lexical_decl_impl(&stmts[0]) {
        match stmts.pop() {
            Some(only) => only,
            None => Stmt::Empty,
        }
    } else {
        let r = Stmt::Block(stmts);
        proof {
            lemma_stmt_view(r);
        }
        r
    }
}

/// Applies [`simplified_stmt`].
pub fn simplify_stmt(s: Stmt) -> (r: Stmt)
    ensures
        r@ == simplified_stmt(s@),
{
    proof {
        lemma_stmt_view(s);
        lemma_stmt_view(Stmt::Empty);
    }
    match s {
        Stmt::If { test, cons, alt } => {
            proof {
                lemma_stmt_view(*cons);
            }
            match as_pure_bool(&test) {
                Value::Known(val) => {
                    if val {
                        *cons
                    } else {
                        match alt {
                            Some(a) => *a,
                            None => Stmt::Empty,
                        }
                    }
                },
                Value::Unknown => {
                    let keeps_alt = match &alt {
                        Some(a) => !is_empty_stmt_impl(a),
                        None => false,
                    };
                    let cons_is_empty = match &*cons {
                        Stmt::Empty => true,
                        _ => false,
                    };
                    if keeps_alt {
                        Stmt::If { test, cons, alt }
                    } else if cons_is_empty {
                        match ignore_result(*test) {
                            Some(e) => {
                                let r = Stmt::Expr(Box::new(e));
                                proof {
                                    lemma_stmt_view(r);
                                }
                                r
                            },
                            None => Stmt::Empty,
                        }
                    } else {
                        // Remove empty else block.
                        let r = Stmt::If { test, cons, alt: None };
                        proof {
                            lemma_stmt_view(r);
                        }
                        r
                    }
                },
            }
        },
        // `1;` -> `;`
        Stmt::Expr(e) => match ignore_result(*e) {
            Some(x) => {
                let r = Stmt::Expr(Box::new(x));
                proof {
                    lemma_stmt_view(r);
                }
                r
            },
            None => Stmt::Empty,
        },
        Stmt::Block(stmts) => into_block(stmts),
        Stmt::Try { block: body, handler, finalizer } => {
            proof {
                lemma_stmts_view(body@);
            }
            // Only leave the finally block if try block is empty
            if body.len() == 0 {
                return match finalizer {
                    Some(f) => {
                        let r = Stmt::Block(f);
                        proof {
                            lemma_stmt_view(r);
                        }
                        r
                    },
                    None => Stmt::Empty,
                };
            }
            let no_handler = match &handler {
                Some(c) => {
                    proof {
                        lemma_catch_clause_view(*c);
                        lemma_stmts_view(c.body@);
                    }
                    c.body.len() == 0
                },
                None => true,
            };
            let no_finalizer = match &finalizer {
                Some(f) => {
                    proof {
                        lemma_stmts_view(f@);
                    }
                    f.len() == 0
                },
                None => true,
            };
            // If catch block and finally block is empty, remove try-catch is useless.
            if no_handler && no_finalizer {
                let r = Stmt::Block(body);
                proof {
                    lemma_stmt_view(r);
                }
                return r;
            }
            Stmt::Try { block: body, handler, finalizer }
        },
        _ => s,
    }
}

/// Decides [`is_transfer`].
pub fn is_transfer_impl(s: &Stmt) -> (r: bool)
    ensures
        r == is_transfer(s@),
{
    proof {
        lemma_stmt_view(*s);
    }
    match s {
        Stmt::Throw(_) | Stmt::Return(_) | Stmt::Continue(_) | Stmt::Break(_) => true,
        _ => false,
    }
}

/// Nothing of a list that follows a statement that control never passes
/// reaches the simplified list.
pub proof fn lemma_simplified_list_cut(s: Seq<StmtV>, k: int)
    requires
        0 <= k < s.len(),
        is_transfer(s[k]),
    ensures
        simplified_list(s) == simplified_list(s.take(k + 1)),
    decreases s.len(),
{
    let t = s.take(k + 1);
    if s[0] is Empty {
        assert(k > 0);
        assert(t.drop_first() =~= s.drop_first().take(k));
        lemma_simplified_list_cut(s.drop_first(), k - 1);
    } else if is_transfer(s[0]) {
    } else {
        assert(k > 0);
        assert(t.drop_first() =~= s.drop_first().take(k));
        lemma_simplified_list_cut(s.drop_first(), k - 1);
    }
}

/// Simplifies each statement of a list, then the list: see [`simplified_list`].
pub fn fold_stmts(v: Vec<Stmt>) -> (r: Vec<Stmt>)
    ensures
        stmts_view(r@) == folded_stmts(stmts_view(v@)),
    decreases v,
{
    let ghost all = v@;
    let ghost items = stmts_view(all);
    let ghost each = folded_each_stmts(items);
    proof {
        lemma_stmts_view(all);
        lemma_folded_each_stmts(items);
        lemma_folded_stmts(items);
    }
    let mut out: Vec<Stmt> = Vec::new();
    let mut done = false;
    proof {
        lemma_stmts_view(out@);
        assert(stmts_view(out@) =~= Seq::<StmtV>::empty());
        assert(each.skip(0) =~= each);
        assert(Seq::<StmtV>::empty() + simplified_list(each) =~= simplified_list(each));
    }
    for x in it: v
        invariant
            it.seq() == all,
            v@ == all,
            items.len() == all.len(),
            each.len() == all.len(),
            forall|j: int| 0 <= j < all.len() ==> (#[trigger] items[j]) == all[j]@,
            forall|j: int| 0 <= j < all.len() ==> (#[trigger] each[j]) == folded_stmt(items[j]),
            !done ==> simplified_list(each) == stmts_view(out@) + simplified_list(
                each.skip(it.index() as int),
            ),
            done ==> simplified_list(each) == stmts_view(out@),
    {
        if !done {
            let ghost i = it.index() as int;
            let ghost before = stmts_view(out@);
            let ghost rest = each.skip(i);
            let y = fold_stmt(x);
            proof {
                assert(rest[0] == each[i]);
                assert(rest.drop_first() =~= each.skip(i + 1));
                lemma_stmt_view(y);
                assert(before + Seq::<StmtV>::empty() =~= before);
            }
            let empty = match &y {
                Stmt::Empty => true,
                _ => false,
            };
            if empty {
                // Remove empty statements.
            } else if is_transfer_impl(&y) {
                proof {
                    lemma_stmts_view_push(out@, y);
                    assert(before + seq![y@] =~= before.push(y@));
                }
                out.push(y);
                done = true;
            } else {
                proof {
                    lemma_stmts_view_push(out@, y);
                    assert(before + (seq![y@] + simplified_list(each.skip(i + 1))) =~= before.push(
                        y@,
                    ) + simplified_list(each.skip(i + 1)));
                }
                out.push(y);
            }
        }
    }
    proof {
        assert(each.skip(each.len() as int) =~= Seq::<StmtV>::empty());
        assert(stmts_view(out@) + Seq::<StmtV>::empty() =~= stmts_view(out@));
    }
    out
}

/// What a list of simplified module items becomes: among its statements,
/// what [`simplified_list`] says; imports and exports stay.
pub open spec fn simplified_items(s: Seq<ModuleItemV>) -> Seq<ModuleItemV>
    decreases s.len(),
{
    if s.len() == 0 {
        Seq::empty()
    } else {
        match s[0] {
            ModuleItemV::Stmt(st) => if st is Empty {
                simplified_items(s.drop_first())
            } else if is_transfer(st) {
                seq![s[0]]
            } else {
                seq![s[0]] + simplified_items(s.drop_first())
            },
            ModuleItemV::ModuleDecl(_) => seq![s[0]] + simplified_items(s.drop_first()),
        }
    }
}

/// Simplifies each item of the body of a module, then the body: see [`simplified_items`].
pub fn fold_module_items(v: Vec<ModuleItem>) -> (r: Vec<ModuleItem>)
    ensures
        module_items_view(r@) == folded_module_items(module_items_view(v@)),
    decreases v,
{
    let ghost all = v@;
    let ghost items = module_items_view(all);
    let ghost each = folded_each_module_items(items);
    proof {
        lemma_module_items_view(all);
        lemma_folded_each_module_items(items);
        lemma_folded_module_items(items);
    }
    let mut out: Vec<ModuleItem> = Vec::new();
    let mut done = false;
    proof {
        lemma_module_items_view(out@);
        assert(module_items_view(out@) =~= Seq::<ModuleItemV>::empty());
        assert(each.skip(0) =~= each);
        assert(Seq::<ModuleItemV>::empty() + simplified_items(each) =~= simplified_items(each));
    }
    for x in it: v
        invariant
            it.seq() == all,
            v@ == all,
            items.len() == all.len(),
            each.len() == all.len(),
            forall|j: int| 0 <= j < all.len() ==> (#[trigger] items[j]) == all[j]@,
            forall|j: int|
                0 <= j < all.len() ==> (#[trigger] each[j]) == folded_module_item(items[j]),
            !done ==> simplified_items(each) == module_items_view(out@) + simplified_items(
                each.skip(it.index() as int),
            ),
            done ==> simplified_items(each) == module_items_view(out@),
    {
        if !done {
            let ghost i = it.index() as int;
            let ghost before = module_items_view(out@);
            let ghost rest = each.skip(i);
            let y = fold_module_item(x);
            proof {
                assert(rest[0] == each[i]);
                assert(rest.drop_first() =~= each.skip(i + 1));
                lemma_module_item_view(y);
                assert(before + Seq::<ModuleItemV>::empty() =~= before);
            }
            match y {
                ModuleItem::Stmt(st) => {
                    proof {
                        lemma_stmt_view(st);
                    }
                    let empty = match &st {
                        Stmt::Empty => true,
                        _ => false,
                    };
                    if empty {
                        // Remove empty statements.
                    } else if is_transfer_impl(&st) {
                        let z = ModuleItem::Stmt(st);
                        proof {
                            lemma_module_items_view_push(out@, z);
                            assert(before + seq![z@] =~= before.push(z@));
                        }
                        out.push(z);
                        done = true;
                    } else {
                        let z = ModuleItem::Stmt(st);
                        proof {
                            lemma_module_items_view_push(out@, z);
                            assert(before + (seq![z@] + simplified_items(each.skip(i + 1)))
                                =~= before.push(z@) + simplified_items(each.skip(i + 1)));
                        }
                        out.push(z);
                    }
                },
                ModuleItem::ModuleDecl(d) => {
                    let z = ModuleItem::ModuleDecl(d);
                    proof {
                        lemma_module_items_view_push(out@, z);
                        assert(before + (seq![z@] + simplified_items(each.skip(i + 1)))
                            =~= before.push(z@) + simplified_items(each.skip(i + 1)));
                    }
                    out.push(z);
                },
            }
        }
    }
    proof {
        assert(each.skip(each.len() as int) =~= Seq::<ModuleItemV>::empty());
        assert(module_items_view(out@) + Seq::<ModuleItemV>::empty() =~= module_items_view(out@));
    }
    out
}

} // verus!
