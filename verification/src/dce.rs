//! Dead-code elimination: the entry points, and what holds of them.

use vstd::prelude::*;
use crate::ast::{Module, Stmt};
use crate::fold::{
    fold_module, folded_each_stmts, folded_module, folded_stmt, folded_stmts,
    lemma_folded_each_stmts, lemma_folded_stmt, lemma_folded_stmts,
};
use crate::model::StmtV;
use crate::occurs::occurrences_in_stmts;
use crate::scope::{Scope, VarMap, declared, declared_names, tracked_scope_of, used_each};
use crate::settled::{lemma_settled_stmts, settled_stmts};
use crate::effects::ignored;
use crate::quieting::lemma_simplified_list_holds;
use crate::steady::{is_quiet_stmt_here, reduces_once};
use crate::model::{ExprV, ModuleV};
use crate::quiet::{lemma_quiet_module, lemma_quiet_stmts};
use crate::quieted::{lemma_folded_module_is_quiet, lemma_folded_stmts_is_quiet};
use crate::tame::{tame_module, tame_stmts};
use crate::simplify::{
    fold_stmts, is_transfer, kept_operands, lemma_simplified_list_cut, simplified_list,
    simplified_stmt,
};
use crate::view::stmts_view;

verus! {

/// Removes the dead code of a script.
///
/// Every part of the program is simplified before the part that holds it:
/// see [`crate::simplify`] for what becomes of each kind of node.
pub fn dce(program: Vec<Stmt>) -> (r: Vec<Stmt>)
    ensures
        stmts_view(r@) == folded_stmts(stmts_view(program@)),
{
    fold_stmts(program)
}

/// Removes the dead code of a script and keeps the books of what is left:
/// the scope that comes with the program declares what its statements
/// declare, and counts the places that read each binding.
pub fn dce_with_scope(program: Vec<Stmt>) -> (r: (Vec<Stmt>, Scope))
    ensures
        stmts_view(r.0@) == folded_stmts(stmts_view(program@)),
        r.1.parent() == None::<usize>,
        r.1.vars() == used_each(
            declared(VarMap::empty(), declared_names(stmts_view(r.0@))),
            occurrences_in_stmts(stmts_view(r.0@)),
        ),
{
    let out = fold_stmts(program);
    let scope = tracked_scope_of(&out, None);
    (out, scope)
}

/// Removes the dead code of a module.
pub fn dce_module(module: Module) -> (r: Module)
    ensures
        r@ == folded_module(module@),
{
    fold_module(module)
}

/// A statement that control never passes is still one once it is simplified.
pub proof fn lemma_transfer_stays(s: StmtV)
    requires
        is_transfer(s),
    ensures
        is_transfer(folded_stmt(s)),
{
    lemma_folded_stmt(s);
}

/// Nothing that follows `return`, `throw`, `break` or `continue` in a list of
/// statements reaches the output: the list is simplified to what its part up
/// to that statement is simplified to.
pub proof fn lemma_dead_code_is_dropped(s: Seq<StmtV>, k: int)
    requires
        0 <= k < s.len(),
        is_transfer(s[k]),
    ensures
        folded_stmts(s) == folded_stmts(s.take(k + 1)),
{
    let t = s.take(k + 1);
    lemma_folded_stmts(s);
    lemma_folded_stmts(t);
    lemma_folded_each_stmts(s);
    lemma_folded_each_stmts(t);
    lemma_transfer_stays(s[k]);
    assert(folded_each_stmts(t) =~= folded_each_stmts(s).take(k + 1));
    lemma_simplified_list_cut(folded_each_stmts(s), k);
}

/// The rules for lists leave no more statements than there are.
pub proof fn lemma_simplified_list_len(s: Seq<StmtV>)
    ensures
        simplified_list(s).len() <= s.len(),
    decreases s.len(),
{
    if s.len() > 0 {
        lemma_simplified_list_len(s.drop_first());
    }
}

/// Where a statement that control never passes stands at place `k` of a
/// list, at most `k + 1` statements are left of the list, and each of them is
/// what one of the statements up to that place is simplified to.
pub proof fn lemma_nothing_follows_a_transfer(s: Seq<StmtV>, k: int)
    requires
        0 <= k < s.len(),
        is_transfer(s[k]),
    ensures
        folded_stmts(s).len() <= k + 1,
        forall|j: int|
            0 <= j < folded_stmts(s).len() ==> exists|i: int|
                0 <= i <= k && #[trigger] folded_stmts(s)[j] == folded_stmt(s[i]),
{
    let t = s.take(k + 1);
    let each = folded_each_stmts(t);
    let out = folded_stmts(s);
    lemma_dead_code_is_dropped(s, k);
    lemma_folded_stmts(t);
    lemma_folded_each_stmts(t);
    lemma_simplified_list_len(each);
    assert forall|j: int| 0 <= j < out.len() implies exists|i: int|
        0 <= i <= k && #[trigger] out[j] == folded_stmt(s[i]) by {
        lemma_simplified_list_holds(each, j);
        let i = choose|i: int| 0 <= i < each.len() && each[i] == simplified_list(each)[j];
        assert(each[i] == folded_stmt(t[i]));
        assert(t[i] == s[i]);
    }
}

/// Whether the rules for lists leave a list as it is: it holds no empty
/// statement, and control passes each statement but the last.
pub open spec fn is_tidy(s: Seq<StmtV>) -> bool {
    &&& forall|i: int| 0 <= i < s.len() ==> !((#[trigger] s[i]) is Empty)
    &&& forall|i: int| 0 <= i < s.len() - 1 ==> !is_transfer(#[trigger] s[i])
}

/// The rules for lists leave a tidy list as it is.
pub proof fn lemma_tidy_is_fixed(s: Seq<StmtV>)
    requires
        is_tidy(s),
    ensures
        simplified_list(s) == s,
    decreases s.len(),
{
    if s.len() > 0 {
        let t = s.drop_first();
        if is_transfer(s[0]) {
            assert(s.len() == 1);
            assert(s =~= seq![s[0]]);
        } else {
            assert forall|i: int| 0 <= i < t.len() implies !((#[trigger] t[i]) is Empty) by {
                assert(t[i] == s[i + 1]);
            }
            assert forall|i: int| 0 <= i < t.len() - 1 implies !is_transfer(#[trigger] t[i]) by {
                assert(t[i] == s[i + 1]);
            }
            lemma_tidy_is_fixed(t);
            assert(seq![s[0]] + t =~= s);
        }
    } else {
        assert(s =~= Seq::<StmtV>::empty());
    }
}

/// The rules for lists change nothing when they are applied a second time.
pub proof fn lemma_simplified_list_idempotent(s: Seq<StmtV>)
    ensures
        simplified_list(simplified_list(s)) == simplified_list(s),
{
    lemma_simplified_list_tidies(s);
    lemma_tidy_is_fixed(simplified_list(s));
}

/// What the rules for lists make of a list is tidy.
pub proof fn lemma_simplified_list_tidies(s: Seq<StmtV>)
    ensures
        is_tidy(simplified_list(s)),
    decreases s.len(),
{
    if s.len() > 0 {
        let t = s.drop_first();
        lemma_simplified_list_tidies(t);
        if s[0] is Empty {
        } else if is_transfer(s[0]) {
        } else {
            let r = simplified_list(t);
            let out = seq![s[0]] + r;
            assert(simplified_list(s) == out);
            assert forall|i: int| 0 <= i < out.len() implies !((#[trigger] out[i]) is Empty) by {
                if i > 0 {
                    assert(out[i] == r[i - 1]);
                }
            }
            assert forall|i: int| 0 <= i < out.len() - 1 implies !is_transfer(
                #[trigger] out[i],
            ) by {
                if i > 0 {
                    assert(out[i] == r[i - 1]);
                }
            }
        }
    }
}

/// What is left of a program holds no empty statement at its top, and
/// nothing there follows a `return`, `throw`, `break` or `continue`.
pub proof fn lemma_output_is_tidy(program: Seq<StmtV>)
    ensures
        is_tidy(folded_stmts(program)),
{
    lemma_folded_stmts(program);
    lemma_simplified_list_tidies(folded_each_stmts(program));
}

/// Whether the rule for statements leaves a statement as it is.
pub open spec fn is_fixed(s: StmtV) -> bool {
    simplified_stmt(s) == s
}

/// Whether the statements that a statement holds are left as they are by the
/// rule for statements, what is reduced of its expression is reduced once,
/// and a `try` holds something to try and something to catch or to finish.
pub open spec fn parts_are_fixed(s: StmtV) -> bool {
    match s {
        StmtV::If { test, cons, alt } => is_fixed(*cons) && (alt matches Some(a) ==> is_fixed(*a))
            && reduces_once(*test),
        StmtV::Expr(e) => reduces_once(*e),
        StmtV::Block(b) => forall|i: int| 0 <= i < b.len() ==> is_fixed(#[trigger] b[i]),
        StmtV::Try { .. } => is_quiet_stmt_here(s),
        _ => true,
    }
}

/// The rule for statements changes nothing when it is applied a second time
/// to a statement whose parts it leaves as they are.
pub proof fn lemma_statement_rule_idempotent(s: StmtV)
    requires
        parts_are_fixed(s),
    ensures
        simplified_stmt(simplified_stmt(s)) == simplified_stmt(s),
{
}

/// What is kept of the operands of a sequence is kept again, where the
/// reduction keeps what it has kept of each operand.
pub proof fn lemma_kept_operands_idempotent(s: Seq<ExprV>)
    requires
        forall|i: int| 0 <= i < s.len() ==> reduces_once(#[trigger] s[i]),
    ensures
        kept_operands(kept_operands(s)) == kept_operands(s),
    decreases s.len(),
{
    if s.len() > 0 {
        let head = s.drop_last();
        assert forall|i: int| 0 <= i < head.len() implies reduces_once(#[trigger] head[i]) by {
            assert(head[i] == s[i]);
        }
        lemma_kept_operands_idempotent(head);
        let kept = kept_operands(head);
        assert(reduces_once(s[s.len() - 1]));
        match ignored(s.last()) {
            Some(x) => {
                assert(kept_operands(s) =~= kept.push(x));
                lemma_kept_operands_push(kept, x);
                assert(ignored(x) == Some(x));
                assert(kept + seq![x] =~= kept.push(x));
            },
            None => {
                assert(kept_operands(s) =~= kept);
            },
        }
    }
}

/// What is kept of the operands of a list with one more operand.
pub proof fn lemma_kept_operands_push(s: Seq<ExprV>, x: ExprV)
    ensures
        kept_operands(s.push(x)) == kept_operands(s) + match ignored(x) {
            Some(y) => seq![y],
            None => Seq::empty(),
        },
{
    assert(s.push(x).drop_last() =~= s);
}

/// A program that no rule applies to, in any of its parts, is its own
/// simplification.
pub proof fn lemma_settled_program_is_kept(program: Seq<StmtV>)
    requires
        settled_stmts(program),
    ensures
        folded_stmts(program) == program,
{
    lemma_settled_stmts(program);
}

/// A second run changes nothing, for every program that is tame.
///
/// A program is tame where two things hold of it. The expressions that the
/// rules reduce can be looked at: the expression of every expression
/// statement, every operand of a sequence but the last, and the test of
/// every `if` whose consequent may vanish. What that asks is said with
/// [`crate::steady::looked`]: no call of a callee, and no template with a
/// tag, that is or may become known to have no effect stands where the
/// reduction keeps something whole and gathers its effects afterwards, as
/// under `||` in a sum. And every `try` is sure to stay a `try`: see
/// [`crate::steady::is_tame_stmt_here`]. What stands elsewhere is not asked
/// about: the value of an assignment or of a declaration, the arguments of a
/// call, the test of a loop, what a function returns.
///
/// Outside these programs a second run can change something:
/// `(x || Math.sin(1)) + g();` becomes `Math.sin(1), g();` and then loses
/// the call, and `try {} finally { f(); }` becomes `{ f(); }` and then
/// `f();`.
pub proof fn lemma_second_run_changes_nothing(program: Seq<StmtV>)
    requires
        tame_stmts(program),
    ensures
        folded_stmts(folded_stmts(program)) == folded_stmts(program),
{
    lemma_folded_stmts_is_quiet(program);
    lemma_quiet_stmts(folded_stmts(program));
}

/// A second run changes nothing of a tame module.
pub proof fn lemma_second_run_changes_no_module(module: ModuleV)
    requires
        tame_module(module),
    ensures
        folded_module(folded_module(module)) == folded_module(module),
{
    lemma_folded_module_is_quiet(module);
    lemma_quiet_module(folded_module(module));
}

} // verus!
