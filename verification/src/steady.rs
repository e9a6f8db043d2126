//! The places that the reduction looks at, and what it leaves there.
//!
//! What the reduction keeps of an expression whose value is not used can be
//! something that it reduces further: among the effects of an operand it
//! keeps a call whole, and where the callee of that call is known to have no
//! effect, a second run takes the call apart. An expression rests where no
//! such call stands at a place that the effects of the expression are
//! gathered from, and the reduction can look at an expression where what it
//! keeps whole and gathers the effects of rests. Of such an expression the
//! reduction keeps what it can look at again, and every effect that it
//! gathers is one that it keeps as it is.

use vstd::prelude::*;
use crate::ast::BinaryOp;
use crate::effects::{
    as_sequence, effects_of, effects_of_all, effects_of_elements, effects_of_key,
    effects_of_member, effects_of_members, ignored, is_droppable, kept_args, kept_element,
    kept_elements,
};
use crate::model::{ExprOrSpreadV, ExprOrSuperV, ExprV, PropNameV, PropOrSpreadV, PropV, StmtV};
use crate::purity::{is_ident_ref_to, is_pure_callee};
use crate::simplify::{is_empty_block, is_empty_handler};

verus! {

/// Whether the reduction keeps `e` as it is.
pub open spec fn is_kept(e: ExprV) -> bool {
    ignored(e) == Some(e)
}

/// Whether the reduction keeps what it has kept of `e`.
pub open spec fn reduces_once(e: ExprV) -> bool {
    ignored(e) matches Some(r) ==> ignored(r) == Some(r)
}

/// Whether calling `e` is known to have no effect, or may be once the parts
/// of `e` are simplified: `Date`, a member of `Math`, a function expression.
pub open spec fn may_be_pure_callee(e: ExprV) -> bool {
    ||| is_ident_ref_to(e, "Date"@)
    ||| (e matches ExprV::Member { obj: ExprOrSuperV::Expr(o), .. } && is_ident_ref_to(*o, "Math"@))
    ||| e is Fn
}

/// Whether `e` is a call whose callee, or a template whose tag, is known to
/// have no effect; with `may`, whether it is or may become one once its parts
/// are simplified.
pub open spec fn is_pure_use(e: ExprV, may: bool) -> bool {
    match e {
        ExprV::Call { callee: ExprOrSuperV::Expr(c), .. } => if may {
            may_be_pure_callee(*c)
        } else {
            is_pure_callee(*c)
        },
        ExprV::TaggedTpl { tag, .. } => if may {
            may_be_pure_callee(*tag)
        } else {
            is_pure_callee(*tag)
        },
        _ => false,
    }
}

/// Whether `e` rests: no [`is_pure_use`] stands in `e` at a place that the
/// effects of `e` are gathered from.
///
/// Those places are the operands of operators and of sequences, what stands
/// in parentheses, under a type or under an optional chain, the elements of
/// array literals and the spreads, computed keys and values of object
/// literals, and all of these again in what stands there. Of a use that `e`
/// itself is, they are the arguments that are spread and the expressions of
/// the template, and what stands in any argument. Nothing is asked of what
/// stands in a call of another callee, in an assignment, a member access, a
/// conditional expression or a function.
pub open spec fn rests(e: ExprV, may: bool) -> bool
    decreases e,
{
    match e {
        ExprV::Unary { arg, .. } => !is_pure_use(*arg, may) && rests(*arg, may),
        ExprV::Bin { left, right, .. } => !is_pure_use(*left, may) && rests(*left, may)
            && !is_pure_use(*right, may) && rests(*right, may),
        ExprV::Paren(x) => !is_pure_use(*x, may) && rests(*x, may),
        ExprV::OptChain(x) => !is_pure_use(*x, may) && rests(*x, may),
        ExprV::Ts { expr, .. } => !is_pure_use(*expr, may) && rests(*expr, may),
        ExprV::Sequence { init, last } => (forall|i: int|
            0 <= i < init.len() ==> !is_pure_use(#[trigger] init[i], may) && rests(init[i], may))
            && !is_pure_use(*last, may) && rests(*last, may),
        ExprV::Array(elems) => forall|i: int|
            0 <= i < elems.len() ==> ((#[trigger] elems[i]) matches Some(el) ==> !is_pure_use(
                el.expr,
                may,
            ) && rests(el.expr, may)),
        ExprV::Object(props) => forall|i: int|
            0 <= i < props.len() ==> member_rests(#[trigger] props[i], may),
        ExprV::Call { args, .. } => is_pure_use(e, may) ==> forall|i: int|
            0 <= i < args.len() ==> ((#[trigger] args[i]).spread ==> !is_pure_use(
                args[i].expr,
                may,
            )) && rests(args[i].expr, may),
        ExprV::TaggedTpl { tpl, .. } => is_pure_use(e, may) ==> forall|i: int|
            0 <= i < tpl.exprs.len() ==> !is_pure_use(#[trigger] tpl.exprs[i], may) && rests(
                tpl.exprs[i],
                may,
            ),
        _ => true,
    }
}

/// Whether what a member of an object literal evaluates rests and is no
/// [`is_pure_use`].
pub open spec fn member_rests(p: PropOrSpreadV, may: bool) -> bool
    decreases p,
{
    match p {
        PropOrSpreadV::Spread(x) => !is_pure_use(*x, may) && rests(*x, may),
        PropOrSpreadV::Prop(prop) => match *prop {
            PropV::Shorthand(_) => true,
            PropV::KeyValue { key, value } => key_rests(key, may) && !is_pure_use(*value, may)
                && rests(*value, may),
            PropV::Getter { key, .. } => key_rests(key, may),
            PropV::Setter { key, .. } => key_rests(key, may),
            PropV::Method { key, .. } => key_rests(key, may),
        },
    }
}

/// Whether the expression that computes a property key, if one does, rests
/// and is no [`is_pure_use`].
pub open spec fn key_rests(key: PropNameV, may: bool) -> bool
    decreases key,
{
    match key {
        PropNameV::Computed(e) => !is_pure_use(*e, may) && rests(*e, may),
        _ => true,
    }
}

/// Whether the reduction can look at `e` and leave something that it keeps
/// when it looks again.
///
/// The reduction goes into parentheses, into the operand of an operator
/// whose result can be dropped, into the operands of an operator that always
/// evaluates both, into the elements of an array, into the last operand of a
/// sequence and into the arguments of a call that has no effect of its own.
/// What it keeps whole it asks nothing of, unless the effects of what it
/// keeps are gathered afterwards: that is so under an operator that always
/// evaluates both operands, which `flat` says, and of the expressions of a
/// template whose tag has no effect. What is kept whole has to rest then.
pub open spec fn looked(e: ExprV, flat: bool, may: bool) -> bool
    decreases e,
{
    match e {
        ExprV::Paren(x) => looked(*x, flat, may),
        ExprV::Unary { op, arg } => if is_droppable(op) {
            looked(*arg, flat, may)
        } else {
            flat ==> !is_pure_use(*arg, may) && rests(*arg, may)
        },
        ExprV::Bin { op, left, right } => if op == BinaryOp::LogicalAnd || op
            == BinaryOp::LogicalOr {
            flat ==> !is_pure_use(*left, may) && rests(*left, may) && !is_pure_use(*right, may)
                && rests(*right, may)
        } else {
            looked(*left, true, may) && looked(*right, true, may)
        },
        ExprV::Array(elems) => forall|i: int|
            0 <= i < elems.len() ==> ((#[trigger] elems[i]) matches Some(el) ==> element_looked(
                el,
                flat,
                may,
            )),
        ExprV::Object(props) => flat ==> forall|i: int|
            0 <= i < props.len() ==> member_rests(#[trigger] props[i], may),
        ExprV::Call { args, .. } => is_pure_use(e, may) ==> forall|i: int|
            0 <= i < args.len() ==> element_looked(#[trigger] args[i], flat, may),
        ExprV::TaggedTpl { tpl, .. } => is_pure_use(e, may) ==> forall|i: int|
            0 <= i < tpl.exprs.len() ==> !is_pure_use(#[trigger] tpl.exprs[i], may) && rests(
                tpl.exprs[i],
                may,
            ),
        ExprV::Sequence { init, last } => (forall|i: int|
            0 <= i < init.len() ==> looked(#[trigger] init[i], false, may) && (flat
                ==> !is_pure_use(init[i], may) && rests(init[i], may))) && looked(*last, flat, may),
        ExprV::Ts { expr, .. } => flat ==> !is_pure_use(*expr, may) && rests(*expr, may),
        ExprV::OptChain(x) => flat ==> !is_pure_use(*x, may) && rests(*x, may),
        _ => true,
    }
}

/// Whether the reduction can look at an element or an argument: a spread
/// stays as it is and has to rest where effects are gathered; anything else
/// the reduction goes into.
pub open spec fn element_looked(el: ExprOrSpreadV, flat: bool, may: bool) -> bool
    decreases el,
{
    if el.spread {
        flat ==> !is_pure_use(el.expr, may) && rests(el.expr, may)
    } else {
        looked(el.expr, flat, may)
    }
}

/// Whether a statement is sure to stay when it is simplified: a declaration,
/// a loop, a statement that control never passes, `switch`, `with`,
/// `debugger`, a labeled statement, or an expression statement that calls a
/// callee that cannot be known to have no effect, assigns, updates, awaits
/// or yields.
pub open spec fn surely_stays(s: StmtV) -> bool {
    match s {
        StmtV::Decl(_) | StmtV::Return(_) | StmtV::Throw(_) | StmtV::Break(_) | StmtV::Continue(_)
        | StmtV::Debugger | StmtV::While { .. } | StmtV::DoWhile { .. } | StmtV::For { .. }
        | StmtV::ForIn { .. } | StmtV::ForOf { .. } | StmtV::Labeled { .. } | StmtV::Switch { .. }
        | StmtV::With { .. } => true,
        StmtV::Expr(e) => match *e {
            ExprV::Call { callee: ExprOrSuperV::Expr(c), .. } => !may_be_pure_callee(*c),
            ExprV::Assign { .. } | ExprV::Update { .. } | ExprV::Await(_) | ExprV::Yield { .. } => true,
            _ => false,
        },
        _ => false,
    }
}

/// Whether the first statement of a list is sure to stay.
pub open spec fn first_stays(s: Seq<StmtV>) -> bool {
    s.len() > 0 && surely_stays(s[0])
}

/// Whether a statement may be simplified to the empty statement: it is
/// neither sure to stay nor a block whose first statement is.
pub open spec fn may_vanish(s: StmtV) -> bool {
    !(surely_stays(s) || (s matches StmtV::Block(b) && first_stays(b)))
}

/// Whether a statement is tame where the rules look at it: the expression of
/// an expression statement can be looked at, and so can the test of an `if`
/// whose consequent may vanish; a `try` is sure to stay a `try`, since its block
/// and one of its other two parts begin with a statement that is sure to stay.
pub open spec fn is_tame_stmt_here(s: StmtV) -> bool {
    match s {
        StmtV::Expr(e) => looked(*e, false, true),
        StmtV::If { test, cons, .. } => may_vanish(*cons) ==> looked(*test, false, true),
        StmtV::Try { block, handler, finalizer } => first_stays(block) && ((handler matches Some(h)
            && first_stays(h.body)) || (finalizer matches Some(f) && first_stays(f))),
        _ => true,
    }
}

/// Whether a statement is quiet where the rules look at it: the expression
/// of an expression statement can be looked at, and so can the test of an
/// `if` without a consequent; a `try` holds something to try and something to catch or to
/// finish.
pub open spec fn is_quiet_stmt_here(s: StmtV) -> bool {
    match s {
        StmtV::Expr(e) => looked(*e, false, false),
        StmtV::If { test, cons, .. } => *cons == StmtV::Empty ==> looked(*test, false, false),
        StmtV::Try { block, handler, finalizer } => block.len() > 0 && !(is_empty_handler(handler)
            && is_empty_block(finalizer)),
        _ => true,
    }
}

/// Whether the operands of a sequence but the last can be looked at,
/// whatever their parts become when they are simplified.
pub open spec fn is_tame_here(e: ExprV) -> bool {
    e matches ExprV::Sequence { init, .. } ==> forall|i: int|
        0 <= i < init.len() ==> looked(#[trigger] init[i], false, true)
}

/// Whether the operands of a sequence but the last can be looked at.
pub open spec fn is_quiet_here(e: ExprV) -> bool {
    e matches ExprV::Sequence { init, .. } ==> forall|i: int|
        0 <= i < init.len() ==> looked(#[trigger] init[i], false, false)
}

/// Whether `e` rests, is no [`is_pure_use`], and is kept by the reduction as it is.
pub open spec fn is_steady(e: ExprV) -> bool {
    rests(e, false) && !is_pure_use(e, false) && is_kept(e)
}

/// Whether each of the expressions rests and is no [`is_pure_use`].
pub open spec fn all_rest(s: Seq<ExprV>) -> bool {
    forall|i: int| 0 <= i < s.len() ==> !is_pure_use(#[trigger] s[i], false) && rests(s[i], false)
}

/// Whether the expression of each element rests and is no [`is_pure_use`].
pub open spec fn elements_rest(s: Seq<Option<ExprOrSpreadV>>) -> bool {
    forall|i: int|
        0 <= i < s.len() ==> ((#[trigger] s[i]) matches Some(el) ==> !is_pure_use(el.expr, false)
            && rests(el.expr, false))
}

/// Every effect of an expression that rests and is no use of something
/// without effect is steady.
pub proof fn lemma_effects_are_steady(e: ExprV, k: int)
    requires
        rests(e, false),
        !is_pure_use(e, false),
        0 <= k < effects_of(e).len(),
    ensures
        is_steady(effects_of(e)[k]),
    decreases e, 2nat,
{
    match e {
        ExprV::Unary { arg, .. } => lemma_effects_are_steady(*arg, k),
        ExprV::Bin { left, right, .. } => {
            if k < effects_of(*left).len() {
                lemma_effects_are_steady(*left, k);
            } else {
                lemma_effects_are_steady(*right, k - effects_of(*left).len());
            }
        },
        ExprV::Sequence { init, last } => {
            if k < effects_of_all(init).len() {
                lemma_all_effects_are_steady(init, k);
            } else {
                lemma_effects_are_steady(*last, k - effects_of_all(init).len());
            }
        },
        ExprV::Paren(x) => lemma_effects_are_steady(*x, k),
        ExprV::Ts { expr, .. } => lemma_effects_are_steady(*expr, k),
        ExprV::OptChain(x) => lemma_effects_are_steady(*x, k),
        ExprV::Object(props) => lemma_member_effects_are_steady(props, k),
        ExprV::Array(elems) => lemma_element_effects_are_steady(elems, k),
        _ => {},
    }
}

/// Every effect of a list of expressions that rest is steady.
pub proof fn lemma_all_effects_are_steady(s: Seq<ExprV>, k: int)
    requires
        all_rest(s),
        0 <= k < effects_of_all(s).len(),
    ensures
        is_steady(effects_of_all(s)[k]),
    decreases s, 1nat,
{
    let t = s.drop_last();
    if k < effects_of_all(t).len() {
        assert forall|i: int| 0 <= i < t.len() implies !is_pure_use(#[trigger] t[i], false)
            && rests(t[i], false) by {
            assert(t[i] == s[i]);
        }
        lemma_all_effects_are_steady(t, k);
    } else {
        assert(!is_pure_use(s[s.len() - 1], false) && rests(s[s.len() - 1], false));
        lemma_effects_are_steady(s.last(), k - effects_of_all(t).len());
    }
}

/// Every effect of the elements of an array that rest is steady.
pub proof fn lemma_element_effects_are_steady(s: Seq<Option<ExprOrSpreadV>>, k: int)
    requires
        elements_rest(s),
        0 <= k < effects_of_elements(s).len(),
    ensures
        is_steady(effects_of_elements(s)[k]),
    decreases s, 1nat,
{
    let t = s.drop_last();
    if k < effects_of_elements(t).len() {
        assert forall|i: int| 0 <= i < t.len() implies ((#[trigger] t[i]) matches Some(el)
            ==> !is_pure_use(el.expr, false) && rests(el.expr, false)) by {
            assert(t[i] == s[i]);
        }
        lemma_element_effects_are_steady(t, k);
    } else {
        assert(s[s.len() - 1] matches Some(el) ==> !is_pure_use(el.expr, false) && rests(
            el.expr,
            false,
        ));
        lemma_effects_are_steady(s.last()->0.expr, k - effects_of_elements(t).len());
    }
}

/// Every effect of the members of an object that rest is steady.
pub proof fn lemma_member_effects_are_steady(s: Seq<PropOrSpreadV>, k: int)
    requires
        forall|i: int| 0 <= i < s.len() ==> member_rests(#[trigger] s[i], false),
        0 <= k < effects_of_members(s).len(),
    ensures
        is_steady(effects_of_members(s)[k]),
    decreases s, 1nat,
{
    let t = s.drop_last();
    let before = effects_of_members(t).len();
    let m = effects_of_member(s.last());
    assert(effects_of_members(s) == effects_of_members(t) + m);
    if k < before {
        assert forall|i: int| 0 <= i < t.len() implies member_rests(#[trigger] t[i], false) by {
            assert(t[i] == s[i]);
        }
        lemma_member_effects_are_steady(t, k);
    } else {
        assert(member_rests(s[s.len() - 1], false));
        match s.last() {
            PropOrSpreadV::Spread(x) => {
                assert(m == effects_of(*x));
                lemma_effects_are_steady(*x, k - before)
            },
            PropOrSpreadV::Prop(prop) => match *prop {
                PropV::Shorthand(_) => {},
                PropV::KeyValue { key, value } => {
                    assert(m == effects_of_key(key) + effects_of(*value));
                    if k - before < effects_of_key(key).len() {
                        lemma_key_effects_are_steady(key, k - before);
                    } else {
                        lemma_effects_are_steady(*value, k - before - effects_of_key(key).len());
                    }
                },
                PropV::Getter { key, .. } => {
                    assert(m == effects_of_key(key));
                    lemma_key_effects_are_steady(key, k - before)
                },
                PropV::Setter { key, .. } => {
                    assert(m == effects_of_key(key));
                    lemma_key_effects_are_steady(key, k - before)
                },
                PropV::Method { key, .. } => {
                    assert(m == effects_of_key(key));
                    lemma_key_effects_are_steady(key, k - before)
                },
            },
        }
    }
}

/// Every effect of a property key that rests is steady.
pub proof fn lemma_key_effects_are_steady(key: PropNameV, k: int)
    requires
        key_rests(key, false),
        0 <= k < effects_of_key(key).len(),
    ensures
        is_steady(effects_of_key(key)[k]),
    decreases key, 0nat,
{
    match key {
        PropNameV::Computed(e) => lemma_effects_are_steady(*e, k),
        _ => {},
    }
}

/// The sequence of steady expressions rests.
pub proof fn lemma_sequence_rests(fx: Seq<ExprV>)
    requires
        fx.len() > 0,
        all_rest(fx),
    ensures
        as_sequence(fx) matches Some(s) && rests(s, false) && !is_pure_use(s, false),
{
    let init = fx.drop_last();
    assert forall|i: int| 0 <= i < init.len() implies !is_pure_use(#[trigger] init[i], false)
        && rests(init[i], false) by {
        assert(init[i] == fx[i]);
    }
    assert(!is_pure_use(fx[fx.len() - 1], false) && rests(fx[fx.len() - 1], false));
}

/// What is kept of lists of elements, one after the other.
pub proof fn lemma_kept_elements_concat(
    a: Seq<Option<ExprOrSpreadV>>,
    b: Seq<Option<ExprOrSpreadV>>,
)
    ensures
        kept_elements(a + b) == kept_elements(a) + kept_elements(b),
    decreases b.len(),
{
    if b.len() == 0 {
        assert(a + b =~= a);
        assert(kept_elements(a) + kept_elements(b) =~= kept_elements(a));
    } else {
        assert((a + b).drop_last() =~= a + b.drop_last());
        assert((a + b).last() == b.last());
        lemma_kept_elements_concat(a, b.drop_last());
        let tail = match b.last() {
            Some(el) => kept_element(el),
            None => Seq::empty(),
        };
        assert(kept_elements(a) + kept_elements(b.drop_last()) + tail =~= kept_elements(a) + (
        kept_elements(b.drop_last()) + tail));
    }
}

/// What is kept of one element rests where the element does.
pub proof fn lemma_kept_element_rests(el: ExprOrSpreadV)
    requires
        (el.spread ==> !is_pure_use(el.expr, false)),
        rests(el.expr, false),
    ensures
        elements_rest(kept_element(el)),
    decreases el, 0nat,
{
    if !el.spread {
        match ignored(el.expr) {
            Some(x) => {
                lemma_reduction_rests(el.expr);
            },
            None => {},
        }
    }
}

/// What is kept of the elements of an array rests where the elements do.
pub proof fn lemma_kept_elements_rest(s: Seq<Option<ExprOrSpreadV>>)
    requires
        elements_rest(s),
    ensures
        elements_rest(kept_elements(s)),
    decreases s, 1nat,
{
    if s.len() > 0 {
        let t = s.drop_last();
        let head = kept_elements(t);
        let tail = match s.last() {
            Some(el) => kept_element(el),
            None => Seq::empty(),
        };
        assert forall|i: int| 0 <= i < t.len() implies ((#[trigger] t[i]) matches Some(el)
            ==> !is_pure_use(el.expr, false) && rests(el.expr, false)) by {
            assert(t[i] == s[i]);
        }
        lemma_kept_elements_rest(t);
        assert(s[s.len() - 1] matches Some(el) ==> !is_pure_use(el.expr, false) && rests(
            el.expr,
            false,
        ));
        match s.last() {
            Some(el) => lemma_kept_element_rests(el),
            None => {},
        }
        assert(kept_elements(s) == head + tail);
        assert forall|j: int| 0 <= j < kept_elements(s).len() implies ((
        #[trigger] kept_elements(s)[j]) matches Some(el) ==> !is_pure_use(el.expr, false)
            && rests(el.expr, false)) by {
            if j < head.len() {
                assert(kept_elements(s)[j] == head[j]);
            } else {
                assert(kept_elements(s)[j] == tail[j - head.len()]);
            }
        }
    }
}

/// Whether each argument rests, and is no [`is_pure_use`] where it is spread.
pub open spec fn args_rest(s: Seq<ExprOrSpreadV>) -> bool {
    forall|i: int|
        0 <= i < s.len() ==> ((#[trigger] s[i]).spread ==> !is_pure_use(s[i].expr, false))
            && rests(s[i].expr, false)
}

/// What is kept of the arguments of a call rests where the arguments do.
pub proof fn lemma_kept_args_rest(s: Seq<ExprOrSpreadV>)
    requires
        args_rest(s),
    ensures
        elements_rest(kept_args(s)),
    decreases s, 1nat,
{
    if s.len() > 0 {
        let t = s.drop_last();
        let head = kept_args(t);
        let tail = kept_element(s.last());
        assert forall|i: int| 0 <= i < t.len() implies ((#[trigger] t[i]).spread ==> !is_pure_use(
            t[i].expr,
            false,
        )) && rests(t[i].expr, false) by {
            assert(t[i] == s[i]);
        }
        lemma_kept_args_rest(t);
        assert((s[s.len() - 1].spread ==> !is_pure_use(s[s.len() - 1].expr, false)) && rests(
            s[s.len() - 1].expr,
            false,
        ));
        lemma_kept_element_rests(s.last());
        assert(kept_args(s) == head + tail);
        assert forall|j: int| 0 <= j < kept_args(s).len() implies ((
        #[trigger] kept_args(s)[j]) matches Some(el) ==> !is_pure_use(el.expr, false) && rests(
            el.expr,
            false,
        )) by {
            if j < head.len() {
                assert(kept_args(s)[j] == head[j]);
            } else {
                assert(kept_args(s)[j] == tail[j - head.len()]);
            }
        }
    }
}

/// What the reduction keeps of an expression that rests does rest, and is
/// no use of something without effect.
pub proof fn lemma_reduction_rests(e: ExprV)
    requires
        rests(e, false),
        ignored(e) is Some,
    ensures
        rests(ignored(e)->0, false),
        !is_pure_use(ignored(e)->0, false),
    decreases e, 2nat,
{
    match e {
        ExprV::Paren(x) => lemma_reduction_rests(*x),
        ExprV::Bin { op, left, right } => {
            if op != BinaryOp::LogicalAnd && op != BinaryOp::LogicalOr {
                match (ignored(*left), ignored(*right)) {
                    (Some(l), Some(r)) => {
                        lemma_reduction_rests(*left);
                        lemma_reduction_rests(*right);
                        let fx = effects_of(l) + effects_of(r);
                        assert forall|k: int| 0 <= k < fx.len() implies !is_pure_use(
                            #[trigger] fx[k],
                            false,
                        ) && rests(fx[k], false) by {
                            if k < effects_of(l).len() {
                                lemma_effects_are_steady(l, k);
                            } else {
                                lemma_effects_are_steady(r, k - effects_of(l).len());
                            }
                        }
                        lemma_sequence_rests(fx);
                    },
                    (Some(l), None) => lemma_reduction_rests(*left),
                    (None, Some(r)) => lemma_reduction_rests(*right),
                    (None, None) => {},
                }
            }
        },
        ExprV::Unary { op, arg } => {
            if is_droppable(op) {
                lemma_reduction_rests(*arg);
            }
        },
        ExprV::Array(elems) => {
            lemma_kept_elements_rest(elems);
        },
        ExprV::Call { callee: ExprOrSuperV::Expr(c), args } => {
            if is_pure_callee(*c) {
                lemma_kept_args_rest(args);
            }
        },
        ExprV::TaggedTpl { tag, tpl } => {
            if is_pure_callee(*tag) {
                let fx = effects_of_all(tpl.exprs);
                assert forall|k: int| 0 <= k < fx.len() implies !is_pure_use(
                    #[trigger] fx[k],
                    false,
                ) && rests(fx[k], false) by {
                    lemma_all_effects_are_steady(tpl.exprs, k);
                }
                lemma_sequence_rests(fx);
            }
        },
        ExprV::Sequence { init, last } => {
            match ignored(*last) {
                Some(l) => {
                    lemma_reduction_rests(*last);
                },
                None => {
                    lemma_sequence_rests(init);
                },
            }
        },
        _ => {},
    }
}

/// The reduction can look at what rests.
pub proof fn lemma_resting_can_be_looked_at(e: ExprV, flat: bool, may: bool)
    requires
        rests(e, may),
    ensures
        looked(e, flat, may),
    decreases e,
{
    match e {
        ExprV::Paren(x) => lemma_resting_can_be_looked_at(*x, flat, may),
        ExprV::Unary { op, arg } => lemma_resting_can_be_looked_at(*arg, flat, may),
        ExprV::Bin { left, right, .. } => {
            lemma_resting_can_be_looked_at(*left, true, may);
            lemma_resting_can_be_looked_at(*right, true, may);
        },
        ExprV::Array(elems) => {
            assert forall|i: int| 0 <= i < elems.len() implies ((#[trigger] elems[i]) matches Some(
                el,
            ) ==> element_looked(el, flat, may)) by {
                match elems[i] {
                    Some(el) => lemma_resting_can_be_looked_at(el.expr, flat, may),
                    None => {},
                }
            }
        },
        ExprV::Call { args, .. } => {
            if is_pure_use(e, may) {
                assert forall|i: int| 0 <= i < args.len() implies element_looked(
                    #[trigger] args[i],
                    flat,
                    may,
                ) by {
                    lemma_resting_can_be_looked_at(args[i].expr, flat, may);
                }
            }
        },
        ExprV::Sequence { init, last } => {
            assert forall|i: int| 0 <= i < init.len() implies looked(
                #[trigger] init[i],
                false,
                may,
            ) by {
                lemma_resting_can_be_looked_at(init[i], false, may);
            }
            lemma_resting_can_be_looked_at(*last, flat, may);
        },
        _ => {},
    }
}

/// Whether the reduction has looked at an element and what is kept of it
/// rests where effects are gathered.
pub open spec fn element_kept(el: Option<ExprOrSpreadV>, flat: bool) -> bool {
    el matches Some(x) ==> element_looked(x, flat, false) && (flat ==> !is_pure_use(x.expr, false)
        && rests(x.expr, false))
}

/// What is kept of one element that the reduction can look at.
pub proof fn lemma_kept_element_is_looked_at(el: ExprOrSpreadV, flat: bool)
    requires
        element_looked(el, flat, false),
    ensures
        forall|j: int|
            0 <= j < kept_element(el).len() ==> element_kept(#[trigger] kept_element(el)[j], flat),
    decreases el, 0nat,
{
    if !el.spread {
        match ignored(el.expr) {
            Some(x) => {
                lemma_looking_again(el.expr, flat);
            },
            None => {},
        }
    }
}

/// What is kept of the elements of an array that the reduction can look at.
pub proof fn lemma_kept_elements_are_looked_at(s: Seq<Option<ExprOrSpreadV>>, flat: bool)
    requires
        forall|i: int|
            0 <= i < s.len() ==> ((#[trigger] s[i]) matches Some(el) ==> element_looked(
                el,
                flat,
                false,
            )),
    ensures
        forall|j: int|
            0 <= j < kept_elements(s).len() ==> element_kept(#[trigger] kept_elements(s)[j], flat),
    decreases s, 1nat,
{
    if s.len() > 0 {
        let t = s.drop_last();
        let head = kept_elements(t);
        let tail = match s.last() {
            Some(el) => kept_element(el),
            None => Seq::empty(),
        };
        assert forall|i: int| 0 <= i < t.len() implies ((#[trigger] t[i]) matches Some(el)
            ==> element_looked(el, flat, false)) by {
            assert(t[i] == s[i]);
        }
        lemma_kept_elements_are_looked_at(t, flat);
        assert(s[s.len() - 1] matches Some(el) ==> element_looked(el, flat, false));
        match s.last() {
            Some(el) => lemma_kept_element_is_looked_at(el, flat),
            None => {},
        }
        assert(kept_elements(s) == head + tail);
        assert forall|j: int| 0 <= j < kept_elements(s).len() implies element_kept(
            #[trigger] kept_elements(s)[j],
            flat,
        ) by {
            if j < head.len() {
                assert(kept_elements(s)[j] == head[j]);
            } else {
                assert(kept_elements(s)[j] == tail[j - head.len()]);
            }
        }
    }
}

/// What is kept of the arguments of a call that the reduction can look at.
pub proof fn lemma_kept_args_are_looked_at(s: Seq<ExprOrSpreadV>, flat: bool)
    requires
        forall|i: int| 0 <= i < s.len() ==> element_looked(#[trigger] s[i], flat, false),
    ensures
        forall|j: int|
            0 <= j < kept_args(s).len() ==> element_kept(#[trigger] kept_args(s)[j], flat),
    decreases s, 1nat,
{
    if s.len() > 0 {
        let t = s.drop_last();
        let head = kept_args(t);
        let tail = kept_element(s.last());
        assert forall|i: int| 0 <= i < t.len() implies element_looked(
            #[trigger] t[i],
            flat,
            false,
        ) by {
            assert(t[i] == s[i]);
        }
        lemma_kept_args_are_looked_at(t, flat);
        assert(element_looked(s[s.len() - 1], flat, false));
        lemma_kept_element_is_looked_at(s.last(), flat);
        assert(kept_args(s) == head + tail);
        assert forall|j: int| 0 <= j < kept_args(s).len() implies element_kept(
            #[trigger] kept_args(s)[j],
            flat,
        ) by {
            if j < head.len() {
                assert(kept_args(s)[j] == head[j]);
            } else {
                assert(kept_args(s)[j] == tail[j - head.len()]);
            }
        }
    }
}

/// The array of what is kept of elements that the reduction has looked at
/// can be looked at again, and rests where effects are gathered.
pub proof fn lemma_array_is_looked_at(kept: Seq<Option<ExprOrSpreadV>>, flat: bool)
    requires
        forall|j: int| 0 <= j < kept.len() ==> element_kept(#[trigger] kept[j], flat),
    ensures
        looked(ExprV::Array(kept), flat, false),
        flat ==> rests(ExprV::Array(kept), false),
{
    assert forall|i: int| 0 <= i < kept.len() implies ((#[trigger] kept[i]) matches Some(el)
        ==> element_looked(el, flat, false)) by {
        assert(element_kept(kept[i], flat));
    }
    if flat {
        assert forall|i: int| 0 <= i < kept.len() implies ((#[trigger] kept[i]) matches Some(el)
            ==> !is_pure_use(el.expr, false) && rests(el.expr, false)) by {
            assert(element_kept(kept[i], flat));
        }
    }
}

/// What the reduction keeps of an expression that it can look at is no use
/// of something without effect, can be looked at again, and rests where
/// effects are gathered.
pub proof fn lemma_looking_again(e: ExprV, flat: bool)
    requires
        looked(e, flat, false),
        ignored(e) is Some,
    ensures
        !is_pure_use(ignored(e)->0, false),
        looked(ignored(e)->0, flat, false),
        flat ==> rests(ignored(e)->0, false),
    decreases e, 2nat,
{
    match e {
        ExprV::Paren(x) => lemma_looking_again(*x, flat),
        ExprV::Bin { op, left, right } => {
            if op != BinaryOp::LogicalAnd && op != BinaryOp::LogicalOr {
                match (ignored(*left), ignored(*right)) {
                    (Some(l), Some(r)) => {
                        lemma_looking_again(*left, true);
                        lemma_looking_again(*right, true);
                        let fx = effects_of(l) + effects_of(r);
                        assert forall|k: int| 0 <= k < fx.len() implies !is_pure_use(
                            #[trigger] fx[k],
                            false,
                        ) && rests(fx[k], false) by {
                            if k < effects_of(l).len() {
                                lemma_effects_are_steady(l, k);
                            } else {
                                lemma_effects_are_steady(r, k - effects_of(l).len());
                            }
                        }
                        lemma_sequence_rests(fx);
                        lemma_resting_can_be_looked_at(as_sequence(fx)->0, flat, false);
                    },
                    (Some(l), None) => {
                        lemma_looking_again(*left, true);
                        lemma_resting_can_be_looked_at(l, flat, false);
                    },
                    (None, Some(r)) => {
                        lemma_looking_again(*right, true);
                        lemma_resting_can_be_looked_at(r, flat, false);
                    },
                    (None, None) => {},
                }
            }
        },
        ExprV::Unary { op, arg } => {
            if is_droppable(op) {
                lemma_looking_again(*arg, flat);
            }
        },
        ExprV::Array(elems) => {
            lemma_kept_elements_are_looked_at(elems, flat);
            lemma_array_is_looked_at(kept_elements(elems), flat);
        },
        ExprV::Call { callee: ExprOrSuperV::Expr(c), args } => {
            if is_pure_callee(*c) {
                lemma_kept_args_are_looked_at(args, flat);
                lemma_array_is_looked_at(kept_args(args), flat);
            }
        },
        ExprV::TaggedTpl { tag, tpl } => {
            if is_pure_callee(*tag) {
                let fx = effects_of_all(tpl.exprs);
                assert forall|k: int| 0 <= k < fx.len() implies !is_pure_use(
                    #[trigger] fx[k],
                    false,
                ) && rests(fx[k], false) by {
                    lemma_all_effects_are_steady(tpl.exprs, k);
                }
                lemma_sequence_rests(fx);
                lemma_resting_can_be_looked_at(as_sequence(fx)->0, flat, false);
            }
        },
        ExprV::Sequence { init, last } => {
            match ignored(*last) {
                Some(l) => {
                    lemma_looking_again(*last, flat);
                },
                None => {
                    let r = ExprV::Sequence { init: init.drop_last(), last: Box::new(init.last()) };
                    assert(init.len() > 0);
                    assert forall|i: int| 0 <= i < init.drop_last().len() implies looked(
                        #[trigger] init.drop_last()[i],
                        false,
                        false,
                    ) && (flat ==> !is_pure_use(init.drop_last()[i], false) && rests(
                        init.drop_last()[i],
                        false,
                    )) by {
                        assert(init.drop_last()[i] == init[i]);
                    }
                    assert(looked(init[init.len() - 1], false, false));
                    if flat {
                        lemma_resting_can_be_looked_at(init.last(), flat, false);
                    }
                    assert(ignored(e) == Some(r));
                },
            }
        },
        _ => {},
    }
}

} // verus!
