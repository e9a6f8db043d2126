//! What an expression turns into when the language coerces it to a boolean,
//! to a number or to a string.

use vstd::prelude::*;
use vstd::arithmetic::power2::{lemma2_to64, lemma_pow2_adds, pow2};
use crate::ast::{BinaryOp, Expr, ExprOrSpread, Lit, UnaryOp};
use crate::model::{ExprOrSpreadV, ExprV, LitV};
use crate::number::{
    is_nan, is_zero, nan, zero, Numeral, NumeralV, INFINITY, NAN, NEG_INFINITY, ONE, ZERO,
};
use crate::rounding::{nearest_bits, nearest_bits_impl};
use crate::purity::{
    is_ident_ref_to, is_ident_ref_to_impl, may_have_side_effects, may_have_side_effects_impl,
};
use crate::text::{chars_of, str_eq, string_of, trim, trimmed};
use crate::value::{and3, not3, or3, Purity, Value};
use crate::view::{lemma_expr_or_spread_view, lemma_expr_view, lemma_opt_expr_or_spreads_view};

verus! {

impl View for Value<String> {
    type V = Value<Seq<char>>;

    open spec fn view(&self) -> Value<Seq<char>> {
        match self {
            Value::Known(s) => Value::Known(s@),
            Value::Unknown => Value::Unknown,
        }
    }
}

impl View for Value<Numeral> {
    type V = Value<NumeralV>;

    open spec fn view(&self) -> Value<NumeralV> {
        match self {
            Value::Known(n) => Value::Known(n@),
            Value::Unknown => Value::Unknown,
        }
    }
}

/// Whether a digit other than `0` occurs.
pub open spec fn has_nonzero_digit(digits: Seq<char>) -> bool {
    exists|i: int| 0 <= i < digits.len() && '1' <= (#[trigger] digits[i]) <= '9'
}

/// The boolean a literal coerces to.
pub open spec fn lit_truth(l: LitV) -> bool {
    match l {
        LitV::Num(n) => !(is_nan(n.bits) || is_zero(n.bits)),
        LitV::BigInt(digits) => has_nonzero_digit(digits),
        LitV::Bool(b) => b,
        LitV::Str(s) => s.value.len() != 0,
        LitV::Null => false,
        LitV::Regex(_) => true,
    }
}

/// A value together with the purity that the side-effect rules give `e`.
pub open spec fn with_purity_of(e: ExprV, v: Value<bool>) -> (Purity, Value<bool>) {
    (
        if may_have_side_effects(e) {
            Purity::MayBeImpure
        } else {
            Purity::Pure
        },
        v,
    )
}

/// The boolean `e` coerces to, with whether evaluating `e` can be observed.
///
/// Parentheses, a sequence and an assignment have the value of what they
/// hold, of their last operand and of their right side; whether they can be
/// observed is decided of the whole expression.
pub open spec fn bool_of(e: ExprV) -> (Purity, Value<bool>)
    decreases e,
{
    if is_ident_ref_to(e, "undefined"@) {
        (Purity::Pure, Value::Known(false))
    } else {
        match e {
            ExprV::Paren(x) => bool_of(*x),
            ExprV::Sequence { last, .. } => with_purity_of(e, bool_of(*last).1),
            ExprV::Assign { right, .. } => with_purity_of(e, bool_of(*right).1),
            ExprV::Unary { op: UnaryOp::Bang, arg } => (bool_of(*arg).0, not3(bool_of(*arg).1)),
            ExprV::Bin { op: BinaryOp::BitAnd, left, right } => {
                let v = and3(bool_of(*left).1, bool_of(*right).1);
                if bool_of(*left).0.plus(bool_of(*right).0) == Purity::Pure {
                    (Purity::Pure, v)
                } else {
                    (Purity::MayBeImpure, v)
                }
            },
            ExprV::Bin { op: BinaryOp::BitOr, left, right } => {
                let v = or3(bool_of(*left).1, bool_of(*right).1);
                if bool_of(*left).0.plus(bool_of(*right).0) == Purity::Pure {
                    (Purity::Pure, v)
                } else {
                    (Purity::MayBeImpure, v)
                }
            },
            ExprV::Fn { .. } | ExprV::Class { .. } | ExprV::New { .. } | ExprV::Array(_)
            | ExprV::Object(_) => with_purity_of(e, Value::Known(true)),
            ExprV::Unary { op: UnaryOp::Void, .. } => with_purity_of(e, Value::Known(false)),
            ExprV::Lit(l) => (Purity::Pure, Value::Known(lit_truth(l))),
            _ => with_purity_of(e, Value::Unknown),
        }
    }
}

/// The boolean `e` coerces to, where that is known and evaluating `e` cannot be observed.
pub open spec fn pure_bool_of(e: ExprV) -> Value<bool> {
    match bool_of(e) {
        (Purity::Pure, Value::Known(b)) => Value::Known(b),
        _ => Value::Unknown,
    }
}

/// The text an array element contributes to the text of its array: nothing for
/// a hole, `null` and `undefined`, and its own text otherwise.
pub open spec fn element_text(el: Option<ExprOrSpreadV>) -> Value<Seq<char>>
    decreases el,
{
    match el {
        None => Value::Known(Seq::empty()),
        Some(x) => if x.expr == ExprV::Lit(LitV::Null) || is_ident_ref_to(x.expr, "undefined"@) {
            Value::Known(Seq::empty())
        } else {
            text_of(x.expr)
        },
    }
}

/// The texts of the elements with a comma between each two, unknown as soon
/// as one of them is.
pub open spec fn joined(elems: Seq<Option<ExprOrSpreadV>>) -> Value<Seq<char>>
    decreases elems,
{
    if elems.len() == 0 {
        Value::Known(Seq::empty())
    } else {
        match (joined(elems.drop_last()), element_text(elems.last())) {
            (Value::Known(a), Value::Known(b)) => Value::Known(
                if elems.len() == 1 {
                    b
                } else {
                    a + seq![','] + b
                },
            ),
            _ => Value::Unknown,
        }
    }
}

/// The string `e` coerces to.
pub open spec fn text_of(e: ExprV) -> Value<Seq<char>>
    decreases e,
{
    match e {
        ExprV::Lit(LitV::Str(s)) => Value::Known(s.value),
        ExprV::Lit(LitV::Num(n)) => Value::Known(n.text),
        ExprV::Lit(LitV::Bool(true)) => Value::Known("true"@),
        ExprV::Lit(LitV::Bool(false)) => Value::Known("false"@),
        ExprV::Lit(LitV::Null) => Value::Known("null"@),
        ExprV::Ident(i) => if i.sym == "undefined"@ || i.sym == "Infinity"@ || i.sym == "NaN"@ {
            Value::Known(i.sym)
        } else {
            Value::Unknown
        },
        ExprV::Unary { op: UnaryOp::Void, .. } => Value::Known("undefined"@),
        ExprV::Unary { op: UnaryOp::Bang, arg } => match pure_bool_of(*arg) {
            Value::Known(true) => Value::Known("false"@),
            Value::Known(false) => Value::Known("true"@),
            Value::Unknown => Value::Unknown,
        },
        ExprV::Array(elems) => joined(elems),
        ExprV::Object(_) => Value::Known("[object Object]"@),
        _ => Value::Unknown,
    }
}

/// The value of a hexadecimal digit.
pub open spec fn hex_digit(c: char) -> Option<nat> {
    if '0' <= c <= '9' {
        Some((c as u32 - '0' as u32) as nat)
    } else if 'a' <= c <= 'f' {
        Some((c as u32 - 'a' as u32 + 10) as nat)
    } else if 'A' <= c <= 'F' {
        Some((c as u32 - 'A' as u32 + 10) as nat)
    } else {
        None
    }
}

/// Whether every character is a hexadecimal digit.
pub open spec fn all_hex(s: Seq<char>) -> bool {
    forall|i: int| 0 <= i < s.len() ==> hex_digit(#[trigger] s[i]) is Some
}

/// The number that hexadecimal digits denote.
pub open spec fn hex_value(s: Seq<char>) -> nat
    decreases s.len(),
{
    if s.len() == 0 {
        0
    } else {
        16 * hex_value(s.drop_last()) + match hex_digit(s.last()) {
            Some(d) => d,
            None => 0,
        }
    }
}

/// Whether the text is the word `infinity`, in any casing, with or without a sign.
pub open spec fn is_infinity_word(s: Seq<char>) -> bool {
    let w = if s.len() > 0 && (s[0] == '+' || s[0] == '-') {
        s.drop_first()
    } else {
        s
    };
    w.len() == 8 && lower(w[0]) == 'i' && lower(w[1]) == 'n' && lower(w[2]) == 'f' && lower(w[3])
        == 'i' && lower(w[4]) == 'n' && lower(w[5]) == 'i' && lower(w[6]) == 't' && lower(w[7])
        == 'y'
}

/// An ASCII capital letter as its small letter, any other character as itself.
pub open spec fn lower(c: char) -> char {
    if 'A' <= c <= 'Z' {
        ((c as u32 + 32) as u8) as char
    } else {
        c
    }
}

/// Whether `0x` or `0X` stands at `i`.
pub open spec fn hex_prefix_at(s: Seq<char>, i: int) -> bool {
    0 <= i && i + 1 < s.len() && s[i] == '0' && (s[i + 1] == 'x' || s[i + 1] == 'X')
}

/// How many decimal digits stand in `s` from place `i` on, one after the other.
pub open spec fn digits_from(s: Seq<char>, i: int) -> int
    decreases s.len() - i,
{
    if 0 <= i < s.len() && '0' <= s[i] <= '9' {
        1 + digits_from(s, i + 1)
    } else {
        0
    }
}

/// The place behind a sign that stands at place `i`, and `i` where none stands there.
pub open spec fn past_sign(s: Seq<char>, i: int) -> int {
    if 0 <= i < s.len() && (s[i] == '+' || s[i] == '-') {
        i + 1
    } else {
        i
    }
}

/// Whether `s` is a decimal numeral: a sign or none; digits, with a point
/// among, before or behind them or none; and an exponent or none, which is
/// `e` or `E`, a sign or none, and digits.
pub open spec fn is_decimal_numeral(s: Seq<char>) -> bool {
    let a = past_sign(s, 0);
    let whole = digits_from(s, a);
    let b = a + whole;
    let has_point = b < s.len() && s[b] == '.';
    let fraction = if has_point {
        digits_from(s, b + 1)
    } else {
        0
    };
    let c = if has_point {
        b + 1 + fraction
    } else {
        b
    };
    let has_exponent = c < s.len() && (s[c] == 'e' || s[c] == 'E');
    let d = if has_exponent {
        past_sign(s, c + 1)
    } else {
        c
    };
    let exponent = if has_exponent {
        digits_from(s, d)
    } else {
        0
    };
    whole + fraction > 0 && (has_exponent ==> exponent > 0) && d + exponent == s.len()
}

/// The number a string coerces to.
///
/// A vertical tab anywhere makes the number unknown. The text is then trimmed;
/// empty text is `0`; text with a `0x` prefix is read as hexadecimal, NaN where
/// what follows is no hexadecimal numeral; a sign before such a prefix and the
/// word `infinity` are read differently by different engines and leave the
/// number unknown; any other text is the number that it denotes where it is
/// a decimal numeral, and NaN where it is none.
pub open spec fn number_of_text(s: Seq<char>) -> Value<NumeralV> {
    let t = trimmed(s);
    if s.contains('\u{b}') {
        Value::Unknown
    } else if t.len() == 0 {
        Value::Known(NumeralV::Bits(ZERO))
    } else if hex_prefix_at(t, 0) {
        let digits = t.skip(2);
        if digits.len() == 0 || !all_hex(digits) {
            Value::Known(NumeralV::Bits(NAN))
        } else {
            Value::Known(NumeralV::Bits(nearest_bits(hex_value(digits))))
        }
    } else if (t[0] == '+' || t[0] == '-') && hex_prefix_at(t, 1) {
        Value::Unknown
    } else if is_infinity_word(t) {
        Value::Unknown
    } else if is_decimal_numeral(t) {
        Value::Known(NumeralV::Decimal(t))
    } else {
        Value::Known(NumeralV::Bits(NAN))
    }
}

/// The number `e` coerces to.
pub open spec fn number_of(e: ExprV) -> Value<NumeralV> {
    match e {
        ExprV::Lit(LitV::Bool(true)) => Value::Known(NumeralV::Bits(ONE)),
        ExprV::Lit(LitV::Bool(false)) | ExprV::Lit(LitV::Null) => Value::Known(
            NumeralV::Bits(ZERO),
        ),
        ExprV::Lit(LitV::Num(n)) => Value::Known(NumeralV::Bits(n.bits)),
        ExprV::Lit(LitV::Str(s)) => number_of_text(s.value),
        ExprV::Ident(i) => if i.sym == "undefined"@ || i.sym == "NaN"@ {
            Value::Known(NumeralV::Bits(NAN))
        } else if i.sym == "Infinity"@ {
            Value::Known(NumeralV::Bits(INFINITY))
        } else {
            Value::Unknown
        },
        ExprV::Unary { op: UnaryOp::Minus, arg } => if is_ident_ref_to(*arg, "Infinity"@) {
            Value::Known(NumeralV::Bits(NEG_INFINITY))
        } else {
            Value::Unknown
        },
        ExprV::Unary { op: UnaryOp::Bang, arg } => match pure_bool_of(*arg) {
            Value::Known(true) => Value::Known(NumeralV::Bits(ZERO)),
            Value::Known(false) => Value::Known(NumeralV::Bits(ONE)),
            Value::Unknown => Value::Unknown,
        },
        ExprV::Unary { op: UnaryOp::Void, arg } => if may_have_side_effects(*arg) {
            Value::Unknown
        } else {
            Value::Known(NumeralV::Bits(NAN))
        },
        ExprV::Tpl(_) | ExprV::Object(_) | ExprV::Array(_) => match text_of(e) {
            Value::Known(s) => number_of_text(s),
            Value::Unknown => Value::Unknown,
        },
        _ => Value::Unknown,
    }
}

/// Decides [`lit_truth`].
pub fn lit_truth_impl(l: &Lit) -> (r: bool)
    ensures
        r == lit_truth(l@),
{
    match l {
        Lit::Num(n) => !(nan(n.bits) || zero(n.bits)),
        Lit::BigInt(digits) => {
            let cs = chars_of(digits.as_str());
            let mut i: usize = 0;
            while i < cs.len()
                invariant
                    i <= cs.len(),
                    cs@ == digits@,
                    l@ == LitV::BigInt(digits@),
                    forall|j: int| 0 <= j < i ==> !('1' <= (#[trigger] cs@[j]) <= '9'),
                decreases cs.len() - i,
            {
                if '1' <= cs[i] && cs[i] <= '9' {
                    assert('1' <= digits@[i as int] <= '9');
                    return true;
                }
                i += 1;
            }
            false
        },
        Lit::Bool(b) => *b,
        Lit::Str(s) => !s.value.as_str().is_empty(),
        Lit::Null => false,
        Lit::Regex(_) => true,
    }
}

/// Computes [`with_purity_of`].
fn with_purity_of_impl(e: &Expr, v: Value<bool>) -> (r: (Purity, Value<bool>))
    ensures
        r == with_purity_of(e@, v),
{
    if may_have_side_effects_impl(e) {
        (Purity::MayBeImpure, v)
    } else {
        (Purity::Pure, v)
    }
}

/// This method emulates the `Boolean()` JavaScript cast function.
///
/// Unlike [`as_pure_bool`], it does not give up on expressions with side
/// effects: it reports them beside the value.
pub fn as_bool(e: &Expr) -> (r: (Purity, Value<bool>))
    ensures
        r == bool_of(e@),
    decreases e,
{
    proof {
        lemma_expr_view(*e);
    }
    if is_ident_ref_to_impl(e, "undefined") {
        return (Purity::Pure, Value::Known(false));
    }
    match e {
        Expr::Paren(x) => as_bool(x),
        Expr::Sequence { last, .. } => {
            let (_, v) = as_bool(last);
            with_purity_of_impl(e, v)
        },
        Expr::Assign { right, .. } => {
            let (_, v) = as_bool(right);
            with_purity_of_impl(e, v)
        },
        Expr::Unary { op: UnaryOp::Bang, arg } => {
            let (p, v) = as_bool(arg);
            (p, v.not())
        },
        Expr::Bin { op: BinaryOp::BitAnd, left, right } => {
            let (lp, lv) = as_bool(left);
            let (rp, rv) = as_bool(right);
            let v = lv.and(rv);
            if lp.add(rp).is_pure() {
                (Purity::Pure, v)
            } else {
                (Purity::MayBeImpure, v)
            }
        },
        Expr::Bin { op: BinaryOp::BitOr, left, right } => {
            let (lp, lv) = as_bool(left);
            let (rp, rv) = as_bool(right);
            let v = lv.or(rv);
            if lp.add(rp).is_pure() {
                (Purity::Pure, v)
            } else {
                (Purity::MayBeImpure, v)
            }
        },
        Expr::Fn { .. } | Expr::Class { .. } | Expr::New { .. } | Expr::Array(_) | Expr::Object(
            _,
        ) => with_purity_of_impl(e, Value::Known(true)),
        Expr::Unary { op: UnaryOp::Void, .. } => with_purity_of_impl(e, Value::Known(false)),
        Expr::Lit(l) => (Purity::Pure, Value::Known(lit_truth_impl(l))),
        _ => with_purity_of_impl(e, Value::Unknown),
    }
}

/// Get bool value of `e` if it does not have any side effects.
pub fn as_pure_bool(e: &Expr) -> (r: Value<bool>)
    ensures
        r == pure_bool_of(e@),
{
    match as_bool(e) {
        (Purity::Pure, Value::Known(b)) => Value::Known(b),
        _ => Value::Unknown,
    }
}

/// An unknown element makes the whole text unknown.
pub proof fn lemma_joined_unknown(elems: Seq<Option<ExprOrSpreadV>>, k: int)
    requires
        0 <= k < elems.len(),
        element_text(elems[k]) is Unknown,
    ensures
        joined(elems) is Unknown,
    decreases elems.len(),
{
    if k < elems.len() - 1 {
        lemma_joined_unknown(elems.drop_last(), k);
    }
}

/// Computes [`element_text`].
fn element_text_impl(el: &Option<ExprOrSpread>) -> (r: Value<String>)
    ensures
        r@ == element_text(
            match el {
                Some(x) => Some(x@),
                None => None,
            },
        ),
    decreases el,
{
    match el {
        None => Value::Known(String::new()),
        Some(x) => {
            proof {
                lemma_expr_or_spread_view(*x);
                lemma_expr_view(x.expr);
            }
            let is_null = match &x.expr {
                Expr::Lit(Lit::Null) => true,
                _ => false,
            };
            if is_null || is_ident_ref_to_impl(&x.expr, "undefined") {
                Value::Known(String::new())
            } else {
                as_string(&x.expr)
            }
        },
    }
}

/// Emulates the `String()` JavaScript cast function: the value is known only
/// where no effect can be observed.
pub fn as_string(e: &Expr) -> (r: Value<String>)
    ensures
        r@ == text_of(e@),
    decreases e,
{
    proof {
        lemma_expr_view(*e);
    }
    match e {
        Expr::Lit(Lit::Str(s)) => Value::Known(s.value.clone()),
        Expr::Lit(Lit::Num(n)) => Value::Known(n.text.clone()),
        Expr::Lit(Lit::Bool(true)) => Value::Known(String::from_str("true")),
        Expr::Lit(Lit::Bool(false)) => Value::Known(String::from_str("false")),
        Expr::Lit(Lit::Null) => Value::Known(String::from_str("null")),
        Expr::Ident(i) => {
            if str_eq(i.sym.as_str(), "undefined") || str_eq(
                i.sym.as_str(),
                "Infinity",
            ) || str_eq(i.sym.as_str(), "NaN") {
                Value::Known(i.sym.clone())
            } else {
                Value::Unknown
            }
        },
        Expr::Unary { op: UnaryOp::Void, .. } => Value::Known(String::from_str("undefined")),
        Expr::Unary { op: UnaryOp::Bang, arg } => match as_pure_bool(arg) {
            Value::Known(true) => Value::Known(String::from_str("false")),
            Value::Known(false) => Value::Known(String::from_str("true")),
            Value::Unknown => Value::Unknown,
        },
        Expr::Array(elems) => {
            proof {
                lemma_opt_expr_or_spreads_view(elems@);
            }
            let ghost items = e@->Array_0;
            let mut buf = String::new();
            let mut i: usize = 0;
            assert(items.take(0) =~= Seq::<Option<ExprOrSpreadV>>::empty());
            while i < elems.len()
                invariant
                    i <= elems.len(),
                    *e matches Expr::Array(v) && v == *elems,
                    e@ matches ExprV::Array(v) && v == items,
                    items.len() == elems@.len(),
                    forall|j: int|
                        0 <= j < elems@.len() ==> (#[trigger] items[j]) == (match elems@[j] {
                            Some(x) => Some(x@),
                            None => None,
                        }),
                    joined(items.take(i as int)) == Value::Known(buf@),
                decreases elems.len() - i,
            {
                let ghost head = items.take(i as int);
                let ghost next = items.take(i + 1);
                proof {
                    assert(next.drop_last() =~= head);
                    assert(next.last() == items[i as int]);
                }
                match element_text_impl(&elems[i]) {
                    Value::Known(t) => {
                        if i > 0 {
                            buf.append(",");
                            proof {
                                reveal_strlit(",");
                                assert(","@ =~= seq![',']);
                            }
                        }
                        buf.append(t.as_str());
                    },
                    Value::Unknown => {
                        proof {
                            assert(element_text(items[i as int]) is Unknown);
                            lemma_joined_unknown(items, i as int);
                        }
                        return Value::Unknown;
                    },
                }
                i += 1;
            }
            assert(items.take(i as int) =~= items);
            Value::Known(buf)
        },
        Expr::Object(_) => Value::Known(String::from_str("[object Object]")),
        _ => Value::Unknown,
    }
}

/// Computes [`hex_digit`].
fn hex_digit_impl(c: char) -> (r: Option<u64>)
    ensures
        match r {
            Some(d) => hex_digit(c) == Some(d as nat) && d < 16,
            None => hex_digit(c) is None,
        },
{
    if '0' <= c && c <= '9' {
        Some((c as u32 - '0' as u32) as u64)
    } else if 'a' <= c && c <= 'f' {
        Some((c as u32 - 'a' as u32 + 10) as u64)
    } else if 'A' <= c && c <= 'F' {
        Some((c as u32 - 'A' as u32 + 10) as u64)
    } else {
        None
    }
}

/// Emulates the numeric reading of a string: see [`number_of_text`].
pub fn num_from_str(s: &str) -> (r: Value<Numeral>)
    ensures
        r@ == number_of_text(s@),
{
    let cs = chars_of(s);
    let mut i: usize = 0;
    while i < cs.len()
        invariant
            i <= cs.len(),
            cs@ == s@,
            forall|j: int| 0 <= j < i ==> (#[trigger] cs@[j]) != '\u{b}',
        decreases cs.len() - i,
    {
        if cs[i] == '\u{b}' {
            return Value::Unknown;
        }
        i += 1;
    }
    let t = trim(&cs);
    let n = t.len();
    if n == 0 {
        return Value::Known(Numeral::Bits(ZERO));
    }
    if n >= 2 && t[0] == '0' && (t[1] == 'x' || t[1] == 'X') {
        return hex_number(&t);
    }
    if n >= 3 && (t[0] == '+' || t[0] == '-') && t[1] == '0' && (t[2] == 'x' || t[2] == 'X') {
        return Value::Unknown;
    }
    if infinity_word(&t) {
        return Value::Unknown;
    }
    if decimal_numeral(&t) {
        Value::Known(Numeral::Decimal(string_of(&t)))
    } else {
        Value::Known(Numeral::Bits(NAN))
    }
}

/// Computes [`digits_from`].
pub fn count_digits(s: &Vec<char>, i: usize) -> (n: usize)
    requires
        i <= s.len(),
    ensures
        n == digits_from(s@, i as int),
        i + n <= s.len(),
{
    let mut j: usize = i;
    while j < s.len() && '0' <= s[j] && s[j] <= '9'
        invariant
            i <= j <= s.len(),
            digits_from(s@, i as int) == (j - i) + digits_from(s@, j as int),
        decreases s.len() - j,
    {
        j += 1;
    }
    j - i
}

/// Computes [`past_sign`].
fn skip_sign(s: &Vec<char>, i: usize) -> (r: usize)
    requires
        i <= s.len(),
    ensures
        r == past_sign(s@, i as int),
        r <= s.len(),
{
    if i < s.len() && (s[i] == '+' || s[i] == '-') {
        i + 1
    } else {
        i
    }
}

/// Decides [`is_decimal_numeral`].
pub fn decimal_numeral(s: &Vec<char>) -> (r: bool)
    ensures
        r == is_decimal_numeral(s@),
{
    let a = skip_sign(s, 0);
    let whole = count_digits(s, a);
    let b = a + whole;
    let has_point = b < s.len() && s[b] == '.';
    let fraction = if has_point {
        count_digits(s, b + 1)
    } else {
        0
    };
    let c = if has_point {
        b + 1 + fraction
    } else {
        b
    };
    let has_exponent = c < s.len() && (s[c] == 'e' || s[c] == 'E');
    let d = if has_exponent {
        skip_sign(s, c + 1)
    } else {
        c
    };
    let exponent = if has_exponent {
        count_digits(s, d)
    } else {
        0
    };
    whole + fraction > 0 && (!has_exponent || exponent > 0) && d + exponent == s.len()
}

/// Decides [`is_infinity_word`].
fn infinity_word(t: &Vec<char>) -> (r: bool)
    ensures
        r == is_infinity_word(t@),
{
    let n = t.len();
    let from: usize = if n > 0 && (t[0] == '+' || t[0] == '-') {
        1
    } else {
        0
    };
    let ghost w = if from == 1 {
        t@.drop_first()
    } else {
        t@
    };
    if n - from != 8 {
        return false;
    }
    assert(forall|k: int| 0 <= k < 8 ==> w[k] == t@[from + k]);
    lower_impl(t[from]) == 'i' && lower_impl(t[from + 1]) == 'n' && lower_impl(t[from + 2]) == 'f'
        && lower_impl(t[from + 3]) == 'i' && lower_impl(t[from + 4]) == 'n' && lower_impl(
        t[from + 5],
    ) == 'i' && lower_impl(t[from + 6]) == 't' && lower_impl(t[from + 7]) == 'y'
}

/// Computes [`lower`].
fn lower_impl(c: char) -> (r: char)
    ensures
        r == lower(c),
{
    if 'A' <= c && c <= 'Z' {
        ((c as u32 + 32) as u8) as char
    } else {
        c
    }
}

/// The number that text with a hexadecimal prefix denotes.
fn hex_number(t: &Vec<char>) -> (r: Value<Numeral>)
    requires
        hex_prefix_at(t@, 0),
    ensures
        r@ == ({
            let digits = t@.skip(2);
            if digits.len() == 0 || !all_hex(digits) {
                Value::Known(NumeralV::Bits(NAN))
            } else {
                Value::Known(NumeralV::Bits(nearest_bits(hex_value(digits))))
            }
        }),
{
    let n = t.len();
    let ghost digits = t@.skip(2);
    if n == 2 {
        return Value::Known(Numeral::Bits(NAN));
    }
    // the leading digits, how many digits follow them, and whether any of
    // those is not zero
    let mut acc: u64 = 0;
    let mut dropped: usize = 0;
    let mut sticky = false;
    let ghost mut rest: nat = 0;
    let mut i: usize = 2;
    proof {
        lemma2_to64();
        assert(digits.take(0) =~= Seq::<char>::empty());
    }
    while i < n
        invariant
            2 <= i <= n,
            n == t@.len(),
            digits == t@.skip(2),
            forall|j: int| 0 <= j < i - 2 ==> hex_digit(#[trigger] digits[j]) is Some,
            hex_value(digits.take(i - 2)) == acc * pow2(4 * dropped as nat) + rest,
            rest < pow2(4 * dropped as nat),
            sticky == (rest != 0),
            dropped > 0 ==> acc >= 0x1000_0000_0000_0000,
            dropped <= i,
        decreases n - i,
    {
        let ghost head = digits.take(i - 2);
        let ghost next = digits.take(i - 1);
        let ghost k = pow2(4 * dropped as nat);
        proof {
            assert(next.drop_last() =~= head);
            assert(next.last() == digits[i - 2]);
            assert(digits[i - 2] == t@[i as int]);
            lemma2_to64();
            lemma_pow2_adds(4, 4 * dropped as nat);
            assert(pow2(4 * (dropped + 1) as nat) == 16 * k);
        }
        match hex_digit_impl(t[i]) {
            Some(d) => {
                if dropped == 0 && acc < 0x1000_0000_0000_0000 {
                    assert(16 * (acc * k + rest) + d == (16 * acc + d) * k + rest) by (nonlinear_arith)
                        requires
                            k == 1,
                            rest == 0,
                    ;
                    acc = 16 * acc + d;
                } else {
                    assert(16 * (acc * k + rest) + d == acc * (16 * k) + (16 * rest + d)) by (nonlinear_arith);
                    dropped = dropped + 1;
                    sticky = sticky || d != 0;
                    proof {
                        rest = 16 * rest + d as nat;
                    }
                }
            },
            None => {
                return Value::Known(Numeral::Bits(NAN));
            },
        }
        i += 1;
    }
    assert(digits.take(n - 2) =~= digits);
    Value::Known(Numeral::Bits(nearest_bits_impl(acc, dropped, sticky, Ghost(rest))))
}

/// Emulates javascript Number() cast function.
pub fn as_number(e: &Expr) -> (r: Value<Numeral>)
    ensures
        r@ == number_of(e@),
{
    proof {
        lemma_expr_view(*e);
    }
    match e {
        Expr::Lit(Lit::Bool(true)) => Value::Known(Numeral::Bits(ONE)),
        Expr::Lit(Lit::Bool(false)) | Expr::Lit(Lit::Null) => Value::Known(Numeral::Bits(ZERO)),
        Expr::Lit(Lit::Num(n)) => Value::Known(Numeral::Bits(n.bits)),
        Expr::Lit(Lit::Str(s)) => num_from_str(s.value.as_str()),
        Expr::Ident(i) => {
            if str_eq(i.sym.as_str(), "undefined") || str_eq(i.sym.as_str(), "NaN") {
                Value::Known(Numeral::Bits(NAN))
            } else if str_eq(i.sym.as_str(), "Infinity") {
                Value::Known(Numeral::Bits(INFINITY))
            } else {
                Value::Unknown
            }
        },
        Expr::Unary { op: UnaryOp::Minus, arg } => {
            if is_ident_ref_to_impl(arg, "Infinity") {
                Value::Known(Numeral::Bits(NEG_INFINITY))
            } else {
                Value::Unknown
            }
        },
        Expr::Unary { op: UnaryOp::Bang, arg } => match as_pure_bool(arg) {
            Value::Known(true) => Value::Known(Numeral::Bits(ZERO)),
            Value::Known(false) => Value::Known(Numeral::Bits(ONE)),
            Value::Unknown => Value::Unknown,
        },
        Expr::Unary { op: UnaryOp::Void, arg } => {
            if may_have_side_effects_impl(arg) {
                Value::Unknown
            } else {
                Value::Known(Numeral::Bits(NAN))
            }
        },
        Expr::Tpl(_) | Expr::Object(_) | Expr::Array(_) => match as_string(e) {
            Value::Known(s) => num_from_str(s.as_str()),
            Value::Unknown => Value::Unknown,
        },
        _ => Value::Unknown,
    }
}

/// The coercion to a boolean reports that evaluating `e` cannot be observed
/// exactly where the rules for side effects say so.
pub proof fn lemma_purity_is_exact(e: ExprV)
    ensures
        (bool_of(e).0 == Purity::Pure) == !may_have_side_effects(e),
    decreases e,
{
    if !is_ident_ref_to(e, "undefined"@) {
        match e {
            ExprV::Paren(x) => lemma_purity_is_exact(*x),
            ExprV::Unary { op: UnaryOp::Bang, arg } => lemma_purity_is_exact(*arg),
            ExprV::Bin { op: BinaryOp::BitAnd, left, right } => {
                lemma_purity_is_exact(*left);
                lemma_purity_is_exact(*right);
            },
            ExprV::Bin { op: BinaryOp::BitOr, left, right } => {
                lemma_purity_is_exact(*left);
                lemma_purity_is_exact(*right);
            },
            _ => {},
        }
    }
}

} // verus!
