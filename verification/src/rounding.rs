//! Whole numbers of any size as binary64 values.

use vstd::prelude::*;
use vstd::arithmetic::div_mod::{
    lemma_fundamental_div_mod, lemma_fundamental_div_mod_converse_div,
    lemma_fundamental_div_mod_converse_mod,
};
use vstd::arithmetic::power2::{lemma2_to64, lemma2_to64_rest, lemma_pow2_adds, lemma_pow2_pos, lemma_pow2_unfold, pow2};
use crate::number::INFINITY;

verus! {

/// The bits of the whole number `m * 2^(e - 52)`, for `m` below `2^53`: `m` is
/// doubled and `e` lowered until the leading bit of `m` stands at position 52.
pub open spec fn scaled_bits(m: nat, e: nat) -> u64
    decreases e,
{
    if e == 0 || m >= 0x10_0000_0000_0000 {
        ((1023 + e) * 0x10_0000_0000_0000 + (m - 0x10_0000_0000_0000)) as u64
    } else {
        scaled_bits(2 * m, (e - 1) as nat)
    }
}

/// The bits of the whole number `v`, for `v` below `2^53`.
pub open spec fn whole_bits(v: nat) -> u64 {
    if v == 0 {
        0
    } else {
        scaled_bits(v, 52)
    }
}

/// How many binary digits a whole number has.
pub open spec fn bit_length(v: nat) -> nat
    decreases v,
{
    if v == 0 {
        0
    } else {
        1 + bit_length(v / 2)
    }
}

/// The bits of the value with the 53-bit significand `m` and the exponent `e`:
/// an infinity where the exponent is out of range.
pub open spec fn packed(m: nat, e: nat) -> u64 {
    if e >= 1024 {
        INFINITY
    } else {
        ((e + 1023) * 0x10_0000_0000_0000 + (m - 0x10_0000_0000_0000)) as u64
    }
}

/// The bits of the binary64 value that is nearest to the whole number `v`,
/// and of two values that are equally near the one whose significand is even.
///
/// A number below `2^53` is a value itself. A larger number keeps its leading
/// 53 binary digits, `q`; `r` is what the digits behind them are worth, and
/// `unit` what the last kept digit is worth.
pub open spec fn nearest_bits(v: nat) -> u64 {
    if v < 0x20_0000_0000_0000 {
        whole_bits(v)
    } else {
        let e = (bit_length(v) - 1) as nat;
        let unit = pow2((e - 52) as nat);
        let q = v / unit;
        let r = v % unit;
        let m = if 2 * r > unit || (2 * r == unit && q % 2 == 1) {
            q + 1
        } else {
            q
        };
        if m == 0x20_0000_0000_0000 {
            packed(0x10_0000_0000_0000, e + 1)
        } else {
            packed(m, e)
        }
    }
}

/// A number between `2^k` and `2^(k + 1)` has `k + 1` binary digits.
pub proof fn lemma_bit_length(v: nat, k: nat)
    requires
        pow2(k) <= v < pow2(k + 1),
    ensures
        bit_length(v) == k + 1,
    decreases k,
{
    lemma_pow2_pos(k);
    if k == 0 {
        lemma2_to64();
        assert(v == 1);
        assert(bit_length(0) == 0);
        assert(v / 2 == 0);
    } else {
        lemma_pow2_unfold(k);
        lemma_pow2_unfold(k + 1);
        lemma_bit_length(v / 2, (k - 1) as nat);
    }
}

/// Dividing `a * k + r` by `b * k` is dividing `a` by `b`, where `r` is below
/// `k`; what is left is what dividing `a` by `b` leaves, times `k`, and `r`.
pub proof fn lemma_div_scaled(a: nat, b: nat, k: nat, r: nat)
    requires
        b > 0,
        k > 0,
        r < k,
    ensures
        (a * k + r) / (b * k) == a / b,
        (a * k + r) % (b * k) == (a % b) * k + r,
{
    let q = a / b;
    let t = a % b;
    lemma_fundamental_div_mod(a as int, b as int);
    assert(a == b * q + t);
    assert(a * k + r == q * (b * k) + (t * k + r)) by (nonlinear_arith)
        requires
            a == b * q + t,
    ;
    assert(t * k + r < b * k) by (nonlinear_arith)
        requires
            t < b,
            r < k,
            k > 0,
    ;
    assert(b * k > 0) by (nonlinear_arith)
        requires
            b > 0,
            k > 0,
    ;
    lemma_fundamental_div_mod_converse_div(
        (a * k + r) as int,
        (b * k) as int,
        q as int,
        (t * k + r) as int,
    );
    lemma_fundamental_div_mod_converse_mod(
        (a * k + r) as int,
        (b * k) as int,
        q as int,
        (t * k + r) as int,
    );
}

/// Computes [`whole_bits`].
pub fn whole_bits_impl(v: u64) -> (r: u64)
    requires
        v < 0x20_0000_0000_0000,
    ensures
        r == whole_bits(v as nat),
{
    if v == 0 {
        return 0;
    }
    let mut m: u64 = v;
    let mut e: u64 = 52;
    let ghost mut low: nat = 1;
    proof {
        lemma2_to64();
    }
    while e > 0 && m < 0x10_0000_0000_0000
        invariant
            0 < m < 0x20_0000_0000_0000,
            e <= 52,
            low == pow2((52 - e) as nat),
            low <= m,
            scaled_bits(m as nat, e as nat) == scaled_bits(v as nat, 52),
        decreases e,
    {
        proof {
            lemma_pow2_unfold((52 - e + 1) as nat);
            low = 2 * low;
        }
        m = 2 * m;
        e = e - 1;
    }
    proof {
        lemma2_to64_rest();
    }
    (1023 + e) * 0x10_0000_0000_0000 + (m - 0x10_0000_0000_0000)
}

/// The bits of the value nearest to `acc * 16^dropped + rest`, where `rest`
/// is what the digits are worth that `acc` does not hold, and `sticky` says
/// whether that is more than nothing.
pub(crate) fn nearest_bits_impl(acc: u64, dropped: usize, sticky: bool, Ghost(rest): Ghost<nat>) -> (r:
    u64)
    requires
        dropped > 0 ==> acc >= 0x1000_0000_0000_0000,
        rest < pow2(4 * dropped as nat),
        sticky == (rest != 0),
    ensures
        r == nearest_bits((acc * pow2(4 * dropped as nat) + rest) as nat),
{
    let ghost k = pow2(4 * dropped as nat);
    let ghost v: nat = (acc * k + rest) as nat;
    proof {
        lemma_pow2_pos(4 * dropped as nat);
        lemma2_to64();
        lemma2_to64_rest();
    }
    if acc < 0x20_0000_0000_0000 {
        assert(dropped == 0);
        assert(k == 1);
        assert(rest == 0);
        assert(v == acc) by (nonlinear_arith)
            requires
                v == acc * k + rest,
                k == 1,
                rest == 0,
        ;
        return whole_bits_impl(acc);
    }
    // the place of the leading digit of `acc`, and what the last of its 53
    // leading digits is worth
    let mut la: u64 = 53;
    let mut unit: u64 = 2;
    let mut top: u64 = 0x20_0000_0000_0000;
    while la < 63 && acc / 2 >= top
        invariant
            53 <= la <= 63,
            top == pow2(la as nat),
            unit == pow2((la - 52) as nat),
            unit * 0x10_0000_0000_0000 == top,
            top <= acc,
        decreases 63 - la,
    {
        proof {
            lemma_pow2_unfold((la + 1) as nat);
            lemma_pow2_unfold((la - 52 + 1) as nat);
        }
        top = 2 * top;
        unit = 2 * unit;
        la = la + 1;
    }
    let ghost s = (la - 52) as nat;
    proof {
        lemma_pow2_unfold((la + 1) as nat);
        assert(acc < pow2((la + 1) as nat));
        lemma_pow2_adds(la as nat, 4 * dropped as nat);
        lemma_pow2_adds((la + 1) as nat, 4 * dropped as nat);
        lemma_pow2_adds(s, 4 * dropped as nat);
        // the value lies between `2^(la + 4 * dropped)` and twice that
        assert(pow2(la as nat) * k <= v) by (nonlinear_arith)
            requires
                pow2(la as nat) <= acc,
                v == acc * k + rest,
                k > 0,
        ;
        assert(v < pow2((la + 1) as nat) * k) by (nonlinear_arith)
            requires
                acc + 1 <= pow2((la + 1) as nat),
                v == acc * k + rest,
                rest < k,
        ;
        lemma_bit_length(v, (la + 4 * dropped) as nat);
        lemma_div_scaled(acc as nat, unit as nat, k, rest);
        assert(v >= 0x20_0000_0000_0000) by (nonlinear_arith)
            requires
                v == acc * k + rest,
                acc >= 0x20_0000_0000_0000,
                k >= 1,
        ;
    }
    let q: u64 = acc / unit;
    let low: u64 = acc % unit;
    let half: u64 = unit / 2;
    let ghost r: nat = (low * k + rest) as nat;
    proof {
        lemma_pow2_unfold(s);
        assert(unit == 2 * half);
        lemma_fundamental_div_mod(acc as int, unit as int);
        // `q` holds 53 digits
        assert(0x10_0000_0000_0000 <= q < 0x20_0000_0000_0000) by (nonlinear_arith)
            requires
                acc == unit * q + low,
                low < unit,
                unit * 0x10_0000_0000_0000 <= acc,
                acc < unit * 0x20_0000_0000_0000,
                unit > 0,
        ;
        // what is left against half of the unit
        assert(low < half ==> low * k + rest < half * k) by (nonlinear_arith)
            requires
                rest < k,
                k > 0,
        ;
        assert(low > half ==> low * k + rest > half * k) by (nonlinear_arith)
            requires
                k > 0,
        ;
        assert(unit * k == 2 * (half * k)) by (nonlinear_arith)
            requires
                unit == 2 * half,
        ;
        assert((2 * r > unit * k) == (low > half || (low == half && rest > 0)));
        assert((2 * r == unit * k) == (low == half && rest == 0));
    }
    let up = low > half || (low == half && (sticky || q % 2 == 1));
    let m: u64 = if up {
        q + 1
    } else {
        q
    };
    if dropped > 256 {
        return INFINITY;
    }
    let e: u64 = la + 4 * (dropped as u64);
    let (m, e) = if m == 0x20_0000_0000_0000 {
        (0x10_0000_0000_0000u64, e + 1)
    } else {
        (m, e)
    };
    if e >= 1024 {
        INFINITY
    } else {
        (e + 1023) * 0x10_0000_0000_0000 + (m - 0x10_0000_0000_0000)
    }
}

} // verus!
