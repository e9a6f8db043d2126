//! Numbers by their IEEE-754 binary64 bit patterns.
//!
//! The passes never compute with floating point: a number is the 64 bits that
//! encode it, and what they ask of a number is read off those bits.

use vstd::prelude::*;
use vstd::arithmetic::div_mod::{lemma_mod_multiples_basic, lemma_mul_mod_noop_left};
use vstd::arithmetic::mul::{lemma_mul_inequality, lemma_mul_is_associative, lemma_mul_is_commutative};
use vstd::arithmetic::power2::{lemma2_to64, lemma_pow2_adds, lemma_pow2_pos, lemma_pow2_strictly_increases, pow2};
use vstd::bits::{lemma_u64_shl_is_mul, lemma_u64_shr_is_div};

verus! {

/// The bits of `0`.
pub const ZERO: u64 = 0;

/// The bits of `1`.
pub const ONE: u64 = 0x3ff0_0000_0000_0000;

/// The bits of the quiet NaN that arithmetic produces.
pub const NAN: u64 = 0x7ff8_0000_0000_0000;

/// The bits of positive infinity.
pub const INFINITY: u64 = 0x7ff0_0000_0000_0000;

/// The bits of negative infinity.
pub const NEG_INFINITY: u64 = 0xfff0_0000_0000_0000;

/// The biased exponent: bits 52 to 62.
pub open spec fn exponent(bits: u64) -> u64 {
    (bits >> 52) & 0x7ff
}

/// The fraction: bits 0 to 51.
pub open spec fn fraction(bits: u64) -> u64 {
    bits & 0xf_ffff_ffff_ffff
}

/// Whether the sign bit is set.
pub open spec fn negative(bits: u64) -> bool {
    bits >> 63 == 1
}

/// Whether the bits encode a NaN: the exponent is all ones and the fraction is not zero.
pub open spec fn is_nan(bits: u64) -> bool {
    exponent(bits) == 0x7ff && fraction(bits) != 0
}

/// Whether the bits encode an infinity: the exponent is all ones and the fraction is zero.
pub open spec fn is_infinite(bits: u64) -> bool {
    exponent(bits) == 0x7ff && fraction(bits) == 0
}

/// Whether the bits encode `0` or `-0`.
pub open spec fn is_zero(bits: u64) -> bool {
    exponent(bits) == 0 && fraction(bits) == 0
}

/// Whether the bits encode a whole number: a finite value with no digit set
/// below the binary point.
pub open spec fn is_integral(bits: u64) -> bool {
    let e = exponent(bits);
    if e == 0x7ff {
        false
    } else if e >= 1075 {
        true
    } else if e >= 1023 {
        fraction(bits) & ((1u64 << ((1075 - e) as u64)) - 1) as u64 == 0
    } else {
        is_zero(bits)
    }
}

/// Decides [`is_nan`].
pub fn nan(bits: u64) -> (r: bool)
    ensures
        r == is_nan(bits),
{
    (bits >> 52) & 0x7ff == 0x7ff && bits & 0xf_ffff_ffff_ffff != 0
}

/// Decides [`is_infinite`].
pub fn infinite(bits: u64) -> (r: bool)
    ensures
        r == is_infinite(bits),
{
    (bits >> 52) & 0x7ff == 0x7ff && bits & 0xf_ffff_ffff_ffff == 0
}

/// Decides [`is_zero`].
pub fn zero(bits: u64) -> (r: bool)
    ensures
        r == is_zero(bits),
{
    (bits >> 52) & 0x7ff == 0 && bits & 0xf_ffff_ffff_ffff == 0
}

/// Decides [`is_integral`].
pub fn integral(bits: u64) -> (r: bool)
    ensures
        r == is_integral(bits),
{
    let e: u64 = (bits >> 52) & 0x7ff;
    assert(e <= 0x7ff) by (bit_vector)
        requires
            e == (bits >> 52) & 0x7ff,
    ;
    if e == 0x7ff {
        false
    } else if e >= 1075 {
        true
    } else if e >= 1023 {
        let k: u64 = 1075 - e;
        assert(1u64 << k >= 1) by (bit_vector)
            requires
                1 <= k <= 52,
        ;
        let mask: u64 = (1u64 << k) - 1;
        (bits & 0xf_ffff_ffff_ffff) & mask == 0
    } else {
        zero(bits)
    }
}

/// A whole number between `-2^32` and `2^32` as a 32-bit integer: the number
/// that differs from it by a multiple of `2^32` and fits.
pub open spec fn wrapped(x: int) -> int {
    if x >= 0x8000_0000 {
        x - 0x1_0000_0000
    } else if x < -0x8000_0000 {
        x + 0x1_0000_0000
    } else {
        x
    }
}

/// The whole part of the magnitude of a finite number that is at least 1:
/// its 53 significant bits, scaled by the power of two that its exponent gives.
pub open spec fn whole_part(bits: u64) -> int {
    let m = 0x10_0000_0000_0000 + fraction(bits);
    let e = exponent(bits);
    if e >= 1075 {
        m * pow2((e - 1075) as nat)
    } else {
        m / (pow2((1075 - e) as nat) as int)
    }
}

/// The number as a 32-bit integer, as the language converts it: NaN and the
/// infinities are 0; any other number loses its fraction, then every multiple
/// of `2^32` that it holds, and is wrapped into the 32 bits with its sign.
pub open spec fn int32_of(bits: u64) -> int {
    let e = exponent(bits);
    if e == 0x7ff || e < 1023 {
        0
    } else {
        let low = whole_part(bits) % 0x1_0000_0000;
        wrapped(
            if negative(bits) {
                -low
            } else {
                low
            },
        )
    }
}

/// Cast to javascript's int32
pub fn to_int32(bits: u64) -> (r: i32)
    ensures
        r == int32_of(bits),
{
    let e: u64 = (bits >> 52) & 0x7ff;
    let f: u64 = bits & 0xf_ffff_ffff_ffff;
    let neg = bits >> 63 == 1;
    assert(e <= 0x7ff && f < 0x10_0000_0000_0000) by (bit_vector)
        requires
            e == (bits >> 52) & 0x7ff,
            f == bits & 0xf_ffff_ffff_ffff,
    ;
    if e == 0x7ff || e < 1023 {
        return 0;
    }
    let m: u64 = 0x10_0000_0000_0000 + f;
    let low: u64 = if e >= 1075 {
        let s: u64 = e - 1075;
        if s >= 32 {
            proof {
                lemma_pow2_adds(32, (s - 32) as nat);
                lemma2_to64();
                let k = pow2((s - 32) as nat) as int;
                assert(m * pow2(s as nat) == (m * k) * 0x1_0000_0000) by {
                    lemma_mul_is_commutative(0x1_0000_0000, k);
                    lemma_mul_is_associative(m as int, k, 0x1_0000_0000);
                }
                lemma_mod_multiples_basic(m * k, 0x1_0000_0000);
            }
            0
        } else {
            let x: u64 = m & 0xffff_ffff;
            assert(x == m % 0x1_0000_0000) by (bit_vector)
                requires
                    x == m & 0xffff_ffff,
            ;
            proof {
                lemma2_to64();
                lemma_pow2_pos(s as nat);
                if s < 31 {
                    lemma_pow2_strictly_increases(s as nat, 31);
                }
                assert(pow2(31) == 0x8000_0000);
                lemma_mul_inequality(x as int, 0xffff_ffff, pow2(s as nat) as int);
                lemma_mul_inequality(pow2(s as nat) as int, 0x8000_0000, 0xffff_ffff);
                lemma_mul_is_commutative(0xffff_ffff, pow2(s as nat) as int);
                assert(x * pow2(s as nat) <= 0xffff_ffff * 0x8000_0000);
                lemma_u64_shl_is_mul(x, s);
                lemma_mul_mod_noop_left(m as int, pow2(s as nat) as int, 0x1_0000_0000);
            }
            let y: u64 = x << s;
            let z: u64 = y & 0xffff_ffff;
            assert(z == y % 0x1_0000_0000) by (bit_vector)
                requires
                    z == y & 0xffff_ffff,
            ;
            z
        }
    } else {
        let s: u64 = 1075 - e;
        proof {
            lemma_u64_shr_is_div(m, s);
        }
        let t: u64 = m >> s;
        let z: u64 = t & 0xffff_ffff;
        assert(z == t % 0x1_0000_0000) by (bit_vector)
            requires
                z == t & 0xffff_ffff,
        ;
        z
    };
    assert(low < 0x1_0000_0000);
    let v: i64 = if neg {
        -(low as i64)
    } else {
        low as i64
    };
    if v >= 0x8000_0000 {
        (v - 0x1_0000_0000) as i32
    } else if v < -0x8000_0000 {
        (v + 0x1_0000_0000) as i32
    } else {
        v as i32
    }
}

/// A number that a coercion arrives at.
#[derive(Debug, PartialEq, Eq)]
pub enum Numeral {
    /// The number with these bits.
    Bits(u64),
    /// The number that this decimal numeral denotes, rounded to the nearest
    /// binary64 value. The coercions make it only of text that is a decimal
    /// numeral: of any other text they make NaN.
    Decimal(String),
}

/// The model of [`Numeral`].
pub enum NumeralV {
    Bits(u64),
    Decimal(Seq<char>),
}

impl View for Numeral {
    type V = NumeralV;

    open spec fn view(&self) -> NumeralV {
        match self {
            Numeral::Bits(b) => NumeralV::Bits(*b),
            Numeral::Decimal(s) => NumeralV::Decimal(s@),
        }
    }
}

} // verus!
