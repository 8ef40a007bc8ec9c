//! IEEE 754 double-precision numbers by their bit patterns, as far as readings
//! have to be compared and rounded to whole numbers.

use vstd::arithmetic::power2::{lemma2_to64, lemma2_to64_rest, lemma_pow2_adds, lemma_pow2_pos, pow2};
use vstd::bits::lemma_u64_pow2_no_overflow;
use vstd::prelude::*;

verus! {

/// The values of the 52 fraction bits.
pub const FRACTIONS: u64 = 0x10_0000_0000_0000;

/// The patterns without a sign bit; those from here on are negative.
pub const NEGATIVE: u64 = 0x8000_0000_0000_0000;

/// Positive infinity. The patterns between it and [`NEGATIVE`] are no numbers.
pub const INFINITY: u64 = 0x7ff0_0000_0000_0000;

/// A double-precision number, held as its bit pattern.
#[derive(Clone, Copy, PartialEq, Eq, Structural, Debug)]
pub struct Double {
    pub bits: u64,
}

/// The biased exponent of a pattern without a sign bit.
pub open spec fn exponent_of(bits: u64) -> int {
    bits as int / FRACTIONS as int
}

/// The significand of a normal number, as a whole number: the number itself is
/// the significand times two to the power of the biased exponent less 1075.
pub open spec fn significand_of(bits: u64) -> int {
    FRACTIONS + bits as int % FRACTIONS as int
}

/// A number rounded to the nearest whole number, halves upward, and brought into
/// the range of a `u32`: negative numbers and non-numbers give 0, and numbers too
/// large the largest value.
pub open spec fn rounded_to_u32(bits: u64) -> u32 {
    if bits >= NEGATIVE || bits > INFINITY {
        0
    } else if exponent_of(bits) < 1022 {
        // Under one half.
        0
    } else if exponent_of(bits) >= 1055 {
        // Two to the 32nd and more.
        u32::MAX
    } else {
        let unit = pow2((1075 - exponent_of(bits)) as nat) as int;
        let nearest = (2 * significand_of(bits) + unit) / (2 * unit);
        if nearest > u32::MAX {
            u32::MAX
        } else {
            nearest as u32
        }
    }
}

impl Double {
    /// Rounds to the nearest whole number, halves upward, within the range of a
    /// `u32`.
    pub fn round_to_u32(self) -> (r: u32)
        ensures
            r == rounded_to_u32(self.bits),
    {
        let bits: u64 = self.bits;
        if bits >= NEGATIVE || bits > INFINITY {
            return 0;
        }
        let exponent: u64 = bits / FRACTIONS;
        let significand: u64 = FRACTIONS + bits % FRACTIONS;
        if exponent < 1022 {
            return 0;
        }
        if exponent >= 1055 {
            return u32::MAX;
        }
        let shift: u64 = 1075 - exponent;
        let unit: u64 = power_of_two(shift);
        assert(unit < 0x40_0000_0000_0000) by {
            vstd::arithmetic::power2::lemma_pow2_strictly_increases(shift as nat, 54);
            lemma2_to64_rest();
            lemma_pow2_pos(shift as nat);
        }
        assert(unit > 0) by {
            lemma_pow2_pos(shift as nat);
        }
        let nearest: u64 = (2 * significand + unit) / (2 * unit);
        if nearest > 0xffff_ffff {
            u32::MAX
        } else {
            nearest as u32
        }
    }

    /// Whether the number is greater than zero.
    pub fn is_positive(self) -> (b: bool)
        ensures
            b == (0 < self.bits <= INFINITY),
    {
        0 < self.bits && self.bits <= INFINITY
    }

    /// Whether the number lies between two others, both of them included. The
    /// two are positive, and positive numbers are ordered as their patterns.
    pub fn is_between(self, low: Double, high: Double) -> (b: bool)
        requires
            0 < low.bits <= INFINITY,
            0 < high.bits <= INFINITY,
        ensures
            b == (low.bits <= self.bits <= high.bits),
    {
        low.bits <= self.bits && self.bits <= high.bits
    }
}

/// Two to the power of `n`.
fn power_of_two(n: u64) -> (p: u64)
    requires
        n < 64,
    ensures
        p == pow2(n as nat),
    decreases n,
{
    if n == 0 {
        proof {
            lemma2_to64();
        }
        1
    } else {
        let half = power_of_two(n - 1);
        proof {
            vstd::arithmetic::power2::lemma_pow2_unfold(n as nat);
            lemma_u64_pow2_no_overflow(n as nat);
        }
        2 * half
    }
}

/// The whole number nearest to `significand / unit`, halves upward.
spec fn nearest(significand: int, unit: int) -> int {
    (2 * significand + unit) / (2 * unit)
}

proof fn nearest_is_monotone(a: int, b: int, unit: int)
    requires
        a <= b,
        unit > 0,
    ensures
        nearest(a, unit) <= nearest(b, unit),
{
    vstd::arithmetic::div_mod::lemma_div_is_ordered(2 * a + unit, 2 * b + unit, 2 * unit);
}

proof fn nearest_of_multiple(q: int, unit: int)
    requires
        unit > 0,
    ensures
        nearest(q * unit, unit) == q,
{
    assert(2 * (q * unit) + unit == q * (2 * unit) + unit) by (nonlinear_arith);
    vstd::arithmetic::div_mod::lemma_fundamental_div_mod_converse(
        2 * (q * unit) + unit,
        2 * unit,
        q,
        unit,
    );
}

/// Rounding keeps the order of the positive numbers.
pub proof fn rounding_is_monotone(a: u64, b: u64)
    requires
        a <= b <= INFINITY,
    ensures
        rounded_to_u32(a) <= rounded_to_u32(b),
{
    let ea = exponent_of(a);
    let eb = exponent_of(b);
    assert(ea <= eb);
    if 1022 <= ea && eb < 1055 {
        let ua = pow2((1075 - ea) as nat) as int;
        let ub = pow2((1075 - eb) as nat) as int;
        lemma_pow2_pos((1075 - ea) as nat);
        lemma_pow2_pos((1075 - eb) as nat);
        if ea == eb {
            nearest_is_monotone(significand_of(a), significand_of(b), ua);
        } else {
            // `a` is under the power of two that `b` has reached.
            let p = pow2((ea - 1022) as nat) as int;
            let q = pow2((eb - 1023) as nat) as int;
            lemma_pow2_adds((1075 - ea) as nat, (ea - 1022) as nat);
            lemma_pow2_adds((1075 - eb) as nat, (eb - 1023) as nat);
            lemma2_to64_rest();
            assert(p * ua == 0x20_0000_0000_0000) by (nonlinear_arith)
                requires
                    ua * p == 0x20_0000_0000_0000,
            ;
            assert(q * ub == 0x10_0000_0000_0000) by (nonlinear_arith)
                requires
                    ub * q == 0x10_0000_0000_0000,
            ;
            nearest_of_multiple(p, ua);
            nearest_of_multiple(q, ub);
            nearest_is_monotone(significand_of(a), p * ua, ua);
            nearest_is_monotone(q * ub, significand_of(b), ub);
            if ea - 1022 < eb - 1023 {
                vstd::arithmetic::power2::lemma_pow2_strictly_increases(
                    (ea - 1022) as nat,
                    (eb - 1023) as nat,
                );
            }
        }
    }
}

/// A number is rounded to the nearest whole number, halves upward: `sig` is its significand
/// and `unit` what a one is made of, so that the number is `sig / unit`. Under one half it
/// gives 0, and from the largest value on it gives that.
pub proof fn rounding_is_to_the_nearest(bits: u64, sig: int, unit: int)
    requires
        bits < 0x7ff0_0000_0000_0000,
        sig == 0x10_0000_0000_0000 + bits as int % 0x10_0000_0000_0000,
        1022 <= bits as int / 0x10_0000_0000_0000 <= 1075 ==> unit == pow2(
            (1075 - bits as int / 0x10_0000_0000_0000) as nat,
        ),
    ensures
        ({
            let e = bits as int / 0x10_0000_0000_0000;
            let r = rounded_to_u32(bits) as int;
            &&& e < 1022 ==> r == 0
            &&& e >= 1055 ==> r == 0xffff_ffff
            &&& 1022 <= e < 1055 ==> (2 * r - 1) * unit <= 2 * sig
            &&& 1022 <= e < 1055 && r < 0xffff_ffff ==> 2 * sig < (2 * r + 1) * unit
        }),
{
    let e = exponent_of(bits);
    if 1022 <= e < 1055 {
        lemma_pow2_pos((1075 - e) as nat);
        let q = nearest(sig, unit);
        let r = rounded_to_u32(bits) as int;
        vstd::arithmetic::div_mod::lemma_fundamental_div_mod(2 * sig + unit, 2 * unit);
        nearest_is_monotone(0, sig, unit);
        nearest_of_multiple(0, unit);
        assert(0 * unit == 0);
        assert((2 * r - 1) * unit == (2 * unit) * r - unit) by (nonlinear_arith);
        assert((2 * r + 1) * unit == (2 * unit) * r + unit) by (nonlinear_arith);
        assert((2 * unit) * r <= (2 * unit) * q) by (nonlinear_arith)
            requires
                r <= q,
                unit > 0,
        ;
    }
}

/// Negative numbers and what is no number are rounded to 0, and infinity to the largest
/// value.
pub proof fn what_is_no_number_is_rounded_too(bits: u64)
    ensures
        bits >= 0x8000_0000_0000_0000 ==> rounded_to_u32(bits) == 0,
        0x7ff0_0000_0000_0000 < bits < 0x8000_0000_0000_0000 ==> rounded_to_u32(bits) == 0,
        bits == 0x7ff0_0000_0000_0000 ==> rounded_to_u32(bits) == 0xffff_ffff,
{
}

} // verus!
