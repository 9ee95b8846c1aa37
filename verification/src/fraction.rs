//! Exact fractions, and their rounding to fixed point.

use crate::numerics::power_of_two;
use crate::numerics::saturate;
use vstd::arithmetic::div_mod::lemma_fundamental_div_mod;
use vstd::arithmetic::div_mod::lemma_fundamental_div_mod_converse;
use vstd::arithmetic::power2::lemma2_to64;
use vstd::arithmetic::power2::lemma_pow2_strictly_increases;
use vstd::arithmetic::power2::pow2;
use vstd::prelude::*;

verus! {

/// An exact ratio of two integers. Colour-matrix coefficients are kept in
/// this form until they are quantized, so that nothing is rounded twice.
#[derive(Debug, Copy, Clone, PartialEq, Eq, Structural)]
pub struct Fraction {
    pub num: i64,
    pub den: i64,
}

/// The integer nearest to `num / den`, halves rounded away from zero.
pub open spec fn round_half_away(num: int, den: int) -> int {
    if num >= 0 {
        (2 * num + den) / (2 * den)
    } else {
        -((-2 * num + den) / (2 * den))
    }
}

impl Fraction {
    /// A fraction has a positive denominator.
    pub open spec fn wf(self) -> bool {
        self.den > 0
    }

    pub fn new(num: i64, den: i64) -> (fraction: Fraction)
        ensures
            fraction == (Fraction { num, den }),
    {
        Fraction { num, den }
    }

    /// The fixed-point form of the fraction: the integer nearest to the
    /// fraction times `2^precision`, saturated to 32 bits.
    pub open spec fn quantized(self, precision: nat) -> int {
        saturate(
            round_half_away(self.num * pow2(precision), self.den as int),
            i32::MIN as int,
            i32::MAX as int,
        )
    }

    /// Computes [`Fraction::quantized`].
    pub fn quantize(self, precision: u32) -> (fixed: i32)
        requires
            self.wf(),
            precision <= 30,
        ensures
            fixed == self.quantized(precision as nat),
    {
        let scale: u64 = power_of_two(precision);
        proof {
            lemma2_to64();
            if precision < 30 {
                lemma_pow2_strictly_increases(precision as nat, 30);
            }
        }
        let den: u128 = self.den as u128;
        if self.num >= 0 {
            let magnitude: u128 = self.num as u128;
            assert(magnitude * scale <= 0x8000_0000_0000_0000 * 0x4000_0000) by (nonlinear_arith)
                requires
                    0 <= magnitude <= 0x8000_0000_0000_0000,
                    0 <= scale <= 0x4000_0000,
            ;
            let scaled: u128 = magnitude * scale as u128;
            let rounded: u128 = (2 * scaled + den) / (2 * den);
            if rounded > 0x7fff_ffff {
                0x7fff_ffff
            } else {
                rounded as i32
            }
        } else {
            let magnitude: u128 = (-(self.num as i128)) as u128;
            assert(magnitude * scale <= 0x8000_0000_0000_0000 * 0x4000_0000) by (nonlinear_arith)
                requires
                    0 <= magnitude <= 0x8000_0000_0000_0000,
                    0 <= scale <= 0x4000_0000,
            ;
            let scaled: u128 = magnitude * scale as u128;
            assert(-2 * (self.num * pow2(precision as nat)) == 2 * scaled) by (nonlinear_arith)
                requires
                    scaled == magnitude * scale,
                    magnitude == -self.num,
                    scale == pow2(precision as nat),
            ;
            assert(self.num * pow2(precision as nat) < 0) by (nonlinear_arith)
                requires
                    self.num < 0,
                    pow2(precision as nat) > 0,
            ;
            let rounded: u128 = (2 * scaled + den) / (2 * den);
            if rounded > 0x8000_0000 {
                -0x8000_0000
            } else {
                (-(rounded as i64)) as i32
            }
        }
    }
}

/// A fraction quantizes to `expected` when `expected` is within half a unit of
/// the fraction times `2^precision`, the upper half excluded for a positive
/// fraction and the lower half for a negative one.
pub proof fn lemma_quantized_value(fraction: Fraction, precision: nat, expected: int)
    requires
        fraction.wf(),
        i32::MIN <= expected <= i32::MAX,
        fraction.num >= 0 ==> 2 * fraction.den * expected <= 2 * (fraction.num * pow2(precision))
            + fraction.den < 2 * fraction.den * (expected + 1),
        fraction.num < 0 ==> 2 * fraction.den * (-expected) <= -2 * (fraction.num * pow2(precision))
            + fraction.den < 2 * fraction.den * (-expected + 1),
    ensures
        fraction.quantized(precision) == expected,
{
    let scaled = fraction.num * pow2(precision);
    let divisor = 2 * fraction.den;
    vstd::arithmetic::power2::lemma_pow2_pos(precision);
    if fraction.num >= 0 {
        assert(scaled >= 0) by (nonlinear_arith)
            requires
                scaled == fraction.num * pow2(precision),
                fraction.num >= 0,
                pow2(precision) > 0,
        ;
        let total = 2 * scaled + fraction.den;
        assert(total == expected * divisor + (total - expected * divisor)) by (nonlinear_arith);
        assert(expected * divisor == 2 * fraction.den * expected) by (nonlinear_arith)
            requires
                divisor == 2 * fraction.den,
        ;
        assert(2 * fraction.den * (expected + 1) == expected * divisor + divisor)
            by (nonlinear_arith)
            requires
                divisor == 2 * fraction.den,
        ;
        lemma_fundamental_div_mod_converse(total, divisor, expected, total - expected * divisor);
    } else {
        assert(scaled < 0) by (nonlinear_arith)
            requires
                scaled == fraction.num * pow2(precision),
                fraction.num < 0,
                pow2(precision) > 0,
        ;
        let total = -2 * scaled + fraction.den;
        let q = -expected;
        assert(total == q * divisor + (total - q * divisor)) by (nonlinear_arith);
        assert(q * divisor == 2 * fraction.den * q) by (nonlinear_arith)
            requires
                divisor == 2 * fraction.den,
        ;
        assert(2 * fraction.den * (q + 1) == q * divisor + divisor) by (nonlinear_arith)
            requires
                divisor == 2 * fraction.den,
        ;
        lemma_fundamental_div_mod_converse(total, divisor, q, total - q * divisor);
    }
}

/// Rounding moves a fraction by half a unit at most: twice the distance
/// between the rounded value times the denominator and the numerator is no
/// more than the denominator.
pub proof fn lemma_round_half_away_is_nearest(num: int, den: int)
    requires
        den > 0,
    ensures
        -den <= 2 * (round_half_away(num, den) * den - num) <= den,
{
    let divisor = 2 * den;
    if num >= 0 {
        let total = 2 * num + den;
        lemma_fundamental_div_mod(total, divisor);
        let q = total / divisor;
        assert(divisor * q == 2 * (q * den)) by (nonlinear_arith)
            requires
                divisor == 2 * den,
        ;
    } else {
        let total = -2 * num + den;
        lemma_fundamental_div_mod(total, divisor);
        let q = total / divisor;
        assert(divisor * q == 2 * (q * den)) by (nonlinear_arith)
            requires
                divisor == 2 * den,
        ;
        assert((-q) * den == -(q * den)) by (nonlinear_arith);
    }
}

} // verus!
