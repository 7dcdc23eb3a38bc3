//! Binary floating-point values held as their IEEE 754 bit patterns, and the
//! narrowing from double to single precision that every stored number goes
//! through.
//!
//! A finite value is handled by its magnitude: sign aside, the bit patterns of
//! either width are ordered as the values they stand for, and the pattern
//! that follows the largest finite one is infinity. Narrowing therefore comes
//! down to dividing the significand by a power of two and rounding the
//! quotient to the nearest integer, halves going to the even neighbour.

use vstd::arithmetic::div_mod::{lemma_div_is_ordered_by_denominator, lemma_fundamental_div_mod};
use vstd::arithmetic::mul::{
    lemma_mul_inequality, lemma_mul_is_associative, lemma_mul_is_commutative,
    lemma_mul_is_distributive_add_other_way, lemma_mul_strict_inequality,
};
use vstd::arithmetic::power2::{
    lemma2_to64, lemma2_to64_rest, lemma_pow2_adds, lemma_pow2_pos, lemma_pow2_unfold, pow2,
};
use vstd::bits::{lemma_u64_shl_is_mul, lemma_u64_shr_is_div};
use vstd::prelude::*;

verus! {

/// The implicit leading bit of a normal double-precision significand, 2^52.
pub const DOUBLE_HIDDEN_BIT: u64 = 0x0010_0000_0000_0000;

/// The exponent field that marks infinities and NaNs in double precision.
pub const DOUBLE_EXPONENT_MAX: u64 = 0x7ff;

/// The exponent field of a double whose value is the smallest normal single.
pub const SMALLEST_NORMAL_EXPONENT: u64 = 897;

/// Magnitude bits of single-precision infinity.
pub const SINGLE_INFINITY: u32 = 0x7f80_0000;

/// Magnitude bits of the quiet NaN that narrowing produces.
pub const SINGLE_QUIET_NAN: u32 = 0x7fc0_0000;

/// The sign bit of a single-precision value.
pub const SINGLE_SIGN_BIT: u32 = 0x8000_0000;

/// A double-precision value, as its bit pattern.
#[derive(Clone, Copy, Debug, PartialEq, Eq, Structural)]
pub struct Double {
    pub bits: u64,
}

/// A single-precision value, as its bit pattern.
#[derive(Clone, Copy, Debug, PartialEq, Eq, Structural)]
pub struct Single {
    pub bits: u32,
}

/// The quotient of `n` by 2^`k`, rounded to the nearest integer; a quotient
/// that lies halfway between two integers goes to the even one.
pub open spec fn round_half_even(n: nat, k: nat) -> nat {
    let quotient = n / pow2(k);
    let rest = n % pow2(k);
    if 2 * rest > pow2(k) || (2 * rest == pow2(k) && quotient % 2 == 1) {
        quotient + 1
    } else {
        quotient
    }
}

/// The magnitude that a single-precision bit pattern stands for, sign
/// aside, in units of 2^-149. The pattern of infinity counts as 2^128, the
/// magnitude that would follow the largest finite one.
pub open spec fn single_magnitude(pattern: nat) -> nat {
    if pattern < 0x80_0000 {
        pattern
    } else {
        (0x80_0000 + pattern % 0x80_0000) * pow2((pattern / 0x80_0000 - 1) as nat)
    }
}

/// How far a magnitude, given in units of 2^-1074, lies from the one that
/// a single-precision bit pattern stands for; in the same units.
pub open spec fn distance(magnitude: nat, pattern: nat) -> nat {
    let other = single_magnitude(pattern) * pow2(925);
    if magnitude >= other {
        (magnitude - other) as nat
    } else {
        (other - magnitude) as nat
    }
}

impl Double {
    /// The magnitude of a finite value, in units of 2^-1074.
    pub open spec fn magnitude(self) -> nat {
        self.significand() * pow2((self.scale() - 1) as nat)
    }

    /// True when the sign bit is set.
    pub open spec fn negative(self) -> bool {
        self.bits >= 0x8000_0000_0000_0000
    }

    /// The biased exponent field, 11 bits.
    pub open spec fn exponent(self) -> nat {
        (self.bits as nat / 0x0010_0000_0000_0000) % 2048
    }

    /// The fraction field, 52 bits.
    pub open spec fn fraction(self) -> nat {
        self.bits as nat % 0x0010_0000_0000_0000
    }

    /// True for every value but the infinities and the NaNs.
    pub open spec fn finite(self) -> bool {
        self.exponent() < 2047
    }

    /// The integer significand: the fraction, with the implicit leading bit
    /// for a normal value.
    pub open spec fn significand(self) -> nat {
        if self.exponent() == 0 {
            self.fraction()
        } else {
            0x0010_0000_0000_0000 + self.fraction()
        }
    }

    /// The exponent that scales the significand: the magnitude of a finite
    /// value is `significand() * 2^(scale() - 1075)`.
    pub open spec fn scale(self) -> nat {
        if self.exponent() == 0 {
            1
        } else {
            self.exponent()
        }
    }

    /// Magnitude bits of the single-precision value nearest to this one.
    ///
    /// From scale 897 on the result is a normal single: 29 bits of the
    /// significand are rounded away, and a carry out of the rounding moves on
    /// into the exponent, at the top into infinity. Below that the result is
    /// subnormal, counted in units of 2^-149. An infinity stays one and a NaN
    /// becomes the quiet NaN.
    pub open spec fn narrowed_magnitude(self) -> nat {
        if self.exponent() == 2047 {
            if self.fraction() == 0 {
                0x7f80_0000
            } else {
                0x7fc0_0000
            }
        } else if self.scale() >= 897 {
            let rounded = (self.scale() - 897) * 0x80_0000 + round_half_even(self.significand(), 29);
            if rounded >= 0x7f80_0000 {
                0x7f80_0000
            } else {
                rounded as nat
            }
        } else {
            round_half_even(self.significand(), (926 - self.scale()) as nat)
        }
    }

    /// The single-precision value that this one narrows to: the nearest one,
    /// with the sign kept.
    pub open spec fn narrowed(self) -> Single {
        Single {
            bits: if self.negative() {
                (0x8000_0000 + self.narrowed_magnitude()) as u32
            } else {
                self.narrowed_magnitude() as u32
            },
        }
    }

    /// Wraps a bit pattern.
    pub fn from_bits(bits: u64) -> (value: Double)
        ensures
            value.bits == bits,
    {
        Double { bits }
    }

    /// The bit pattern.
    pub fn to_bits(self) -> (bits: u64)
        ensures
            bits == self.bits,
    {
        self.bits
    }

    /// Narrows to single precision, rounding to nearest with ties to even.
    ///
    /// The sign is kept. Of a finite value the result is the single nearest
    /// to it, infinity where the value lies nearer to 2^128 than to the
    /// largest finite single; of two that are equally near, the one with
    /// the even bit pattern. An infinity stays one, a NaN becomes the quiet
    /// NaN.
    pub fn narrow(self) -> (single: Single)
        ensures
            single == self.narrowed(),
            single.negative() == self.negative(),
            single.magnitude_bits() == self.narrowed_magnitude(),
            self.finite() ==> single.magnitude_bits() <= 0x7f80_0000,
            self.finite() ==> forall|other: nat|
                other <= 0x7f80_0000 ==> distance(self.magnitude(), single.magnitude_bits()) <= #[trigger] distance(
                    self.magnitude(),
                    other,
                ),
            self.finite() ==> forall|other: nat|
                other <= 0x7f80_0000 && other != single.magnitude_bits() && #[trigger] distance(
                    self.magnitude(),
                    other,
                ) == distance(self.magnitude(), single.magnitude_bits()) ==> single.magnitude_bits() % 2 == 0,
    {
        proof {
            law_narrowing_keeps_the_sign(self);
            if self.finite() {
                assert forall|other: nat| other <= 0x7f80_0000 implies distance(
                    self.magnitude(),
                    self.narrowed_magnitude(),
                ) <= #[trigger] distance(self.magnitude(), other) by {
                    law_narrowing_rounds_to_nearest(self, other);
                }
                assert forall|other: nat|
                    other <= 0x7f80_0000 && other != self.narrowed_magnitude() && #[trigger] distance(
                        self.magnitude(),
                        other,
                    ) == distance(self.magnitude(), self.narrowed_magnitude()) implies self.narrowed_magnitude()
                    % 2 == 0 by {
                    law_narrowing_rounds_to_nearest(self, other);
                }
            }
        }
        let bits = self.bits;
        let exponent: u64 = (bits >> 52) & 0x7ff;
        let fraction: u64 = bits & 0x000f_ffff_ffff_ffff;
        let sign: u32 = if bits >= 0x8000_0000_0000_0000 {
            SINGLE_SIGN_BIT
        } else {
            0
        };
        proof {
            assert((bits >> 52) & 0x7ff == (bits / 0x0010_0000_0000_0000) % 2048) by (bit_vector);
            assert(bits & 0x000f_ffff_ffff_ffff == bits % 0x0010_0000_0000_0000) by (bit_vector);
            assert(exponent as nat == self.exponent());
            assert(fraction as nat == self.fraction());
            lemma2_to64();
            lemma2_to64_rest();
        }
        let magnitude: u32 = if exponent == DOUBLE_EXPONENT_MAX {
            if fraction == 0 {
                SINGLE_INFINITY
            } else {
                SINGLE_QUIET_NAN
            }
        } else if exponent >= 1151 {
            proof {
                assert(self.significand() / pow2(29) >= 0x80_0000);
            }
            SINGLE_INFINITY
        } else if exponent >= SMALLEST_NORMAL_EXPONENT {
            let rounded = round_shift(DOUBLE_HIDDEN_BIT + fraction, 29);
            proof {
                lemma_round_half_even_bounds(self.significand(), 29, 53);
            }
            let sum: u64 = (exponent - SMALLEST_NORMAL_EXPONENT) * 0x80_0000 + rounded;
            sum as u32
        } else if exponent >= 873 {
            let rounded = round_shift(DOUBLE_HIDDEN_BIT + fraction, (926 - exponent) as u32);
            proof {
                lemma_round_half_even_bounds(self.significand(), (926 - exponent) as nat, 53);
                lemma_pow2_at_most((53 - (926 - exponent)) as nat, 23);
            }
            rounded as u32
        } else {
            proof {
                lemma_round_half_even_vanishes(self.significand(), (926 - self.scale()) as nat, 53);
            }
            0
        };
        Single { bits: sign + magnitude }
    }
}

impl Single {
    /// True when the sign bit is set.
    pub open spec fn negative(self) -> bool {
        self.bits >= 0x8000_0000
    }

    /// The bits below the sign bit.
    pub open spec fn magnitude_bits(self) -> nat {
        self.bits as nat % 0x8000_0000
    }

    /// Wraps a bit pattern.
    pub fn from_bits(bits: u32) -> (value: Single)
        ensures
            value.bits == bits,
    {
        Single { bits }
    }

    /// The bit pattern.
    pub fn to_bits(self) -> (bits: u32)
        ensures
            bits == self.bits,
    {
        self.bits
    }
}

/// Divides by 2^`k` and rounds half to even.
fn round_shift(n: u64, k: u32) -> (rounded: u64)
    requires
        1 <= k < 64,
        n < 0x8000_0000_0000_0000,
    ensures
        rounded == round_half_even(n as nat, k as nat),
{
    let unit: u64 = 1u64 << k;
    let quotient: u64 = n >> k;
    proof {
        lemma_pow2_pos(k as nat);
        vstd::bits::lemma_u64_pow2_no_overflow(k as nat);
        lemma_u64_shl_is_mul(1, k as u64);
        lemma_u64_shr_is_div(n, k as u64);
        assert(unit == pow2(k as nat));
        assert(quotient == n as nat / pow2(k as nat));
    }
    let rest: u64 = n % unit;
    let half: u64 = unit >> 1;
    proof {
        assert(k >= 1 && unit == 1u64 << k ==> (unit >> 1) + (unit >> 1) == unit) by (bit_vector)
            requires
                1 <= k < 64,
        ;
    }
    if rest > half || (rest == half && quotient % 2 == 1) {
        quotient + 1
    } else {
        quotient
    }
}

/// Narrowing rounds to nearest, ties to even: no single-precision
/// magnitude, infinity included, lies nearer to a finite double than the one
/// it narrows to, and where another lies just as near, the one chosen has
/// an even bit pattern.
pub proof fn law_narrowing_rounds_to_nearest(value: Double, other: nat)
    requires
        value.finite(),
        other <= 0x7f80_0000,
    ensures
        value.narrowed_magnitude() <= 0x7f80_0000,
        distance(value.magnitude(), value.narrowed_magnitude()) <= distance(value.magnitude(), other),
        distance(value.magnitude(), value.narrowed_magnitude()) == distance(value.magnitude(), other)
            && other != value.narrowed_magnitude() ==> value.narrowed_magnitude() % 2 == 0,
{
    lemma2_to64();
    lemma2_to64_rest();
    let significand = value.significand();
    let scale = value.scale();
    let chosen = value.narrowed_magnitude();
    let magnitude = value.magnitude();
    if scale >= 1151 {
        // Past the largest finite single: everything rounds to infinity,
        // which is nearest because nothing lies beyond it.
        assert(significand / pow2(29) >= 0x80_0000);
        assert(chosen == 0x7f80_0000);
        lemma_single_magnitude_of_parts(254, 0x80_0000);
        lemma_pow2_adds(254, 925);
        lemma_pow2_adds(23, 1179);
        lemma_pow2_adds(52, 1150);
        lemma_pow2_at_most(1150, (scale - 1) as nat);
        let top = single_magnitude(0x7f80_0000) * pow2(925);
        assert(top == pow2(1202)) by {
            lemma_mul_is_associative(0x80_0000, pow2(254) as int, pow2(925) as int);
        }
        assert(magnitude >= top) by {
            lemma_mul_inequality(pow2(1150) as int, pow2((scale - 1) as nat) as int, significand as int);
            lemma_mul_inequality(pow2(52) as int, significand as int, pow2(1150) as int);
            lemma_mul_is_commutative(significand as int, pow2(1150) as int);
            lemma_mul_is_commutative(significand as int, pow2((scale - 1) as nat) as int);
        }
        if other < 0x7f80_0000 {
            lemma_single_magnitude_grows(other, 0x7f80_0000);
            lemma_pow2_pos(925);
            lemma_mul_strict_inequality(
                single_magnitude(other) as int,
                single_magnitude(0x7f80_0000) as int,
                pow2(925) as int,
            );
        }
    } else {
        let step: nat = if scale >= 897 {
            (scale - 897) as nat
        } else {
            0
        };
        let shift: nat = if scale >= 897 {
            29
        } else {
            (926 - scale) as nat
        };
        let rounded = round_half_even(significand, shift);
        let floor = significand / pow2(shift);
        let rest = significand % pow2(shift);
        lemma_pow2_pos(shift);
        lemma_fundamental_div_mod(significand as int, pow2(shift) as int);
        if scale >= 897 {
            assert(floor >= 0x80_0000);
            assert(floor < 0x100_0000);
        } else {
            lemma_round_half_even_bounds(significand, 29, 53);
            lemma_pow2_at_most(29, shift);
            lemma_div_is_ordered_by_denominator(significand as int, pow2(29) as int, pow2(shift) as int);
            assert(floor < 0x100_0000);
        }
        assert(chosen == step * 0x80_0000 + rounded);
        let unit = pow2((scale - 1) as nat);
        let whole = pow2(step + 925);
        lemma_pow2_pos((scale - 1) as nat);
        assert(whole == pow2(shift) * unit) by {
            lemma_pow2_adds(shift, (scale - 1) as nat);
        }
        assert(whole == pow2(step) * pow2(925)) by {
            lemma_pow2_adds(step, 925);
        }
        let below = single_magnitude(step * 0x80_0000 + floor) * pow2(925);
        let above = single_magnitude(step * 0x80_0000 + floor + 1) * pow2(925);
        assert(below == floor * whole) by {
            lemma_single_magnitude_of_parts(step, floor);
            lemma_mul_is_associative(floor as int, pow2(step) as int, pow2(925) as int);
        }
        assert(above == floor * whole + whole) by {
            lemma_single_magnitude_of_parts(step, floor + 1);
            lemma_mul_is_associative((floor + 1) as int, pow2(step) as int, pow2(925) as int);
            lemma_mul_is_distributive_add_other_way(whole as int, floor as int, 1);
        }
        let part = rest * unit;
        assert(magnitude == below + part) by {
            lemma_mul_is_distributive_add_other_way(unit as int, (floor * pow2(shift)) as int, rest as int);
            lemma_mul_is_associative(floor as int, pow2(shift) as int, unit as int);
            lemma_mul_is_commutative(pow2(shift) as int, floor as int);
        }
        assert(part < whole) by {
            lemma_mul_strict_inequality(rest as int, pow2(shift) as int, unit as int);
        }
        assert(2 * rest < pow2(shift) ==> 2 * part < whole) by {
            if 2 * rest < pow2(shift) {
                lemma_mul_strict_inequality((2 * rest) as int, pow2(shift) as int, unit as int);
                lemma_mul_is_associative(2, rest as int, unit as int);
            }
        }
        assert(2 * rest > pow2(shift) ==> 2 * part > whole) by {
            if 2 * rest > pow2(shift) {
                lemma_mul_strict_inequality(pow2(shift) as int, (2 * rest) as int, unit as int);
                lemma_mul_is_associative(2, rest as int, unit as int);
            }
        }
        assert(2 * rest == pow2(shift) ==> 2 * part == whole) by {
            lemma_mul_is_associative(2, rest as int, unit as int);
        }
        lemma_pow2_pos(925);
        if rounded == floor {
            assert(2 * part <= whole);
            if other < chosen {
                lemma_single_magnitude_grows(other, chosen);
                lemma_mul_strict_inequality(
                    single_magnitude(other) as int,
                    single_magnitude(chosen) as int,
                    pow2(925) as int,
                );
            } else if other > chosen {
                if other > chosen + 1 {
                    lemma_single_magnitude_grows(chosen + 1, other);
                    lemma_mul_strict_inequality(
                        single_magnitude(chosen + 1) as int,
                        single_magnitude(other) as int,
                        pow2(925) as int,
                    );
                }
            }
        } else {
            assert(rounded == floor + 1);
            assert(2 * part >= whole);
            if other > chosen {
                lemma_single_magnitude_grows(chosen, other);
                lemma_mul_strict_inequality(
                    single_magnitude(chosen) as int,
                    single_magnitude(other) as int,
                    pow2(925) as int,
                );
            } else if other < chosen {
                if other + 1 < chosen {
                    lemma_single_magnitude_grows(other, (chosen - 1) as nat);
                    lemma_mul_strict_inequality(
                        single_magnitude(other) as int,
                        single_magnitude((chosen - 1) as nat) as int,
                        pow2(925) as int,
                    );
                }
            }
        }
    }
}

/// Narrowing keeps the sign and puts the narrowed magnitude below it: the
/// sign bit of the result is that of the double, and the other 31 bits are
/// the magnitude.
pub proof fn law_narrowing_keeps_the_sign(value: Double)
    ensures
        value.narrowed().negative() == value.negative(),
        value.narrowed().magnitude_bits() == value.narrowed_magnitude(),
        value.finite() ==> value.narrowed_magnitude() <= 0x7f80_0000,
{
    if value.finite() {
        law_narrowing_rounds_to_nearest(value, 0);
    }
}

/// A double that is a single to begin with narrows to itself: where the
/// magnitude of a finite double is that of a single-precision bit pattern,
/// narrowing yields a pattern of just that magnitude.
pub proof fn law_narrowing_is_exact_on_singles(value: Double, pattern: nat)
    requires
        value.finite(),
        pattern <= 0x7f80_0000,
        value.magnitude() == single_magnitude(pattern) * pow2(925),
    ensures
        value.narrowed_magnitude() == pattern,
{
    law_narrowing_rounds_to_nearest(value, pattern);
    let chosen = value.narrowed_magnitude();
    lemma_pow2_pos(925);
    if chosen < pattern {
        lemma_single_magnitude_grows(chosen, pattern);
        lemma_mul_strict_inequality(
            single_magnitude(chosen) as int,
            single_magnitude(pattern) as int,
            pow2(925) as int,
        );
    } else if chosen > pattern {
        lemma_single_magnitude_grows(pattern, chosen);
        lemma_mul_strict_inequality(
            single_magnitude(pattern) as int,
            single_magnitude(chosen) as int,
            pow2(925) as int,
        );
    }
}

/// The magnitude of the pattern that is `count` steps past the start of
/// the binade `step`: `count` times the spacing of that binade. The count
/// may run up to the start of the binade after the next.
proof fn lemma_single_magnitude_of_parts(step: nat, count: nat)
    requires
        count <= 0x100_0000,
        step == 0 || count >= 0x80_0000,
    ensures
        single_magnitude(step * 0x80_0000 + count) == count * pow2(step),
{
    lemma2_to64();
    let pattern = step * 0x80_0000 + count;
    if count < 0x80_0000 {
    } else if count < 0x100_0000 {
        assert(pattern / 0x80_0000 == step + 1);
        assert(pattern % 0x80_0000 == count - 0x80_0000);
    } else {
        assert(pattern / 0x80_0000 == step + 2);
        assert(pattern % 0x80_0000 == 0);
        lemma_pow2_unfold(step + 1);
        assert(0x80_0000 * (2 * pow2(step)) == 0x100_0000 * pow2(step)) by (nonlinear_arith);
    }
}

/// The bit patterns are ordered as their magnitudes.
proof fn lemma_single_magnitude_grows(smaller: nat, larger: nat)
    requires
        smaller < larger,
    ensures
        single_magnitude(smaller) < single_magnitude(larger),
{
    if larger < 0x80_0000 {
    } else {
        let high = (larger / 0x80_0000 - 1) as nat;
        lemma_pow2_pos(high);
        let top = 0x80_0000 + larger % 0x80_0000;
        assert(top * pow2(high) >= top) by {
            lemma_mul_inequality(1, pow2(high) as int, top as int);
            lemma_mul_is_commutative(top as int, pow2(high) as int);
        }
        if smaller < 0x80_0000 {
        } else {
            let low = (smaller / 0x80_0000 - 1) as nat;
            let bottom = 0x80_0000 + smaller % 0x80_0000;
            if low == high {
                lemma_mul_strict_inequality(bottom as int, top as int, pow2(high) as int);
            } else {
                assert(low < high);
                lemma_pow2_pos(low);
                lemma_pow2_unfold(low + 1);
                lemma_pow2_at_most(low + 1, high);
                assert(bottom * pow2(low) < 0x100_0000 * pow2(low)) by {
                    lemma_mul_strict_inequality(bottom as int, 0x100_0000, pow2(low) as int);
                }
                assert(0x100_0000 * pow2(low) == 0x80_0000 * pow2(low + 1)) by (nonlinear_arith)
                    requires
                        pow2(low + 1) == 2 * pow2(low),
                ;
                assert(0x80_0000 * pow2(low + 1) <= 0x80_0000 * pow2(high)) by {
                    lemma_mul_inequality(pow2(low + 1) as int, pow2(high) as int, 0x80_0000);
                    lemma_mul_is_commutative(0x80_0000, pow2(low + 1) as int);
                    lemma_mul_is_commutative(0x80_0000, pow2(high) as int);
                }
                assert(0x80_0000 * pow2(high) <= top * pow2(high)) by {
                    lemma_mul_inequality(0x80_0000, top as int, pow2(high) as int);
                }
            }
        }
    }
}

/// Powers of two grow with the exponent.
proof fn lemma_pow2_at_most(small: nat, large: nat)
    requires
        small <= large,
    ensures
        pow2(small) <= pow2(large),
{
    if small < large {
        vstd::arithmetic::power2::lemma_pow2_strictly_increases(small, large);
    }
}

/// A number below 2^`width` rounds, after division by 2^`k`, to at most
/// 2^(`width` - `k`).
proof fn lemma_round_half_even_bounds(n: nat, k: nat, width: nat)
    requires
        n < pow2(width),
        k <= width,
    ensures
        round_half_even(n, k) <= pow2((width - k) as nat),
{
    lemma_pow2_pos(k);
    vstd::arithmetic::power2::lemma_pow2_adds((width - k) as nat, k);
    let unit = pow2(k) as int;
    let top = pow2((width - k) as nat) as int;
    assert(top * unit == pow2(width));
    vstd::arithmetic::div_mod::lemma_fundamental_div_mod(n as int, unit);
    assert((n as int / unit) < top) by {
        if n as int / unit >= top {
            vstd::arithmetic::mul::lemma_mul_inequality(top, n as int / unit, unit);
            vstd::arithmetic::mul::lemma_mul_is_commutative(unit, n as int / unit);
        }
    }
}

/// A number below 2^`width` rounds to zero when divided by a power of two
/// past 2^`width`.
proof fn lemma_round_half_even_vanishes(n: nat, k: nat, width: nat)
    requires
        n < pow2(width),
        k > width,
    ensures
        round_half_even(n, k) == 0,
{
    lemma_pow2_pos(width);
    vstd::arithmetic::power2::lemma_pow2_adds(width, (k - width) as nat);
    vstd::arithmetic::power2::lemma_pow2_unfold((k - width) as nat);
    lemma_pow2_pos((k - width - 1) as nat);
    let unit = pow2(k) as int;
    let small = pow2(width) as int;
    let factor = pow2((k - width - 1) as nat) as int;
    assert(unit == small * (2 * factor));
    assert(2 * small <= unit) by {
        vstd::arithmetic::mul::lemma_mul_inequality(1, factor, 2 * small);
        assert(small * (2 * factor) == factor * (2 * small)) by (nonlinear_arith);
    }
    vstd::arithmetic::div_mod::lemma_small_mod(n, unit as nat);
    vstd::arithmetic::div_mod::lemma_basic_div(n as int, unit);
}

} // verus!
