//! Double-precision numbers, held as their IEEE 754 bit patterns.
//!
//! Playback positions, volumes and coordinates arrive as doubles. The player
//! only orders, selects and rounds them, which the bit patterns are enough
//! for.
use vstd::prelude::*;

verus! {

/// The sign bit.
pub const SIGN: u64 = 0x8000_0000_0000_0000;

/// The magnitude of an infinity; every larger magnitude is not a number.
pub const INFINITY: u64 = 0x7ff0_0000_0000_0000;

/// The smallest magnitude with an implicit leading bit; also the weight of
/// the exponent field.
pub const NORMAL: u64 = 0x0010_0000_0000_0000;

proof fn use_shift(shift: u64)
    requires
        21 < shift <= 53,
    ensures
        (1u64 << shift) == vstd::arithmetic::power2::pow2(shift as nat),
        0 < (1u64 << shift) <= 0x20_0000_0000_0000,
{
    vstd::arithmetic::power2::lemma2_to64();
    vstd::arithmetic::power2::lemma2_to64_rest();
    if shift < 53 {
        vstd::arithmetic::power2::lemma_pow2_strictly_increases(shift as nat, 53);
    }
    vstd::arithmetic::power2::lemma_pow2_pos(shift as nat);
    vstd::bits::lemma_u64_shl_is_mul(1, shift);
}

/// A double, by its bit pattern.
#[derive(Clone, Copy, Debug, PartialEq, Eq, Structural)]
pub struct Double {
    pub bits: u64,
}

impl Double {
    /// Whether the sign bit is set.
    pub open spec fn is_negative(self) -> bool {
        self.bits >= SIGN
    }

    /// The pattern without its sign.
    pub open spec fn magnitude(self) -> nat {
        if self.is_negative() {
            (self.bits - SIGN) as nat
        } else {
            self.bits as nat
        }
    }

    /// Whether the pattern is no number.
    pub open spec fn is_nan_spec(self) -> bool {
        self.magnitude() > INFINITY
    }

    /// An integer that orders the numbers as the numbers themselves are
    /// ordered; both zeros have rank zero.
    pub open spec fn rank(self) -> int {
        if self.is_negative() {
            -(self.magnitude() as int)
        } else {
            self.magnitude() as int
        }
    }

    /// The significand and the power of two that it is multiplied with, of a
    /// number that is no infinity.
    pub open spec fn parts(self) -> (nat, int) {
        let exponent = self.magnitude() / (NORMAL as nat);
        let fraction = self.magnitude() % (NORMAL as nat);
        if exponent == 0 {
            (fraction, -1074)
        } else {
            (fraction + NORMAL as nat, exponent - 1075)
        }
    }

    /// The magnitude of the number rounded to an integer, halves upward.
    pub open spec fn rounded_magnitude(self) -> int {
        let (significand, exponent) = self.parts();
        if exponent >= 0 {
            (significand * vstd::arithmetic::power2::pow2(exponent as nat)) as int
        } else {
            let unit = vstd::arithmetic::power2::pow2((-exponent) as nat);
            ((2 * significand + unit) / (2 * unit)) as int
        }
    }

    /// The nearest integer that an `i32` can hold, halves away from zero;
    /// zero for what is no number.
    pub open spec fn rounded(self) -> int {
        let magnitude = self.rounded_magnitude();
        if self.is_nan_spec() {
            0
        } else if self.is_negative() {
            if magnitude > 0x8000_0000 { i32::MIN as int } else { -magnitude }
        } else {
            if magnitude > 0x7fff_ffff { i32::MAX as int } else { magnitude }
        }
    }

    /// The number zero.
    pub fn zero() -> (zero: Double)
        ensures
            zero.bits == 0,
    {
        Double { bits: 0 }
    }

    /// The number one.
    pub fn one() -> (one: Double)
        ensures
            one.bits == 0x3ff0_0000_0000_0000,
    {
        Double { bits: 0x3ff0_0000_0000_0000 }
    }

    fn split(self) -> (parts: (bool, u64))
        ensures
            parts.0 == self.is_negative(),
            parts.1 == self.magnitude(),
    {
        if self.bits >= SIGN {
            (true, self.bits - SIGN)
        } else {
            (false, self.bits)
        }
    }

    /// Whether the pattern is no number.
    pub fn is_nan(self) -> (nan: bool)
        ensures
            nan == self.is_nan_spec(),
    {
        let (_, magnitude) = self.split();
        magnitude > INFINITY
    }

    /// Whether both are numbers and the first is the smaller.
    pub fn less_than(self, other: Double) -> (less: bool)
        ensures
            less == self.below(other),
    {
        let (negative, magnitude) = self.split();
        let (other_negative, other_magnitude) = other.split();
        if magnitude > INFINITY || other_magnitude > INFINITY {
            false
        } else if negative {
            if other_negative {
                other_magnitude < magnitude
            } else {
                magnitude > 0 || other_magnitude > 0
            }
        } else {
            !other_negative && magnitude < other_magnitude
        }
    }

    /// Both are numbers and the first is the smaller.
    pub open spec fn below(self, other: Double) -> bool {
        !self.is_nan_spec() && !other.is_nan_spec() && self.rank() < other.rank()
    }

    /// The larger of two numbers; of a number and what is none, the number.
    pub open spec fn max_spec(self, other: Double) -> Double {
        if self.is_nan_spec() || self.below(other) { other } else { self }
    }

    /// The smaller of two numbers; of a number and what is none, the number.
    pub open spec fn min_spec(self, other: Double) -> Double {
        if self.is_nan_spec() || other.below(self) { other } else { self }
    }

    /// The number itself inside the bounds, otherwise the nearer bound; what
    /// is no number stays as it is.
    pub open spec fn clamp_spec(self, low: Double, high: Double) -> Double {
        if self.below(low) {
            low
        } else if high.below(self) {
            high
        } else {
            self
        }
    }

    /// The larger of two numbers.
    #[verifier::when_used_as_spec(max_spec)]
    pub fn max(self, other: Double) -> (larger: Double)
        ensures
            larger == self.max_spec(other),
    {
        if self.is_nan() || self.less_than(other) {
            other
        } else {
            self
        }
    }

    /// The smaller of two numbers.
    #[verifier::when_used_as_spec(min_spec)]
    pub fn min(self, other: Double) -> (smaller: Double)
        ensures
            smaller == self.min_spec(other),
    {
        if self.is_nan() || other.less_than(self) {
            other
        } else {
            self
        }
    }

    /// The number held inside two bounds.
    #[verifier::when_used_as_spec(clamp_spec)]
    pub fn clamp(self, low: Double, high: Double) -> (held: Double)
        requires
            !low.is_nan_spec(),
            !high.is_nan_spec(),
            low.rank() <= high.rank(),
        ensures
            held == self.clamp_spec(low, high),
    {
        if self.less_than(low) {
            low
        } else if high.less_than(self) {
            high
        } else {
            self
        }
    }

    /// The nearest integer, halves away from zero, held inside `i32`; zero
    /// for what is no number.
    pub fn round(self) -> (nearest: i32)
        ensures
            nearest == self.rounded(),
    {
        let (negative, magnitude) = self.split();
        if magnitude > INFINITY {
            return 0;
        }
        let exponent: u64 = magnitude / NORMAL;
        let fraction: u64 = magnitude % NORMAL;
        if exponent < 1022 {
            proof {
                self.lemma_rounds_to_zero();
            }
            return 0;
        }
        if exponent >= 1054 {
            proof {
                self.lemma_rounds_beyond();
            }
            return if negative { i32::MIN } else { i32::MAX };
        }
        let significand: u64 = fraction + NORMAL;
        let shift: u64 = 1075 - exponent;
        let unit: u64 = 1u64 << shift;
        proof {
            use_shift(shift);
        }
        let rounded: u64 = (2 * significand + unit) / (2 * unit);
        if negative {
            if rounded > 0x8000_0000 {
                i32::MIN
            } else {
                (-(rounded as i64)) as i32
            }
        } else if rounded > 0x7fff_ffff {
            i32::MAX
        } else {
            rounded as i32
        }
    }

    /// What is at least one rounds to at least one.
    pub proof fn lemma_rounds_up_to_one(self)
        requires
            !self.is_nan_spec(),
            self.rank() >= 0x3ff0_0000_0000_0000,
        ensures
            1 <= self.rounded() <= i32::MAX,
    {
        self.lemma_rounds_to_some();
    }

    /// What is at most minus one half rounds to at most minus one.
    pub proof fn lemma_rounds_down_to_minus_one(self)
        requires
            !self.is_nan_spec(),
            self.rank() <= -0x3fe0_0000_0000_0000,
        ensures
            i32::MIN <= self.rounded() <= -1,
    {
        self.lemma_rounds_to_some();
    }

    proof fn lemma_rounds_to_some(self)
        requires
            self.magnitude() >= 0x3fe0_0000_0000_0000,
        ensures
            self.rounded_magnitude() >= 1,
    {
        let (significand, exponent) = self.parts();
        if self.magnitude() / (NORMAL as nat) >= 1054 {
            self.lemma_rounds_beyond();
        } else {
            use_shift((-exponent) as u64);
            let unit = vstd::arithmetic::power2::pow2((-exponent) as nat);
            assert((2 * significand + unit) / (2 * unit) >= 1) by (nonlinear_arith)
                requires
                    0 < unit <= 2 * significand,
            ;
        }
    }

    proof fn lemma_rounds_to_zero(self)
        requires
            self.magnitude() / (NORMAL as nat) < 1022,
        ensures
            self.rounded_magnitude() == 0,
    {
        let (significand, exponent) = self.parts();
        let unit = vstd::arithmetic::power2::pow2((-exponent) as nat);
        assert(significand < 2 * NORMAL);
        vstd::arithmetic::power2::lemma2_to64();
        vstd::arithmetic::power2::lemma2_to64_rest();
        if (-exponent) > 54 {
            vstd::arithmetic::power2::lemma_pow2_strictly_increases(54, (-exponent) as nat);
        }
        assert(2 * significand < unit);
        assert((2 * significand + unit) / (2 * unit) == 0) by (nonlinear_arith)
            requires
                2 * significand < unit,
                significand >= 0,
        ;
    }

    proof fn lemma_rounds_beyond(self)
        requires
            self.magnitude() / (NORMAL as nat) >= 1054,
        ensures
            self.rounded_magnitude() >= 0x8000_0000,
    {
        let (significand, exponent) = self.parts();
        vstd::arithmetic::power2::lemma2_to64();
        vstd::arithmetic::power2::lemma2_to64_rest();
        if exponent >= 0 {
            let factor = vstd::arithmetic::power2::pow2(exponent as nat);
            vstd::arithmetic::power2::lemma_pow2_pos(exponent as nat);
            assert(significand * factor >= significand) by (nonlinear_arith)
                requires
                    factor >= 1,
                    significand >= 0,
            ;
        } else {
            let unit = vstd::arithmetic::power2::pow2((-exponent) as nat);
            vstd::arithmetic::power2::lemma_pow2_pos((-exponent) as nat);
            if (-exponent) < 21 {
                vstd::arithmetic::power2::lemma_pow2_strictly_increases((-exponent) as nat, 21);
            }
            assert(unit <= 0x20_0000);
            assert((2 * significand + unit) / (2 * unit) >= 0x8000_0000) by (nonlinear_arith)
                requires
                    0 < unit <= 0x20_0000,
                    significand >= 0x10_0000_0000_0000,
            ;
        }
    }
}

/// The larger of two numbers is one of them, and neither of them is above it;
/// a number wins over what is none.
pub proof fn larger_numbers_win(a: Double, b: Double)
    ensures
        a.max_spec(b) == a || a.max_spec(b) == b,
        !a.is_nan_spec() && !b.is_nan_spec() ==> a.rank() <= a.max_spec(b).rank() && b.rank()
            <= a.max_spec(b).rank(),
        a.is_nan_spec() ==> a.max_spec(b) == b,
        b.is_nan_spec() && !a.is_nan_spec() ==> a.max_spec(b) == a,
{
}

/// The smaller of two numbers is one of them, and neither of them is below it;
/// a number wins over what is none.
pub proof fn smaller_numbers_win(a: Double, b: Double)
    ensures
        a.min_spec(b) == a || a.min_spec(b) == b,
        !a.is_nan_spec() && !b.is_nan_spec() ==> a.min_spec(b).rank() <= a.rank()
            && a.min_spec(b).rank() <= b.rank(),
        a.is_nan_spec() ==> a.min_spec(b) == b,
        b.is_nan_spec() && !a.is_nan_spec() ==> a.min_spec(b) == a,
{
}

/// A number inside its bounds stays as it is; one outside becomes the bound
/// that it lies beyond; what is no number stays as it is.
pub proof fn held_numbers_stay_inside(value: Double, low: Double, high: Double)
    requires
        !low.is_nan_spec(),
        !high.is_nan_spec(),
        low.rank() <= high.rank(),
    ensures
        value.is_nan_spec() ==> value.clamp_spec(low, high) == value,
        !value.is_nan_spec() && low.rank() <= value.rank() <= high.rank() ==> value.clamp_spec(
            low,
            high,
        ) == value,
        !value.is_nan_spec() && value.rank() < low.rank() ==> value.clamp_spec(low, high) == low,
        !value.is_nan_spec() && value.rank() > high.rank() ==> value.clamp_spec(low, high) == high,
{
}

/// The significand and the exponent of a number give its pattern back.
pub proof fn parts_make_the_pattern(value: Double)
    ensures
        value.parts().0 < 2 * NORMAL,
        value.parts().0 >= NORMAL ==> value.magnitude() == (value.parts().1 + 1075) * NORMAL + (
        value.parts().0 - NORMAL),
        value.parts().0 < NORMAL ==> value.parts().1 == -1074 && value.magnitude()
            == value.parts().0,
{
    let exponent = value.magnitude() / (NORMAL as nat);
    let fraction = value.magnitude() % (NORMAL as nat);
    assert(value.magnitude() == exponent * (NORMAL as nat) + fraction) by {
        vstd::arithmetic::div_mod::lemma_fundamental_div_mod(
            value.magnitude() as int,
            NORMAL as int,
        );
    }
}

/// A number with a fraction rounds to the integer that is nearest to it, away
/// from zero when two are: twice the number lies at most one from twice the
/// integer, in units of its last place.
pub proof fn rounding_is_nearest(value: Double)
    requires
        value.parts().1 < 0,
    ensures
        ({
            let unit = vstd::arithmetic::power2::pow2((-value.parts().1) as nat) as int;
            let nearest = value.rounded_magnitude();
            2 * unit * nearest - unit <= 2 * value.parts().0 < 2 * unit * nearest + unit
        }),
{
    let unit = vstd::arithmetic::power2::pow2((-value.parts().1) as nat) as int;
    let nearest = value.rounded_magnitude();
    let doubled = 2 * value.parts().0 + unit;
    vstd::arithmetic::power2::lemma_pow2_pos((-value.parts().1) as nat);
    vstd::arithmetic::div_mod::lemma_fundamental_div_mod(doubled, 2 * unit);
    assert(0 <= doubled % (2 * unit) < 2 * unit);
    assert((2 * unit) * nearest == 2 * unit * nearest);
}

/// A number without a fraction rounds to itself.
pub proof fn integers_round_to_themselves(value: Double)
    requires
        value.parts().1 >= 0,
    ensures
        value.rounded_magnitude() == value.parts().0 * vstd::arithmetic::power2::pow2(
            value.parts().1 as nat,
        ),
{
}

/// Rounding keeps the sign, and stops at the ends of the integers that can be
/// given; what is no number gives zero.
pub proof fn rounding_keeps_the_sign(value: Double)
    ensures
        value.is_nan_spec() ==> value.rounded() == 0,
        !value.is_nan_spec() && !value.is_negative() && value.rounded_magnitude() <= i32::MAX
            ==> value.rounded() == value.rounded_magnitude(),
        !value.is_nan_spec() && !value.is_negative() && value.rounded_magnitude() > i32::MAX
            ==> value.rounded() == i32::MAX,
        !value.is_nan_spec() && value.is_negative() && -value.rounded_magnitude() >= i32::MIN
            ==> value.rounded() == -value.rounded_magnitude(),
        !value.is_nan_spec() && value.is_negative() && -value.rounded_magnitude() < i32::MIN
            ==> value.rounded() == i32::MIN,
{
}

/// The patterns from zero up to infinity are ordered as they are written; the
/// sign turns the order round, and what lies beyond infinity is no number.
pub proof fn patterns_are_ordered(value: Double)
    ensures
        value.bits < 0x8000_0000_0000_0000 ==> value.rank() == value.bits,
        value.bits >= 0x8000_0000_0000_0000 ==> value.rank() == 0x8000_0000_0000_0000 - value.bits,
        value.is_nan_spec() <==> value.rank() > 0x7ff0_0000_0000_0000 || value.rank()
            < -0x7ff0_0000_0000_0000,
{
}

/// A number is below another one exactly when its rank is; what is no number is
/// below nothing and above nothing.
pub proof fn ranks_tell_the_order(a: Double, b: Double)
    ensures
        a.is_nan_spec() || b.is_nan_spec() ==> !a.below(b),
        !a.is_nan_spec() && !b.is_nan_spec() ==> (a.below(b) <==> a.rank() < b.rank()),
{
}

/// Whatever is rounded can be given as an integer of 32 bits, and one rounds to
/// one.
pub proof fn rounded_numbers_fit(value: Double)
    ensures
        i32::MIN <= value.rounded() <= i32::MAX,
        (Double { bits: 0x3ff0_0000_0000_0000 }).rounded() == 1,
{
    let (significand, exponent) = value.parts();
    if exponent >= 0 {
        let factor = vstd::arithmetic::power2::pow2(exponent as nat);
        assert(significand * factor >= 0) by (nonlinear_arith)
            requires
                significand >= 0,
                factor >= 0,
        ;
    } else {
        let unit = vstd::arithmetic::power2::pow2((-exponent) as nat);
        vstd::arithmetic::power2::lemma_pow2_pos((-exponent) as nat);
        assert((2 * significand + unit) / (2 * unit) >= 0) by (nonlinear_arith)
            requires
                significand >= 0,
                unit > 0,
        ;
    }
    let one = Double { bits: 0x3ff0_0000_0000_0000 };
    vstd::arithmetic::power2::lemma2_to64();
    vstd::arithmetic::power2::lemma2_to64_rest();
    assert(one.parts() == (0x10_0000_0000_0000nat, -52int));
    rounding_is_nearest(one);
    let nearest = one.rounded_magnitude();
    assert(nearest == 1) by (nonlinear_arith)
        requires
            2 * 0x10_0000_0000_0000 * nearest - 0x10_0000_0000_0000 <= 2 * 0x10_0000_0000_0000
                < 2 * 0x10_0000_0000_0000 * nearest + 0x10_0000_0000_0000,
    ;
}

} // verus!
