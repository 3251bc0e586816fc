//! Single-precision values held by their IEEE-754 bit pattern.
//!
//! Sign, order, selection and clamping depend on the encoding alone and are computed
//! here on the bits. Arithmetic that rounds is not: it is asked of a unit, see
//! [`crate::unit`].

use vstd::prelude::*;

verus! {

/// Bit pattern whose top bit, the sign, is set and all others are clear.
pub const SIGN_BIT: u32 = 0x8000_0000;

/// Magnitude of the infinities; every larger magnitude is a NaN.
pub const INFINITY_BITS: u32 = 0x7f80_0000;

/// A single-precision value, identified with its bit pattern.
#[derive(Clone, Copy, Debug, PartialEq, Eq, Structural)]
pub struct Scalar {
    pub bits: u32,
}

impl Scalar {
    /// Whether the sign bit is set.
    pub open spec fn negative(self) -> bool {
        self.bits >= SIGN_BIT
    }

    /// The bit pattern with the sign bit cleared.
    pub open spec fn magnitude(self) -> u32 {
        if self.bits >= SIGN_BIT {
            (self.bits - SIGN_BIT) as u32
        } else {
            self.bits
        }
    }

    /// Whether the value is a NaN.
    pub open spec fn nan(self) -> bool {
        self.magnitude() > INFINITY_BITS
    }

    /// Whether the value is neither a NaN nor an infinity.
    pub open spec fn finite(self) -> bool {
        self.magnitude() < INFINITY_BITS
    }

    /// Position of a value that is not a NaN on the number line: values compare as
    /// their ranks do, and the two zeros share rank 0.
    pub open spec fn rank(self) -> int {
        if self.negative() {
            -(self.magnitude() as int)
        } else {
            self.magnitude() as int
        }
    }

    /// Position of a bit pattern in the total order that refines [`Scalar::rank`] by
    /// putting negative zero just below positive zero. No two bit patterns share a
    /// position.
    pub open spec fn position(self) -> int {
        if self.negative() {
            -(self.magnitude() as int) - 1
        } else {
            self.magnitude() as int
        }
    }

    /// `self < other` as IEEE-754 orders them: false if either is a NaN.
    pub open spec fn below(self, other: Scalar) -> bool {
        !self.nan() && !other.nan() && self.rank() < other.rank()
    }

    /// `self <= other` as IEEE-754 orders them: false if either is a NaN.
    pub open spec fn at_most(self, other: Scalar) -> bool {
        !self.nan() && !other.nan() && self.rank() <= other.rank()
    }

    /// The value with its sign bit cleared.
    pub open spec fn spec_abs(self) -> Scalar {
        Scalar { bits: self.magnitude() }
    }

    /// The lesser of two values; a NaN loses against a number, and of two values that
    /// compare equal the first is kept.
    pub open spec fn spec_min(self, other: Scalar) -> Scalar {
        if other.nan() {
            self
        } else if self.nan() {
            other
        } else if other.below(self) {
            other
        } else {
            self
        }
    }

    /// The greater of two values; a NaN loses against a number, and of two values that
    /// compare equal the first is kept.
    pub open spec fn spec_max(self, other: Scalar) -> Scalar {
        if other.nan() {
            self
        } else if self.nan() {
            other
        } else if self.below(other) {
            other
        } else {
            self
        }
    }

    /// `low` where the value is below `low`, else `high` where it is above `high`,
    /// else the value itself. A NaN is below and above nothing and stays.
    pub open spec fn spec_clamp(self, low: Scalar, high: Scalar) -> Scalar {
        if self.below(low) {
            low
        } else if high.below(self) {
            high
        } else {
            self
        }
    }

    /// The value with the given bit pattern.
    pub fn from_bits(bits: u32) -> (r: Scalar)
        ensures
            r.bits == bits,
    {
        Scalar { bits }
    }

    /// The bit pattern of the value.
    pub fn to_bits(self) -> (r: u32)
        ensures
            r == self.bits,
    {
        self.bits
    }

    /// Positive zero.
    pub fn zero() -> (r: Scalar)
        ensures
            r == ZERO(),
    {
        Scalar { bits: 0 }
    }

    /// The number one.
    pub fn one() -> (r: Scalar)
        ensures
            r == ONE(),
    {
        Scalar { bits: 0x3f80_0000 }
    }

    /// The number one half.
    pub fn half() -> (r: Scalar)
        ensures
            r == HALF(),
    {
        Scalar { bits: 0x3f00_0000 }
    }

    /// The largest finite value.
    pub fn largest() -> (r: Scalar)
        ensures
            r == LARGEST(),
    {
        Scalar { bits: 0x7f7f_ffff }
    }

    /// The smallest finite value, the negative of the largest.
    pub fn smallest() -> (r: Scalar)
        ensures
            r == SMALLEST(),
    {
        Scalar { bits: 0xff7f_ffff }
    }

    fn magnitude_bits(self) -> (r: u32)
        ensures
            r == self.magnitude(),
    {
        if self.bits >= SIGN_BIT {
            self.bits - SIGN_BIT
        } else {
            self.bits
        }
    }

    /// Whether the value is a NaN.
    pub fn is_nan(self) -> (r: bool)
        ensures
            r == self.nan(),
    {
        self.magnitude_bits() > INFINITY_BITS
    }

    /// The position of the value in the total order, see [`Scalar::position`].
    pub fn total_position(self) -> (r: i64)
        ensures
            r == self.position(),
    {
        let m: u32 = self.magnitude_bits();
        if self.bits >= SIGN_BIT {
            -(m as i64) - 1
        } else {
            m as i64
        }
    }

    /// Whether the value compares below `other`.
    pub fn lt(self, other: Scalar) -> (r: bool)
        ensures
            r == self.below(other),
    {
        if self.is_nan() || other.is_nan() {
            return false;
        }
        let a: u32 = self.magnitude_bits();
        let b: u32 = other.magnitude_bits();
        if self.bits >= SIGN_BIT {
            if other.bits >= SIGN_BIT {
                a > b
            } else {
                a > 0 || b > 0
            }
        } else {
            if other.bits >= SIGN_BIT {
                false
            } else {
                a < b
            }
        }
    }

    /// Whether the value compares above `other`.
    pub fn gt(self, other: Scalar) -> (r: bool)
        ensures
            r == other.below(self),
    {
        other.lt(self)
    }

    /// The absolute value: the sign bit is cleared, also of a NaN.
    pub fn abs(self) -> (r: Scalar)
        ensures
            r == self.spec_abs(),
            !r.negative(),
            r.nan() == self.nan(),
            !self.nan() ==> ZERO().at_most(r),
    {
        Scalar { bits: self.magnitude_bits() }
    }

    /// The lesser of the two values, see [`Scalar::spec_min`].
    pub fn min(self, other: Scalar) -> (r: Scalar)
        ensures
            r == self.spec_min(other),
    {
        if other.is_nan() {
            self
        } else if self.is_nan() {
            other
        } else if other.lt(self) {
            other
        } else {
            self
        }
    }

    /// The greater of the two values, see [`Scalar::spec_max`].
    pub fn max(self, other: Scalar) -> (r: Scalar)
        ensures
            r == self.spec_max(other),
    {
        if other.is_nan() {
            self
        } else if self.is_nan() {
            other
        } else if self.lt(other) {
            other
        } else {
            self
        }
    }

    /// The value held to the band from `low` to `high`, see [`Scalar::spec_clamp`].
    pub fn clamp(self, low: Scalar, high: Scalar) -> (r: Scalar)
        ensures
            r == self.spec_clamp(low, high),
    {
        if self.lt(low) {
            low
        } else if self.gt(high) {
            high
        } else {
            self
        }
    }
}

/// Positive zero.
#[allow(non_snake_case)]
pub open spec fn ZERO() -> Scalar {
    Scalar { bits: 0 }
}

/// The number one.
#[allow(non_snake_case)]
pub open spec fn ONE() -> Scalar {
    Scalar { bits: 0x3f80_0000 }
}

/// The number one half.
#[allow(non_snake_case)]
pub open spec fn HALF() -> Scalar {
    Scalar { bits: 0x3f00_0000 }
}

/// The largest finite value.
#[allow(non_snake_case)]
pub open spec fn LARGEST() -> Scalar {
    Scalar { bits: 0x7f7f_ffff }
}

/// The smallest finite value.
#[allow(non_snake_case)]
pub open spec fn SMALLEST() -> Scalar {
    Scalar { bits: 0xff7f_ffff }
}

/// The total order refines the order of the numbers: a value that compares below
/// another comes before it, and one that comes no later compares at most equal.
pub proof fn lemma_position_refines_rank(a: Scalar, b: Scalar)
    ensures
        a.rank() < b.rank() ==> a.position() < b.position(),
        a.position() <= b.position() ==> a.rank() <= b.rank(),
        a.position() == b.position() <==> a == b,
{
}

/// A clamp between two bounds in order, neither a NaN, lands in the band for every
/// input that is not a NaN.
pub proof fn lemma_clamp_bounds(v: Scalar, low: Scalar, high: Scalar)
    requires
        low.at_most(high),
        !v.nan(),
    ensures
        low.at_most(v.spec_clamp(low, high)),
        v.spec_clamp(low, high).at_most(high),
{
}

} // verus!
