//! Single-precision values, held as their IEEE 754 bit patterns.
//!
//! Classification, ordering and negation depend only on the layout of the
//! pattern and are defined and proved here. Rounding arithmetic is not: it is
//! supplied through [`crate::math::arithmetic::Arithmetic`].

use vstd::prelude::*;

verus! {

/// The sign bit of a pattern.
pub const SIGN_BIT: u32 = 0x8000_0000;

/// The pattern of positive infinity; every larger magnitude is a NaN.
pub const INFINITY_BITS: u32 = 0x7f80_0000;

/// A binary32 value: one sign bit, eight exponent bits, 23 fraction bits.
#[derive(Clone, Copy, Debug)]
pub struct Single {
    pub bits: u32,
}

impl Single {
    /// The pattern without its sign bit.
    pub open spec fn magnitude(self) -> int {
        if self.bits >= SIGN_BIT {
            self.bits - SIGN_BIT
        } else {
            self.bits as int
        }
    }

    /// The sign bit is set.
    pub open spec fn sign(self) -> bool {
        self.bits >= SIGN_BIT
    }

    /// Not a number: the exponent is all ones and the fraction is not zero.
    pub open spec fn nan(self) -> bool {
        self.magnitude() > INFINITY_BITS
    }

    /// A number that is not infinite.
    pub open spec fn finite(self) -> bool {
        self.magnitude() < INFINITY_BITS
    }

    /// The place of a value that is not a NaN on the number line. Among
    /// patterns of one sign the value grows with the magnitude; both zeros
    /// share place 0.
    pub open spec fn rank(self) -> int {
        if self.sign() {
            -self.magnitude()
        } else {
            self.magnitude()
        }
    }

    /// `self < other`, which is false when either is a NaN.
    pub open spec fn less(self, other: Single) -> bool {
        !self.nan() && !other.nan() && self.rank() < other.rank()
    }

    /// `self <= other`, which is false when either is a NaN.
    pub open spec fn at_most(self, other: Single) -> bool {
        !self.nan() && !other.nan() && self.rank() <= other.rank()
    }

    /// `self == other` as numbers: the zeros are equal, a NaN equals nothing.
    pub open spec fn same(self, other: Single) -> bool {
        !self.nan() && !other.nan() && self.rank() == other.rank()
    }

    /// The value with its sign bit flipped.
    pub open spec fn negated(self) -> Single {
        Single {
            bits: if self.bits >= SIGN_BIT {
                (self.bits - SIGN_BIT) as u32
            } else {
                (self.bits + SIGN_BIT) as u32
            },
        }
    }

    /// Positive zero.
    pub open spec fn zero_value() -> Single {
        Single { bits: 0 }
    }

    /// The number one.
    pub open spec fn one_value() -> Single {
        Single { bits: 0x3f80_0000 }
    }

    /// The number two.
    pub open spec fn two_value() -> Single {
        Single { bits: 0x4000_0000 }
    }

    pub fn from_bits(bits: u32) -> (r: Single)
        ensures
            r.bits == bits,
    {
        Single { bits }
    }

    pub fn to_bits(self) -> (bits: u32)
        ensures
            bits == self.bits,
    {
        self.bits
    }

    #[verifier::when_used_as_spec(zero_value)]
    pub fn zero() -> (r: Single)
        ensures
            r == Self::zero_value(),
    {
        Single { bits: 0 }
    }

    #[verifier::when_used_as_spec(one_value)]
    pub fn one() -> (r: Single)
        ensures
            r == Self::one_value(),
    {
        Single { bits: 0x3f80_0000 }
    }

    #[verifier::when_used_as_spec(two_value)]
    pub fn two() -> (r: Single)
        ensures
            r == Self::two_value(),
    {
        Single { bits: 0x4000_0000 }
    }

    fn magnitude_bits(self) -> (m: u32)
        ensures
            m == self.magnitude(),
    {
        if self.bits >= SIGN_BIT {
            self.bits - SIGN_BIT
        } else {
            self.bits
        }
    }

    fn rank_value(self) -> (r: i64)
        ensures
            r == self.rank(),
    {
        let m: i64 = self.magnitude_bits() as i64;
        if self.bits >= SIGN_BIT {
            -m
        } else {
            m
        }
    }

    #[verifier::when_used_as_spec(nan)]
    pub fn is_nan(self) -> (r: bool)
        ensures
            r == self.nan(),
    {
        self.magnitude_bits() > INFINITY_BITS
    }

    #[verifier::when_used_as_spec(finite)]
    pub fn is_finite(self) -> (r: bool)
        ensures
            r == self.finite(),
    {
        self.magnitude_bits() < INFINITY_BITS
    }

    #[verifier::when_used_as_spec(less)]
    pub fn lt(self, other: Single) -> (r: bool)
        ensures
            r == self.less(other),
    {
        !self.is_nan() && !other.is_nan() && self.rank_value() < other.rank_value()
    }

    #[verifier::when_used_as_spec(at_most)]
    pub fn le(self, other: Single) -> (r: bool)
        ensures
            r == self.at_most(other),
    {
        !self.is_nan() && !other.is_nan() && self.rank_value() <= other.rank_value()
    }

    /// `self > other`: `other < self`.
    pub fn gt(self, other: Single) -> (r: bool)
        ensures
            r == other.less(self),
    {
        other.lt(self)
    }

    /// `self >= other`: `other <= self`.
    pub fn ge(self, other: Single) -> (r: bool)
        ensures
            r == other.at_most(self),
    {
        other.le(self)
    }

    #[verifier::when_used_as_spec(same)]
    pub fn equals(self, other: Single) -> (r: bool)
        ensures
            r == self.same(other),
    {
        !self.is_nan() && !other.is_nan() && self.rank_value() == other.rank_value()
    }

    #[verifier::when_used_as_spec(negated)]
    pub fn neg(self) -> (r: Single)
        ensures
            r == self.negated(),
    {
        if self.bits >= SIGN_BIT {
            Single { bits: self.bits - SIGN_BIT }
        } else {
            Single { bits: self.bits + SIGN_BIT }
        }
    }
}

impl Default for Single {
    /// Positive zero.
    fn default() -> (r: Single)
        ensures
            r == Single::zero_value(),
    {
        Single { bits: 0 }
    }
}

} // verus!
