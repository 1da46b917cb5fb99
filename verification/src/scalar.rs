//! Numbers of the scene, held exactly.
//!
//! Every coordinate, angle and matrix entry of the scene is an IEEE 754
//! binary32 number. This library never computes with such numbers: it keeps
//! each one by its 32-bit pattern, carries it, compares it, and flips its
//! sign. Whoever calls the library turns patterns into machine numbers and
//! back, which loses nothing.

use vstd::prelude::*;

verus! {

/// The pattern whose only set bit is the sign bit.
pub const SIGN_BIT: u32 = 0x8000_0000u32;

/// The pattern of positive infinity: every larger magnitude is not a number.
pub const INFINITY_BITS: u32 = 0x7F80_0000u32;

/// The pattern of the number zero.
pub const ZERO_BITS: u32 = 0u32;

/// The pattern of the number one.
pub const ONE_BITS: u32 = 0x3F80_0000u32;

/// A binary32 number, held by its bit pattern.
#[derive(Clone, Copy, Debug, PartialEq, Eq, Structural)]
pub struct Scalar {
    pub bits: u32,
}

impl Scalar {
    /// The pattern without its sign bit.
    pub open spec fn magnitude(self) -> int {
        if self.bits >= SIGN_BIT {
            self.bits - SIGN_BIT
        } else {
            self.bits as int
        }
    }

    /// Whether the sign bit is set.
    pub open spec fn sign(self) -> bool {
        self.bits >= SIGN_BIT
    }

    /// Whether the pattern stands for no number at all.
    pub open spec fn nan(self) -> bool {
        self.magnitude() > INFINITY_BITS
    }

    /// Where the number stands among all numbers: for two patterns that are
    /// numbers, the one with the smaller rank is the smaller number, and
    /// equal ranks are equal numbers (the two zeros share rank zero).
    pub open spec fn rank(self) -> int {
        if self.sign() {
            -self.magnitude()
        } else {
            self.magnitude()
        }
    }

    /// The number with the opposite sign.
    pub open spec fn negated(self) -> Scalar {
        Scalar {
            bits: if self.bits >= SIGN_BIT {
                (self.bits - SIGN_BIT) as u32
            } else {
                (self.bits + SIGN_BIT) as u32
            },
        }
    }

    /// Numeric `<`: false as soon as either side is not a number.
    pub open spec fn less(self, other: Scalar) -> bool {
        !self.nan() && !other.nan() && self.rank() < other.rank()
    }

    /// The number pulled into `[-bound, bound]`; what is not a number stays
    /// as it is.
    pub open spec fn clamped(self, bound: Scalar) -> Scalar {
        if self.less(bound.negated()) {
            bound.negated()
        } else if bound.less(self) {
            bound
        } else {
            self
        }
    }

    /// Whether the number lies in `[-bound, bound]`.
    pub open spec fn within(self, bound: Scalar) -> bool {
        !self.nan() && -bound.rank() <= self.rank() <= bound.rank()
    }

    pub fn from_bits(bits: u32) -> (r: Scalar)
        ensures
            r.bits == bits,
    {
        Scalar { bits }
    }

    pub fn to_bits(self) -> (r: u32)
        ensures
            r == self.bits,
    {
        self.bits
    }

    pub fn zero() -> (r: Scalar)
        ensures
            r.bits == ZERO_BITS,
    {
        Scalar { bits: ZERO_BITS }
    }

    pub fn one() -> (r: Scalar)
        ensures
            r.bits == ONE_BITS,
    {
        Scalar { bits: ONE_BITS }
    }

    pub fn is_nan(self) -> (r: bool)
        ensures
            r == self.nan(),
    {
        let magnitude: u32 = if self.bits >= SIGN_BIT {
            self.bits - SIGN_BIT
        } else {
            self.bits
        };
        magnitude > INFINITY_BITS
    }

    pub fn neg(self) -> (r: Scalar)
        ensures
            r == self.negated(),
            r.magnitude() == self.magnitude(),
            r.sign() != self.sign(),
            r.nan() == self.nan(),
    {
        if self.bits >= SIGN_BIT {
            Scalar { bits: self.bits - SIGN_BIT }
        } else {
            Scalar { bits: self.bits + SIGN_BIT }
        }
    }

    pub fn lt(self, other: Scalar) -> (r: bool)
        ensures
            r == self.less(other),
    {
        if self.is_nan() || other.is_nan() {
            return false;
        }
        let a_negative = self.bits >= SIGN_BIT;
        let b_negative = other.bits >= SIGN_BIT;
        let a: u32 = if a_negative {
            self.bits - SIGN_BIT
        } else {
            self.bits
        };
        let b: u32 = if b_negative {
            other.bits - SIGN_BIT
        } else {
            other.bits
        };
        if a_negative {
            if b_negative {
                b < a
            } else {
                a != 0 || b != 0
            }
        } else {
            if b_negative {
                false
            } else {
                a < b
            }
        }
    }

    /// Pulls the number into `[-bound, bound]`.
    pub fn clamp_symmetric(self, bound: Scalar) -> (r: Scalar)
        ensures
            r == self.clamped(bound),
            !self.nan() && !bound.nan() && !bound.sign() ==> r.within(bound),
            self.within(bound) ==> r == self,
    {
        let low = bound.neg();
        if self.lt(low) {
            low
        } else if bound.lt(self) {
            bound
        } else {
            self
        }
    }
}

} // verus!
