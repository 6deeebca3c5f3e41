//! Real numbers as the library holds them: the 64 bits of a binary64 value.
//!
//! The library never adds or multiplies. It orders, negates, takes the larger
//! or the smaller of two values and tests for the value that is not a number,
//! and all of that is read off the bits here.

use vstd::prelude::*;

verus! {

/// The sign bit of a binary64 value.
pub const SIGN_BIT: u64 = 0x8000_0000_0000_0000;

/// The bits of positive infinity; every larger magnitude is not a number.
pub const INFINITY_BITS: u64 = 0x7FF0_0000_0000_0000;

/// The bits of negative infinity.
pub const NEG_INFINITY_BITS: u64 = 0xFFF0_0000_0000_0000;

/// The bits of 1.0.
pub const ONE_BITS: u64 = 0x3FF0_0000_0000_0000;

/// A binary64 value, held as its bit pattern.
#[derive(Clone, Copy, Debug)]
pub struct Scalar {
    pub bits: u64,
}

impl Scalar {
    /// The bits without the sign.
    pub open spec fn spec_magnitude(self) -> int {
        if self.bits >= SIGN_BIT {
            self.bits - SIGN_BIT
        } else {
            self.bits as int
        }
    }

    /// The sign bit is set.
    pub open spec fn spec_sign(self) -> bool {
        self.bits >= SIGN_BIT
    }

    /// The value is not a number: its magnitude lies beyond infinity's.
    pub open spec fn spec_is_nan(self) -> bool {
        self.spec_magnitude() > INFINITY_BITS
    }

    /// The value is a number and is not infinite.
    pub open spec fn spec_is_finite(self) -> bool {
        self.spec_magnitude() < INFINITY_BITS
    }

    /// Where the value stands among the numbers: two numbers compare as their
    /// keys do, and the two zeros share the key 0.
    pub open spec fn key(self) -> int {
        if self.spec_sign() {
            -self.spec_magnitude()
        } else {
            self.spec_magnitude()
        }
    }

    /// `self < other` as binary64 decides it: false when either is not a number.
    pub open spec fn spec_lt(self, other: Scalar) -> bool {
        !self.spec_is_nan() && !other.spec_is_nan() && self.key() < other.key()
    }

    /// `self <= other` as binary64 decides it: false when either is not a number.
    pub open spec fn spec_le(self, other: Scalar) -> bool {
        !self.spec_is_nan() && !other.spec_is_nan() && self.key() <= other.key()
    }

    /// `self == other` as binary64 decides it: the two zeros are equal, and
    /// what is not a number equals nothing.
    pub open spec fn spec_same(self, other: Scalar) -> bool {
        !self.spec_is_nan() && !other.spec_is_nan() && self.key() == other.key()
    }

    /// The smaller of two values; where one is not a number, the other.
    pub open spec fn spec_min(self, other: Scalar) -> Scalar {
        if self.spec_is_nan() {
            other
        } else if other.spec_is_nan() {
            self
        } else if other.key() < self.key() {
            other
        } else {
            self
        }
    }

    /// The larger of two values; where one is not a number, the other.
    pub open spec fn spec_max(self, other: Scalar) -> Scalar {
        if self.spec_is_nan() {
            other
        } else if other.spec_is_nan() {
            self
        } else if other.key() > self.key() {
            other
        } else {
            self
        }
    }

    /// The value with its sign flipped.
    pub open spec fn spec_neg(self) -> Scalar {
        if self.bits >= SIGN_BIT {
            Scalar { bits: (self.bits - SIGN_BIT) as u64 }
        } else {
            Scalar { bits: (self.bits + SIGN_BIT) as u64 }
        }
    }

    /// The value with its sign cleared.
    pub open spec fn spec_abs(self) -> Scalar {
        Scalar { bits: self.spec_magnitude() as u64 }
    }

    pub fn from_bits(bits: u64) -> (s: Scalar)
        ensures
            s.bits == bits,
    {
        Scalar { bits }
    }

    pub fn to_bits(self) -> (bits: u64)
        ensures
            bits == self.bits,
    {
        self.bits
    }

    pub fn zero() -> (s: Scalar)
        ensures
            s.bits == 0,
            s.key() == 0,
            s.spec_is_finite(),
    {
        Scalar { bits: 0 }
    }

    pub fn one() -> (s: Scalar)
        ensures
            s.bits == ONE_BITS,
            s.spec_is_finite(),
            s.key() == ONE_BITS,
    {
        Scalar { bits: ONE_BITS }
    }

    pub fn infinity() -> (s: Scalar)
        ensures
            s.bits == INFINITY_BITS,
            !s.spec_is_nan(),
            s.key() == INFINITY_BITS,
    {
        Scalar { bits: INFINITY_BITS }
    }

    pub fn neg_infinity() -> (s: Scalar)
        ensures
            s.bits == NEG_INFINITY_BITS,
            !s.spec_is_nan(),
            s.key() == -INFINITY_BITS,
    {
        Scalar { bits: NEG_INFINITY_BITS }
    }

    fn magnitude(self) -> (m: u64)
        ensures
            m == self.spec_magnitude(),
            m < SIGN_BIT,
    {
        if self.bits >= SIGN_BIT {
            self.bits - SIGN_BIT
        } else {
            self.bits
        }
    }

    pub fn is_sign_negative(self) -> (b: bool)
        ensures
            b == self.spec_sign(),
    {
        self.bits >= SIGN_BIT
    }

    pub fn is_nan(self) -> (b: bool)
        ensures
            b == self.spec_is_nan(),
    {
        self.magnitude() > INFINITY_BITS
    }

    pub fn is_finite(self) -> (b: bool)
        ensures
            b == self.spec_is_finite(),
    {
        self.magnitude() < INFINITY_BITS
    }

    pub fn lt(self, other: Scalar) -> (b: bool)
        ensures
            b == self.spec_lt(other),
    {
        if self.is_nan() || other.is_nan() {
            false
        } else {
            let a: u64 = self.magnitude();
            let b: u64 = other.magnitude();
            if self.is_sign_negative() {
                if other.is_sign_negative() {
                    b < a
                } else {
                    a != 0 || b != 0
                }
            } else {
                if other.is_sign_negative() {
                    false
                } else {
                    a < b
                }
            }
        }
    }

    /// Compares by key alone. Among numbers this is `lt`; what is not a
    /// number is ordered too, beyond the infinity of its sign.
    pub fn key_lt(self, other: Scalar) -> (b: bool)
        ensures
            b == (self.key() < other.key()),
    {
        let a: u64 = self.magnitude();
        let b: u64 = other.magnitude();
        if self.is_sign_negative() {
            if other.is_sign_negative() {
                b < a
            } else {
                a != 0 || b != 0
            }
        } else {
            if other.is_sign_negative() {
                false
            } else {
                a < b
            }
        }
    }

    pub fn le(self, other: Scalar) -> (b: bool)
        ensures
            b == self.spec_le(other),
    {
        if self.is_nan() || other.is_nan() {
            false
        } else {
            !other.lt(self)
        }
    }

    pub fn gt(self, other: Scalar) -> (b: bool)
        ensures
            b == other.spec_lt(self),
    {
        other.lt(self)
    }

    pub fn ge(self, other: Scalar) -> (b: bool)
        ensures
            b == other.spec_le(self),
    {
        other.le(self)
    }

    pub fn same(self, other: Scalar) -> (b: bool)
        ensures
            b == self.spec_same(other),
    {
        self.le(other) && other.le(self)
    }

    pub fn min(self, other: Scalar) -> (m: Scalar)
        ensures
            m == self.spec_min(other),
    {
        if self.is_nan() {
            other
        } else if other.is_nan() {
            self
        } else if other.lt(self) {
            other
        } else {
            self
        }
    }

    pub fn max(self, other: Scalar) -> (m: Scalar)
        ensures
            m == self.spec_max(other),
    {
        if self.is_nan() {
            other
        } else if other.is_nan() {
            self
        } else if self.lt(other) {
            other
        } else {
            self
        }
    }

    pub fn neg(self) -> (n: Scalar)
        ensures
            n == self.spec_neg(),
    {
        if self.bits >= SIGN_BIT {
            Scalar { bits: self.bits - SIGN_BIT }
        } else {
            Scalar { bits: self.bits + SIGN_BIT }
        }
    }

    pub fn abs(self) -> (a: Scalar)
        ensures
            a == self.spec_abs(),
    {
        Scalar { bits: self.magnitude() }
    }
}

/// Negation mirrors the order: it keeps what is not a number so, flips the
/// sign, and turns each key into its opposite.
pub proof fn lemma_neg_mirrors(a: Scalar)
    ensures
        a.spec_neg().spec_is_nan() == a.spec_is_nan(),
        a.spec_neg().key() == -a.key(),
        a.spec_neg().spec_neg() == a,
{
}

/// Among numbers, exactly one of `a < b`, `a == b`, `b < a` holds.
pub proof fn lemma_trichotomy(a: Scalar, b: Scalar)
    requires
        !a.spec_is_nan(),
        !b.spec_is_nan(),
    ensures
        a.spec_lt(b) || a.spec_same(b) || b.spec_lt(a),
        !(a.spec_lt(b) && a.spec_same(b)),
        !(a.spec_lt(b) && b.spec_lt(a)),
        !(a.spec_same(b) && b.spec_lt(a)),
        a.spec_le(b) == (a.spec_lt(b) || a.spec_same(b)),
{
}

/// The smaller and the larger of two values are each one of the two, and they
/// bound both wherever both are numbers.
pub proof fn lemma_min_max_bound(a: Scalar, b: Scalar)
    ensures
        a.spec_min(b) == a || a.spec_min(b) == b,
        a.spec_max(b) == a || a.spec_max(b) == b,
        !a.spec_is_nan() && !b.spec_is_nan() ==> {
            &&& a.spec_min(b).spec_le(a)
            &&& a.spec_min(b).spec_le(b)
            &&& a.spec_le(a.spec_max(b))
            &&& b.spec_le(a.spec_max(b))
        },
{
}

} // verus!
