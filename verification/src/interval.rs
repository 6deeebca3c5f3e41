//! A range of scalars between two bounds, and the three ways to hold a value
//! against it: inside with the bounds, inside without them, and pulled into it.

use vstd::prelude::*;
use crate::scalar::Scalar;

verus! {

/// The range from `min` to `max`. It is empty wherever `max` lies below `min`.
#[derive(Clone, Copy, Debug)]
pub struct Interval {
    pub min: Scalar,
    pub max: Scalar,
}

impl Interval {
    pub open spec fn spec_min(self) -> Scalar {
        self.min
    }

    pub open spec fn spec_max(self) -> Scalar {
        self.max
    }

    pub open spec fn spec_new(min: Scalar, max: Scalar) -> Interval {
        Interval { min, max }
    }

    /// `x` lies in the range, bounds included.
    pub open spec fn spec_contains(self, x: Scalar) -> bool {
        self.spec_min().spec_le(x) && x.spec_le(self.spec_max())
    }

    /// `x` lies strictly between the bounds.
    pub open spec fn spec_surrounds(self, x: Scalar) -> bool {
        self.spec_min().spec_lt(x) && x.spec_lt(self.spec_max())
    }

    /// `x` pulled into the range: the lower bound if it lies below, the upper
    /// bound if it lies above, else `x` itself.
    pub open spec fn spec_clamp(self, x: Scalar) -> Scalar {
        if x.spec_lt(self.spec_min()) {
            self.spec_min()
        } else if self.spec_max().spec_lt(x) {
            self.spec_max()
        } else {
            x
        }
    }

    /// The smallest range that holds both.
    pub open spec fn spec_union(self, other: Interval) -> Interval {
        Interval::spec_new(
            self.spec_min().spec_min(other.spec_min()),
            self.spec_max().spec_max(other.spec_max()),
        )
    }

    /// The range that holds nothing: from positive to negative infinity.
    pub fn empty() -> (i: Interval)
        ensures
            i == Interval::spec_new(
                Scalar { bits: crate::scalar::INFINITY_BITS },
                Scalar { bits: crate::scalar::NEG_INFINITY_BITS },
            ),
    {
        Interval { min: Scalar::infinity(), max: Scalar::neg_infinity() }
    }

    /// The range that holds every number: from negative to positive infinity.
    pub fn univeral() -> (i: Interval)
        ensures
            i == Interval::spec_new(
                Scalar { bits: crate::scalar::NEG_INFINITY_BITS },
                Scalar { bits: crate::scalar::INFINITY_BITS },
            ),
    {
        Interval { min: Scalar::neg_infinity(), max: Scalar::infinity() }
    }

    pub fn new(min: Scalar, max: Scalar) -> (i: Interval)
        ensures
            i == Interval::spec_new(min, max),
            i.spec_min() == min,
            i.spec_max() == max,
    {
        Interval { min, max }
    }

    pub fn from_intervals(inter_0: Interval, inter_1: Interval) -> (i: Interval)
        ensures
            i == inter_0.spec_union(inter_1),
    {
        Interval::new(inter_0.min.min(inter_1.min), inter_0.max.max(inter_1.max))
    }

    pub fn copy(&self) -> (i: Interval)
        ensures
            i == *self,
    {
        Interval::new(self.min(), self.max())
    }

    pub fn min(&self) -> (m: Scalar)
        ensures
            m == self.spec_min(),
    {
        self.min
    }

    pub fn max(&self) -> (m: Scalar)
        ensures
            m == self.spec_max(),
    {
        self.max
    }

    pub fn set_min(&mut self, val: Scalar)
        ensures
            *final(self) == Interval::spec_new(val, old(self).spec_max()),
    {
        self.min = val;
    }

    pub fn set_max(&mut self, val: Scalar)
        ensures
            *final(self) == Interval::spec_new(old(self).spec_min(), val),
    {
        self.max = val;
    }

    pub fn contains(&self, x: Scalar) -> (b: bool)
        ensures
            b == self.spec_contains(x),
    {
        self.min.le(x) && x.le(self.max)
    }

    pub fn surrounds(&self, x: Scalar) -> (b: bool)
        ensures
            b == self.spec_surrounds(x),
    {
        self.min.lt(x) && x.lt(self.max)
    }

    pub fn clamp(&self, x: Scalar) -> (c: Scalar)
        ensures
            c == self.spec_clamp(x),
    {
        if x.lt(self.min) {
            self.min
        } else if x.gt(self.max) {
            self.max
        } else {
            x
        }
    }
}

/// The empty range holds no value at all, with or without its bounds.
pub proof fn lemma_empty_contains_nothing(x: Scalar)
    ensures
        !Interval::spec_new(
            Scalar { bits: crate::scalar::INFINITY_BITS },
            Scalar { bits: crate::scalar::NEG_INFINITY_BITS },
        ).spec_contains(x),
        !Interval::spec_new(
            Scalar { bits: crate::scalar::INFINITY_BITS },
            Scalar { bits: crate::scalar::NEG_INFINITY_BITS },
        ).spec_surrounds(x),
{
}

/// The universal range holds every number, and every finite one strictly inside.
pub proof fn lemma_universal_contains_all(x: Scalar)
    ensures
        !x.spec_is_nan() ==> Interval::spec_new(
            Scalar { bits: crate::scalar::NEG_INFINITY_BITS },
            Scalar { bits: crate::scalar::INFINITY_BITS },
        ).spec_contains(x),
        x.spec_is_finite() ==> Interval::spec_new(
            Scalar { bits: crate::scalar::NEG_INFINITY_BITS },
            Scalar { bits: crate::scalar::INFINITY_BITS },
        ).spec_surrounds(x),
{
}

/// Clamping twice is clamping once, in every range whose upper bound is not
/// below its lower bound.
pub proof fn lemma_clamp_idempotent(i: Interval, x: Scalar)
    requires
        !i.spec_max().spec_lt(i.spec_min()),
    ensures
        i.spec_clamp(i.spec_clamp(x)) == i.spec_clamp(x),
{
}

/// A number that clamping leaves alone lies in the range, and clamping leaves
/// alone every value in the range.
pub proof fn lemma_clamp_fixes_members(i: Interval, x: Scalar)
    ensures
        i.spec_contains(x) ==> i.spec_clamp(x) == x,
        !x.spec_is_nan() && !i.spec_min().spec_is_nan() && !i.spec_max().spec_is_nan()
            && i.spec_min().spec_le(i.spec_max()) ==> i.spec_contains(i.spec_clamp(x)),
{
}

/// What lies strictly inside a range lies in it.
pub proof fn lemma_surrounds_contains(i: Interval, x: Scalar)
    ensures
        i.spec_surrounds(x) ==> i.spec_contains(x),
{
}

/// The union of two ranges holds what either of them holds.
pub proof fn lemma_union_bounds(a: Interval, b: Interval, x: Scalar)
    ensures
        a.spec_contains(x) || b.spec_contains(x) ==> a.spec_union(b).spec_contains(x),
{
}

} // verus!
