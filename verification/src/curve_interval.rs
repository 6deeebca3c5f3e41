//! The range of the parameter of a curve, and what is decided when a
//! parameter is held against it.

use vstd::prelude::*;
use crate::scalar::Scalar;
use crate::vector_3::EPSILON_BITS;

verus! {

/// The bits of -1.0: the span that marks a range as not valid.
pub const NEG_ONE_BITS: u64 = 0xBFF0_0000_0000_0000;

/// The range of a curve's parameter. `interval_div` is one over its span,
/// and below zero where the range is not valid.
#[derive(Clone, Copy, Debug)]
pub struct CurveInterval {
    pub min: Scalar,
    pub max: Scalar,
    pub interval_div: Scalar,
}

/// The span that a range is built with: the distance between its bounds,
/// and -1 where that distance is too small to divide by.
pub open spec fn spec_usable_span(span: Scalar) -> Scalar {
    if span.spec_abs().spec_lt(Scalar { bits: EPSILON_BITS }) {
        Scalar { bits: NEG_ONE_BITS }
    } else {
        span
    }
}

/// The value pulled into the range: first up to the lower bound where it
/// lies below, then down to the upper bound where it lies above.
pub open spec fn spec_clamp_value(min: Scalar, max: Scalar, value: Scalar) -> Scalar {
    let raised = if value.spec_lt(min) {
        min
    } else {
        value
    };
    if max.spec_lt(raised) {
        max
    } else {
        raised
    }
}

/// The span to build a range with. `span` is the upper bound less the lower.
pub fn usable_span(span: Scalar) -> (usable: Scalar)
    ensures
        usable == spec_usable_span(span),
{
    if span.abs().lt(Scalar::from_bits(EPSILON_BITS)) {
        Scalar::from_bits(NEG_ONE_BITS)
    } else {
        span
    }
}

impl CurveInterval {
    /// The range between two bounds. `interval_div` is one over the span
    /// that `usable_span` gave for them.
    pub fn new(min: Scalar, max: Scalar, interval_div: Scalar) -> (range: CurveInterval)
        ensures
            range == (CurveInterval { min, max, interval_div }),
    {
        CurveInterval { min, max, interval_div }
    }

    /// The range that is not valid: from 1 down to -1.
    pub fn empty() -> (range: CurveInterval)
        ensures
            range.min.bits == crate::scalar::ONE_BITS,
            range.max.bits == NEG_ONE_BITS,
            !(Scalar { bits: 0 }).spec_lt(range.interval_div),
    {
        CurveInterval {
            min: Scalar::one(),
            max: Scalar::from_bits(NEG_ONE_BITS),
            interval_div: Scalar::from_bits(0xBFE0_0000_0000_0000),
        }
    }

    pub fn min(&self) -> (m: Scalar)
        ensures
            m == self.min,
    {
        self.min
    }

    pub fn max(&self) -> (m: Scalar)
        ensures
            m == self.max,
    {
        self.max
    }

    /// The range has an upper bound above its lower bound.
    pub fn is_valid(&self) -> (valid: bool)
        ensures
            valid == (Scalar { bits: 0 }).spec_lt(self.interval_div),
    {
        self.interval_div.gt(Scalar::zero())
    }

    pub fn clamp_value(&self, value: Scalar) -> (clamped: Scalar)
        ensures
            clamped == spec_clamp_value(self.min, self.max, value),
    {
        let mut return_val = value;
        if return_val.lt(self.min) {
            return_val = self.min;
        }
        if return_val.gt(self.max) {
            return_val = self.max;
        }
        return_val
    }
}

/// A number pulled into a range whose bounds are numbers in their order lies
/// in the range, and pulling it in again changes nothing.
pub proof fn lemma_clamp_value_inside(min: Scalar, max: Scalar, value: Scalar)
    requires
        min.spec_le(max),
        !value.spec_is_nan(),
    ensures
        min.spec_le(spec_clamp_value(min, max, value)),
        spec_clamp_value(min, max, value).spec_le(max),
        spec_clamp_value(min, max, spec_clamp_value(min, max, value)) == spec_clamp_value(
            min,
            max,
            value,
        ),
{
}

} // verus!
