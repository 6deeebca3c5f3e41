//! The density that spreads directions evenly over the whole sphere.

use vstd::prelude::*;
use crate::scalar::Scalar;

verus! {

/// The bits of one over four pi: the density of every direction where all
/// directions are equally likely.
pub const UNIFORM_SPHERE_DENSITY_BITS: u64 = 0x3FB4_5F30_6DC9_C883;

/// The density that has no preferred direction.
#[derive(Clone, Copy, Debug)]
pub struct SpherePDF {}

impl SpherePDF {
    /// The density of a direction: the same for all of them.
    pub fn value(&self) -> (density: Scalar)
        ensures
            density.bits == UNIFORM_SPHERE_DENSITY_BITS,
    {
        Scalar::from_bits(UNIFORM_SPHERE_DENSITY_BITS)
    }
}

} // verus!
