//! A triple of scalars, as data: its components can be read, replaced and negated.

use vstd::prelude::*;
use crate::scalar::Scalar;

verus! {

/// The bits of the gap between one and the next larger scalar: a coordinate
/// smaller than this counts as zero.
pub const EPSILON_BITS: u64 = 0x3CB0_0000_0000_0000;

/// Three scalars: a point, a direction or a colour.
#[derive(Clone, Copy, Debug)]
pub struct Vec3 {
    pub x: Scalar,
    pub y: Scalar,
    pub z: Scalar,
}

impl Vec3 {
    /// The component on an axis: `x` for 0, `y` for 1, `z` for every other index.
    pub open spec fn spec_at(self, index: u32) -> Scalar {
        if index == 0 {
            self.x
        } else if index == 1 {
            self.y
        } else {
            self.z
        }
    }

    /// The triple with one component replaced, axes counted as in `spec_at`.
    pub open spec fn spec_set(self, index: u32, value: Scalar) -> Vec3 {
        if index == 0 {
            Vec3 { x: value, ..self }
        } else if index == 1 {
            Vec3 { y: value, ..self }
        } else {
            Vec3 { z: value, ..self }
        }
    }

    /// The triple with the sign of every component flipped.
    pub open spec fn spec_neg(self) -> Vec3 {
        Vec3 { x: self.x.spec_neg(), y: self.y.spec_neg(), z: self.z.spec_neg() }
    }

    pub fn new(x: Scalar, y: Scalar, z: Scalar) -> (v: Vec3)
        ensures
            v == (Vec3 { x, y, z }),
    {
        Vec3 { x, y, z }
    }

    /// The triple of three positive zeros.
    pub fn empty() -> (v: Vec3)
        ensures
            v.x.bits == 0,
            v.y.bits == 0,
            v.z.bits == 0,
    {
        Vec3 { x: Scalar::zero(), y: Scalar::zero(), z: Scalar::zero() }
    }

    pub fn set_vals(&mut self, x: Scalar, y: Scalar, z: Scalar)
        ensures
            *final(self) == (Vec3 { x, y, z }),
    {
        self.x = x;
        self.y = y;
        self.z = z;
    }

    pub fn set_vec(&mut self, xyz: Vec3)
        ensures
            *final(self) == xyz,
    {
        self.set_vals(xyz.x, xyz.y, xyz.z);
    }

    pub fn at(&self, index: u32) -> (value: Scalar)
        ensures
            value == self.spec_at(index),
    {
        if index == 0 {
            self.x
        } else if index == 1 {
            self.y
        } else {
            self.z
        }
    }

    pub fn set(&mut self, index: u32, value: Scalar)
        ensures
            *final(self) == old(self).spec_set(index, value),
    {
        if index == 0 {
            self.x = value;
        } else if index == 1 {
            self.y = value;
        } else {
            self.z = value;
        }
    }

    pub fn neg(&self) -> (v: Vec3)
        ensures
            v == self.spec_neg(),
    {
        Vec3 { x: self.x.neg(), y: self.y.neg(), z: self.z.neg() }
    }

    /// Every coordinate is closer to zero than the smallest gap at one.
    pub open spec fn spec_near_zero(self) -> bool {
        let eps = Scalar { bits: EPSILON_BITS };
        self.x.spec_abs().spec_lt(eps) && self.y.spec_abs().spec_lt(eps) && self.z.spec_abs().spec_lt(
            eps,
        )
    }

    pub fn near_zero(&self) -> (near: bool)
        ensures
            near == self.spec_near_zero(),
    {
        let eps = Scalar::from_bits(EPSILON_BITS);
        self.x.abs().lt(eps) && self.y.abs().lt(eps) && self.z.abs().lt(eps)
    }

    /// A point drawn from the cube around the unit ball has to be drawn
    /// again where it lies outside the ball: where the square of its length
    /// is above one.
    pub fn outside_unit_ball(length_squared: Scalar) -> (outside: bool)
        ensures
            outside == (Scalar { bits: crate::scalar::ONE_BITS }).spec_lt(length_squared),
    {
        length_squared.gt(Scalar::one())
    }

    /// A direction on the side of a surface that its normal points to: the
    /// direction itself where `facing`, its dot product with the normal, is
    /// above zero, and its opposite else.
    pub fn random_on_hemisphere(on_sphere: Vec3, facing: Scalar) -> (v: Vec3)
        ensures
            v == if (Scalar { bits: 0 }).spec_lt(facing) {
                on_sphere
            } else {
                on_sphere.spec_neg()
            },
    {
        if facing.gt(Scalar::zero()) {
            on_sphere
        } else {
            on_sphere.neg()
        }
    }
}

} // verus!
