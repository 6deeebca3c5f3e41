//! A ray: where it starts, where it heads and the moment it was cast.

use vstd::prelude::*;
use crate::scalar::Scalar;
use crate::vector_3::Vec3;

verus! {

/// A ray with the time of its sample.
#[derive(Clone, Copy, Debug)]
pub struct Ray3 {
    pub origin: Vec3,
    pub dir: Vec3,
    pub time: Scalar,
}

impl Ray3 {
    pub open spec fn spec_origin(self) -> Vec3 {
        self.origin
    }

    pub open spec fn spec_direction(self) -> Vec3 {
        self.dir
    }

    pub open spec fn spec_time(self) -> Scalar {
        self.time
    }

    pub fn new(origin: Vec3, dir: Vec3, time: Scalar) -> (r: Ray3)
        ensures
            r.spec_origin() == origin,
            r.spec_direction() == dir,
            r.spec_time() == time,
    {
        Ray3 { origin, dir, time }
    }

    /// The ray of zeros, cast at time zero.
    pub fn empty() -> (r: Ray3)
        ensures
            r.spec_origin().x.bits == 0 && r.spec_origin().y.bits == 0 && r.spec_origin().z.bits == 0,
            r.spec_direction().x.bits == 0 && r.spec_direction().y.bits == 0
                && r.spec_direction().z.bits == 0,
            r.spec_time().bits == 0,
    {
        Ray3 { origin: Vec3::empty(), dir: Vec3::empty(), time: Scalar::zero() }
    }

    pub fn copy(&self) -> (r: Ray3)
        ensures
            r == *self,
    {
        Ray3 { origin: self.origin, dir: self.dir, time: self.time }
    }

    pub fn origin(&self) -> (o: Vec3)
        ensures
            o == self.spec_origin(),
    {
        self.origin
    }

    pub fn direction(&self) -> (d: Vec3)
        ensures
            d == self.spec_direction(),
    {
        self.dir
    }

    pub fn time(&self) -> (t: Scalar)
        ensures
            t == self.spec_time(),
    {
        self.time
    }

    pub fn set_origin(&mut self, origin: Vec3)
        ensures
            final(self).spec_origin() == origin,
            final(self).spec_direction() == old(self).spec_direction(),
            final(self).spec_time() == old(self).spec_time(),
    {
        self.origin = origin;
    }

    pub fn set_direction(&mut self, direction: Vec3)
        ensures
            final(self).spec_origin() == old(self).spec_origin(),
            final(self).spec_direction() == direction,
            final(self).spec_time() == old(self).spec_time(),
    {
        self.dir = direction;
    }

    pub fn set_time(&mut self, time: Scalar)
        ensures
            final(self).spec_origin() == old(self).spec_origin(),
            final(self).spec_direction() == old(self).spec_direction(),
            final(self).spec_time() == time,
    {
        self.time = time;
    }
}

} // verus!
