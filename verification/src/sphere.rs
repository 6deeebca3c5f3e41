//! What is decided when a ray is crossed with a sphere, once the quadratic
//! for the crossing times has been worked out.

use vstd::prelude::*;
use crate::interval::Interval;
use crate::scalar::Scalar;

verus! {

/// The root that counts as the hit: the nearer one where it lies strictly
/// inside the window, else the farther one where that does, else none.
pub open spec fn spec_select_root(near: Scalar, far: Scalar, time: Interval) -> Option<Scalar> {
    if time.spec_surrounds(near) {
        Some(near)
    } else if time.spec_surrounds(far) {
        Some(far)
    } else {
        None
    }
}

/// The quadratic has roots to look at: its discriminant is not below zero.
pub fn has_roots(discriminant: Scalar) -> (found: bool)
    ensures
        found == !discriminant.spec_lt(Scalar { bits: 0 }),
{
    !discriminant.lt(Scalar::zero())
}

/// Picks the crossing that counts as the hit. `near` and `far` are the two
/// roots of the quadratic, the one with the square root of the discriminant
/// taken off first.
pub fn select_root(near: Scalar, far: Scalar, time: &Interval) -> (root: Option<Scalar>)
    ensures
        root == spec_select_root(near, far, *time),
{
    let mut root = near;
    if !time.surrounds(root) {
        root = far;
    }
    if !time.surrounds(root) {
        None
    } else {
        Some(root)
    }
}

/// The centre of a sphere at the time of a ray: where the sphere began, or,
/// for a sphere that moves, the place that the caller has worked out for
/// that time.
pub fn center_at(b_moving: bool, center_start: crate::vector_3::Vec3, moved: crate::vector_3::Vec3)
    -> (center: crate::vector_3::Vec3)
    ensures
        center == if b_moving {
            moved
        } else {
            center_start
        },
{
    if b_moving {
        moved
    } else {
        center_start
    }
}

/// The root that is picked lies strictly inside the window and is one of the
/// two; and where the nearer root is not after the farther one, no root
/// inside the window comes before it.
pub proof fn lemma_nearest_root_inside(near: Scalar, far: Scalar, time: Interval)
    ensures
        match spec_select_root(near, far, time) {
            Some(t) => {
                &&& time.spec_surrounds(t)
                &&& t == near || t == far
                &&& near.spec_le(far) ==> {
                    &&& time.spec_surrounds(near) ==> t == near
                    &&& t.spec_le(far)
                    &&& time.spec_surrounds(far) ==> t.spec_le(far)
                }
            },
            None => !time.spec_surrounds(near) && !time.spec_surrounds(far),
        },
{
}

/// A root on the bound of the window does not count: a hit at the very time
/// at which the window opens or closes is no hit.
pub proof fn lemma_grazing_root_rejected(near: Scalar, far: Scalar, time: Interval)
    requires
        near.spec_same(time.min) || near.spec_same(time.max) || near.spec_is_nan(),
        far.spec_same(time.min) || far.spec_same(time.max) || far.spec_is_nan(),
    ensures
        spec_select_root(near, far, time).is_none(),
{
}

} // verus!
