//! The box around an object that was turned: the box around the corners of
//! its old box, after the caller has turned them.

use vstd::prelude::*;
use crate::aabb::AABB;
use crate::scalar::Scalar;
use crate::vector_3::Vec3;

verus! {

/// The point that is below every point above: positive infinity on each axis.
pub open spec fn spec_highest() -> Vec3 {
    let inf = Scalar { bits: crate::scalar::INFINITY_BITS };
    Vec3 { x: inf, y: inf, z: inf }
}

/// The point that is above every point below: negative infinity on each axis.
pub open spec fn spec_lowest() -> Vec3 {
    let inf = Scalar { bits: crate::scalar::NEG_INFINITY_BITS };
    Vec3 { x: inf, y: inf, z: inf }
}

/// On each axis the smaller of the two coordinates.
pub open spec fn spec_lower(a: Vec3, b: Vec3) -> Vec3 {
    Vec3 { x: a.x.spec_min(b.x), y: a.y.spec_min(b.y), z: a.z.spec_min(b.z) }
}

/// On each axis the larger of the two coordinates.
pub open spec fn spec_upper(a: Vec3, b: Vec3) -> Vec3 {
    Vec3 { x: a.x.spec_max(b.x), y: a.y.spec_max(b.y), z: a.z.spec_max(b.z) }
}

/// On each axis the smallest coordinate of the points, and positive infinity
/// where there are none.
pub open spec fn spec_lowest_of(points: Seq<Vec3>) -> Vec3
    decreases points.len(),
{
    if points.len() == 0 {
        spec_highest()
    } else {
        spec_lower(spec_lowest_of(points.drop_last()), points.last())
    }
}

/// On each axis the largest coordinate of the points, and negative infinity
/// where there are none.
pub open spec fn spec_highest_of(points: Seq<Vec3>) -> Vec3
    decreases points.len(),
{
    if points.len() == 0 {
        spec_lowest()
    } else {
        spec_upper(spec_highest_of(points.drop_last()), points.last())
    }
}

/// The box around the corners of a box that was turned.
pub fn rotated_bounds(corners: &Vec<Vec3>) -> (bbox: AABB)
    ensures
        bbox == AABB::spec_around(spec_lowest_of(corners@), spec_highest_of(corners@)),
{
    let mut min = Vec3::new(Scalar::infinity(), Scalar::infinity(), Scalar::infinity());
    let mut max = Vec3::new(
        Scalar::neg_infinity(),
        Scalar::neg_infinity(),
        Scalar::neg_infinity(),
    );
    let mut n: usize = 0;
    while n < corners.len()
        invariant
            n <= corners@.len(),
            min == spec_lowest_of(corners@.subrange(0, n as int)),
            max == spec_highest_of(corners@.subrange(0, n as int)),
        decreases corners@.len() - n,
    {
        let tester = corners[n];
        proof {
            let upto = corners@.subrange(0, n + 1);
            assert(upto.drop_last() == corners@.subrange(0, n as int));
            assert(upto.last() == tester);
        }
        let mut index: u32 = 0;
        let ghost min_before = min;
        let ghost max_before = max;
        while index < 3
            invariant
                index <= 3,
                min.x == if index > 0 { min_before.x.spec_min(tester.x) } else { min_before.x },
                min.y == if index > 1 { min_before.y.spec_min(tester.y) } else { min_before.y },
                min.z == if index > 2 { min_before.z.spec_min(tester.z) } else { min_before.z },
                max.x == if index > 0 { max_before.x.spec_max(tester.x) } else { max_before.x },
                max.y == if index > 1 { max_before.y.spec_max(tester.y) } else { max_before.y },
                max.z == if index > 2 { max_before.z.spec_max(tester.z) } else { max_before.z },
            decreases 3 - index,
        {
            min.set(index, min.at(index).min(tester.at(index)));
            max.set(index, max.at(index).max(tester.at(index)));
            index = index + 1;
        }
        n = n + 1;
    }
    proof {
        assert(corners@.subrange(0, n as int) == corners@);
    }
    AABB::from_vec3s(min, max)
}

/// The box around the turned corners holds every one of them, wherever their
/// coordinates are numbers.
pub proof fn lemma_rotated_bounds_hold(points: Seq<Vec3>, k: int)
    requires
        0 <= k < points.len(),
        forall|i: int|
            0 <= i < points.len() ==> !(#[trigger] points[i]).x.spec_is_nan()
                && !points[i].y.spec_is_nan() && !points[i].z.spec_is_nan(),
    ensures
        AABB::spec_around(spec_lowest_of(points), spec_highest_of(points)).spec_contains(points[k]),
        !spec_lowest_of(points).x.spec_is_nan() && !spec_lowest_of(points).y.spec_is_nan()
            && !spec_lowest_of(points).z.spec_is_nan(),
        !spec_highest_of(points).x.spec_is_nan() && !spec_highest_of(points).y.spec_is_nan()
            && !spec_highest_of(points).z.spec_is_nan(),
        spec_lowest_of(points).x.key() <= points[k].x.key() <= spec_highest_of(points).x.key(),
        spec_lowest_of(points).y.key() <= points[k].y.key() <= spec_highest_of(points).y.key(),
        spec_lowest_of(points).z.key() <= points[k].z.key() <= spec_highest_of(points).z.key(),
    decreases points.len(),
{
    let rest = points.drop_last();
    if rest.len() > 0 {
        if k < rest.len() {
            lemma_rotated_bounds_hold(rest, k);
        } else {
            lemma_rotated_bounds_hold(rest, 0);
        }
    }
}

} // verus!
