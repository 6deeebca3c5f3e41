//! What is decided when a ray is crossed with a parallelogram, and the six
//! parallelograms that make a box.

use vstd::prelude::*;
use crate::aabb::AABB;
use crate::hittable::HitRecord;
use crate::scalar::Scalar;
use crate::vector_3::Vec3;

verus! {

/// The bits of 1e-8: a ray that meets the plane at a flatter angle runs along it.
pub const PARALLEL_THRESHOLD_BITS: u64 = 0x3E45_798E_E230_8C3A;

/// A parallelogram: a corner and the two edges that leave it.
#[derive(Clone, Copy, Debug)]
pub struct QuadFrame {
    pub origin: Vec3,
    pub u: Vec3,
    pub v: Vec3,
}

/// The planar coordinates lie in the unit square, its edges included.
pub open spec fn spec_interior(a: Scalar, b: Scalar) -> bool {
    let zero = Scalar { bits: 0 };
    let one = Scalar { bits: crate::scalar::ONE_BITS };
    !(a.spec_lt(zero) || one.spec_lt(a) || b.spec_lt(zero) || one.spec_lt(b))
}

/// The six faces of the box between two corners, each with its two edges:
/// front, right, back, left, top, bottom. `extent` holds the size of the box
/// on each axis.
pub open spec fn spec_quad_box(point_a: Vec3, point_b: Vec3, extent: Vec3) -> Seq<QuadFrame> {
    let bbox = AABB::spec_around(point_a, point_b);
    let min = Vec3 { x: bbox.x.min, y: bbox.y.min, z: bbox.z.min };
    let max = Vec3 { x: bbox.x.max, y: bbox.y.max, z: bbox.z.max };
    let zero = Scalar { bits: 0 };
    let dx = Vec3 { x: extent.x, y: zero, z: zero };
    let dy = Vec3 { x: zero, y: extent.y, z: zero };
    let dz = Vec3 { x: zero, y: zero, z: extent.z };
    seq![
        QuadFrame { origin: Vec3 { x: min.x, y: min.y, z: max.z }, u: dx, v: dy },
        QuadFrame { origin: Vec3 { x: max.x, y: min.y, z: max.z }, u: dz.spec_neg(), v: dy },
        QuadFrame { origin: Vec3 { x: max.x, y: min.y, z: min.z }, u: dx.spec_neg(), v: dy },
        QuadFrame { origin: Vec3 { x: min.x, y: min.y, z: min.z }, u: dz, v: dy },
        QuadFrame { origin: Vec3 { x: min.x, y: max.y, z: max.z }, u: dx, v: dz.spec_neg() },
        QuadFrame { origin: Vec3 { x: min.x, y: min.y, z: min.z }, u: dx, v: dz },
    ]
}

/// The ray meets the plane at an angle: the dot product of the plane's normal
/// and the ray's direction is 1e-8 at least, whatever its sign.
pub fn meets_plane(denom: Scalar) -> (meets: bool)
    ensures
        meets == (Scalar { bits: PARALLEL_THRESHOLD_BITS }).spec_le(denom.spec_abs()),
{
    denom.abs().ge(Scalar::from_bits(PARALLEL_THRESHOLD_BITS))
}

/// Tests the planar coordinates of a hit point against the unit square and,
/// where they lie in it, writes them into the record as its surface coordinates.
pub fn interior(a: Scalar, b: Scalar, hit_record: &mut HitRecord) -> (inside: bool)
    ensures
        inside == spec_interior(a, b),
        inside ==> *final(hit_record) == (HitRecord { u: a, v: b, ..*old(hit_record) }),
        !inside ==> *final(hit_record) == *old(hit_record),
{
    let zero = Scalar::zero();
    let one = Scalar::one();
    if a.lt(zero) || one.lt(a) || b.lt(zero) || one.lt(b) {
        false
    } else {
        hit_record.u = a;
        hit_record.v = b;
        true
    }
}

/// The box around a parallelogram, from its four corners: the box around one
/// diagonal, widened by the box around the other.
pub fn quad_bounds(origin: Vec3, opposite: Vec3, along_u: Vec3, along_v: Vec3) -> (bbox: AABB)
    ensures
        bbox == AABB::spec_around(origin, opposite).spec_union(
            AABB::spec_around(along_u, along_v),
        ),
{
    let bbox_0 = AABB::from_vec3s(origin, opposite);
    let bbox_1 = AABB::from_vec3s(along_u, along_v);
    AABB::from_aabbs(&bbox_0, &bbox_1)
}

/// The box of a parallelogram: the box around its four corners, with every
/// axis on which that box is thinner than 0.0001 widened. The caller has
/// measured the box around the corners on each axis (`sizes`) and widened
/// each axis of it by the threshold, half of it on either side (`expanded`).
pub fn quad_bounding_box(
    origin: Vec3,
    opposite: Vec3,
    along_u: Vec3,
    along_v: Vec3,
    sizes: &Vec3,
    expanded: &AABB,
) -> (bbox: AABB)
    ensures
        bbox == AABB::spec_around(origin, opposite).spec_union(
            AABB::spec_around(along_u, along_v),
        ).spec_pad(*sizes, *expanded),
{
    quad_bounds(origin, opposite, along_u, along_v).pad(sizes, expanded)
}

/// The six faces of the box between two opposite corners. The caller has
/// measured the box on each axis and hands the three sizes over as `extent`.
pub fn quad_box(point_a: Vec3, point_b: Vec3, extent: Vec3) -> (quads: Vec<QuadFrame>)
    ensures
        quads@ == spec_quad_box(point_a, point_b, extent),
{
    let bbox = AABB::from_vec3s(point_a, point_b);

    let min = Vec3::new(bbox.axis(0).min(), bbox.axis(1).min(), bbox.axis(2).min());
    let max = Vec3::new(bbox.axis(0).max(), bbox.axis(1).max(), bbox.axis(2).max());

    let dx = Vec3::new(extent.x, Scalar::zero(), Scalar::zero());
    let dy = Vec3::new(Scalar::zero(), extent.y, Scalar::zero());
    let dz = Vec3::new(Scalar::zero(), Scalar::zero(), extent.z);

    let mut quads: Vec<QuadFrame> = Vec::new();
    // front
    quads.push(QuadFrame { origin: Vec3::new(min.x, min.y, max.z), u: dx, v: dy });
    // right
    quads.push(QuadFrame { origin: Vec3::new(max.x, min.y, max.z), u: dz.neg(), v: dy });
    // back
    quads.push(QuadFrame { origin: Vec3::new(max.x, min.y, min.z), u: dx.neg(), v: dy });
    // left
    quads.push(QuadFrame { origin: Vec3::new(min.x, min.y, min.z), u: dz, v: dy });
    // top
    quads.push(QuadFrame { origin: Vec3::new(min.x, max.y, max.z), u: dx, v: dz.neg() });
    // bottom
    quads.push(QuadFrame { origin: Vec3::new(min.x, min.y, min.z), u: dx, v: dz });
    quads
}

/// The unit square has its edges: the corners (0, 0) and (1, 1) are inside,
/// and so is every point between them.
pub proof fn lemma_interior_includes_edges(a: Scalar, b: Scalar)
    ensures
        spec_interior(Scalar { bits: 0 }, Scalar { bits: 0 }),
        spec_interior(
            Scalar { bits: crate::scalar::ONE_BITS },
            Scalar { bits: crate::scalar::ONE_BITS },
        ),
        0 <= a.key() <= crate::scalar::ONE_BITS && 0 <= b.key() <= crate::scalar::ONE_BITS
            ==> spec_interior(a, b),
        a.key() > crate::scalar::ONE_BITS && !a.spec_is_nan() ==> !spec_interior(a, b),
{
}

/// A padded box has no thin axis left: an axis that was measured below the
/// threshold has the widened range, which holds time for a ray wherever its
/// lower bound lies below its upper bound; every other axis is as it was.
pub proof fn lemma_pad_widens_thin_axes(bbox: AABB, sizes: Vec3, expanded: AABB, n: u32)
    ensures
        sizes.spec_at(n).spec_lt(Scalar { bits: crate::aabb::PAD_THRESHOLD_BITS })
            ==> bbox.spec_pad(sizes, expanded).spec_axis(n) == expanded.spec_axis(n),
        !sizes.spec_at(n).spec_lt(Scalar { bits: crate::aabb::PAD_THRESHOLD_BITS })
            ==> bbox.spec_pad(sizes, expanded).spec_axis(n) == bbox.spec_axis(n),
        sizes.spec_at(n).spec_lt(Scalar { bits: crate::aabb::PAD_THRESHOLD_BITS })
            && expanded.spec_axis(n).min.spec_lt(expanded.spec_axis(n).max)
            ==> !crate::aabb::spec_closed_off(bbox.spec_pad(sizes, expanded).spec_axis(n)),
{
}

/// The box around a parallelogram holds its four corners, wherever their
/// coordinates are numbers.
pub proof fn lemma_quad_bounds_hold_corners(
    origin: Vec3,
    opposite: Vec3,
    along_u: Vec3,
    along_v: Vec3,
)
    requires
        !origin.x.spec_is_nan() && !origin.y.spec_is_nan() && !origin.z.spec_is_nan(),
        !opposite.x.spec_is_nan() && !opposite.y.spec_is_nan() && !opposite.z.spec_is_nan(),
        !along_u.x.spec_is_nan() && !along_u.y.spec_is_nan() && !along_u.z.spec_is_nan(),
        !along_v.x.spec_is_nan() && !along_v.y.spec_is_nan() && !along_v.z.spec_is_nan(),
    ensures
        ({
            let bbox = AABB::spec_around(origin, opposite).spec_union(
                AABB::spec_around(along_u, along_v),
            );
            &&& bbox.spec_contains(origin)
            &&& bbox.spec_contains(opposite)
            &&& bbox.spec_contains(along_u)
            &&& bbox.spec_contains(along_v)
        }),
{
}

} // verus!
