//! Axis-aligned bounding boxes: how they are built and merged, and what the
//! slab test decides once the crossing times of a ray are known.

use vstd::prelude::*;
use crate::interval::Interval;
use crate::scalar::Scalar;
use crate::vector_3::Vec3;

verus! {

/// The bits of 0.0001: an axis thinner than this is padded.
pub const PAD_THRESHOLD_BITS: u64 = 0x3F1A_36E2_EB1C_432D;

/// A box: one range on each axis.
#[derive(Clone, Copy, Debug)]
pub struct AABB {
    pub x: Interval,
    pub y: Interval,
    pub z: Interval,
}

/// What the arithmetic on one axis hands to the slab test: the times at which
/// the ray crosses the lower and the upper face of the box, each the distance
/// from the ray's origin to the face times the reciprocal of the ray's
/// direction on that axis, and that reciprocal.
#[derive(Clone, Copy, Debug)]
pub struct Slab {
    pub t0: Scalar,
    pub t1: Scalar,
    pub inv_d: Scalar,
}

impl Slab {
    /// The ray runs down the axis, so it meets the upper face first.
    pub open spec fn spec_reversed(self) -> bool {
        self.inv_d.spec_lt(Scalar { bits: 0 })
    }

    /// The time at which the ray enters the slab.
    pub open spec fn spec_entry(self) -> Scalar {
        if self.spec_reversed() {
            self.t1
        } else {
            self.t0
        }
    }

    /// The time at which the ray leaves the slab.
    pub open spec fn spec_exit(self) -> Scalar {
        if self.spec_reversed() {
            self.t0
        } else {
            self.t1
        }
    }

    /// `window` cut down to the time that the ray spends in the slab.
    pub open spec fn spec_narrow(self, window: Interval) -> Interval {
        Interval {
            min: self.spec_entry().spec_max(window.min),
            max: self.spec_exit().spec_min(window.max),
        }
    }

    /// The same crossing seen in a mirror: the ray's direction on the axis has
    /// changed its sign and the box has changed sides with it, so the two
    /// faces have traded their crossing times.
    pub open spec fn spec_mirrored(self) -> Slab {
        Slab { t0: self.t1, t1: self.t0, inv_d: self.inv_d.spec_neg() }
    }

    pub fn new(t0: Scalar, t1: Scalar, inv_d: Scalar) -> (s: Slab)
        ensures
            s == (Slab { t0, t1, inv_d }),
    {
        Slab { t0, t1, inv_d }
    }

    pub fn narrow(&self, window: Interval) -> (cut: Interval)
        ensures
            cut == self.spec_narrow(window),
    {
        let mut t0 = self.t0;
        let mut t1 = self.t1;
        if self.inv_d.lt(Scalar::zero()) {
            t0 = self.t1;
            t1 = self.t0;
        }
        Interval::new(t0.max(window.min), t1.min(window.max))
    }

    pub fn mirrored(&self) -> (m: Slab)
        ensures
            m == self.spec_mirrored(),
    {
        Slab { t0: self.t1, t1: self.t0, inv_d: self.inv_d.neg() }
    }
}

/// No time is left in the window: its upper bound is not above its lower bound.
pub open spec fn spec_closed_off(window: Interval) -> bool {
    window.max.spec_le(window.min)
}

/// The slab test on three axes: the window is cut down axis by axis, and the
/// ray hits the box where no cut closes the window off.
pub open spec fn spec_slab_hit(x: Slab, y: Slab, z: Slab, window: Interval) -> bool {
    let after_x = x.spec_narrow(window);
    let after_y = y.spec_narrow(after_x);
    let after_z = z.spec_narrow(after_y);
    !spec_closed_off(after_x) && !spec_closed_off(after_y) && !spec_closed_off(after_z)
}

/// The slab test that stops at the first axis on which the window is closed off.
pub open spec fn spec_slab_hit_early(x: Slab, y: Slab, z: Slab, window: Interval) -> bool {
    let after_x = x.spec_narrow(window);
    if spec_closed_off(after_x) {
        false
    } else {
        let after_y = y.spec_narrow(after_x);
        if spec_closed_off(after_y) {
            false
        } else {
            !spec_closed_off(z.spec_narrow(after_y))
        }
    }
}

impl AABB {
    /// The range on an axis: `x` for 0, `y` for 1, `z` for every other index.
    pub open spec fn spec_axis(self, n: u32) -> Interval {
        if n == 0 {
            self.x
        } else if n == 1 {
            self.y
        } else {
            self.z
        }
    }

    /// The box around two corners, whichever way round they are given.
    pub open spec fn spec_around(a: Vec3, b: Vec3) -> AABB {
        AABB {
            x: Interval { min: a.x.spec_min(b.x), max: a.x.spec_max(b.x) },
            y: Interval { min: a.y.spec_min(b.y), max: a.y.spec_max(b.y) },
            z: Interval { min: a.z.spec_min(b.z), max: a.z.spec_max(b.z) },
        }
    }

    /// The smallest box that holds both.
    pub open spec fn spec_union(self, other: AABB) -> AABB {
        AABB {
            x: self.x.spec_union(other.x),
            y: self.y.spec_union(other.y),
            z: self.z.spec_union(other.z),
        }
    }

    /// The point lies in the box, faces included.
    pub open spec fn spec_contains(self, p: Vec3) -> bool {
        self.x.spec_contains(p.x) && self.y.spec_contains(p.y) && self.z.spec_contains(p.z)
    }

    /// The box with each thin axis replaced: an axis whose size lies below the
    /// threshold takes its range from `expanded`.
    pub open spec fn spec_pad(self, sizes: Vec3, expanded: AABB) -> AABB {
        let delta = Scalar { bits: PAD_THRESHOLD_BITS };
        AABB {
            x: if sizes.x.spec_lt(delta) { expanded.x } else { self.x },
            y: if sizes.y.spec_lt(delta) { expanded.y } else { self.y },
            z: if sizes.z.spec_lt(delta) { expanded.z } else { self.z },
        }
    }

    pub fn new(x: Interval, y: Interval, z: Interval) -> (b: AABB)
        ensures
            b == (AABB { x, y, z }),
    {
        AABB { x, y, z }
    }

    pub fn copy(&self) -> (b: AABB)
        ensures
            b == *self,
    {
        AABB::new(Interval::copy(&self.x), Interval::copy(&self.y), Interval::copy(&self.z))
    }

    /// The box that holds nothing: the empty range on every axis.
    pub fn empty() -> (b: AABB)
        ensures
            b.x == Interval::spec_new(
                Scalar { bits: crate::scalar::INFINITY_BITS },
                Scalar { bits: crate::scalar::NEG_INFINITY_BITS },
            ),
            b.y == b.x,
            b.z == b.x,
    {
        AABB::new(Interval::empty(), Interval::empty(), Interval::empty())
    }

    pub fn from_vec3s(a: Vec3, b: Vec3) -> (bbox: AABB)
        ensures
            bbox == AABB::spec_around(a, b),
    {
        let x = Interval::new(a.x.min(b.x), a.x.max(b.x));
        let y = Interval::new(a.y.min(b.y), a.y.max(b.y));
        let z = Interval::new(a.z.min(b.z), a.z.max(b.z));
        AABB::new(x, y, z)
    }

    pub fn from_aabbs(a: &AABB, b: &AABB) -> (bbox: AABB)
        ensures
            bbox == a.spec_union(*b),
    {
        let x = Interval::from_intervals(Interval::copy(&a.x), Interval::copy(&b.x));
        let y = Interval::from_intervals(Interval::copy(&a.y), Interval::copy(&b.y));
        let z = Interval::from_intervals(Interval::copy(&a.z), Interval::copy(&b.z));
        AABB::new(x, y, z)
    }

    pub fn axis(&self, n: u32) -> (i: Interval)
        ensures
            i == self.spec_axis(n),
    {
        if n == 0 {
            Interval::copy(&self.x)
        } else if n == 1 {
            Interval::copy(&self.y)
        } else {
            Interval::copy(&self.z)
        }
    }

    /// The slab test. The caller has crossed the ray with the six faces of
    /// this box and hands over the three slabs; here the window is cut down on
    /// all three axes, and the ray hits where no cut closed it off.
    pub fn hit(x: &Slab, y: &Slab, z: &Slab, ray_interval: Interval) -> (hit: bool)
        ensures
            hit == spec_slab_hit(*x, *y, *z, ray_interval),
    {
        let mut ray_interval = ray_interval;
        let mut hit = true;
        ray_interval = x.narrow(ray_interval);
        if ray_interval.max().le(ray_interval.min()) {
            hit = false;
        }
        ray_interval = y.narrow(ray_interval);
        if ray_interval.max().le(ray_interval.min()) {
            hit = false;
        }
        ray_interval = z.narrow(ray_interval);
        if ray_interval.max().le(ray_interval.min()) {
            hit = false;
        }
        hit
    }

    /// Replaces each axis that is thinner than 0.0001. The caller has measured
    /// the three axes (`sizes`) and widened each of them by the threshold,
    /// half of it on either side (`expanded`).
    pub fn pad(&self, sizes: &Vec3, expanded: &AABB) -> (padded: AABB)
        ensures
            padded == self.spec_pad(*sizes, *expanded),
    {
        let delta = Scalar::from_bits(PAD_THRESHOLD_BITS);
        let x = if sizes.x.lt(delta) {
            expanded.x.copy()
        } else {
            self.x.copy()
        };
        let y = if sizes.y.lt(delta) {
            expanded.y.copy()
        } else {
            self.y.copy()
        };
        let z = if sizes.z.lt(delta) {
            expanded.z.copy()
        } else {
            self.z.copy()
        };
        AABB::new(x, y, z)
    }
}

/// Both bounds of a range are numbers.
pub open spec fn spec_range_of_numbers(range: Interval) -> bool {
    !range.min.spec_is_nan() && !range.max.spec_is_nan()
}

/// `outer` reaches at least as far as `inner` on both sides.
pub open spec fn spec_range_encloses(outer: Interval, inner: Interval) -> bool {
    outer.min.key() <= inner.min.key() && inner.max.key() <= outer.max.key()
}

impl AABB {
    /// All six bounds of the box are numbers.
    pub open spec fn spec_of_numbers(self) -> bool {
        spec_range_of_numbers(self.x) && spec_range_of_numbers(self.y) && spec_range_of_numbers(
            self.z,
        )
    }

    /// The box reaches at least as far as `inner` on every side.
    pub open spec fn spec_encloses(self, inner: AABB) -> bool {
        spec_range_encloses(self.x, inner.x) && spec_range_encloses(self.y, inner.y)
            && spec_range_encloses(self.z, inner.z)
    }
}

/// The union of two boxes encloses both of them, and the union with the box
/// that holds nothing is the other box.
pub proof fn lemma_union_encloses(a: AABB, b: AABB)
    requires
        a.spec_of_numbers(),
        b.spec_of_numbers(),
    ensures
        a.spec_union(b).spec_of_numbers(),
        a.spec_union(b).spec_encloses(a),
        a.spec_union(b).spec_encloses(b),
        a.spec_union(b).spec_encloses(b.spec_union(a)),
        a.spec_union(a) == a,
{
}

/// What a box encloses, every box around it encloses too.
pub proof fn lemma_encloses_transitive(a: AABB, b: AABB, c: AABB)
    requires
        a.spec_encloses(b),
        b.spec_encloses(c),
    ensures
        a.spec_encloses(c),
{
}

/// Stopping at the first closed axis decides as going through all three does.
pub proof fn lemma_slab_early_exit(x: Slab, y: Slab, z: Slab, window: Interval)
    ensures
        spec_slab_hit_early(x, y, z, window) == spec_slab_hit(x, y, z, window),
{
}

/// A slab and its mirror image cut every window down to the same range,
/// wherever the reciprocal of the direction is a number other than zero.
pub proof fn lemma_mirror_narrows_alike(s: Slab, window: Interval)
    requires
        !s.inv_d.spec_is_nan(),
        s.inv_d.key() != 0,
    ensures
        s.spec_mirrored().spec_narrow(window) == s.spec_narrow(window),
{
}

/// The slab test is symmetric: mirroring the ray and the box on one axis, or
/// on several, leaves the outcome as it was.
pub proof fn lemma_slab_symmetry(
    x: Slab,
    y: Slab,
    z: Slab,
    window: Interval,
    flip_x: bool,
    flip_y: bool,
    flip_z: bool,
)
    requires
        flip_x ==> !x.inv_d.spec_is_nan() && x.inv_d.key() != 0,
        flip_y ==> !y.inv_d.spec_is_nan() && y.inv_d.key() != 0,
        flip_z ==> !z.inv_d.spec_is_nan() && z.inv_d.key() != 0,
    ensures
        spec_slab_hit(
            if flip_x { x.spec_mirrored() } else { x },
            if flip_y { y.spec_mirrored() } else { y },
            if flip_z { z.spec_mirrored() } else { z },
            window,
        ) == spec_slab_hit(x, y, z, window),
{
    if flip_x {
        lemma_mirror_narrows_alike(x, window);
    }
    let after_x = x.spec_narrow(window);
    if flip_y {
        lemma_mirror_narrows_alike(y, after_x);
    }
    let after_y = y.spec_narrow(after_x);
    if flip_z {
        lemma_mirror_narrows_alike(z, after_y);
    }
}

/// The box around two corners holds both of them, wherever their coordinates
/// are numbers.
pub proof fn lemma_around_holds_corners(a: Vec3, b: Vec3)
    requires
        !a.x.spec_is_nan() && !a.y.spec_is_nan() && !a.z.spec_is_nan(),
        !b.x.spec_is_nan() && !b.y.spec_is_nan() && !b.z.spec_is_nan(),
    ensures
        AABB::spec_around(a, b).spec_contains(a),
        AABB::spec_around(a, b).spec_contains(b),
{
}

/// The union of two boxes holds every point that either of them holds.
pub proof fn lemma_union_holds_both(a: AABB, b: AABB, p: Vec3)
    ensures
        a.spec_contains(p) || b.spec_contains(p) ==> a.spec_union(b).spec_contains(p),
{
}

} // verus!
