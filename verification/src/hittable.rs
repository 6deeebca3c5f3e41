//! What a ray learns where it meets a surface, and how an object is known to
//! the structures that hold many of them.

use vstd::prelude::*;
use crate::aabb::AABB;
use crate::interval::Interval;
use crate::ray::Ray3;
use crate::scalar::Scalar;
use crate::vector_3::Vec3;

verus! {

/// The bits of the largest finite scalar: the time of a record that holds no hit yet.
pub const NO_HIT_TIME_BITS: u64 = 0x7FEF_FFFF_FFFF_FFFF;

/// The meeting of a ray and a surface.
#[derive(Clone, Copy, Debug)]
pub struct HitRecord {
    pub point: Vec3,
    /// Points against the ray, whichever side of the surface was hit.
    pub normal: Vec3,
    /// The number under which the caller keeps the material of the surface;
    /// `None` until a surface was hit.
    pub mat: Option<usize>,
    pub time: Scalar,
    pub u: Scalar,
    pub v: Scalar,
    /// The ray came from outside.
    pub front_face: bool,
}

/// An object as the structures see it: the number under which the caller
/// keeps it, and the box around it.
#[derive(Clone, Copy, Debug)]
pub struct Bounded {
    pub id: usize,
    pub bbox: AABB,
}

/// What every object of a scene can do.
pub trait Hittable {
    /// Crosses the ray with the object. Where the ray hits it within the
    /// window, the hit is written into the record and the answer is yes;
    /// where it does not, the record is left as it was.
    fn hit(&self, r: &Ray3, time: Interval, hit_record: &mut HitRecord) -> bool;

    /// The box around the object.
    fn bounding_box(&self) -> AABB;

    /// The density with which a direction from `origin` is drawn when the
    /// object is aimed at as a light. An object that is never aimed at has none.
    fn pdf_value(&self, _origin: &Vec3, _direction: &Vec3) -> (density: Scalar)
        default_ensures
            density.bits == 0,
    {
        Scalar::zero()
    }

    /// A direction from `origin` towards the object, drawn at random. An
    /// object that is never aimed at points along the x axis.
    fn random(&self, _origin: &Vec3) -> (direction: Vec3)
        default_ensures
            direction.x.bits == crate::scalar::ONE_BITS,
            direction.y.bits == 0,
            direction.z.bits == 0,
    {
        Vec3::new(Scalar::one(), Scalar::zero(), Scalar::zero())
    }
}

/// What a search for the nearest hit wants to know next. The search does not
/// cross the ray with anything itself: it asks, and is told.
#[derive(Clone, Copy, Debug)]
pub enum Probe {
    /// Nothing: the search is over.
    Done,
    /// Whether the ray hits this box within this window.
    Box(AABB, Interval),
    /// Whether, and when, the ray hits the object of this number within this window.
    Object(usize, Interval),
}

impl HitRecord {
    /// The record with the normal turned against the ray: `facing` is the dot
    /// product of the ray's direction and the outward normal, and the ray came
    /// from outside where it is below zero.
    pub open spec fn spec_facing(self, facing: Scalar, outward_normal: Vec3) -> HitRecord {
        let front_face = facing.spec_lt(Scalar { bits: 0 });
        HitRecord {
            front_face,
            normal: if front_face {
                outward_normal
            } else {
                outward_normal.spec_neg()
            },
            ..self
        }
    }

    /// The record of no hit: all zeros, no material, and the latest time there is.
    pub fn new() -> (rec: HitRecord)
        ensures
            rec.mat.is_none(),
            rec.time.bits == NO_HIT_TIME_BITS,
            !rec.front_face,
            rec.point.x.bits == 0 && rec.point.y.bits == 0 && rec.point.z.bits == 0,
            rec.normal.x.bits == 0 && rec.normal.y.bits == 0 && rec.normal.z.bits == 0,
            rec.u.bits == 0 && rec.v.bits == 0,
    {
        HitRecord {
            point: Vec3::empty(),
            normal: Vec3::empty(),
            mat: None,
            time: Scalar::from_bits(NO_HIT_TIME_BITS),
            u: Scalar::zero(),
            v: Scalar::zero(),
            front_face: false,
        }
    }

    /// Notes which side was hit and turns the normal against the ray.
    /// `facing` is the dot product of the ray's direction and `outward_normal`.
    pub fn set_face_normal(&mut self, facing: Scalar, outward_normal: Vec3)
        ensures
            *final(self) == old(self).spec_facing(facing, outward_normal),
    {
        self.front_face = facing.lt(Scalar::zero());
        self.normal = if self.front_face {
            outward_normal
        } else {
            outward_normal.neg()
        };
    }

    /// Takes over every entry of another record.
    pub fn from(&mut self, rhs: &HitRecord)
        ensures
            *final(self) == *rhs,
    {
        self.point = rhs.point;
        self.normal = rhs.normal;
        self.mat = rhs.mat;
        self.time = rhs.time;
        self.u = rhs.u;
        self.v = rhs.v;
        self.front_face = rhs.front_face;
    }
}

/// The dot product of the ray's direction and the normal that a record
/// keeps: `facing` itself where the outward normal was kept, and its opposite
/// where the normal was turned.
pub open spec fn spec_facing_kept(facing: Scalar) -> Scalar {
    if facing.spec_lt(Scalar { bits: 0 }) {
        facing
    } else {
        facing.spec_neg()
    }
}

/// The normal that a record keeps never points along the ray: the ray's
/// direction has no dot product above zero with it, and one below zero
/// wherever the ray does not graze the surface.
pub proof fn lemma_kept_normal_faces_ray(facing: Scalar)
    requires
        !facing.spec_is_nan(),
    ensures
        !spec_facing_kept(facing).spec_is_nan(),
        spec_facing_kept(facing).key() <= 0,
        facing.key() != 0 ==> spec_facing_kept(facing).spec_lt(Scalar { bits: 0 }),
{
}

/// The normal of a record always opposes the ray: it is the outward normal
/// where the ray came from outside, and its opposite where it did not.
pub proof fn lemma_normal_opposes_ray(rec: HitRecord, facing: Scalar, outward_normal: Vec3)
    ensures
        facing.spec_lt(Scalar { bits: 0 }) ==> rec.spec_facing(facing, outward_normal).normal
            == outward_normal,
        !facing.spec_lt(Scalar { bits: 0 }) ==> rec.spec_facing(facing, outward_normal).normal
            == outward_normal.spec_neg(),
        rec.spec_facing(facing, outward_normal).front_face == facing.spec_lt(Scalar { bits: 0 }),
{
}

} // verus!
