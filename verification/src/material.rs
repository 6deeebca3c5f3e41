//! What a surface does to a ray that hits it, and what the path tracer does
//! next: the outcomes of a scatter, and the decision that each bounce of a
//! path begins with.

use vstd::prelude::*;
use crate::hittable::HitRecord;
use crate::ray::Ray3;
use crate::scalar::Scalar;
use crate::vector_3::Vec3;

verus! {

/// The density from which a surface wants the next direction drawn.
#[derive(Clone, Copy, Debug)]
pub enum SurfacePdf {
    /// Weighted by the cosine of the angle to this normal.
    Cosine { normal: Vec3 },
    /// The same in all directions.
    Sphere,
}

/// How a scattered ray goes on.
#[derive(Clone, Copy, Debug)]
pub enum ScatterPDF {
    /// In a direction that is still to be drawn, from this density.
    PDF(SurfacePdf),
    /// Along this ray and no other, as from a mirror or through glass.
    Skip(Ray3),
}

/// What a surface hands back when it scatters a ray.
#[derive(Clone, Copy, Debug)]
pub struct ScatterRecord {
    pub attenuation: Vec3,
    pub pdf: ScatterPDF,
}

/// What every material can do. A material that says nothing takes every
/// ray in, sends no light anywhere and emits none.
pub trait Material {
    /// What the material does to a ray that hit it: where it sends the ray
    /// on, the answer is yes and the scatter is written into the record.
    fn scatter(
        &self,
        _ray_in: &Ray3,
        _hit_rec: &HitRecord,
        _scatter_rec: &mut ScatterRecord,
    ) -> (scattered: bool)
        default_ensures
            !scattered,
            *final(_scatter_rec) == *old(_scatter_rec),
    {
        false
    }

    /// The density with which the material sends light from `scattered` back
    /// along the ray that came in.
    fn scattering_pdf(
        &self,
        _ray_in: &Ray3,
        _hit_record: &HitRecord,
        _scattered: &Ray3,
    ) -> (density: Scalar)
        default_ensures
            density.bits == 0,
    {
        Scalar::zero()
    }

    /// The light that the material emits from the point of the hit.
    fn emitted(
        &self,
        _ray_in: &Ray3,
        _hit_record: &HitRecord,
        _u: Scalar,
        _v: Scalar,
        _point: Vec3,
    ) -> (color: Vec3)
        default_ensures
            color.x.bits == 0,
            color.y.bits == 0,
            color.z.bits == 0,
    {
        Vec3::empty()
    }
}

/// A density to draw directions from.
pub trait PDF {
    /// The density of a direction.
    fn value(&self, direction: &Vec3) -> Scalar;

    /// A direction drawn from the density.
    fn generate(&self) -> Vec3;
}

/// A texture: the colour of a surface at a point with the surface
/// coordinates `u` and `v`.
pub trait Texture {
    fn value(&self, u: Scalar, v: Scalar, point: Vec3) -> Vec3;
}

/// What the path tracer does with a ray.
#[derive(Clone, Copy, Debug)]
pub enum Bounce {
    /// There is no bounce left: the ray brings nothing.
    Exhausted,
    /// The ray has left the scene: it brings the background.
    Background,
    /// The surface took the ray in: it brings what the surface emits.
    Emission,
    /// The surface sends the ray on along `ray`. What comes back along it is
    /// weighed with the attenuation, and the surface's own emission is left out.
    Specular { ray: Ray3, depth: i32 },
    /// The surface wants a direction drawn from `pdf`, half of the time from
    /// the lights instead where `mix_lights` is set. What comes back is
    /// weighed with the attenuation and the surface's own density and
    /// divided by the density that the direction was drawn with, and the
    /// surface's emission is added.
    Sampled { pdf: SurfacePdf, mix_lights: bool, depth: i32 },
}

/// The decision at the head of a bounce.
pub open spec fn spec_ray_color(
    depth: i32,
    hit: bool,
    scattered: bool,
    scatter_rec: ScatterRecord,
    has_lights: bool,
) -> Bounce {
    if depth <= 0 {
        Bounce::Exhausted
    } else if !hit {
        Bounce::Background
    } else if !scattered {
        Bounce::Emission
    } else {
        match scatter_rec.pdf {
            ScatterPDF::PDF(pdf) => Bounce::Sampled {
                pdf,
                mix_lights: has_lights,
                depth: (depth - 1) as i32,
            },
            ScatterPDF::Skip(ray) => Bounce::Specular { ray, depth: (depth - 1) as i32 },
        }
    }
}

impl ScatterRecord {
    /// The record before any surface has written to it: no colour, and a ray
    /// of zeros to go on along.
    pub fn new() -> (rec: ScatterRecord)
        ensures
            rec.pdf is Skip,
            rec.attenuation.x.bits == 0 && rec.attenuation.y.bits == 0 && rec.attenuation.z.bits
                == 0,
    {
        ScatterRecord { attenuation: Vec3::empty(), pdf: ScatterPDF::Skip(Ray3::empty()) }
    }
}

/// Decides what becomes of a ray with `depth` bounces left. `hit` says
/// whether it hit anything; `scattered` and `scatter_rec` are what the
/// surface answered, and are not looked at where nothing was hit.
pub fn ray_color(
    depth: i32,
    hit: bool,
    scattered: bool,
    scatter_rec: &ScatterRecord,
    has_lights: bool,
) -> (bounce: Bounce)
    ensures
        bounce == spec_ray_color(depth, hit, scattered, *scatter_rec, has_lights),
{
    if depth <= 0 {
        Bounce::Exhausted
    } else if !hit {
        Bounce::Background
    } else if !scattered {
        Bounce::Emission
    } else {
        match scatter_rec.pdf {
            ScatterPDF::PDF(pdf) => Bounce::Sampled { pdf, mix_lights: has_lights, depth: depth - 1 },
            ScatterPDF::Skip(ray) => Bounce::Specular { ray, depth: depth - 1 },
        }
    }
}

/// The bits of 1e-8: a sample that was drawn with a smaller density counts
/// for nothing.
pub const SMALLEST_DENSITY_BITS: u64 = 0x3E45_798E_E230_8C3A;

/// The density can be divided by: it is a number, and 1e-8 at least.
pub open spec fn spec_usable_density(pdf_value: Scalar) -> bool {
    (Scalar { bits: SMALLEST_DENSITY_BITS }).spec_le(pdf_value)
}

/// Every channel of the colour is a number and is not infinite.
pub open spec fn spec_finite_color(color: Vec3) -> bool {
    color.x.spec_is_finite() && color.y.spec_is_finite() && color.z.spec_is_finite()
}

/// The colour of a ray that needs no further ray: nothing where no bounce is
/// left, the background where the ray has left the scene, and what the
/// surface emits where the surface took the ray in. None for a ray that goes on.
pub open spec fn spec_settled_color(bounce: Bounce, background: Vec3, emission: Vec3) -> Option<
    Vec3,
> {
    match bounce {
        Bounce::Exhausted => Some(
            Vec3 { x: Scalar { bits: 0 }, y: Scalar { bits: 0 }, z: Scalar { bits: 0 } },
        ),
        Bounce::Background => Some(background),
        Bounce::Emission => Some(emission),
        Bounce::Specular { ray, depth } => None,
        Bounce::Sampled { pdf, mix_lights, depth } => None,
    }
}

/// A sample counts only where the density it was drawn with is 1e-8 at
/// least: dividing by zero, by nearly nothing or by what is no number would
/// spoil the picture, so such a sample brings nothing.
pub fn usable_density(pdf_value: Scalar) -> (usable: bool)
    ensures
        usable == spec_usable_density(pdf_value),
{
    Scalar::from_bits(SMALLEST_DENSITY_BITS).le(pdf_value)
}

/// Whether a colour can go into the picture. The caller hands over what a
/// bounce has brought after all weighing and dividing; where a channel of it
/// is infinite or no number, the bounce counts for nothing.
pub fn finite_color(color: &Vec3) -> (finite: bool)
    ensures
        finite == spec_finite_color(*color),
{
    color.x.is_finite() && color.y.is_finite() && color.z.is_finite()
}

/// What a bounce that drew a sample brings: the surface's emission with the
/// weighed sample added, as the caller has worked it out, and the emission
/// alone where the density was not usable or the sum is not finite.
pub fn sampled_color(pdf_value: Scalar, emission: Vec3, with_sample: Vec3) -> (color: Vec3)
    ensures
        color == if spec_usable_density(pdf_value) && spec_finite_color(with_sample) {
            with_sample
        } else {
            emission
        },
{
    if usable_density(pdf_value) && finite_color(&with_sample) {
        with_sample
    } else {
        emission
    }
}

/// The colour of a ray that needs no further ray; none for a ray that goes on.
pub fn settled_color(bounce: &Bounce, background: Vec3, emission: Vec3) -> (color: Option<Vec3>)
    ensures
        color == spec_settled_color(*bounce, background, emission),
{
    match bounce {
        Bounce::Exhausted => Some(Vec3::empty()),
        Bounce::Background => Some(background),
        Bounce::Emission => Some(emission),
        Bounce::Specular { .. } => None,
        Bounce::Sampled { .. } => None,
    }
}

/// No bounce spoils the picture: what a sampling bounce brings is finite
/// wherever the surface's emission is, whatever the density was.
pub proof fn lemma_sampled_color_finite(pdf_value: Scalar, emission: Vec3, with_sample: Vec3)
    requires
        spec_finite_color(emission),
    ensures
        spec_finite_color(
            if spec_usable_density(pdf_value) && spec_finite_color(with_sample) {
                with_sample
            } else {
                emission
            },
        ),
        !spec_usable_density(Scalar { bits: 0 }),
        !spec_usable_density(Scalar { bits: 1 }),
        !spec_usable_density(Scalar { bits: crate::scalar::SIGN_BIT }),
        pdf_value.spec_is_nan() ==> !spec_usable_density(pdf_value),
        pdf_value.key() < SMALLEST_DENSITY_BITS ==> !spec_usable_density(pdf_value),
{
}

/// A surface that scatters evenly: the colour of its texture at the hit, and
/// a direction to be drawn around the normal, weighted by the cosine.
pub fn lambertian_scatter(
    albedo: Vec3,
    hit_rec: &HitRecord,
    scatter_rec: &mut ScatterRecord,
) -> (scattered: bool)
    ensures
        scattered,
        *final(scatter_rec) == (ScatterRecord {
            attenuation: albedo,
            pdf: ScatterPDF::PDF(SurfacePdf::Cosine { normal: hit_rec.normal }),
        }),
{
    scatter_rec.attenuation = albedo;
    scatter_rec.pdf = ScatterPDF::PDF(SurfacePdf::Cosine { normal: hit_rec.normal });
    true
}

/// The density with which an evenly scattering surface sends light into a
/// direction: none below the surface, else the density that the caller has
/// worked out from the cosine.
pub fn lambertian_scattering_pdf(cosine_theta: Scalar, density: Scalar) -> (pdf: Scalar)
    ensures
        pdf == if cosine_theta.spec_lt(Scalar { bits: 0 }) {
            Scalar { bits: 0 }
        } else {
            density
        },
{
    if cosine_theta.lt(Scalar::zero()) {
        Scalar::zero()
    } else {
        density
    }
}

/// A medium that scatters in all directions alike: the colour of its
/// texture, and a direction to be drawn evenly from the sphere.
pub fn isotropic_scatter(albedo: Vec3, scatter_rec: &mut ScatterRecord) -> (scattered: bool)
    ensures
        scattered,
        *final(scatter_rec) == (ScatterRecord {
            attenuation: albedo,
            pdf: ScatterPDF::PDF(SurfacePdf::Sphere),
        }),
{
    scatter_rec.attenuation = albedo;
    scatter_rec.pdf = ScatterPDF::PDF(SurfacePdf::Sphere);
    true
}

/// A mirror: the ray goes on along its reflection, which the caller has
/// worked out and blurred. `facing` is the dot product of the reflected
/// direction and the normal; a reflection that points into the surface is
/// no scatter.
pub fn metal_scatter(
    albedo: Vec3,
    reflected: Ray3,
    facing: Scalar,
    scatter_rec: &mut ScatterRecord,
) -> (scattered: bool)
    ensures
        scattered == (Scalar { bits: 0 }).spec_lt(facing),
        *final(scatter_rec) == (ScatterRecord {
            attenuation: albedo,
            pdf: ScatterPDF::Skip(reflected),
        }),
{
    scatter_rec.attenuation = albedo;
    scatter_rec.pdf = ScatterPDF::Skip(reflected);
    facing.gt(Scalar::zero())
}

/// The ratio of the refractive indices that a ray meets: into the glass from
/// outside, out of it from inside.
pub fn refraction_ratio(front_face: bool, inverse_index: Scalar, index: Scalar) -> (ratio: Scalar)
    ensures
        ratio == if front_face {
            inverse_index
        } else {
            index
        },
{
    if front_face {
        inverse_index
    } else {
        index
    }
}

/// Glass reflects a ray where it cannot bend it, or where chance has it so.
/// `bend` is the refraction ratio times the sine of the angle of incidence:
/// above one, no refracted ray exists. `reflectance` is the share of light
/// that is reflected at this angle, and `draw` a number drawn at random.
pub fn dielectric_reflects(bend: Scalar, reflectance: Scalar, draw: Scalar) -> (reflects: bool)
    ensures
        reflects == ((Scalar { bits: crate::scalar::ONE_BITS }).spec_lt(bend) || draw.spec_lt(
            reflectance,
        )),
{
    let cannot_refract = bend.gt(Scalar::one());
    cannot_refract || reflectance.gt(draw)
}

/// Glass takes nothing from a ray and sends it on along one ray.
pub fn dielectric_scatter(ray_out: Ray3, scatter_rec: &mut ScatterRecord) -> (scattered: bool)
    ensures
        scattered,
        final(scatter_rec).pdf == ScatterPDF::Skip(ray_out),
        final(scatter_rec).attenuation.x.bits == crate::scalar::ONE_BITS,
        final(scatter_rec).attenuation.y.bits == crate::scalar::ONE_BITS,
        final(scatter_rec).attenuation.z.bits == crate::scalar::ONE_BITS,
{
    scatter_rec.attenuation = Vec3::new(Scalar::one(), Scalar::one(), Scalar::one());
    scatter_rec.pdf = ScatterPDF::Skip(ray_out);
    true
}

/// What a light emits towards a ray: the colour of its texture to a ray that
/// comes from outside, and plain blue to one that comes from inside.
pub fn diffuse_light_emitted(front_face: bool, emit: Vec3) -> (color: Vec3)
    ensures
        front_face ==> color == emit,
        !front_face ==> color.x.bits == 0 && color.y.bits == 0 && color.z.bits
            == crate::scalar::ONE_BITS,
{
    if !front_face {
        Vec3::new(Scalar::zero(), Scalar::zero(), Scalar::one())
    } else {
        emit
    }
}

/// The density of a direction under the cosine law: what the caller has
/// worked out from the cosine, but zero at least.
pub fn cosine_pdf_value(density: Scalar) -> (value: Scalar)
    ensures
        value == (Scalar { bits: 0 }).spec_max(density),
{
    Scalar::zero().max(density)
}

/// A mixture of two densities draws from the first where the number drawn at
/// random lies below one half, and from the second else.
pub fn mixture_picks_first(draw: Scalar) -> (first: bool)
    ensures
        first == draw.spec_lt(Scalar { bits: 0x3FE0_0000_0000_0000 }),
{
    draw.lt(Scalar::from_bits(0x3FE0_0000_0000_0000))
}

/// The axis that helps to build a basis around `w`: the y axis where `w`
/// leans towards x by more than 0.9, the x axis else.
pub fn basis_helper_axis(w_x: Scalar) -> (a: Vec3)
    ensures
        a == if (Scalar { bits: 0x3FEC_CCCC_CCCC_CCCD }).spec_lt(w_x.spec_abs()) {
            Vec3 {
                x: Scalar { bits: 0 },
                y: Scalar { bits: crate::scalar::ONE_BITS },
                z: Scalar { bits: 0 },
            }
        } else {
            Vec3 {
                x: Scalar { bits: crate::scalar::ONE_BITS },
                y: Scalar { bits: 0 },
                z: Scalar { bits: 0 },
            }
        },
{
    if w_x.abs().gt(Scalar::from_bits(0x3FEC_CCCC_CCCC_CCCD)) {
        Vec3::new(Scalar::zero(), Scalar::one(), Scalar::zero())
    } else {
        Vec3::new(Scalar::one(), Scalar::zero(), Scalar::zero())
    }
}

/// Every path ends: a bounce that goes on has one bounce less left than the
/// ray that came in, and never less than none.
pub proof fn lemma_depth_runs_out(
    depth: i32,
    hit: bool,
    scattered: bool,
    scatter_rec: ScatterRecord,
    has_lights: bool,
)
    ensures
        match spec_ray_color(depth, hit, scattered, scatter_rec, has_lights) {
            Bounce::Specular { ray, depth: next } => 0 <= next < depth && next == depth - 1,
            Bounce::Sampled { pdf, mix_lights, depth: next } => 0 <= next < depth && next == depth
                - 1 && mix_lights == has_lights,
            _ => true,
        },
        depth <= 0 ==> spec_ray_color(depth, hit, scattered, scatter_rec, has_lights)
            == Bounce::Exhausted,
        depth > 0 && !hit ==> spec_ray_color(depth, hit, scattered, scatter_rec, has_lights)
            == Bounce::Background,
{
}

} // verus!
