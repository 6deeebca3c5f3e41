use ray_tracing::color::vals_to_val;
use ray_tracing::hittable::HitRecord;
use ray_tracing::material::basis_helper_axis;
use ray_tracing::material::cosine_pdf_value;
use ray_tracing::material::dielectric_reflects;
use ray_tracing::material::dielectric_scatter;
use ray_tracing::material::finite_color;
use ray_tracing::material::sampled_color;
use ray_tracing::material::settled_color;
use ray_tracing::material::diffuse_light_emitted;
use ray_tracing::material::isotropic_scatter;
use ray_tracing::material::lambertian_scatter;
use ray_tracing::material::lambertian_scattering_pdf;
use ray_tracing::material::metal_scatter;
use ray_tracing::material::mixture_picks_first;
use ray_tracing::material::ray_color;
use ray_tracing::material::refraction_ratio;
use ray_tracing::material::usable_density;
use ray_tracing::material::Bounce;
use ray_tracing::material::ScatterPDF;
use ray_tracing::material::ScatterRecord;
use ray_tracing::material::SurfacePdf;
use ray_tracing::ray::Ray3;
use ray_tracing::scalar::Scalar;
use ray_tracing::sphere_pdf::SpherePDF;
use ray_tracing::vector_3::Vec3;

fn s(x: f64) -> Scalar {
    Scalar::from_bits(x.to_bits())
}

fn f(x: Scalar) -> f64 {
    f64::from_bits(x.to_bits())
}

fn v(x: f64, y: f64, z: f64) -> Vec3 {
    Vec3::new(s(x), s(y), s(z))
}

#[test]
fn path_ends_when_no_bounce_is_left() {
    let rec = ScatterRecord::new();
    assert!(matches!(ray_color(0, true, true, &rec, true), Bounce::Exhausted));
    assert!(matches!(ray_color(-3, false, false, &rec, false), Bounce::Exhausted));
}

#[test]
fn ray_that_leaves_the_scene_brings_the_background() {
    let rec = ScatterRecord::new();
    assert!(matches!(ray_color(1, false, false, &rec, false), Bounce::Background));
    assert!(matches!(ray_color(50, false, true, &rec, true), Bounce::Background));
}

#[test]
fn surface_that_takes_the_ray_in_brings_its_emission() {
    let rec = ScatterRecord::new();
    assert!(matches!(ray_color(5, true, false, &rec, true), Bounce::Emission));
}

#[test]
fn scattered_rays_go_on_with_one_bounce_less() {
    let mut rec = ScatterRecord::new();
    let mut hit = HitRecord::new();
    hit.normal = v(0.0, 1.0, 0.0);
    assert!(lambertian_scatter(v(0.5, 0.5, 0.5), &hit, &mut rec));
    match ray_color(5, true, true, &rec, true) {
        Bounce::Sampled { pdf: SurfacePdf::Cosine { normal }, mix_lights, depth } => {
            assert_eq!(f(normal.y), 1.0);
            assert!(mix_lights);
            assert_eq!(depth, 4);
        }
        _ => panic!("a diffuse surface samples its cosine density"),
    }
    match ray_color(1, true, true, &rec, false) {
        Bounce::Sampled { mix_lights, depth, .. } => {
            assert!(!mix_lights);
            assert_eq!(depth, 0);
        }
        _ => panic!("a diffuse surface samples its cosine density"),
    }
    let out = Ray3::new(v(1.0, 2.0, 3.0), v(0.0, 0.0, 1.0), s(0.25));
    assert!(dielectric_scatter(out, &mut rec));
    assert_eq!(f(rec.attenuation.x), 1.0);
    match ray_color(7, true, true, &rec, true) {
        Bounce::Specular { ray, depth } => {
            assert_eq!(f(ray.origin().z), 3.0);
            assert_eq!(f(ray.time()), 0.25);
            assert_eq!(depth, 6);
        }
        _ => panic!("glass sends the ray on along one ray"),
    }
}

#[test]
fn single_diffuse_sphere_at_depth_one() {
    // One sample, one bounce, a white background and no lights: a ray that
    // misses brings the background, and a ray that hits a diffuse surface
    // goes on with no bounce left and brings nothing.
    let mut rec = ScatterRecord::new();
    let outside = ray_color(1, false, false, &rec, false);
    assert!(matches!(outside, Bounce::Background));
    assert_eq!(vals_to_val(s(0.999 * 255.999), s(0.999 * 255.999), s(0.999 * 255.999)), 0xFFFFFFFF);
    let hit = HitRecord::new();
    assert!(lambertian_scatter(v(0.5, 0.5, 0.5), &hit, &mut rec));
    let next = match ray_color(1, true, true, &rec, false) {
        Bounce::Sampled { depth, .. } => depth,
        _ => panic!("a diffuse surface samples its cosine density"),
    };
    assert_eq!(next, 0);
    assert!(matches!(ray_color(next, true, true, &rec, false), Bounce::Exhausted));
    assert_eq!(vals_to_val(s(0.0), s(0.0), s(0.0)), 0xFF000000);
    assert!(0xFF000000u32 < 0xFFFFFFFFu32);
}

#[test]
fn density_has_to_be_above_zero() {
    assert!(usable_density(s(0.25)));
    assert!(usable_density(s(1e-8)));
    assert!(usable_density(s(f64::INFINITY)));
    assert!(!usable_density(s(9.9e-9)));
    assert!(!usable_density(s(1e-300)));
    assert!(!usable_density(s(5e-324)));
    assert!(!usable_density(s(0.0)));
    assert!(!usable_density(s(-0.0)));
    assert!(!usable_density(s(-1.0)));
    assert!(!usable_density(s(f64::NAN)));
}

#[test]
fn surfaces_scatter_as_their_kind_does() {
    let mut rec = ScatterRecord::new();
    assert!(matches!(rec.pdf, ScatterPDF::Skip(_)));
    assert_eq!(f(rec.attenuation.y), 0.0);
    assert!(isotropic_scatter(v(0.2, 0.4, 0.9), &mut rec));
    assert!(matches!(rec.pdf, ScatterPDF::PDF(SurfacePdf::Sphere)));
    assert_eq!(f(rec.attenuation.z), 0.9);
    let reflected = Ray3::new(v(0.0, 0.0, 0.0), v(0.0, 1.0, 0.0), s(0.0));
    assert!(metal_scatter(v(0.8, 0.85, 0.88), reflected, s(0.3), &mut rec));
    assert_eq!(f(rec.attenuation.y), 0.85);
    assert!(matches!(rec.pdf, ScatterPDF::Skip(_)));
    assert!(!metal_scatter(v(0.8, 0.85, 0.88), reflected, s(0.0), &mut rec));
    assert!(!metal_scatter(v(0.8, 0.85, 0.88), reflected, s(-0.3), &mut rec));
}

#[test]
fn lambertian_density_is_zero_below_the_surface() {
    assert_eq!(f(lambertian_scattering_pdf(s(-0.1), s(0.7))), 0.0);
    assert_eq!(f(lambertian_scattering_pdf(s(0.0), s(0.0))), 0.0);
    assert_eq!(f(lambertian_scattering_pdf(s(0.5), s(0.15915494309189535))), 0.15915494309189535);
    assert_eq!(f(cosine_pdf_value(s(-0.2))), 0.0);
    assert_eq!(f(cosine_pdf_value(s(0.2))), 0.2);
}

#[test]
fn glass_reflects_or_bends() {
    assert_eq!(f(refraction_ratio(true, s(1.0 / 1.5), s(1.5))), 1.0 / 1.5);
    assert_eq!(f(refraction_ratio(false, s(1.0 / 1.5), s(1.5))), 1.5);
    assert!(dielectric_reflects(s(1.2), s(0.0), s(0.99)));
    assert!(dielectric_reflects(s(0.5), s(0.6), s(0.59)));
    assert!(!dielectric_reflects(s(0.5), s(0.6), s(0.6)));
    assert!(!dielectric_reflects(s(1.0), s(0.04), s(0.5)));
}

#[test]
fn light_shines_to_the_front_only() {
    let front = diffuse_light_emitted(true, v(15.0, 15.0, 15.0));
    assert_eq!((f(front.x), f(front.y), f(front.z)), (15.0, 15.0, 15.0));
    let back = diffuse_light_emitted(false, v(15.0, 15.0, 15.0));
    assert_eq!((f(back.x), f(back.y), f(back.z)), (0.0, 0.0, 1.0));
}

#[test]
fn mixture_and_basis() {
    assert!(mixture_picks_first(s(0.0)));
    assert!(mixture_picks_first(s(0.4999)));
    assert!(!mixture_picks_first(s(0.5)));
    assert!(!mixture_picks_first(s(0.9)));
    let a = basis_helper_axis(s(0.95));
    assert_eq!((f(a.x), f(a.y), f(a.z)), (0.0, 1.0, 0.0));
    let a = basis_helper_axis(s(-0.95));
    assert_eq!((f(a.x), f(a.y), f(a.z)), (0.0, 1.0, 0.0));
    let a = basis_helper_axis(s(0.9));
    assert_eq!((f(a.x), f(a.y), f(a.z)), (1.0, 0.0, 0.0));
    let a = basis_helper_axis(s(0.0));
    assert_eq!((f(a.x), f(a.y), f(a.z)), (1.0, 0.0, 0.0));
}

#[test]
fn uniform_sphere_density() {
    let density = f(SpherePDF {}.value());
    assert_eq!(density, 0.25 * std::f64::consts::FRAC_1_PI);
    assert!((density * 4.0 * std::f64::consts::PI - 1.0).abs() < 1e-15);
}

#[test]
fn settled_rays_have_their_colour() {
    let background = v(0.7, 0.8, 1.0);
    let emission = v(15.0, 15.0, 15.0);
    let rec = ScatterRecord::new();
    let black = settled_color(&ray_color(0, true, true, &rec, false), background, emission).unwrap();
    assert_eq!((f(black.x), f(black.y), f(black.z)), (0.0, 0.0, 0.0));
    let sky = settled_color(&ray_color(3, false, false, &rec, false), background, emission).unwrap();
    assert_eq!((f(sky.x), f(sky.y), f(sky.z)), (0.7, 0.8, 1.0));
    let light = settled_color(&ray_color(3, true, false, &rec, false), background, emission).unwrap();
    assert_eq!((f(light.x), f(light.y), f(light.z)), (15.0, 15.0, 15.0));
    assert!(settled_color(&ray_color(3, true, true, &rec, false), background, emission).is_none());
    let mut diffuse = ScatterRecord::new();
    assert!(isotropic_scatter(v(0.5, 0.5, 0.5), &mut diffuse));
    assert!(settled_color(&ray_color(3, true, true, &diffuse, true), background, emission).is_none());
}

#[test]
fn bounce_that_would_spoil_the_picture_brings_the_emission_alone() {
    let emission = v(0.0, 0.25, 0.0);
    let good = v(0.5, 0.75, 0.125);
    let kept = sampled_color(s(0.3), emission, good);
    assert_eq!((f(kept.x), f(kept.y), f(kept.z)), (0.5, 0.75, 0.125));
    for density in vec![0.0, -1.0, 1e-300, 5e-324, 9.9e-9, f64::NAN] {
        let dropped = sampled_color(s(density), emission, good);
        assert_eq!((f(dropped.x), f(dropped.y), f(dropped.z)), (0.0, 0.25, 0.0));
    }
    // what dividing by nearly nothing gives
    let numerator: f64 = 0.5;
    let overflow = numerator / 5e-324;
    assert!(overflow.is_infinite());
    for spoiled in vec![v(overflow, 0.0, 0.0), v(0.0, f64::NAN, 0.0), v(0.0, 0.0, f64::NEG_INFINITY)] {
        assert!(!finite_color(&spoiled));
        let dropped = sampled_color(s(0.3), emission, spoiled);
        assert_eq!((f(dropped.x), f(dropped.y), f(dropped.z)), (0.0, 0.25, 0.0));
        assert!(finite_color(&dropped));
    }
    assert!(finite_color(&good));
    assert!(finite_color(&v(f64::MAX, f64::MIN, 0.0)));
}
