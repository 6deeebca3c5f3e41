use ray_tracing::camera::Ratio;
use ray_tracing::demo_render::checker_spheres;
use ray_tracing::demo_render::cornell_box;
use ray_tracing::demo_render::cornell_box_glass_sphere;
use ray_tracing::demo_render::cornell_box_metal;
use ray_tracing::demo_render::cornell_smoke;
use ray_tracing::demo_render::describe;
use ray_tracing::demo_render::earth;
use ray_tracing::demo_render::field_keeps;
use ray_tracing::demo_render::field_material;
use ray_tracing::demo_render::final_render_book1;
use ray_tracing::demo_render::final_scene_book2;
use ray_tracing::demo_render::quads;
use ray_tracing::demo_render::scene_of_choice;
use ray_tracing::demo_render::simple_light;
use ray_tracing::demo_render::two_perlin_sphere;
use ray_tracing::demo_render::FieldMaterial;
use ray_tracing::demo_render::RenderJob;
use ray_tracing::scalar::Scalar;
use ray_tracing::scene::matte;
use ray_tracing::scene::Decimal;
use ray_tracing::scene::MaterialSpec;
use ray_tracing::scene::MediumSpec;
use ray_tracing::scene::ObjectSpec;
use ray_tracing::scene::SceneName;
use ray_tracing::scene::ShapeSpec;
use ray_tracing::scene::TextureSpec;
use ray_tracing::scene::Triple;

fn s(x: f64) -> Scalar {
    Scalar::from_bits(x.to_bits())
}

fn value(d: Decimal) -> f64 {
    d.units as f64 / 10000.0
}

fn check_common(job: &RenderJob, name: SceneName, threads: u32, multi: bool) {
    assert_eq!(job.name, name);
    assert_eq!(job.camera.image_width, 400);
    assert_eq!(job.camera.samples_per_pixel, 10);
    assert_eq!(job.camera.max_depth, 5);
    assert_eq!(job.camera.v_up, Triple::whole(0, 1, 0));
    assert_eq!(job.camera.focus_dist, Decimal::whole(10));
    assert_eq!(job.camera.image_height, 0);
    assert_eq!(job.threads, threads);
    assert_eq!(job.multi_thread, multi);
    assert!(!job.show);
    assert!(job.save);
}

fn cornell_walls(world: &Vec<ObjectSpec>) {
    let white = matte(7300, 7300, 7300);
    assert_eq!(
        world[1],
        ObjectSpec::quad(
            Triple::whole(555, 0, 0),
            Triple::whole(0, 555, 0),
            Triple::whole(0, 0, 555),
            matte(1200, 4500, 1500)
        )
    );
    assert_eq!(
        world[2],
        ObjectSpec::quad(
            Triple::whole(0, 0, 0),
            Triple::whole(0, 555, 0),
            Triple::whole(0, 0, 555),
            matte(6500, 500, 500)
        )
    );
    assert_eq!(
        world[3],
        ObjectSpec::quad(Triple::whole(0, 0, 0), Triple::whole(555, 0, 0), Triple::whole(0, 0, 555), white)
    );
    assert_eq!(
        world[4],
        ObjectSpec::quad(
            Triple::whole(555, 555, 555),
            Triple::whole(-555, 0, 0),
            Triple::whole(0, 0, -555),
            white
        )
    );
    assert_eq!(
        world[5],
        ObjectSpec::quad(Triple::whole(0, 0, 555), Triple::whole(555, 0, 0), Triple::whole(0, 555, 0), white)
    );
}

#[test]
fn decimals_are_exact() {
    assert_eq!(Decimal::whole(-1000).units, -10_000_000);
    assert_eq!(Decimal::frac(6500).units, 6500);
    assert_eq!(value(Decimal::frac(6500)), 0.65);
    assert_eq!(value(Decimal::frac(1)), 0.0001);
    assert_eq!(value(Decimal::frac(15000)), 1.5);
    assert_eq!(value(Decimal::frac(7300)), 0.73);
    assert_eq!(value(Decimal::frac(3200)), 0.32);
    assert_eq!(value(Decimal::whole(555)), 555.0);
    assert_eq!(Triple::frac(1, 2, 3).y, Decimal::frac(2));
    assert_eq!(Triple::whole(1, 2, 3).z, Decimal::whole(3));
}

#[test]
fn checker_spheres_scene() {
    let job = checker_spheres(400, 10, 5, false, true);
    check_common(&job, SceneName::CheckerSpheres, 6, true);
    let checker = MaterialSpec::Lambertian(TextureSpec::Checker {
        scale: Decimal::frac(3200),
        even: Triple::frac(2000, 3000, 1000),
        odd: Triple::frac(9000, 9000, 9000),
    });
    assert_eq!(
        job.world,
        vec![
            ObjectSpec::sphere(Triple::whole(0, -10, 0), Decimal::whole(10), checker),
            ObjectSpec::sphere(Triple::whole(0, 10, 0), Decimal::whole(10), checker),
        ]
    );
    assert!(job.lights.is_empty());
    assert!(!job.accelerate);
    assert_eq!(job.camera.aspect_ratio, Ratio { width: 16, height: 9 });
    assert_eq!(job.camera.vfov, Decimal::whole(20));
    assert_eq!(job.camera.look_from, Triple::whole(13, 2, 3));
    assert_eq!(job.camera.look_at, Triple::whole(0, 0, 0));
    assert_eq!(job.camera.background, Triple::frac(7000, 8000, 10000));
}

#[test]
fn earth_scene() {
    let job = earth(400, 10, 5, false, true);
    check_common(&job, SceneName::Earth, 6, false);
    assert_eq!(
        job.world,
        vec![ObjectSpec::sphere(
            Triple::whole(0, 0, 0),
            Decimal::whole(2),
            MaterialSpec::Lambertian(TextureSpec::EarthMap)
        )]
    );
    assert_eq!(job.camera.look_from, Triple::whole(0, 0, 12));
}

#[test]
fn two_perlin_sphere_scene() {
    let job = two_perlin_sphere(400, 10, 5, false, true);
    check_common(&job, SceneName::PerlinSphere, 6, true);
    let marble = MaterialSpec::Lambertian(TextureSpec::Noise { scale: Decimal::whole(4) });
    assert_eq!(
        job.world,
        vec![
            ObjectSpec::sphere(Triple::whole(0, -1000, 0), Decimal::whole(1000), marble),
            ObjectSpec::sphere(Triple::whole(0, 2, 0), Decimal::whole(2), marble),
        ]
    );
}

#[test]
fn quads_scene() {
    let job = quads(400, 10, 5, false, true);
    check_common(&job, SceneName::Quads, 6, true);
    assert_eq!(job.world.len(), 5);
    assert_eq!(
        job.world[0],
        ObjectSpec::quad(
            Triple::whole(-3, -2, 5),
            Triple::whole(0, 0, -4),
            Triple::whole(0, 4, 0),
            matte(10000, 2000, 2000)
        )
    );
    assert_eq!(
        job.world[4],
        ObjectSpec::quad(
            Triple::whole(-2, -3, 5),
            Triple::whole(4, 0, 0),
            Triple::whole(0, 0, -4),
            matte(2000, 8000, 8000)
        )
    );
    assert_eq!(job.camera.aspect_ratio, Ratio { width: 1, height: 1 });
    assert_eq!(job.camera.vfov, Decimal::whole(80));
    assert_eq!(job.camera.look_from, Triple::whole(0, 0, 9));
}

#[test]
fn simple_light_scene() {
    let job = simple_light(400, 10, 5, false, true);
    check_common(&job, SceneName::SimpleLight, 6, true);
    let lamp = MaterialSpec::DiffuseLight(Triple::whole(4, 4, 4));
    assert_eq!(job.world.len(), 4);
    assert_eq!(
        job.world[0].shape,
        ShapeSpec::Sphere { center: Triple::whole(0, -1000, 0), radius: Decimal::whole(-1000) }
    );
    assert_eq!(
        job.lights,
        vec![
            ObjectSpec::sphere(Triple::whole(0, 7, 0), Decimal::whole(2), lamp),
            ObjectSpec::quad(Triple::whole(3, 1, -2), Triple::whole(2, 0, 0), Triple::whole(0, 2, 0), lamp),
        ]
    );
    assert_eq!(job.world[2], job.lights[0]);
    assert_eq!(job.world[3], job.lights[1]);
    assert!(job.lights_as_list);
    assert_eq!(job.camera.background, Triple::whole(0, 0, 0));
    assert_eq!(job.camera.look_from, Triple::whole(26, 3, 6));
    assert_eq!(job.camera.look_at, Triple::whole(0, 2, 0));
}

#[test]
fn cornell_box_scene() {
    let job = cornell_box(400, 10, 5, false, true);
    check_common(&job, SceneName::CornellBox, 6, true);
    let white = matte(7300, 7300, 7300);
    assert_eq!(job.world.len(), 8);
    cornell_walls(&job.world);
    let light = ObjectSpec::quad(
        Triple::whole(343, 554, 332),
        Triple::whole(-130, 0, 0),
        Triple::whole(0, 0, -105),
        MaterialSpec::DiffuseLight(Triple::whole(15, 15, 15)),
    );
    assert_eq!(job.world[0], light);
    assert_eq!(job.lights, vec![light]);
    assert!(!job.lights_as_list);
    assert_eq!(
        job.world[6],
        ObjectSpec::cuboid(Triple::whole(0, 0, 0), Triple::whole(165, 330, 165), white)
            .placed(Decimal::whole(15), Triple::whole(265, 0, 295))
    );
    assert_eq!(
        job.world[7],
        ObjectSpec::cuboid(Triple::whole(0, 0, 0), Triple::whole(165, 165, 165), white)
            .placed(Decimal::whole(-18), Triple::whole(130, 0, 65))
    );
    assert_eq!(job.world[7].rotate_y, Some(Decimal::whole(-18)));
    assert_eq!(job.world[7].medium, None);
    assert_eq!(job.camera.vfov, Decimal::whole(40));
    assert_eq!(job.camera.look_from, Triple::whole(278, 278, -800));
    assert_eq!(job.camera.look_at, Triple::whole(278, 278, 0));
    assert_eq!(job.camera.background, Triple::whole(0, 0, 0));
}

#[test]
fn cornell_smoke_scene() {
    let job = cornell_smoke(400, 10, 5, false, true);
    check_common(&job, SceneName::CornellSmoke, 6, true);
    assert_eq!(job.world.len(), 8);
    cornell_walls(&job.world);
    assert_eq!(
        job.world[0],
        ObjectSpec::quad(
            Triple::whole(113, 554, 127),
            Triple::whole(330, 0, 0),
            Triple::whole(0, 0, 305),
            MaterialSpec::DiffuseLight(Triple::whole(7, 7, 7))
        )
    );
    assert_eq!(job.lights, vec![job.world[0]]);
    assert!(job.lights_as_list);
    assert_eq!(
        job.world[6].medium,
        Some(MediumSpec { density: Decimal::frac(100), color: Triple::whole(0, 0, 0) })
    );
    assert_eq!(
        job.world[7].medium,
        Some(MediumSpec { density: Decimal::frac(100), color: Triple::whole(1, 1, 1) })
    );
    assert_eq!(job.world[6].translate, Some(Triple::whole(265, 0, 295)));
    assert_eq!(job.world[7].translate, Some(Triple::whole(130, 0, 65)));
}

#[test]
fn final_scene_book2_scene() {
    let job = final_scene_book2(400, 10, 5, false, true);
    check_common(&job, SceneName::Book2Final, 6, true);
    let glass = MaterialSpec::Dielectric { index: Decimal::frac(15000) };
    assert_eq!(job.world.len(), 11);
    assert_eq!(
        job.world[0],
        ObjectSpec::plain(
            ShapeSpec::BoxGrid {
                per_side: 20,
                cell: Decimal::whole(100),
                low_corner: Triple::whole(-1000, 0, -1000),
                height_low: Decimal::whole(1),
                height_high: Decimal::whole(101),
            },
            matte(4800, 8300, 5300)
        )
    );
    assert_eq!(job.lights, vec![job.world[1]]);
    assert_eq!(
        job.world[2].shape,
        ShapeSpec::MovingSphere {
            center_start: Triple::whole(400, 400, 200),
            center_end: Triple::whole(430, 400, 200),
            radius: Decimal::whole(50),
        }
    );
    assert_eq!(job.world[3], ObjectSpec::sphere(Triple::whole(260, 150, 45), Decimal::whole(50), glass));
    assert_eq!(
        job.world[4].material,
        MaterialSpec::Metal { albedo: Triple::frac(8000, 8000, 9000), fuzz: Decimal::whole(1) }
    );
    assert_eq!(job.world[5], ObjectSpec::sphere(Triple::whole(360, 150, 145), Decimal::whole(70), glass));
    assert_eq!(job.world[6], job.world[5].filled(Decimal::frac(2000), Triple::frac(2000, 4000, 9000)));
    assert_eq!(
        job.world[7],
        ObjectSpec::sphere(Triple::whole(0, 0, 0), Decimal::whole(5000), glass)
            .filled(Decimal::frac(1), Triple::whole(1, 1, 1))
    );
    assert_eq!(job.world[8].material, MaterialSpec::Lambertian(TextureSpec::EarthMap));
    assert_eq!(
        job.world[9].material,
        MaterialSpec::Lambertian(TextureSpec::Noise { scale: Decimal::frac(1000) })
    );
    assert_eq!(
        job.world[10],
        ObjectSpec::plain(
            ShapeSpec::SphereCloud {
                count: 1000,
                low: Decimal::whole(0),
                high: Decimal::whole(165),
                radius: Decimal::whole(10),
            },
            matte(7300, 7300, 7300)
        )
        .placed(Decimal::whole(15), Triple::whole(-100, 270, 395))
    );
    assert_eq!(job.camera.look_from, Triple::whole(478, 278, -600));
}

#[test]
fn cornell_box_metal_scene() {
    let job = cornell_box_metal(400, 10, 5, false, true);
    check_common(&job, SceneName::CornellBoxMetal, 7, true);
    assert_eq!(job.world.len(), 8);
    cornell_walls(&job.world);
    assert_eq!(
        job.world[6].material,
        MaterialSpec::Metal { albedo: Triple::frac(8000, 8500, 8800), fuzz: Decimal::whole(0) }
    );
    assert_eq!(job.world[7].material, matte(7300, 7300, 7300));
    assert_eq!(job.lights, vec![job.world[0]]);
}

#[test]
fn cornell_box_glass_sphere_scene() {
    let job = cornell_box_glass_sphere(400, 10, 5, false, true);
    check_common(&job, SceneName::CornellBoxGlassSphere, 7, true);
    assert_eq!(job.world.len(), 8);
    cornell_walls(&job.world);
    assert_eq!(
        job.world[7],
        ObjectSpec::sphere(
            Triple::whole(190, 90, 190),
            Decimal::whole(90),
            MaterialSpec::Dielectric { index: Decimal::frac(15000) }
        )
    );
}

#[test]
fn final_render_book1_scene() {
    let job = final_render_book1(400, 10, 5, false, true);
    check_common(&job, SceneName::Book1Final, 6, true);
    assert!(job.accelerate);
    assert_eq!(job.camera.defocus_angle, Decimal::frac(6000));
    assert_eq!(job.world.len(), 5);
    assert_eq!(
        job.world[1].shape,
        ShapeSpec::SphereField {
            half_extent: 11,
            jitter: Decimal::frac(9000),
            height: Decimal::frac(2000),
            radius: Decimal::frac(2000),
            clear_of: Triple::frac(40000, 2000, 0),
            clearance: Decimal::frac(9000),
            lift: Decimal::frac(2500),
        }
    );
    assert_eq!(job.world[0], ObjectSpec::sphere(Triple::whole(0, -1000, 0), Decimal::whole(1000), matte(5000, 5000, 5000)));
    assert_eq!(job.world[3], ObjectSpec::sphere(Triple::whole(-4, 1, 0), Decimal::whole(1), matte(4000, 2000, 1000)));
}

#[test]
fn strewn_spheres_pick_their_material() {
    assert_eq!(field_material(s(0.0)), FieldMaterial::Diffuse);
    assert_eq!(field_material(s(0.7999)), FieldMaterial::Diffuse);
    assert_eq!(field_material(s(0.8)), FieldMaterial::Metal);
    assert_eq!(field_material(s(0.9499)), FieldMaterial::Metal);
    assert_eq!(field_material(s(0.95)), FieldMaterial::Glass);
    assert_eq!(field_material(s(0.9999)), FieldMaterial::Glass);
    assert!(field_keeps(s(0.9001), s(0.9)));
    assert!(!field_keeps(s(0.9), s(0.9)));
    assert!(!field_keeps(s(0.2), s(0.9)));
    assert!(field_keeps(s(0.2), s(0.1)));
}

#[test]
fn every_scene_can_be_described_by_name() {
    for choice in 1..12u32 {
        let name = scene_of_choice(choice);
        let job = describe(name, 320, 4, 3, true, false);
        assert_eq!(job.name, name);
        assert_eq!(job.camera.image_width, 320);
        assert_eq!(job.camera.samples_per_pixel, 4);
        assert_eq!(job.camera.max_depth, 3);
        assert!(job.show);
        assert!(!job.save);
        assert!(!job.world.is_empty());
    }
    assert_eq!(describe(SceneName::CornellBox, 400, 10, 5, false, true), cornell_box(400, 10, 5, false, true));
}
