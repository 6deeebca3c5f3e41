//! The scenes that come with the library. Each function describes one scene
//! and the camera that looks at it; rendering the description, saving the
//! picture and showing it are the caller's part.

use vstd::prelude::*;
use crate::camera::{Camera, Ratio};
use crate::scalar::Scalar;
use crate::scene::{
    matte, spec_matte, Decimal, MaterialSpec, ObjectSpec, SceneName, ShapeSpec, TextureSpec,
    Triple,
};

verus! {

/// All that a renderer needs to know to draw a scene and to deal with the picture.
#[derive(Debug, PartialEq, Eq)]
pub struct RenderJob {
    pub name: SceneName,
    pub camera: Camera,
    /// The objects of the scene, in the order in which they were put into it.
    pub world: Vec<ObjectSpec>,
    /// The whole world stands in one bounding-volume hierarchy.
    pub accelerate: bool,
    /// The objects that rays are aimed at on purpose, because they shine.
    pub lights: Vec<ObjectSpec>,
    /// The lights are handed to the renderer as a list, not as one object.
    pub lights_as_list: bool,
    pub multi_thread: bool,
    pub threads: u32,
    /// Show the picture in a window.
    pub show: bool,
    /// Save the picture as a file.
    pub save: bool,
}

/// How a scene is carried out, apart from what it shows.
pub struct RenderPlan {
    pub accelerate: bool,
    pub lights_as_list: bool,
    pub multi_thread: bool,
    pub threads: u32,
    pub show: bool,
    pub save: bool,
}

/// The camera of a scene: the settings a camera begins with, and on top of
/// them the size and the quality asked for and the scene's own view.
pub open spec fn spec_scene_camera(
    width: i32,
    samples: i32,
    depth: i32,
    aspect_ratio: Ratio,
    vfov: Decimal,
    look_from: Triple,
    look_at: Triple,
    defocus_angle: Decimal,
    background: Triple,
) -> Camera {
    Camera {
        samples_per_pixel: samples,
        image_width: width,
        aspect_ratio,
        max_depth: depth,
        vfov,
        look_from,
        look_at,
        v_up: Triple::spec_whole(0, 1, 0),
        defocus_angle,
        focus_dist: Decimal::spec_whole(10),
        background,
        image_height: 0,
    }
}

fn scene_camera(
    width: i32,
    samples: i32,
    depth: i32,
    aspect_ratio: Ratio,
    vfov: Decimal,
    look_from: Triple,
    look_at: Triple,
    defocus_angle: Decimal,
    background: Triple,
) -> (cam: Camera)
    ensures
        cam == spec_scene_camera(
            width,
            samples,
            depth,
            aspect_ratio,
            vfov,
            look_from,
            look_at,
            defocus_angle,
            background,
        ),
{
    let mut cam = Camera::new();
    cam.aspect_ratio = aspect_ratio;
    cam.image_width = width;
    cam.samples_per_pixel = samples;
    cam.max_depth = depth;
    cam.background = background;
    cam.vfov = vfov;
    cam.look_from = look_from;
    cam.look_at = look_at;
    cam.v_up = Triple::whole(0, 1, 0);
    cam.defocus_angle = defocus_angle;
    cam
}

impl RenderJob {
    /// The job is about the named scene, with this camera, this world and
    /// these lights, and is to be carried out according to the plan.
    pub open spec fn spec_is(
        self,
        name: SceneName,
        camera: Camera,
        world: Seq<ObjectSpec>,
        lights: Seq<ObjectSpec>,
        plan: RenderPlan,
    ) -> bool {
        &&& self.name == name
        &&& self.camera == camera
        &&& self.world@ =~= world
        &&& self.lights@ =~= lights
        &&& self.accelerate == plan.accelerate
        &&& self.lights_as_list == plan.lights_as_list
        &&& self.multi_thread == plan.multi_thread
        &&& self.threads == plan.threads
        &&& self.show == plan.show
        &&& self.save == plan.save
    }

    /// The job describes the named scene, for a picture of the given width
    /// and quality.
    pub open spec fn spec_describes(
        self,
        name: SceneName,
        width: i32,
        samples: i32,
        depth: i32,
        show: bool,
        save: bool,
    ) -> bool {
        self.spec_is(
            name,
            spec_camera_of(name, width, samples, depth),
            spec_world_of(name),
            spec_lights_of(name),
            spec_plan_of(name, show, save),
        )
    }
}

/// The kinds of sphere that are strewn over a plain.
#[derive(Clone, Copy, Debug, PartialEq, Eq)]
pub enum FieldMaterial {
    /// Scatters evenly, and moves while the shutter is open.
    Diffuse,
    Metal,
    Glass,
}

/// The material of a strewn sphere: four in five scatter evenly, three in
/// twenty are of metal, the rest is glass. `choice` is a number drawn at
/// random from zero up to one.
pub fn field_material(choice: Scalar) -> (kind: FieldMaterial)
    ensures
        kind == if choice.spec_lt(Scalar { bits: 0x3FE9_9999_9999_999A }) {
            FieldMaterial::Diffuse
        } else if choice.spec_lt(Scalar { bits: 0x3FEE_6666_6666_6666 }) {
            FieldMaterial::Metal
        } else {
            FieldMaterial::Glass
        },
{
    if choice.lt(Scalar::from_bits(0x3FE9_9999_9999_999A)) {
        FieldMaterial::Diffuse
    } else if choice.lt(Scalar::from_bits(0x3FEE_6666_6666_6666)) {
        FieldMaterial::Metal
    } else {
        FieldMaterial::Glass
    }
}

/// A strewn sphere stays where it fell only if it keeps clear of the large
/// sphere in front: `distance` is how far its centre lies from the point to
/// keep clear of, and has to be above `clearance`.
pub fn field_keeps(distance: Scalar, clearance: Scalar) -> (kept: bool)
    ensures
        kept == clearance.spec_lt(distance),
{
    distance.gt(clearance)
}

/// What stands in the scene `final_render_book1`.
pub open spec fn spec_final_render_book1_world() -> Seq<ObjectSpec> {
    seq![
        ObjectSpec::spec_sphere(
            Triple::spec_whole(0, -1000, 0),
            Decimal::spec_whole(1000),
            spec_matte(5000, 5000, 5000),
        ),
        ObjectSpec::spec_plain(
            ShapeSpec::SphereField {
                half_extent: 11,
                jitter: Decimal::spec_frac(9000),
                height: Decimal::spec_frac(2000),
                radius: Decimal::spec_frac(2000),
                clear_of: Triple::spec_frac(40000, 2000, 0),
                clearance: Decimal::spec_frac(9000),
                lift: Decimal::spec_frac(2500),
            },
            MaterialSpec::Dielectric { index: Decimal::spec_frac(15000) },
        ),
        ObjectSpec::spec_sphere(
            Triple::spec_whole(0, 1, 0),
            Decimal::spec_whole(1),
            MaterialSpec::Dielectric { index: Decimal::spec_frac(15000) },
        ),
        ObjectSpec::spec_sphere(
            Triple::spec_whole(-4, 1, 0),
            Decimal::spec_whole(1),
            spec_matte(4000, 2000, 1000),
        ),
        ObjectSpec::spec_sphere(
            Triple::spec_whole(4, 1, 0),
            Decimal::spec_whole(1),
            MaterialSpec::Metal { albedo: Triple::spec_frac(7000, 6000, 5000), fuzz: Decimal::spec_whole(0) },
        ),
    ]
}

/// What lights the scene `final_render_book1`.
pub open spec fn spec_final_render_book1_lights() -> Seq<ObjectSpec> {
    Seq::empty()
}

/// The camera of the scene `final_render_book1`.
pub open spec fn spec_final_render_book1_camera(width: i32, samples: i32, depth: i32) -> Camera {
    spec_scene_camera(
        width,
        samples,
        depth,
        Ratio { width: 16, height: 9 },
        Decimal::spec_whole(20),
        Triple::spec_whole(13, 2, 3),
        Triple::spec_whole(0, 0, 0),
        Decimal::spec_frac(6000),
        Triple::spec_frac(7000, 8000, 10000),
    )
}

/// How the scene `final_render_book1` is carried out.
pub open spec fn spec_final_render_book1_plan(show: bool, save: bool) -> RenderPlan {
    RenderPlan {
        accelerate: true,
        lights_as_list: false,
        multi_thread: true,
        threads: 6,
        show,
        save,
    }
}

/// A plain strewn with small spheres of every material around three large ones,
/// seen through a lens that blurs what is out of focus. All of it stands in one
/// bounding-volume hierarchy.
pub fn final_render_book1(
    width: i32,
    samples: i32,
    depth: i32,
    show: bool,
    save: bool,
) -> (job: RenderJob)
    ensures
        job.spec_describes(SceneName::Book1Final, width, samples, depth, show, save),
{
    let mut world: Vec<ObjectSpec> = Vec::new();
    world.push(
        ObjectSpec::sphere(
            Triple::whole(0, -1000, 0),
            Decimal::whole(1000),
            matte(5000, 5000, 5000),
        ),
    );
    world.push(
        ObjectSpec::plain(
            ShapeSpec::SphereField {
                half_extent: 11,
                jitter: Decimal::frac(9000),
                height: Decimal::frac(2000),
                radius: Decimal::frac(2000),
                clear_of: Triple::frac(40000, 2000, 0),
                clearance: Decimal::frac(9000),
                lift: Decimal::frac(2500),
            },
            MaterialSpec::Dielectric { index: Decimal::frac(15000) },
        ),
    );
    world.push(
        ObjectSpec::sphere(
            Triple::whole(0, 1, 0),
            Decimal::whole(1),
            MaterialSpec::Dielectric { index: Decimal::frac(15000) },
        ),
    );
    world.push(
        ObjectSpec::sphere(
            Triple::whole(-4, 1, 0),
            Decimal::whole(1),
            matte(4000, 2000, 1000),
        ),
    );
    world.push(
        ObjectSpec::sphere(
            Triple::whole(4, 1, 0),
            Decimal::whole(1),
            MaterialSpec::Metal { albedo: Triple::frac(7000, 6000, 5000), fuzz: Decimal::whole(0) },
        ),
    );
    let lights: Vec<ObjectSpec> = Vec::new();
    let camera = scene_camera(
        width,
        samples,
        depth,
        Ratio { width: 16, height: 9 },
        Decimal::whole(20),
        Triple::whole(13, 2, 3),
        Triple::whole(0, 0, 0),
        Decimal::frac(6000),
        Triple::frac(7000, 8000, 10000),
    );
    RenderJob {
        name: SceneName::Book1Final,
        camera,
        world,
        accelerate: true,
        lights,
        lights_as_list: false,
        multi_thread: true,
        threads: 6,
        show,
        save,
    }
}

/// What stands in the scene `checker_spheres`.
pub open spec fn spec_checker_spheres_world() -> Seq<ObjectSpec> {
    seq![
        ObjectSpec::spec_sphere(
            Triple::spec_whole(0, -10, 0),
            Decimal::spec_whole(10),
            MaterialSpec::Lambertian(
                TextureSpec::Checker {
                    scale: Decimal::spec_frac(3200),
                    even: Triple::spec_frac(2000, 3000, 1000),
                    odd: Triple::spec_frac(9000, 9000, 9000),
                },
            ),
        ),
        ObjectSpec::spec_sphere(
            Triple::spec_whole(0, 10, 0),
            Decimal::spec_whole(10),
            MaterialSpec::Lambertian(
                TextureSpec::Checker {
                    scale: Decimal::spec_frac(3200),
                    even: Triple::spec_frac(2000, 3000, 1000),
                    odd: Triple::spec_frac(9000, 9000, 9000),
                },
            ),
        ),
    ]
}

/// What lights the scene `checker_spheres`.
pub open spec fn spec_checker_spheres_lights() -> Seq<ObjectSpec> {
    Seq::empty()
}

/// The camera of the scene `checker_spheres`.
pub open spec fn spec_checker_spheres_camera(width: i32, samples: i32, depth: i32) -> Camera {
    spec_scene_camera(
        width,
        samples,
        depth,
        Ratio { width: 16, height: 9 },
        Decimal::spec_whole(20),
        Triple::spec_whole(13, 2, 3),
        Triple::spec_whole(0, 0, 0),
        Decimal::spec_whole(0),
        Triple::spec_frac(7000, 8000, 10000),
    )
}

/// How the scene `checker_spheres` is carried out.
pub open spec fn spec_checker_spheres_plan(show: bool, save: bool) -> RenderPlan {
    RenderPlan {
        accelerate: false,
        lights_as_list: false,
        multi_thread: true,
        threads: 6,
        show,
        save,
    }
}

/// Two great spheres in a checker pattern, one on top of the other.
pub fn checker_spheres(
    width: i32,
    samples: i32,
    depth: i32,
    show: bool,
    save: bool,
) -> (job: RenderJob)
    ensures
        job.spec_describes(SceneName::CheckerSpheres, width, samples, depth, show, save),
{
    let mut world: Vec<ObjectSpec> = Vec::new();
    world.push(
        ObjectSpec::sphere(
            Triple::whole(0, -10, 0),
            Decimal::whole(10),
            MaterialSpec::Lambertian(
                TextureSpec::Checker {
                    scale: Decimal::frac(3200),
                    even: Triple::frac(2000, 3000, 1000),
                    odd: Triple::frac(9000, 9000, 9000),
                },
            ),
        ),
    );
    world.push(
        ObjectSpec::sphere(
            Triple::whole(0, 10, 0),
            Decimal::whole(10),
            MaterialSpec::Lambertian(
                TextureSpec::Checker {
                    scale: Decimal::frac(3200),
                    even: Triple::frac(2000, 3000, 1000),
                    odd: Triple::frac(9000, 9000, 9000),
                },
            ),
        ),
    );
    let lights: Vec<ObjectSpec> = Vec::new();
    let camera = scene_camera(
        width,
        samples,
        depth,
        Ratio { width: 16, height: 9 },
        Decimal::whole(20),
        Triple::whole(13, 2, 3),
        Triple::whole(0, 0, 0),
        Decimal::whole(0),
        Triple::frac(7000, 8000, 10000),
    );
    RenderJob {
        name: SceneName::CheckerSpheres,
        camera,
        world,
        accelerate: false,
        lights,
        lights_as_list: false,
        multi_thread: true,
        threads: 6,
        show,
        save,
    }
}

/// What stands in the scene `earth`.
pub open spec fn spec_earth_world() -> Seq<ObjectSpec> {
    seq![
        ObjectSpec::spec_sphere(
            Triple::spec_whole(0, 0, 0),
            Decimal::spec_whole(2),
            MaterialSpec::Lambertian(TextureSpec::EarthMap),
        ),
    ]
}

/// What lights the scene `earth`.
pub open spec fn spec_earth_lights() -> Seq<ObjectSpec> {
    Seq::empty()
}

/// The camera of the scene `earth`.
pub open spec fn spec_earth_camera(width: i32, samples: i32, depth: i32) -> Camera {
    spec_scene_camera(
        width,
        samples,
        depth,
        Ratio { width: 16, height: 9 },
        Decimal::spec_whole(20),
        Triple::spec_whole(0, 0, 12),
        Triple::spec_whole(0, 0, 0),
        Decimal::spec_whole(0),
        Triple::spec_frac(7000, 8000, 10000),
    )
}

/// How the scene `earth` is carried out.
pub open spec fn spec_earth_plan(show: bool, save: bool) -> RenderPlan {
    RenderPlan {
        accelerate: false,
        lights_as_list: false,
        multi_thread: false,
        threads: 6,
        show,
        save,
    }
}

/// A globe that wears the map of the earth.
pub fn earth(
    width: i32,
    samples: i32,
    depth: i32,
    show: bool,
    save: bool,
) -> (job: RenderJob)
    ensures
        job.spec_describes(SceneName::Earth, width, samples, depth, show, save),
{
    let mut world: Vec<ObjectSpec> = Vec::new();
    world.push(
        ObjectSpec::sphere(
            Triple::whole(0, 0, 0),
            Decimal::whole(2),
            MaterialSpec::Lambertian(TextureSpec::EarthMap),
        ),
    );
    let lights: Vec<ObjectSpec> = Vec::new();
    let camera = scene_camera(
        width,
        samples,
        depth,
        Ratio { width: 16, height: 9 },
        Decimal::whole(20),
        Triple::whole(0, 0, 12),
        Triple::whole(0, 0, 0),
        Decimal::whole(0),
        Triple::frac(7000, 8000, 10000),
    );
    RenderJob {
        name: SceneName::Earth,
        camera,
        world,
        accelerate: false,
        lights,
        lights_as_list: false,
        multi_thread: false,
        threads: 6,
        show,
        save,
    }
}

/// What stands in the scene `two_perlin_sphere`.
pub open spec fn spec_two_perlin_sphere_world() -> Seq<ObjectSpec> {
    seq![
        ObjectSpec::spec_sphere(
            Triple::spec_whole(0, -1000, 0),
            Decimal::spec_whole(1000),
            MaterialSpec::Lambertian(TextureSpec::Noise { scale: Decimal::spec_whole(4) }),
        ),
        ObjectSpec::spec_sphere(
            Triple::spec_whole(0, 2, 0),
            Decimal::spec_whole(2),
            MaterialSpec::Lambertian(TextureSpec::Noise { scale: Decimal::spec_whole(4) }),
        ),
    ]
}

/// What lights the scene `two_perlin_sphere`.
pub open spec fn spec_two_perlin_sphere_lights() -> Seq<ObjectSpec> {
    Seq::empty()
}

/// The camera of the scene `two_perlin_sphere`.
pub open spec fn spec_two_perlin_sphere_camera(width: i32, samples: i32, depth: i32) -> Camera {
    spec_scene_camera(
        width,
        samples,
        depth,
        Ratio { width: 16, height: 9 },
        Decimal::spec_whole(20),
        Triple::spec_whole(13, 2, 3),
        Triple::spec_whole(0, 0, 0),
        Decimal::spec_whole(0),
        Triple::spec_frac(7000, 8000, 10000),
    )
}

/// How the scene `two_perlin_sphere` is carried out.
pub open spec fn spec_two_perlin_sphere_plan(show: bool, save: bool) -> RenderPlan {
    RenderPlan {
        accelerate: false,
        lights_as_list: false,
        multi_thread: true,
        threads: 6,
        show,
        save,
    }
}

/// A marbled sphere on marbled ground.
pub fn two_perlin_sphere(
    width: i32,
    samples: i32,
    depth: i32,
    show: bool,
    save: bool,
) -> (job: RenderJob)
    ensures
        job.spec_describes(SceneName::PerlinSphere, width, samples, depth, show, save),
{
    let mut world: Vec<ObjectSpec> = Vec::new();
    world.push(
        ObjectSpec::sphere(
            Triple::whole(0, -1000, 0),
            Decimal::whole(1000),
            MaterialSpec::Lambertian(TextureSpec::Noise { scale: Decimal::whole(4) }),
        ),
    );
    world.push(
        ObjectSpec::sphere(
            Triple::whole(0, 2, 0),
            Decimal::whole(2),
            MaterialSpec::Lambertian(TextureSpec::Noise { scale: Decimal::whole(4) }),
        ),
    );
    let lights: Vec<ObjectSpec> = Vec::new();
    let camera = scene_camera(
        width,
        samples,
        depth,
        Ratio { width: 16, height: 9 },
        Decimal::whole(20),
        Triple::whole(13, 2, 3),
        Triple::whole(0, 0, 0),
        Decimal::whole(0),
        Triple::frac(7000, 8000, 10000),
    );
    RenderJob {
        name: SceneName::PerlinSphere,
        camera,
        world,
        accelerate: false,
        lights,
        lights_as_list: false,
        multi_thread: true,
        threads: 6,
        show,
        save,
    }
}

/// What stands in the scene `quads`.
pub open spec fn spec_quads_world() -> Seq<ObjectSpec> {
    seq![
        ObjectSpec::spec_quad(
            Triple::spec_whole(-3, -2, 5),
            Triple::spec_whole(0, 0, -4),
            Triple::spec_whole(0, 4, 0),
            spec_matte(10000, 2000, 2000),
        ),
        ObjectSpec::spec_quad(
            Triple::spec_whole(-2, -2, 0),
            Triple::spec_whole(4, 0, 0),
            Triple::spec_whole(0, 4, 0),
            spec_matte(2000, 10000, 2000),
        ),
        ObjectSpec::spec_quad(
            Triple::spec_whole(3, -2, 1),
            Triple::spec_whole(0, 0, 4),
            Triple::spec_whole(0, 4, 0),
            spec_matte(2000, 2000, 10000),
        ),
        ObjectSpec::spec_quad(
            Triple::spec_whole(-2, 3, 1),
            Triple::spec_whole(4, 0, 0),
            Triple::spec_whole(0, 0, 4),
            spec_matte(10000, 5000, 2000),
        ),
        ObjectSpec::spec_quad(
            Triple::spec_whole(-2, -3, 5),
            Triple::spec_whole(4, 0, 0),
            Triple::spec_whole(0, 0, -4),
            spec_matte(2000, 8000, 8000),
        ),
    ]
}

/// What lights the scene `quads`.
pub open spec fn spec_quads_lights() -> Seq<ObjectSpec> {
    Seq::empty()
}

/// The camera of the scene `quads`.
pub open spec fn spec_quads_camera(width: i32, samples: i32, depth: i32) -> Camera {
    spec_scene_camera(
        width,
        samples,
        depth,
        Ratio { width: 1, height: 1 },
        Decimal::spec_whole(80),
        Triple::spec_whole(0, 0, 9),
        Triple::spec_whole(0, 0, 0),
        Decimal::spec_whole(0),
        Triple::spec_frac(7000, 8000, 10000),
    )
}

/// How the scene `quads` is carried out.
pub open spec fn spec_quads_plan(show: bool, save: bool) -> RenderPlan {
    RenderPlan {
        accelerate: false,
        lights_as_list: false,
        multi_thread: true,
        threads: 6,
        show,
        save,
    }
}

/// Five coloured squares that face one another.
pub fn quads(
    width: i32,
    samples: i32,
    depth: i32,
    show: bool,
    save: bool,
) -> (job: RenderJob)
    ensures
        job.spec_describes(SceneName::Quads, width, samples, depth, show, save),
{
    let mut world: Vec<ObjectSpec> = Vec::new();
    world.push(
        ObjectSpec::quad(
            Triple::whole(-3, -2, 5),
            Triple::whole(0, 0, -4),
            Triple::whole(0, 4, 0),
            matte(10000, 2000, 2000),
        ),
    );
    world.push(
        ObjectSpec::quad(
            Triple::whole(-2, -2, 0),
            Triple::whole(4, 0, 0),
            Triple::whole(0, 4, 0),
            matte(2000, 10000, 2000),
        ),
    );
    world.push(
        ObjectSpec::quad(
            Triple::whole(3, -2, 1),
            Triple::whole(0, 0, 4),
            Triple::whole(0, 4, 0),
            matte(2000, 2000, 10000),
        ),
    );
    world.push(
        ObjectSpec::quad(
            Triple::whole(-2, 3, 1),
            Triple::whole(4, 0, 0),
            Triple::whole(0, 0, 4),
            matte(10000, 5000, 2000),
        ),
    );
    world.push(
        ObjectSpec::quad(
            Triple::whole(-2, -3, 5),
            Triple::whole(4, 0, 0),
            Triple::whole(0, 0, -4),
            matte(2000, 8000, 8000),
        ),
    );
    let lights: Vec<ObjectSpec> = Vec::new();
    let camera = scene_camera(
        width,
        samples,
        depth,
        Ratio { width: 1, height: 1 },
        Decimal::whole(80),
        Triple::whole(0, 0, 9),
        Triple::whole(0, 0, 0),
        Decimal::whole(0),
        Triple::frac(7000, 8000, 10000),
    );
    RenderJob {
        name: SceneName::Quads,
        camera,
        world,
        accelerate: false,
        lights,
        lights_as_list: false,
        multi_thread: true,
        threads: 6,
        show,
        save,
    }
}

/// What stands in the scene `simple_light`.
pub open spec fn spec_simple_light_world() -> Seq<ObjectSpec> {
    seq![
        ObjectSpec::spec_sphere(
            Triple::spec_whole(0, -1000, 0),
            Decimal::spec_whole(-1000),
            MaterialSpec::Lambertian(TextureSpec::Noise { scale: Decimal::spec_whole(4) }),
        ),
        ObjectSpec::spec_sphere(
            Triple::spec_whole(0, 2, 0),
            Decimal::spec_whole(2),
            MaterialSpec::Lambertian(TextureSpec::Noise { scale: Decimal::spec_whole(4) }),
        ),
        ObjectSpec::spec_sphere(
            Triple::spec_whole(0, 7, 0),
            Decimal::spec_whole(2),
            MaterialSpec::DiffuseLight(Triple::spec_whole(4, 4, 4)),
        ),
        ObjectSpec::spec_quad(
            Triple::spec_whole(3, 1, -2),
            Triple::spec_whole(2, 0, 0),
            Triple::spec_whole(0, 2, 0),
            MaterialSpec::DiffuseLight(Triple::spec_whole(4, 4, 4)),
        ),
    ]
}

/// What lights the scene `simple_light`.
pub open spec fn spec_simple_light_lights() -> Seq<ObjectSpec> {
    seq![
        ObjectSpec::spec_sphere(
            Triple::spec_whole(0, 7, 0),
            Decimal::spec_whole(2),
            MaterialSpec::DiffuseLight(Triple::spec_whole(4, 4, 4)),
        ),
        ObjectSpec::spec_quad(
            Triple::spec_whole(3, 1, -2),
            Triple::spec_whole(2, 0, 0),
            Triple::spec_whole(0, 2, 0),
            MaterialSpec::DiffuseLight(Triple::spec_whole(4, 4, 4)),
        ),
    ]
}

/// The camera of the scene `simple_light`.
pub open spec fn spec_simple_light_camera(width: i32, samples: i32, depth: i32) -> Camera {
    spec_scene_camera(
        width,
        samples,
        depth,
        Ratio { width: 16, height: 9 },
        Decimal::spec_whole(20),
        Triple::spec_whole(26, 3, 6),
        Triple::spec_whole(0, 2, 0),
        Decimal::spec_whole(0),
        Triple::spec_whole(0, 0, 0),
    )
}

/// How the scene `simple_light` is carried out.
pub open spec fn spec_simple_light_plan(show: bool, save: bool) -> RenderPlan {
    RenderPlan {
        accelerate: false,
        lights_as_list: true,
        multi_thread: true,
        threads: 6,
        show,
        save,
    }
}

/// A marbled sphere in the dark, lit by a lamp above it and a lit square beside
/// it.
pub fn simple_light(
    width: i32,
    samples: i32,
    depth: i32,
    show: bool,
    save: bool,
) -> (job: RenderJob)
    ensures
        job.spec_describes(SceneName::SimpleLight, width, samples, depth, show, save),
{
    let mut world: Vec<ObjectSpec> = Vec::new();
    world.push(
        ObjectSpec::sphere(
            Triple::whole(0, -1000, 0),
            Decimal::whole(-1000),
            MaterialSpec::Lambertian(TextureSpec::Noise { scale: Decimal::whole(4) }),
        ),
    );
    world.push(
        ObjectSpec::sphere(
            Triple::whole(0, 2, 0),
            Decimal::whole(2),
            MaterialSpec::Lambertian(TextureSpec::Noise { scale: Decimal::whole(4) }),
        ),
    );
    world.push(
        ObjectSpec::sphere(
            Triple::whole(0, 7, 0),
            Decimal::whole(2),
            MaterialSpec::DiffuseLight(Triple::whole(4, 4, 4)),
        ),
    );
    world.push(
        ObjectSpec::quad(
            Triple::whole(3, 1, -2),
            Triple::whole(2, 0, 0),
            Triple::whole(0, 2, 0),
            MaterialSpec::DiffuseLight(Triple::whole(4, 4, 4)),
        ),
    );
    let mut lights: Vec<ObjectSpec> = Vec::new();
    lights.push(
        ObjectSpec::sphere(
            Triple::whole(0, 7, 0),
            Decimal::whole(2),
            MaterialSpec::DiffuseLight(Triple::whole(4, 4, 4)),
        ),
    );
    lights.push(
        ObjectSpec::quad(
            Triple::whole(3, 1, -2),
            Triple::whole(2, 0, 0),
            Triple::whole(0, 2, 0),
            MaterialSpec::DiffuseLight(Triple::whole(4, 4, 4)),
        ),
    );
    let camera = scene_camera(
        width,
        samples,
        depth,
        Ratio { width: 16, height: 9 },
        Decimal::whole(20),
        Triple::whole(26, 3, 6),
        Triple::whole(0, 2, 0),
        Decimal::whole(0),
        Triple::whole(0, 0, 0),
    );
    RenderJob {
        name: SceneName::SimpleLight,
        camera,
        world,
        accelerate: false,
        lights,
        lights_as_list: true,
        multi_thread: true,
        threads: 6,
        show,
        save,
    }
}

/// What stands in the scene `cornell_box`.
pub open spec fn spec_cornell_box_world() -> Seq<ObjectSpec> {
    seq![
        ObjectSpec::spec_quad(
            Triple::spec_whole(343, 554, 332),
            Triple::spec_whole(-130, 0, 0),
            Triple::spec_whole(0, 0, -105),
            MaterialSpec::DiffuseLight(Triple::spec_whole(15, 15, 15)),
        ),
        ObjectSpec::spec_quad(
            Triple::spec_whole(555, 0, 0),
            Triple::spec_whole(0, 555, 0),
            Triple::spec_whole(0, 0, 555),
            spec_matte(1200, 4500, 1500),
        ),
        ObjectSpec::spec_quad(
            Triple::spec_whole(0, 0, 0),
            Triple::spec_whole(0, 555, 0),
            Triple::spec_whole(0, 0, 555),
            spec_matte(6500, 500, 500),
        ),
        ObjectSpec::spec_quad(
            Triple::spec_whole(0, 0, 0),
            Triple::spec_whole(555, 0, 0),
            Triple::spec_whole(0, 0, 555),
            spec_matte(7300, 7300, 7300),
        ),
        ObjectSpec::spec_quad(
            Triple::spec_whole(555, 555, 555),
            Triple::spec_whole(-555, 0, 0),
            Triple::spec_whole(0, 0, -555),
            spec_matte(7300, 7300, 7300),
        ),
        ObjectSpec::spec_quad(
            Triple::spec_whole(0, 0, 555),
            Triple::spec_whole(555, 0, 0),
            Triple::spec_whole(0, 555, 0),
            spec_matte(7300, 7300, 7300),
        ),
        ObjectSpec::spec_cuboid(
            Triple::spec_whole(0, 0, 0),
            Triple::spec_whole(165, 330, 165),
            spec_matte(7300, 7300, 7300),
        ).spec_placed(Decimal::spec_whole(15), Triple::spec_whole(265, 0, 295)),
        ObjectSpec::spec_cuboid(
            Triple::spec_whole(0, 0, 0),
            Triple::spec_whole(165, 165, 165),
            spec_matte(7300, 7300, 7300),
        ).spec_placed(Decimal::spec_whole(-18), Triple::spec_whole(130, 0, 65)),
    ]
}

/// What lights the scene `cornell_box`.
pub open spec fn spec_cornell_box_lights() -> Seq<ObjectSpec> {
    seq![
        ObjectSpec::spec_quad(
            Triple::spec_whole(343, 554, 332),
            Triple::spec_whole(-130, 0, 0),
            Triple::spec_whole(0, 0, -105),
            MaterialSpec::DiffuseLight(Triple::spec_whole(15, 15, 15)),
        ),
    ]
}

/// The camera of the scene `cornell_box`.
pub open spec fn spec_cornell_box_camera(width: i32, samples: i32, depth: i32) -> Camera {
    spec_scene_camera(
        width,
        samples,
        depth,
        Ratio { width: 1, height: 1 },
        Decimal::spec_whole(40),
        Triple::spec_whole(278, 278, -800),
        Triple::spec_whole(278, 278, 0),
        Decimal::spec_whole(0),
        Triple::spec_whole(0, 0, 0),
    )
}

/// How the scene `cornell_box` is carried out.
pub open spec fn spec_cornell_box_plan(show: bool, save: bool) -> RenderPlan {
    RenderPlan {
        accelerate: false,
        lights_as_list: false,
        multi_thread: true,
        threads: 6,
        show,
        save,
    }
}

/// The Cornell box: a room with a red and a green wall, a light in the ceiling
/// and two white boxes.
pub fn cornell_box(
    width: i32,
    samples: i32,
    depth: i32,
    show: bool,
    save: bool,
) -> (job: RenderJob)
    ensures
        job.spec_describes(SceneName::CornellBox, width, samples, depth, show, save),
{
    let mut world: Vec<ObjectSpec> = Vec::new();
    world.push(
        ObjectSpec::quad(
            Triple::whole(343, 554, 332),
            Triple::whole(-130, 0, 0),
            Triple::whole(0, 0, -105),
            MaterialSpec::DiffuseLight(Triple::whole(15, 15, 15)),
        ),
    );
    world.push(
        ObjectSpec::quad(
            Triple::whole(555, 0, 0),
            Triple::whole(0, 555, 0),
            Triple::whole(0, 0, 555),
            matte(1200, 4500, 1500),
        ),
    );
    world.push(
        ObjectSpec::quad(
            Triple::whole(0, 0, 0),
            Triple::whole(0, 555, 0),
            Triple::whole(0, 0, 555),
            matte(6500, 500, 500),
        ),
    );
    world.push(
        ObjectSpec::quad(
            Triple::whole(0, 0, 0),
            Triple::whole(555, 0, 0),
            Triple::whole(0, 0, 555),
            matte(7300, 7300, 7300),
        ),
    );
    world.push(
        ObjectSpec::quad(
            Triple::whole(555, 555, 555),
            Triple::whole(-555, 0, 0),
            Triple::whole(0, 0, -555),
            matte(7300, 7300, 7300),
        ),
    );
    world.push(
        ObjectSpec::quad(
            Triple::whole(0, 0, 555),
            Triple::whole(555, 0, 0),
            Triple::whole(0, 555, 0),
            matte(7300, 7300, 7300),
        ),
    );
    world.push(
        ObjectSpec::cuboid(
            Triple::whole(0, 0, 0),
            Triple::whole(165, 330, 165),
            matte(7300, 7300, 7300),
        ).placed(Decimal::whole(15), Triple::whole(265, 0, 295)),
    );
    world.push(
        ObjectSpec::cuboid(
            Triple::whole(0, 0, 0),
            Triple::whole(165, 165, 165),
            matte(7300, 7300, 7300),
        ).placed(Decimal::whole(-18), Triple::whole(130, 0, 65)),
    );
    let mut lights: Vec<ObjectSpec> = Vec::new();
    lights.push(
        ObjectSpec::quad(
            Triple::whole(343, 554, 332),
            Triple::whole(-130, 0, 0),
            Triple::whole(0, 0, -105),
            MaterialSpec::DiffuseLight(Triple::whole(15, 15, 15)),
        ),
    );
    let camera = scene_camera(
        width,
        samples,
        depth,
        Ratio { width: 1, height: 1 },
        Decimal::whole(40),
        Triple::whole(278, 278, -800),
        Triple::whole(278, 278, 0),
        Decimal::whole(0),
        Triple::whole(0, 0, 0),
    );
    RenderJob {
        name: SceneName::CornellBox,
        camera,
        world,
        accelerate: false,
        lights,
        lights_as_list: false,
        multi_thread: true,
        threads: 6,
        show,
        save,
    }
}

/// What stands in the scene `cornell_smoke`.
pub open spec fn spec_cornell_smoke_world() -> Seq<ObjectSpec> {
    seq![
        ObjectSpec::spec_quad(
            Triple::spec_whole(113, 554, 127),
            Triple::spec_whole(330, 0, 0),
            Triple::spec_whole(0, 0, 305),
            MaterialSpec::DiffuseLight(Triple::spec_whole(7, 7, 7)),
        ),
        ObjectSpec::spec_quad(
            Triple::spec_whole(555, 0, 0),
            Triple::spec_whole(0, 555, 0),
            Triple::spec_whole(0, 0, 555),
            spec_matte(1200, 4500, 1500),
        ),
        ObjectSpec::spec_quad(
            Triple::spec_whole(0, 0, 0),
            Triple::spec_whole(0, 555, 0),
            Triple::spec_whole(0, 0, 555),
            spec_matte(6500, 500, 500),
        ),
        ObjectSpec::spec_quad(
            Triple::spec_whole(0, 0, 0),
            Triple::spec_whole(555, 0, 0),
            Triple::spec_whole(0, 0, 555),
            spec_matte(7300, 7300, 7300),
        ),
        ObjectSpec::spec_quad(
            Triple::spec_whole(555, 555, 555),
            Triple::spec_whole(-555, 0, 0),
            Triple::spec_whole(0, 0, -555),
            spec_matte(7300, 7300, 7300),
        ),
        ObjectSpec::spec_quad(
            Triple::spec_whole(0, 0, 555),
            Triple::spec_whole(555, 0, 0),
            Triple::spec_whole(0, 555, 0),
            spec_matte(7300, 7300, 7300),
        ),
        ObjectSpec::spec_cuboid(
            Triple::spec_whole(0, 0, 0),
            Triple::spec_whole(165, 330, 165),
            spec_matte(7300, 7300, 7300),
        )
            .spec_placed(Decimal::spec_whole(15), Triple::spec_whole(265, 0, 295))
            .spec_filled(Decimal::spec_frac(100), Triple::spec_whole(0, 0, 0)),
        ObjectSpec::spec_cuboid(
            Triple::spec_whole(0, 0, 0),
            Triple::spec_whole(165, 165, 165),
            spec_matte(7300, 7300, 7300),
        )
            .spec_placed(Decimal::spec_whole(-18), Triple::spec_whole(130, 0, 65))
            .spec_filled(Decimal::spec_frac(100), Triple::spec_whole(1, 1, 1)),
    ]
}

/// What lights the scene `cornell_smoke`.
pub open spec fn spec_cornell_smoke_lights() -> Seq<ObjectSpec> {
    seq![
        ObjectSpec::spec_quad(
            Triple::spec_whole(113, 554, 127),
            Triple::spec_whole(330, 0, 0),
            Triple::spec_whole(0, 0, 305),
            MaterialSpec::DiffuseLight(Triple::spec_whole(7, 7, 7)),
        ),
    ]
}

/// The camera of the scene `cornell_smoke`.
pub open spec fn spec_cornell_smoke_camera(width: i32, samples: i32, depth: i32) -> Camera {
    spec_scene_camera(
        width,
        samples,
        depth,
        Ratio { width: 1, height: 1 },
        Decimal::spec_whole(40),
        Triple::spec_whole(278, 278, -800),
        Triple::spec_whole(278, 278, 0),
        Decimal::spec_whole(0),
        Triple::spec_whole(0, 0, 0),
    )
}

/// How the scene `cornell_smoke` is carried out.
pub open spec fn spec_cornell_smoke_plan(show: bool, save: bool) -> RenderPlan {
    RenderPlan {
        accelerate: false,
        lights_as_list: true,
        multi_thread: true,
        threads: 6,
        show,
        save,
    }
}

/// The Cornell box with its two boxes turned to smoke, one black and one white.
pub fn cornell_smoke(
    width: i32,
    samples: i32,
    depth: i32,
    show: bool,
    save: bool,
) -> (job: RenderJob)
    ensures
        job.spec_describes(SceneName::CornellSmoke, width, samples, depth, show, save),
{
    let mut world: Vec<ObjectSpec> = Vec::new();
    world.push(
        ObjectSpec::quad(
            Triple::whole(113, 554, 127),
            Triple::whole(330, 0, 0),
            Triple::whole(0, 0, 305),
            MaterialSpec::DiffuseLight(Triple::whole(7, 7, 7)),
        ),
    );
    world.push(
        ObjectSpec::quad(
            Triple::whole(555, 0, 0),
            Triple::whole(0, 555, 0),
            Triple::whole(0, 0, 555),
            matte(1200, 4500, 1500),
        ),
    );
    world.push(
        ObjectSpec::quad(
            Triple::whole(0, 0, 0),
            Triple::whole(0, 555, 0),
            Triple::whole(0, 0, 555),
            matte(6500, 500, 500),
        ),
    );
    world.push(
        ObjectSpec::quad(
            Triple::whole(0, 0, 0),
            Triple::whole(555, 0, 0),
            Triple::whole(0, 0, 555),
            matte(7300, 7300, 7300),
        ),
    );
    world.push(
        ObjectSpec::quad(
            Triple::whole(555, 555, 555),
            Triple::whole(-555, 0, 0),
            Triple::whole(0, 0, -555),
            matte(7300, 7300, 7300),
        ),
    );
    world.push(
        ObjectSpec::quad(
            Triple::whole(0, 0, 555),
            Triple::whole(555, 0, 0),
            Triple::whole(0, 555, 0),
            matte(7300, 7300, 7300),
        ),
    );
    world.push(
        ObjectSpec::cuboid(
            Triple::whole(0, 0, 0),
            Triple::whole(165, 330, 165),
            matte(7300, 7300, 7300),
        )
            .placed(Decimal::whole(15), Triple::whole(265, 0, 295))
            .filled(Decimal::frac(100), Triple::whole(0, 0, 0)),
    );
    world.push(
        ObjectSpec::cuboid(
            Triple::whole(0, 0, 0),
            Triple::whole(165, 165, 165),
            matte(7300, 7300, 7300),
        )
            .placed(Decimal::whole(-18), Triple::whole(130, 0, 65))
            .filled(Decimal::frac(100), Triple::whole(1, 1, 1)),
    );
    let mut lights: Vec<ObjectSpec> = Vec::new();
    lights.push(
        ObjectSpec::quad(
            Triple::whole(113, 554, 127),
            Triple::whole(330, 0, 0),
            Triple::whole(0, 0, 305),
            MaterialSpec::DiffuseLight(Triple::whole(7, 7, 7)),
        ),
    );
    let camera = scene_camera(
        width,
        samples,
        depth,
        Ratio { width: 1, height: 1 },
        Decimal::whole(40),
        Triple::whole(278, 278, -800),
        Triple::whole(278, 278, 0),
        Decimal::whole(0),
        Triple::whole(0, 0, 0),
    );
    RenderJob {
        name: SceneName::CornellSmoke,
        camera,
        world,
        accelerate: false,
        lights,
        lights_as_list: true,
        multi_thread: true,
        threads: 6,
        show,
        save,
    }
}

/// What stands in the scene `final_scene_book2`.
pub open spec fn spec_final_scene_book2_world() -> Seq<ObjectSpec> {
    seq![
        ObjectSpec::spec_plain(
            ShapeSpec::BoxGrid {
                per_side: 20,
                cell: Decimal::spec_whole(100),
                low_corner: Triple::spec_whole(-1000, 0, -1000),
                height_low: Decimal::spec_whole(1),
                height_high: Decimal::spec_whole(101),
            },
            spec_matte(4800, 8300, 5300),
        ),
        ObjectSpec::spec_quad(
            Triple::spec_whole(123, 554, 147),
            Triple::spec_whole(300, 0, 0),
            Triple::spec_whole(0, 0, 265),
            MaterialSpec::DiffuseLight(Triple::spec_whole(7, 7, 7)),
        ),
        ObjectSpec::spec_plain(
            ShapeSpec::MovingSphere {
                center_start: Triple::spec_whole(400, 400, 200),
                center_end: Triple::spec_whole(430, 400, 200),
                radius: Decimal::spec_whole(50),
            },
            spec_matte(7000, 3000, 1000),
        ),
        ObjectSpec::spec_sphere(
            Triple::spec_whole(260, 150, 45),
            Decimal::spec_whole(50),
            MaterialSpec::Dielectric { index: Decimal::spec_frac(15000) },
        ),
        ObjectSpec::spec_sphere(
            Triple::spec_whole(0, 150, 145),
            Decimal::spec_whole(50),
            MaterialSpec::Metal { albedo: Triple::spec_frac(8000, 8000, 9000), fuzz: Decimal::spec_whole(1) },
        ),
        ObjectSpec::spec_sphere(
            Triple::spec_whole(360, 150, 145),
            Decimal::spec_whole(70),
            MaterialSpec::Dielectric { index: Decimal::spec_frac(15000) },
        ),
        ObjectSpec::spec_sphere(
            Triple::spec_whole(360, 150, 145),
            Decimal::spec_whole(70),
            MaterialSpec::Dielectric { index: Decimal::spec_frac(15000) },
        ).spec_filled(Decimal::spec_frac(2000), Triple::spec_frac(2000, 4000, 9000)),
        ObjectSpec::spec_sphere(
            Triple::spec_whole(0, 0, 0),
            Decimal::spec_whole(5000),
            MaterialSpec::Dielectric { index: Decimal::spec_frac(15000) },
        ).spec_filled(Decimal::spec_frac(1), Triple::spec_whole(1, 1, 1)),
        ObjectSpec::spec_sphere(
            Triple::spec_whole(400, 200, 400),
            Decimal::spec_whole(100),
            MaterialSpec::Lambertian(TextureSpec::EarthMap),
        ),
        ObjectSpec::spec_sphere(
            Triple::spec_whole(220, 280, 300),
            Decimal::spec_whole(80),
            MaterialSpec::Lambertian(TextureSpec::Noise { scale: Decimal::spec_frac(1000) }),
        ),
        ObjectSpec::spec_plain(
            ShapeSpec::SphereCloud {
                count: 1000,
                low: Decimal::spec_whole(0),
                high: Decimal::spec_whole(165),
                radius: Decimal::spec_whole(10),
            },
            spec_matte(7300, 7300, 7300),
        ).spec_placed(Decimal::spec_whole(15), Triple::spec_whole(-100, 270, 395)),
    ]
}

/// What lights the scene `final_scene_book2`.
pub open spec fn spec_final_scene_book2_lights() -> Seq<ObjectSpec> {
    seq![
        ObjectSpec::spec_quad(
            Triple::spec_whole(123, 554, 147),
            Triple::spec_whole(300, 0, 0),
            Triple::spec_whole(0, 0, 265),
            MaterialSpec::DiffuseLight(Triple::spec_whole(7, 7, 7)),
        ),
    ]
}

/// The camera of the scene `final_scene_book2`.
pub open spec fn spec_final_scene_book2_camera(width: i32, samples: i32, depth: i32) -> Camera {
    spec_scene_camera(
        width,
        samples,
        depth,
        Ratio { width: 1, height: 1 },
        Decimal::spec_whole(40),
        Triple::spec_whole(478, 278, -600),
        Triple::spec_whole(278, 278, 0),
        Decimal::spec_whole(0),
        Triple::spec_whole(0, 0, 0),
    )
}

/// How the scene `final_scene_book2` is carried out.
pub open spec fn spec_final_scene_book2_plan(show: bool, save: bool) -> RenderPlan {
    RenderPlan {
        accelerate: false,
        lights_as_list: false,
        multi_thread: true,
        threads: 6,
        show,
        save,
    }
}

/// A floor of boxes of uneven height under a lamp, with a moving sphere, one of
/// glass, one of metal, a blue haze in a glass ball, mist over everything, a
/// globe, a marbled sphere and a cube of a thousand small spheres.
pub fn final_scene_book2(
    width: i32,
    samples: i32,
    depth: i32,
    show: bool,
    save: bool,
) -> (job: RenderJob)
    ensures
        job.spec_describes(SceneName::Book2Final, width, samples, depth, show, save),
{
    let mut world: Vec<ObjectSpec> = Vec::new();
    world.push(
        ObjectSpec::plain(
            ShapeSpec::BoxGrid {
                per_side: 20,
                cell: Decimal::whole(100),
                low_corner: Triple::whole(-1000, 0, -1000),
                height_low: Decimal::whole(1),
                height_high: Decimal::whole(101),
            },
            matte(4800, 8300, 5300),
        ),
    );
    world.push(
        ObjectSpec::quad(
            Triple::whole(123, 554, 147),
            Triple::whole(300, 0, 0),
            Triple::whole(0, 0, 265),
            MaterialSpec::DiffuseLight(Triple::whole(7, 7, 7)),
        ),
    );
    world.push(
        ObjectSpec::plain(
            ShapeSpec::MovingSphere {
                center_start: Triple::whole(400, 400, 200),
                center_end: Triple::whole(430, 400, 200),
                radius: Decimal::whole(50),
            },
            matte(7000, 3000, 1000),
        ),
    );
    world.push(
        ObjectSpec::sphere(
            Triple::whole(260, 150, 45),
            Decimal::whole(50),
            MaterialSpec::Dielectric { index: Decimal::frac(15000) },
        ),
    );
    world.push(
        ObjectSpec::sphere(
            Triple::whole(0, 150, 145),
            Decimal::whole(50),
            MaterialSpec::Metal { albedo: Triple::frac(8000, 8000, 9000), fuzz: Decimal::whole(1) },
        ),
    );
    world.push(
        ObjectSpec::sphere(
            Triple::whole(360, 150, 145),
            Decimal::whole(70),
            MaterialSpec::Dielectric { index: Decimal::frac(15000) },
        ),
    );
    world.push(
        ObjectSpec::sphere(
            Triple::whole(360, 150, 145),
            Decimal::whole(70),
            MaterialSpec::Dielectric { index: Decimal::frac(15000) },
        ).filled(Decimal::frac(2000), Triple::frac(2000, 4000, 9000)),
    );
    world.push(
        ObjectSpec::sphere(
            Triple::whole(0, 0, 0),
            Decimal::whole(5000),
            MaterialSpec::Dielectric { index: Decimal::frac(15000) },
        ).filled(Decimal::frac(1), Triple::whole(1, 1, 1)),
    );
    world.push(
        ObjectSpec::sphere(
            Triple::whole(400, 200, 400),
            Decimal::whole(100),
            MaterialSpec::Lambertian(TextureSpec::EarthMap),
        ),
    );
    world.push(
        ObjectSpec::sphere(
            Triple::whole(220, 280, 300),
            Decimal::whole(80),
            MaterialSpec::Lambertian(TextureSpec::Noise { scale: Decimal::frac(1000) }),
        ),
    );
    world.push(
        ObjectSpec::plain(
            ShapeSpec::SphereCloud {
                count: 1000,
                low: Decimal::whole(0),
                high: Decimal::whole(165),
                radius: Decimal::whole(10),
            },
            matte(7300, 7300, 7300),
        ).placed(Decimal::whole(15), Triple::whole(-100, 270, 395)),
    );
    let mut lights: Vec<ObjectSpec> = Vec::new();
    lights.push(
        ObjectSpec::quad(
            Triple::whole(123, 554, 147),
            Triple::whole(300, 0, 0),
            Triple::whole(0, 0, 265),
            MaterialSpec::DiffuseLight(Triple::whole(7, 7, 7)),
        ),
    );
    let camera = scene_camera(
        width,
        samples,
        depth,
        Ratio { width: 1, height: 1 },
        Decimal::whole(40),
        Triple::whole(478, 278, -600),
        Triple::whole(278, 278, 0),
        Decimal::whole(0),
        Triple::whole(0, 0, 0),
    );
    RenderJob {
        name: SceneName::Book2Final,
        camera,
        world,
        accelerate: false,
        lights,
        lights_as_list: false,
        multi_thread: true,
        threads: 6,
        show,
        save,
    }
}

/// What stands in the scene `cornell_box_metal`.
pub open spec fn spec_cornell_box_metal_world() -> Seq<ObjectSpec> {
    seq![
        ObjectSpec::spec_quad(
            Triple::spec_whole(343, 554, 332),
            Triple::spec_whole(-130, 0, 0),
            Triple::spec_whole(0, 0, -105),
            MaterialSpec::DiffuseLight(Triple::spec_whole(15, 15, 15)),
        ),
        ObjectSpec::spec_quad(
            Triple::spec_whole(555, 0, 0),
            Triple::spec_whole(0, 555, 0),
            Triple::spec_whole(0, 0, 555),
            spec_matte(1200, 4500, 1500),
        ),
        ObjectSpec::spec_quad(
            Triple::spec_whole(0, 0, 0),
            Triple::spec_whole(0, 555, 0),
            Triple::spec_whole(0, 0, 555),
            spec_matte(6500, 500, 500),
        ),
        ObjectSpec::spec_quad(
            Triple::spec_whole(0, 0, 0),
            Triple::spec_whole(555, 0, 0),
            Triple::spec_whole(0, 0, 555),
            spec_matte(7300, 7300, 7300),
        ),
        ObjectSpec::spec_quad(
            Triple::spec_whole(555, 555, 555),
            Triple::spec_whole(-555, 0, 0),
            Triple::spec_whole(0, 0, -555),
            spec_matte(7300, 7300, 7300),
        ),
        ObjectSpec::spec_quad(
            Triple::spec_whole(0, 0, 555),
            Triple::spec_whole(555, 0, 0),
            Triple::spec_whole(0, 555, 0),
            spec_matte(7300, 7300, 7300),
        ),
        ObjectSpec::spec_cuboid(
            Triple::spec_whole(0, 0, 0),
            Triple::spec_whole(165, 330, 165),
            MaterialSpec::Metal { albedo: Triple::spec_frac(8000, 8500, 8800), fuzz: Decimal::spec_whole(0) },
        ).spec_placed(Decimal::spec_whole(15), Triple::spec_whole(265, 0, 295)),
        ObjectSpec::spec_cuboid(
            Triple::spec_whole(0, 0, 0),
            Triple::spec_whole(165, 165, 165),
            spec_matte(7300, 7300, 7300),
        ).spec_placed(Decimal::spec_whole(-18), Triple::spec_whole(130, 0, 65)),
    ]
}

/// What lights the scene `cornell_box_metal`.
pub open spec fn spec_cornell_box_metal_lights() -> Seq<ObjectSpec> {
    seq![
        ObjectSpec::spec_quad(
            Triple::spec_whole(343, 554, 332),
            Triple::spec_whole(-130, 0, 0),
            Triple::spec_whole(0, 0, -105),
            MaterialSpec::DiffuseLight(Triple::spec_whole(15, 15, 15)),
        ),
    ]
}

/// The camera of the scene `cornell_box_metal`.
pub open spec fn spec_cornell_box_metal_camera(width: i32, samples: i32, depth: i32) -> Camera {
    spec_scene_camera(
        width,
        samples,
        depth,
        Ratio { width: 1, height: 1 },
        Decimal::spec_whole(40),
        Triple::spec_whole(278, 278, -800),
        Triple::spec_whole(278, 278, 0),
        Decimal::spec_whole(0),
        Triple::spec_whole(0, 0, 0),
    )
}

/// How the scene `cornell_box_metal` is carried out.
pub open spec fn spec_cornell_box_metal_plan(show: bool, save: bool) -> RenderPlan {
    RenderPlan {
        accelerate: false,
        lights_as_list: false,
        multi_thread: true,
        threads: 7,
        show,
        save,
    }
}

/// The Cornell box with its tall box made of polished metal.
pub fn cornell_box_metal(
    width: i32,
    samples: i32,
    depth: i32,
    show: bool,
    save: bool,
) -> (job: RenderJob)
    ensures
        job.spec_describes(SceneName::CornellBoxMetal, width, samples, depth, show, save),
{
    let mut world: Vec<ObjectSpec> = Vec::new();
    world.push(
        ObjectSpec::quad(
            Triple::whole(343, 554, 332),
            Triple::whole(-130, 0, 0),
            Triple::whole(0, 0, -105),
            MaterialSpec::DiffuseLight(Triple::whole(15, 15, 15)),
        ),
    );
    world.push(
        ObjectSpec::quad(
            Triple::whole(555, 0, 0),
            Triple::whole(0, 555, 0),
            Triple::whole(0, 0, 555),
            matte(1200, 4500, 1500),
        ),
    );
    world.push(
        ObjectSpec::quad(
            Triple::whole(0, 0, 0),
            Triple::whole(0, 555, 0),
            Triple::whole(0, 0, 555),
            matte(6500, 500, 500),
        ),
    );
    world.push(
        ObjectSpec::quad(
            Triple::whole(0, 0, 0),
            Triple::whole(555, 0, 0),
            Triple::whole(0, 0, 555),
            matte(7300, 7300, 7300),
        ),
    );
    world.push(
        ObjectSpec::quad(
            Triple::whole(555, 555, 555),
            Triple::whole(-555, 0, 0),
            Triple::whole(0, 0, -555),
            matte(7300, 7300, 7300),
        ),
    );
    world.push(
        ObjectSpec::quad(
            Triple::whole(0, 0, 555),
            Triple::whole(555, 0, 0),
            Triple::whole(0, 555, 0),
            matte(7300, 7300, 7300),
        ),
    );
    world.push(
        ObjectSpec::cuboid(
            Triple::whole(0, 0, 0),
            Triple::whole(165, 330, 165),
            MaterialSpec::Metal { albedo: Triple::frac(8000, 8500, 8800), fuzz: Decimal::whole(0) },
        ).placed(Decimal::whole(15), Triple::whole(265, 0, 295)),
    );
    world.push(
        ObjectSpec::cuboid(
            Triple::whole(0, 0, 0),
            Triple::whole(165, 165, 165),
            matte(7300, 7300, 7300),
        ).placed(Decimal::whole(-18), Triple::whole(130, 0, 65)),
    );
    let mut lights: Vec<ObjectSpec> = Vec::new();
    lights.push(
        ObjectSpec::quad(
            Triple::whole(343, 554, 332),
            Triple::whole(-130, 0, 0),
            Triple::whole(0, 0, -105),
            MaterialSpec::DiffuseLight(Triple::whole(15, 15, 15)),
        ),
    );
    let camera = scene_camera(
        width,
        samples,
        depth,
        Ratio { width: 1, height: 1 },
        Decimal::whole(40),
        Triple::whole(278, 278, -800),
        Triple::whole(278, 278, 0),
        Decimal::whole(0),
        Triple::whole(0, 0, 0),
    );
    RenderJob {
        name: SceneName::CornellBoxMetal,
        camera,
        world,
        accelerate: false,
        lights,
        lights_as_list: false,
        multi_thread: true,
        threads: 7,
        show,
        save,
    }
}

/// What stands in the scene `cornell_box_glass_sphere`.
pub open spec fn spec_cornell_box_glass_sphere_world() -> Seq<ObjectSpec> {
    seq![
        ObjectSpec::spec_quad(
            Triple::spec_whole(343, 554, 332),
            Triple::spec_whole(-130, 0, 0),
            Triple::spec_whole(0, 0, -105),
            MaterialSpec::DiffuseLight(Triple::spec_whole(15, 15, 15)),
        ),
        ObjectSpec::spec_quad(
            Triple::spec_whole(555, 0, 0),
            Triple::spec_whole(0, 555, 0),
            Triple::spec_whole(0, 0, 555),
            spec_matte(1200, 4500, 1500),
        ),
        ObjectSpec::spec_quad(
            Triple::spec_whole(0, 0, 0),
            Triple::spec_whole(0, 555, 0),
            Triple::spec_whole(0, 0, 555),
            spec_matte(6500, 500, 500),
        ),
        ObjectSpec::spec_quad(
            Triple::spec_whole(0, 0, 0),
            Triple::spec_whole(555, 0, 0),
            Triple::spec_whole(0, 0, 555),
            spec_matte(7300, 7300, 7300),
        ),
        ObjectSpec::spec_quad(
            Triple::spec_whole(555, 555, 555),
            Triple::spec_whole(-555, 0, 0),
            Triple::spec_whole(0, 0, -555),
            spec_matte(7300, 7300, 7300),
        ),
        ObjectSpec::spec_quad(
            Triple::spec_whole(0, 0, 555),
            Triple::spec_whole(555, 0, 0),
            Triple::spec_whole(0, 555, 0),
            spec_matte(7300, 7300, 7300),
        ),
        ObjectSpec::spec_cuboid(
            Triple::spec_whole(0, 0, 0),
            Triple::spec_whole(165, 330, 165),
            spec_matte(7300, 7300, 7300),
        ).spec_placed(Decimal::spec_whole(15), Triple::spec_whole(265, 0, 295)),
        ObjectSpec::spec_sphere(
            Triple::spec_whole(190, 90, 190),
            Decimal::spec_whole(90),
            MaterialSpec::Dielectric { index: Decimal::spec_frac(15000) },
        ),
    ]
}

/// What lights the scene `cornell_box_glass_sphere`.
pub open spec fn spec_cornell_box_glass_sphere_lights() -> Seq<ObjectSpec> {
    seq![
        ObjectSpec::spec_quad(
            Triple::spec_whole(343, 554, 332),
            Triple::spec_whole(-130, 0, 0),
            Triple::spec_whole(0, 0, -105),
            MaterialSpec::DiffuseLight(Triple::spec_whole(15, 15, 15)),
        ),
    ]
}

/// The camera of the scene `cornell_box_glass_sphere`.
pub open spec fn spec_cornell_box_glass_sphere_camera(width: i32, samples: i32, depth: i32) -> Camera {
    spec_scene_camera(
        width,
        samples,
        depth,
        Ratio { width: 1, height: 1 },
        Decimal::spec_whole(40),
        Triple::spec_whole(278, 278, -800),
        Triple::spec_whole(278, 278, 0),
        Decimal::spec_whole(0),
        Triple::spec_whole(0, 0, 0),
    )
}

/// How the scene `cornell_box_glass_sphere` is carried out.
pub open spec fn spec_cornell_box_glass_sphere_plan(show: bool, save: bool) -> RenderPlan {
    RenderPlan {
        accelerate: false,
        lights_as_list: false,
        multi_thread: true,
        threads: 7,
        show,
        save,
    }
}

/// The Cornell box with a glass ball in place of its small box.
pub fn cornell_box_glass_sphere(
    width: i32,
    samples: i32,
    depth: i32,
    show: bool,
    save: bool,
) -> (job: RenderJob)
    ensures
        job.spec_describes(SceneName::CornellBoxGlassSphere, width, samples, depth, show, save),
{
    let mut world: Vec<ObjectSpec> = Vec::new();
    world.push(
        ObjectSpec::quad(
            Triple::whole(343, 554, 332),
            Triple::whole(-130, 0, 0),
            Triple::whole(0, 0, -105),
            MaterialSpec::DiffuseLight(Triple::whole(15, 15, 15)),
        ),
    );
    world.push(
        ObjectSpec::quad(
            Triple::whole(555, 0, 0),
            Triple::whole(0, 555, 0),
            Triple::whole(0, 0, 555),
            matte(1200, 4500, 1500),
        ),
    );
    world.push(
        ObjectSpec::quad(
            Triple::whole(0, 0, 0),
            Triple::whole(0, 555, 0),
            Triple::whole(0, 0, 555),
            matte(6500, 500, 500),
        ),
    );
    world.push(
        ObjectSpec::quad(
            Triple::whole(0, 0, 0),
            Triple::whole(555, 0, 0),
            Triple::whole(0, 0, 555),
            matte(7300, 7300, 7300),
        ),
    );
    world.push(
        ObjectSpec::quad(
            Triple::whole(555, 555, 555),
            Triple::whole(-555, 0, 0),
            Triple::whole(0, 0, -555),
            matte(7300, 7300, 7300),
        ),
    );
    world.push(
        ObjectSpec::quad(
            Triple::whole(0, 0, 555),
            Triple::whole(555, 0, 0),
            Triple::whole(0, 555, 0),
            matte(7300, 7300, 7300),
        ),
    );
    world.push(
        ObjectSpec::cuboid(
            Triple::whole(0, 0, 0),
            Triple::whole(165, 330, 165),
            matte(7300, 7300, 7300),
        ).placed(Decimal::whole(15), Triple::whole(265, 0, 295)),
    );
    world.push(
        ObjectSpec::sphere(
            Triple::whole(190, 90, 190),
            Decimal::whole(90),
            MaterialSpec::Dielectric { index: Decimal::frac(15000) },
        ),
    );
    let mut lights: Vec<ObjectSpec> = Vec::new();
    lights.push(
        ObjectSpec::quad(
            Triple::whole(343, 554, 332),
            Triple::whole(-130, 0, 0),
            Triple::whole(0, 0, -105),
            MaterialSpec::DiffuseLight(Triple::whole(15, 15, 15)),
        ),
    );
    let camera = scene_camera(
        width,
        samples,
        depth,
        Ratio { width: 1, height: 1 },
        Decimal::whole(40),
        Triple::whole(278, 278, -800),
        Triple::whole(278, 278, 0),
        Decimal::whole(0),
        Triple::whole(0, 0, 0),
    );
    RenderJob {
        name: SceneName::CornellBoxGlassSphere,
        camera,
        world,
        accelerate: false,
        lights,
        lights_as_list: false,
        multi_thread: true,
        threads: 7,
        show,
        save,
    }
}

/// What stands in a scene.
pub open spec fn spec_world_of(name: SceneName) -> Seq<ObjectSpec> {
    match name {
        SceneName::Book1Final => spec_final_render_book1_world(),
        SceneName::CheckerSpheres => spec_checker_spheres_world(),
        SceneName::Earth => spec_earth_world(),
        SceneName::PerlinSphere => spec_two_perlin_sphere_world(),
        SceneName::Quads => spec_quads_world(),
        SceneName::SimpleLight => spec_simple_light_world(),
        SceneName::CornellBox => spec_cornell_box_world(),
        SceneName::CornellSmoke => spec_cornell_smoke_world(),
        SceneName::Book2Final => spec_final_scene_book2_world(),
        SceneName::CornellBoxMetal => spec_cornell_box_metal_world(),
        SceneName::CornellBoxGlassSphere => spec_cornell_box_glass_sphere_world(),
    }
}

/// What lights a scene.
pub open spec fn spec_lights_of(name: SceneName) -> Seq<ObjectSpec> {
    match name {
        SceneName::Book1Final => spec_final_render_book1_lights(),
        SceneName::CheckerSpheres => spec_checker_spheres_lights(),
        SceneName::Earth => spec_earth_lights(),
        SceneName::PerlinSphere => spec_two_perlin_sphere_lights(),
        SceneName::Quads => spec_quads_lights(),
        SceneName::SimpleLight => spec_simple_light_lights(),
        SceneName::CornellBox => spec_cornell_box_lights(),
        SceneName::CornellSmoke => spec_cornell_smoke_lights(),
        SceneName::Book2Final => spec_final_scene_book2_lights(),
        SceneName::CornellBoxMetal => spec_cornell_box_metal_lights(),
        SceneName::CornellBoxGlassSphere => spec_cornell_box_glass_sphere_lights(),
    }
}

/// The camera of a scene, for a picture of the given width and quality.
pub open spec fn spec_camera_of(name: SceneName, width: i32, samples: i32, depth: i32) -> Camera {
    match name {
        SceneName::Book1Final => spec_final_render_book1_camera(width, samples, depth),
        SceneName::CheckerSpheres => spec_checker_spheres_camera(width, samples, depth),
        SceneName::Earth => spec_earth_camera(width, samples, depth),
        SceneName::PerlinSphere => spec_two_perlin_sphere_camera(width, samples, depth),
        SceneName::Quads => spec_quads_camera(width, samples, depth),
        SceneName::SimpleLight => spec_simple_light_camera(width, samples, depth),
        SceneName::CornellBox => spec_cornell_box_camera(width, samples, depth),
        SceneName::CornellSmoke => spec_cornell_smoke_camera(width, samples, depth),
        SceneName::Book2Final => spec_final_scene_book2_camera(width, samples, depth),
        SceneName::CornellBoxMetal => spec_cornell_box_metal_camera(width, samples, depth),
        SceneName::CornellBoxGlassSphere => spec_cornell_box_glass_sphere_camera(width, samples, depth),
    }
}

/// How a scene is carried out.
pub open spec fn spec_plan_of(name: SceneName, show: bool, save: bool) -> RenderPlan {
    match name {
        SceneName::Book1Final => spec_final_render_book1_plan(show, save),
        SceneName::CheckerSpheres => spec_checker_spheres_plan(show, save),
        SceneName::Earth => spec_earth_plan(show, save),
        SceneName::PerlinSphere => spec_two_perlin_sphere_plan(show, save),
        SceneName::Quads => spec_quads_plan(show, save),
        SceneName::SimpleLight => spec_simple_light_plan(show, save),
        SceneName::CornellBox => spec_cornell_box_plan(show, save),
        SceneName::CornellSmoke => spec_cornell_smoke_plan(show, save),
        SceneName::Book2Final => spec_final_scene_book2_plan(show, save),
        SceneName::CornellBoxMetal => spec_cornell_box_metal_plan(show, save),
        SceneName::CornellBoxGlassSphere => spec_cornell_box_glass_sphere_plan(show, save),
    }
}

impl SceneName {
    /// The name that the picture of the scene is saved under.
    pub fn file_stem(&self) -> (stem: &'static str)
        ensures
            stem@ == self.spec_file_stem(),
    {
        match self {
            SceneName::Book1Final => "Book1_Final",
            SceneName::CheckerSpheres => "Checker_Spheres",
            SceneName::Earth => "Earth",
            SceneName::PerlinSphere => "Perlin_Sphere",
            SceneName::Quads => "Quads",
            SceneName::SimpleLight => "Simple_Light",
            SceneName::CornellBox => "Cornell_Box",
            SceneName::CornellSmoke => "Cornell_Smoke",
            SceneName::Book2Final => "Book2_Final",
            SceneName::CornellBoxMetal => "Cornell_Box_Metal",
            SceneName::CornellBoxGlassSphere => "Cornell_Box_Glass_Sphere",
        }
    }

    pub open spec fn spec_file_stem(self) -> Seq<char> {
        match self {
            SceneName::Book1Final => "Book1_Final"@,
            SceneName::CheckerSpheres => "Checker_Spheres"@,
            SceneName::Earth => "Earth"@,
            SceneName::PerlinSphere => "Perlin_Sphere"@,
            SceneName::Quads => "Quads"@,
            SceneName::SimpleLight => "Simple_Light"@,
            SceneName::CornellBox => "Cornell_Box"@,
            SceneName::CornellSmoke => "Cornell_Smoke"@,
            SceneName::Book2Final => "Book2_Final"@,
            SceneName::CornellBoxMetal => "Cornell_Box_Metal"@,
            SceneName::CornellBoxGlassSphere => "Cornell_Box_Glass_Sphere"@,
        }
    }
}

/// The scene behind a number on the menu, from 1 to 11; the last but two
/// where the number is none of these.
pub fn scene_of_choice(input: u32) -> (name: SceneName)
    ensures
        name == spec_scene_of_choice(input),
{
    match input {
        1 => SceneName::Book1Final,
        2 => SceneName::CheckerSpheres,
        3 => SceneName::Earth,
        4 => SceneName::PerlinSphere,
        5 => SceneName::Quads,
        6 => SceneName::SimpleLight,
        7 => SceneName::CornellBox,
        8 => SceneName::CornellSmoke,
        9 => SceneName::Book2Final,
        10 => SceneName::CornellBoxMetal,
        11 => SceneName::CornellBoxGlassSphere,
        _ => SceneName::Book2Final,
    }
}

pub open spec fn spec_scene_of_choice(input: u32) -> SceneName {
    if input == 1 {
        SceneName::Book1Final
    } else if input == 2 {
        SceneName::CheckerSpheres
    } else if input == 3 {
        SceneName::Earth
    } else if input == 4 {
        SceneName::PerlinSphere
    } else if input == 5 {
        SceneName::Quads
    } else if input == 6 {
        SceneName::SimpleLight
    } else if input == 7 {
        SceneName::CornellBox
    } else if input == 8 {
        SceneName::CornellSmoke
    } else if input == 10 {
        SceneName::CornellBoxMetal
    } else if input == 11 {
        SceneName::CornellBoxGlassSphere
    } else {
        SceneName::Book2Final
    }
}

/// Describes the named scene.
pub fn describe(
    name: SceneName,
    width: i32,
    samples: i32,
    depth: i32,
    show: bool,
    save: bool,
) -> (job: RenderJob)
    ensures
        job.spec_describes(name, width, samples, depth, show, save),
{
    match name {
        SceneName::Book1Final => final_render_book1(width, samples, depth, show, save),
        SceneName::CheckerSpheres => checker_spheres(width, samples, depth, show, save),
        SceneName::Earth => earth(width, samples, depth, show, save),
        SceneName::PerlinSphere => two_perlin_sphere(width, samples, depth, show, save),
        SceneName::Quads => quads(width, samples, depth, show, save),
        SceneName::SimpleLight => simple_light(width, samples, depth, show, save),
        SceneName::CornellBox => cornell_box(width, samples, depth, show, save),
        SceneName::CornellSmoke => cornell_smoke(width, samples, depth, show, save),
        SceneName::Book2Final => final_scene_book2(width, samples, depth, show, save),
        SceneName::CornellBoxMetal => cornell_box_metal(width, samples, depth, show, save),
        SceneName::CornellBoxGlassSphere => cornell_box_glass_sphere(
            width,
            samples,
            depth,
            show,
            save,
        ),
    }
}

} // verus!
