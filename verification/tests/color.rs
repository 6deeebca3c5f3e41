use ray_tracing::color::image_path;
use ray_tracing::color::intensity;
use ray_tracing::color::pack;
use ray_tracing::color::to_byte;
use ray_tracing::color::unpack;
use ray_tracing::color::vals_to_val;
use ray_tracing::color::vec_to_val;
use ray_tracing::demo_render::scene_of_choice;
use ray_tracing::scalar::Scalar;
use ray_tracing::scene::SceneName;
use ray_tracing::vector_3::Vec3;

fn s(x: f64) -> Scalar {
    Scalar::from_bits(x.to_bits())
}

fn f(x: Scalar) -> f64 {
    f64::from_bits(x.to_bits())
}

fn tone_map(x: f64, y: f64, z: f64, samples: i32) -> u32 {
    let scale = 1.0 / samples as f64;
    let channel = |c: f64| s(f(intensity().clamp(s((c * scale).sqrt()))) * 255.999);
    vals_to_val(channel(x), channel(y), channel(z))
}

#[test]
fn pixel_is_opaque_with_red_on_top() {
    assert_eq!(pack(0, 0, 0), 0xFF000000);
    assert_eq!(pack(255, 255, 255), 0xFFFFFFFF);
    assert_eq!(pack(0x12, 0x34, 0x56), 0xFF123456);
    assert_eq!(pack(255, 0, 0), 0xFFFF0000);
    assert_eq!(pack(0, 255, 0), 0xFF00FF00);
    assert_eq!(pack(0, 0, 255), 0xFF0000FF);
}

#[test]
fn unpack_undoes_pack() {
    for r in vec![0u8, 1, 17, 128, 254, 255] {
        for g in vec![0u8, 3, 99, 255] {
            for b in vec![0u8, 64, 200, 255] {
                assert_eq!(unpack(pack(r, g, b)), (r, g, b));
            }
        }
    }
    assert_eq!(unpack(0x00ABCDEF), (0xAB, 0xCD, 0xEF));
}

#[test]
fn tone_mapped_colours() {
    assert_eq!(tone_map(1.0, 1.0, 1.0, 1), 0xFFFFFFFF);
    assert_eq!(tone_map(0.0, 0.0, 0.0, 1), 0xFF000000);
    assert_eq!(tone_map(0.25, 0.25, 0.25, 1), 0xFF7F7F7F);
    assert_eq!(tone_map(100.0, 25.0, 0.0, 100), 0xFFFF7F00);
    assert_eq!(tone_map(7.0, -1.0, f64::NAN, 1), 0xFFFF0000);
    assert_eq!(vec_to_val(&Vec3::new(s(255.744), s(127.9995), s(0.9))), 0xFFFF7F00);
}

#[test]
fn intensity_stops_short_of_one() {
    let range = intensity();
    assert_eq!(f(range.min()), 0.0);
    assert_eq!(f(range.max()), 0.999);
    assert_eq!(to_byte(s(0.999 * 255.999)), 255);
    assert_eq!(to_byte(s(0.5 * 255.999)), 127);
    assert_eq!(to_byte(s(1.0)), 1);
    assert_eq!(to_byte(s(0.9999)), 0);
}

#[test]
fn picture_file_names() {
    assert_eq!(
        image_path("Cornell_Box", 800, 1000, 50),
        "renders/Cornell_Box_w800_s1000_d50.png"
    );
    assert_eq!(image_path("Earth", 0, 0, 0), "renders/Earth_w0_s0_d0.png");
    assert_eq!(image_path("", 7, -3, 10), "renders/_w7_s-3_d10.png");
    assert_eq!(
        image_path("Quads", u32::MAX, i32::MAX, i32::MIN),
        "renders/Quads_w4294967295_s2147483647_d-2147483648.png"
    );
    assert_eq!(
        image_path(SceneName::Book2Final.file_stem(), 400, 10, 10),
        "renders/Book2_Final_w400_s10_d10.png"
    );
}

#[test]
fn scene_names_and_menu() {
    let stems = vec![
        "Book1_Final",
        "Checker_Spheres",
        "Earth",
        "Perlin_Sphere",
        "Quads",
        "Simple_Light",
        "Cornell_Box",
        "Cornell_Smoke",
        "Book2_Final",
        "Cornell_Box_Metal",
        "Cornell_Box_Glass_Sphere",
    ];
    for (place, stem) in stems.iter().enumerate() {
        assert_eq!(scene_of_choice(place as u32 + 1).file_stem(), *stem);
    }
    assert_eq!(scene_of_choice(0), SceneName::Book2Final);
    assert_eq!(scene_of_choice(12), SceneName::Book2Final);
}
