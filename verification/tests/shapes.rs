use ray_tracing::constant_medium::clip;
use ray_tracing::constant_medium::exit_window;
use ray_tracing::constant_medium::scatters_inside;
use ray_tracing::hittable::HitRecord;
use ray_tracing::aabb::AABB;
use ray_tracing::interval::Interval;
use ray_tracing::quad::interior;
use ray_tracing::quad::meets_plane;
use ray_tracing::quad::quad_bounding_box;
use ray_tracing::quad::quad_bounds;
use ray_tracing::quad::quad_box;
use ray_tracing::scalar::Scalar;
use ray_tracing::sphere::center_at;
use ray_tracing::sphere::has_roots;
use ray_tracing::sphere::select_root;
use ray_tracing::vector_3::Vec3;

fn s(x: f64) -> Scalar {
    Scalar::from_bits(x.to_bits())
}

fn f(x: Scalar) -> f64 {
    f64::from_bits(x.to_bits())
}

fn v(x: f64, y: f64, z: f64) -> Vec3 {
    Vec3::new(s(x), s(y), s(z))
}

fn roots(radius: f64, distance: f64) -> Option<(f64, f64)> {
    let oc = [0.0, 0.0, distance];
    let d = [0.0, 0.0, -1.0];
    let a = d[2] * d[2];
    let half_b = oc[2] * d[2];
    let c = oc[2] * oc[2] - radius * radius;
    let discriminant = half_b * half_b - a * c;
    if !has_roots(s(discriminant)) {
        return None;
    }
    let root = discriminant.sqrt();
    Some(((-half_b - root) / a, (-half_b + root) / a))
}

#[test]
fn sphere_from_outside_hits_at_distance_less_radius() {
    for (radius, distance) in vec![(1.0, 3.0), (0.5, 10.0), (2.0, 2.5), (100.0, 1000.0)] {
        let (near, far) = roots(radius, distance).unwrap();
        assert!((near - (distance - radius)).abs() < 1e-9);
        assert!((far - (distance + radius)).abs() < 1e-9);
        let window = Interval::new(s(0.001), s(f64::INFINITY));
        let picked = f(select_root(s(near), s(far), &window).unwrap());
        assert_eq!(picked, near);
        let point = [0.0, 0.0, distance - picked];
        let normal = [point[0] / radius, point[1] / radius, point[2] / radius];
        let length = (normal[0] * normal[0] + normal[1] * normal[1] + normal[2] * normal[2]).sqrt();
        assert!((length - 1.0).abs() < 1e-9);
        let outward = (normal[0] * point[0] + normal[1] * point[1] + normal[2] * point[2]) / radius;
        assert!((outward - 1.0).abs() < 1e-9);
    }
}

#[test]
fn sphere_from_inside_takes_the_farther_root() {
    let (near, far) = roots(2.0, 0.5).unwrap();
    assert!(near < 0.0 && far > 0.0);
    let window = Interval::new(s(0.001), s(f64::INFINITY));
    assert_eq!(f(select_root(s(near), s(far), &window).unwrap()), far);
}

#[test]
fn roots_on_the_bounds_and_outside_are_no_hit() {
    let window = Interval::new(s(1.0), s(4.0));
    assert!(select_root(s(1.0), s(4.0), &window).is_none());
    assert!(select_root(s(0.5), s(4.5), &window).is_none());
    assert!(select_root(s(f64::NAN), s(f64::NAN), &window).is_none());
    assert_eq!(f(select_root(s(1.0), s(3.0), &window).unwrap()), 3.0);
    assert_eq!(f(select_root(s(2.0), s(3.0), &window).unwrap()), 2.0);
    assert!(!has_roots(s(-1e-12)));
    assert!(has_roots(s(0.0)));
    assert!(has_roots(s(4.0)));
}

#[test]
fn moving_sphere_is_where_it_was_moved_to() {
    let start = v(1.0, 2.0, 3.0);
    let moved = v(1.0, 2.5, 3.0);
    assert_eq!(f(center_at(false, start, moved).y), 2.0);
    assert_eq!(f(center_at(true, start, moved).y), 2.5);
}

#[test]
fn quad_interior_counts_its_edges() {
    let mut rec = HitRecord::new();
    assert!(interior(s(0.0), s(0.0), &mut rec));
    assert_eq!(f(rec.u), 0.0);
    assert_eq!(f(rec.v), 0.0);
    assert!(interior(s(1.0), s(1.0), &mut rec));
    assert_eq!(f(rec.u), 1.0);
    assert_eq!(f(rec.v), 1.0);
    assert!(interior(s(0.25), s(0.75), &mut rec));
    assert_eq!(f(rec.u), 0.25);
    assert_eq!(f(rec.v), 0.75);
    assert!(!interior(s(1.0001), s(0.5), &mut rec));
    assert_eq!(f(rec.u), 0.25);
    assert_eq!(f(rec.v), 0.75);
    assert!(!interior(s(0.5), s(-0.0001), &mut rec));
    assert!(!interior(s(-0.0001), s(0.5), &mut rec));
    assert!(!interior(s(0.5), s(1.0001), &mut rec));
}

#[test]
fn unit_quad_hit_points() {
    // the quad spanned by u = (1, 0, 0) and v = (0, 1, 0) from the origin
    let u = [1.0, 0.0, 0.0];
    let v_edge = [0.0, 1.0, 0.0];
    let n = [0.0, 0.0, 1.0];
    let w = n;
    let cases = vec![([0.0, 0.0], true), ([1.0, 1.0], true), ([1.0001, 0.5], false)];
    for (point, expected) in cases {
        let p = [point[0], point[1], 0.0];
        let cross_pv = [p[1] * v_edge[2] - p[2] * v_edge[1], p[2] * v_edge[0] - p[0] * v_edge[2], p[0] * v_edge[1] - p[1] * v_edge[0]];
        let cross_up = [u[1] * p[2] - u[2] * p[1], u[2] * p[0] - u[0] * p[2], u[0] * p[1] - u[1] * p[0]];
        let alpha = w[0] * cross_pv[0] + w[1] * cross_pv[1] + w[2] * cross_pv[2];
        let beta = w[0] * cross_up[0] + w[1] * cross_up[1] + w[2] * cross_up[2];
        let mut rec = HitRecord::new();
        assert_eq!(interior(s(alpha), s(beta), &mut rec), expected);
    }
}

#[test]
fn ray_along_the_plane_does_not_meet_it() {
    assert!(meets_plane(s(1e-8)));
    assert!(meets_plane(s(-1e-8)));
    assert!(meets_plane(s(0.5)));
    assert!(!meets_plane(s(9.99e-9)));
    assert!(!meets_plane(s(-9.99e-9)));
    assert!(!meets_plane(s(0.0)));
    assert!(!meets_plane(s(f64::NAN)));
}

#[test]
fn box_of_six_quads() {
    let quads = quad_box(v(3.0, 0.0, 5.0), v(1.0, 2.0, 2.0), v(2.0, 2.0, 3.0));
    assert_eq!(quads.len(), 6);
    let expected = vec![
        ([1.0, 0.0, 5.0], [2.0, 0.0, 0.0], [0.0, 2.0, 0.0]),
        ([3.0, 0.0, 5.0], [0.0, 0.0, -3.0], [0.0, 2.0, 0.0]),
        ([3.0, 0.0, 2.0], [-2.0, 0.0, 0.0], [0.0, 2.0, 0.0]),
        ([1.0, 0.0, 2.0], [0.0, 0.0, 3.0], [0.0, 2.0, 0.0]),
        ([1.0, 2.0, 5.0], [2.0, 0.0, 0.0], [0.0, 0.0, -3.0]),
        ([1.0, 0.0, 2.0], [2.0, 0.0, 0.0], [0.0, 0.0, 3.0]),
    ];
    for (quad, (origin, u, v_edge)) in quads.iter().zip(expected) {
        assert_eq!([f(quad.origin.x), f(quad.origin.y), f(quad.origin.z)], origin);
        assert_eq!([f(quad.u.x), f(quad.u.y), f(quad.u.z)], u);
        assert_eq!([f(quad.v.x), f(quad.v.y), f(quad.v.z)], v_edge);
    }
}

#[test]
fn box_around_a_quad_holds_its_corners() {
    let bbox = quad_bounds(v(0.0, 0.0, 0.0), v(1.0, 3.0, 0.0), v(2.0, 1.0, 0.0), v(-1.0, 2.0, 0.0));
    assert_eq!(f(bbox.x.min()), -1.0);
    assert_eq!(f(bbox.x.max()), 2.0);
    assert_eq!(f(bbox.y.min()), 0.0);
    assert_eq!(f(bbox.y.max()), 3.0);
    assert_eq!(f(bbox.z.min()), 0.0);
    assert_eq!(f(bbox.z.max()), 0.0);
}

#[test]
fn medium_clips_the_way_through_the_boundary() {
    let window = Interval::new(s(0.001), s(10.0));
    let (t0, t1) = clip(s(2.0), s(5.0), &window).unwrap();
    assert_eq!((f(t0), f(t1)), (2.0, 5.0));
    let (t0, t1) = clip(s(-3.0), s(5.0), &window).unwrap();
    assert_eq!((f(t0), f(t1)), (0.001, 5.0));
    let (t0, t1) = clip(s(2.0), s(50.0), &window).unwrap();
    assert_eq!((f(t0), f(t1)), (2.0, 10.0));
    assert!(clip(s(11.0), s(12.0), &window).is_none());
    assert!(clip(s(-5.0), s(-4.0), &window).is_none());
    assert!(clip(s(3.0), s(3.0), &window).is_none());
    let all = Interval::univeral();
    let (t0, t1) = clip(s(-3.0), s(5.0), &all).unwrap();
    assert_eq!((f(t0), f(t1)), (0.0, 5.0));
    let after = exit_window(s(2.0001));
    assert_eq!(f(after.min()), 2.0001);
    assert_eq!(f(after.max()), f64::INFINITY);
}

#[test]
fn medium_scatters_only_inside() {
    assert!(scatters_inside(s(1.0), s(3.0)));
    assert!(scatters_inside(s(3.0), s(3.0)));
    assert!(!scatters_inside(s(3.0001), s(3.0)));
    assert!(!scatters_inside(s(f64::INFINITY), s(3.0)));
}

#[test]
fn normal_is_turned_against_the_ray() {
    let mut rec = HitRecord::new();
    assert!(rec.mat.is_none());
    assert_eq!(f(rec.time), f64::MAX);
    let outward = v(0.0, 0.0, 1.0);
    rec.set_face_normal(s(-0.7), outward);
    assert!(rec.front_face);
    assert_eq!(f(rec.normal.z), 1.0);
    rec.set_face_normal(s(0.7), outward);
    assert!(!rec.front_face);
    assert_eq!(f(rec.normal.z), -1.0);
    rec.set_face_normal(s(0.0), outward);
    assert!(!rec.front_face);
    let mut copy = HitRecord::new();
    rec.mat = Some(4);
    rec.time = s(2.5);
    copy.from(&rec);
    assert_eq!(copy.mat, Some(4));
    assert_eq!(f(copy.time), 2.5);
    assert_eq!(f(copy.normal.z), -1.0);
}

fn widened(range: &Interval, delta: f64) -> Interval {
    Interval::new(s(f(range.min()) - delta / 2.0), s(f(range.max()) + delta / 2.0))
}

fn box_of_quad(origin: [f64; 3], u: [f64; 3], v_edge: [f64; 3]) -> AABB {
    let o = v(origin[0], origin[1], origin[2]);
    let far = v(origin[0] + u[0] + v_edge[0], origin[1] + u[1] + v_edge[1], origin[2] + u[2] + v_edge[2]);
    let along_u = v(origin[0] + u[0], origin[1] + u[1], origin[2] + u[2]);
    let along_v = v(origin[0] + v_edge[0], origin[1] + v_edge[1], origin[2] + v_edge[2]);
    let around = quad_bounds(o, far, along_u, along_v);
    let size = |range: &Interval| s(f(range.max()) - f(range.min()));
    let sizes = Vec3::new(size(&around.x), size(&around.y), size(&around.z));
    let delta = 0.0001;
    let expanded = AABB::new(widened(&around.x, delta), widened(&around.y, delta), widened(&around.z, delta));
    quad_bounding_box(o, far, along_u, along_v, &sizes, &expanded)
}

#[test]
fn box_of_a_flat_quad_is_padded() {
    let bbox = box_of_quad([0.0, 0.0, 0.0], [1.0, 0.0, 0.0], [0.0, 1.0, 0.0]);
    assert_eq!((f(bbox.axis(0).min()), f(bbox.axis(0).max())), (0.0, 1.0));
    assert_eq!((f(bbox.axis(1).min()), f(bbox.axis(1).max())), (0.0, 1.0));
    assert_eq!((f(bbox.axis(2).min()), f(bbox.axis(2).max())), (-0.00005, 0.00005));
    assert!(f(bbox.axis(2).max()) - f(bbox.axis(2).min()) >= 0.0001);
    assert!(bbox.axis(2).contains(s(0.0)));
    for corner in vec![[0.0, 0.0], [1.0, 0.0], [0.0, 1.0], [1.0, 1.0]] {
        assert!(bbox.axis(0).contains(s(corner[0])) && bbox.axis(1).contains(s(corner[1])));
    }
    let wall = box_of_quad([555.0, 0.0, 0.0], [0.0, 555.0, 0.0], [0.0, 0.0, 555.0]);
    assert_eq!((f(wall.axis(0).min()), f(wall.axis(0).max())), (555.0 - 0.00005, 555.0 + 0.00005));
    assert_eq!((f(wall.axis(1).min()), f(wall.axis(1).max())), (0.0, 555.0));
    assert_eq!((f(wall.axis(2).min()), f(wall.axis(2).max())), (0.0, 555.0));
    let slanted = box_of_quad([0.0, 0.0, 0.0], [1.0, 0.0, 1.0], [0.0, 1.0, 1.0]);
    assert_eq!((f(slanted.axis(2).min()), f(slanted.axis(2).max())), (0.0, 2.0));
}
