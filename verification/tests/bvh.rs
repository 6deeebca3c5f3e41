use ray_tracing::aabb::Slab;
use ray_tracing::aabb::AABB;
use ray_tracing::axis_order::box_compare;
use ray_tracing::bvh_node::BVHChild;
use ray_tracing::bvh_node::BVHNode;
use ray_tracing::bvh_node::BVHTraversal;
use ray_tracing::hittable::Bounded;
use ray_tracing::hittable::HitRecord;
use ray_tracing::hittable::Probe;
use ray_tracing::hittable_list::HitScan;
use ray_tracing::hittable_list::HittableList;
use ray_tracing::interval::Interval;
use ray_tracing::scalar::Scalar;
use ray_tracing::sphere::has_roots;
use ray_tracing::sphere::select_root;
use ray_tracing::vector_3::Vec3;

fn s(x: f64) -> Scalar {
    Scalar::from_bits(x.to_bits())
}

fn f(x: Scalar) -> f64 {
    f64::from_bits(x.to_bits())
}

fn next(seed: &mut u64) -> f64 {
    *seed = seed.wrapping_mul(6364136223846793005).wrapping_add(1442695040888963407);
    ((*seed >> 11) as f64) / ((1u64 << 53) as f64)
}

#[derive(Clone, Copy)]
struct Ball {
    center: [f64; 3],
    radius: f64,
}

#[derive(Clone, Copy)]
struct Ray {
    origin: [f64; 3],
    direction: [f64; 3],
}

fn bounds(ball: &Ball) -> AABB {
    let c = ball.center;
    let r = ball.radius;
    AABB::from_vec3s(
        Vec3::new(s(c[0] - r), s(c[1] - r), s(c[2] - r)),
        Vec3::new(s(c[0] + r), s(c[1] + r), s(c[2] + r)),
    )
}

fn record_of(id: usize, ray: &Ray, time: Scalar) -> HitRecord {
    let t = f(time);
    let mut rec = HitRecord::new();
    rec.time = time;
    rec.point = Vec3::new(
        s(ray.origin[0] + t * ray.direction[0]),
        s(ray.origin[1] + t * ray.direction[1]),
        s(ray.origin[2] + t * ray.direction[2]),
    );
    rec.mat = Some(1000 + id);
    rec
}

fn hit_ball(ball: &Ball, ray: &Ray, window: &Interval) -> Option<Scalar> {
    let oc = [
        ray.origin[0] - ball.center[0],
        ray.origin[1] - ball.center[1],
        ray.origin[2] - ball.center[2],
    ];
    let d = ray.direction;
    let a = d[0] * d[0] + d[1] * d[1] + d[2] * d[2];
    let half_b = oc[0] * d[0] + oc[1] * d[1] + oc[2] * d[2];
    let c = oc[0] * oc[0] + oc[1] * oc[1] + oc[2] * oc[2] - ball.radius * ball.radius;
    let discriminant = half_b * half_b - a * c;
    if !has_roots(s(discriminant)) {
        return None;
    }
    let root = discriminant.sqrt();
    select_root(s((-half_b - root) / a), s((-half_b + root) / a), window)
}

fn hit_box(bbox: &AABB, ray: &Ray, window: Interval) -> bool {
    let axis = |n: u32| {
        let inv_d = 1.0 / ray.direction[n as usize];
        let range = bbox.axis(n);
        Slab::new(
            s((f(range.min()) - ray.origin[n as usize]) * inv_d),
            s((f(range.max()) - ray.origin[n as usize]) * inv_d),
            s(inv_d),
        )
    };
    AABB::hit(&axis(0), &axis(1), &axis(2), window)
}

fn scene(count: usize, seed: &mut u64) -> (Vec<Ball>, HittableList) {
    let mut balls = Vec::new();
    let mut list = HittableList::new();
    for id in 0..count {
        let ball = Ball {
            center: [next(seed) * 20.0 - 10.0, next(seed) * 20.0 - 10.0, next(seed) * 20.0 - 10.0],
            radius: 0.2 + next(seed) * 1.5,
        };
        list.add(Bounded { id, bbox: bounds(&ball) });
        balls.push(ball);
    }
    (balls, list)
}

fn through_list(balls: &Vec<Ball>, list: &HittableList, ray: &Ray, time: &Interval) -> HitScan {
    let mut walk = list.begin(time, &HitRecord::new());
    loop {
        match list.probe(&walk) {
            Probe::Done => break,
            Probe::Object(id, window) => {
                let answer = hit_ball(&balls[id], ray, &window);
                list.answer(&mut walk, answer.map(|t| record_of(id, ray, t)));
            }
            Probe::Box(_, _) => unreachable!(),
        }
    }
    walk.scan
}

fn through_tree(balls: &Vec<Ball>, tree: &BVHNode, ray: &Ray, time: &Interval) -> (HitScan, usize) {
    let mut walk = BVHTraversal::begin(tree, time, &HitRecord::new());
    let mut asked = 0;
    loop {
        match walk.probe() {
            Probe::Done => break,
            Probe::Box(bbox, window) => {
                let hit = hit_box(&bbox, ray, window);
                walk.answer_box(hit);
            }
            Probe::Object(id, window) => {
                asked += 1;
                let answer = hit_ball(&balls[id], ray, &window);
                walk.answer_object(answer.map(|t| record_of(id, ray, t)));
            }
        }
    }
    assert!(walk.finished());
    (walk.scan, asked)
}

fn leaves(child: &BVHChild, out: &mut Vec<usize>) {
    match child {
        BVHChild::Object(o) => out.push(o.id),
        BVHChild::Node(n) => {
            leaves(&n.left, out);
            leaves(&n.right, out);
        }
    }
}

fn check_node(node: &BVHNode) -> Vec<Bounded> {
    let mut left = Vec::new();
    let mut right = Vec::new();
    collect(&node.left, &mut left);
    collect(&node.right, &mut right);
    let union = AABB::from_aabbs(&node.left.bounding_box(), &node.right.bounding_box());
    for n in 0..3 {
        assert_eq!(f(node.bbox.axis(n).min()), f(union.axis(n).min()));
        assert_eq!(f(node.bbox.axis(n).max()), f(union.axis(n).max()));
    }
    let split = (0..3u32).any(|axis| {
        left.iter().all(|l| right.iter().all(|r| !box_compare(r, l, axis)))
    });
    assert!(split);
    left.extend(right);
    left
}

fn collect(child: &BVHChild, out: &mut Vec<Bounded>) {
    match child {
        BVHChild::Object(o) => out.push(*o),
        BVHChild::Node(n) => out.extend(check_node(n)),
    }
}

#[test]
fn hierarchy_finds_what_the_list_finds() {
    let mut seed = 2024u64;
    let mut hits = 0;
    let mut saved = 0;
    for count in vec![1usize, 2, 3, 4, 5, 8, 17, 64, 200] {
        let (balls, list) = scene(count, &mut seed);
        let tree = BVHNode::from_list(&list).unwrap();
        for _ in 0..300 {
            let ray = Ray {
                origin: [next(&mut seed) * 30.0 - 15.0, next(&mut seed) * 30.0 - 15.0, 25.0],
                direction: [next(&mut seed) - 0.5, next(&mut seed) - 0.5, -1.0],
            };
            let time = Interval::new(s(0.001), s(f64::INFINITY));
            let from_list = through_list(&balls, &list, &ray, &time);
            let (from_tree, asked) = through_tree(&balls, &tree, &ray, &time);
            assert_eq!(from_tree.nearest, from_list.nearest);
            assert_eq!(from_tree.closest_so_far.to_bits(), from_list.closest_so_far.to_bits());
            assert_eq!(from_tree.hit_anything(), from_list.hit_anything());
            assert_eq!(from_tree.record.time.to_bits(), from_list.record.time.to_bits());
            assert_eq!(from_tree.record.mat, from_list.record.mat);
            assert_eq!(from_tree.record.point.x.to_bits(), from_list.record.point.x.to_bits());
            assert_eq!(from_tree.record.point.y.to_bits(), from_list.record.point.y.to_bits());
            assert_eq!(from_tree.record.point.z.to_bits(), from_list.record.point.z.to_bits());
            if !from_list.hit_anything() {
                assert!(from_tree.record.mat.is_none());
                assert_eq!(f(from_tree.record.time), f64::MAX);
            } else {
                assert_eq!(from_list.record.mat, Some(1000 + from_list.nearest.unwrap()));
            }
            if from_list.hit_anything() {
                hits += 1;
                let id = from_list.nearest.unwrap();
                let t = f(from_list.closest_so_far);
                let point = [
                    ray.origin[0] + t * ray.direction[0],
                    ray.origin[1] + t * ray.direction[1],
                    ray.origin[2] + t * ray.direction[2],
                ];
                let c = balls[id].center;
                let distance = ((point[0] - c[0]).powi(2) + (point[1] - c[1]).powi(2) + (point[2] - c[2]).powi(2)).sqrt();
                assert!((distance - balls[id].radius).abs() < 1e-6);
                for ball in &balls {
                    if let Some(other) = hit_ball(ball, &ray, &time) {
                        assert!(f(other) >= t);
                    }
                }
            }
            if count >= 64 && asked < count {
                saved += 1;
            }
        }
    }
    assert!(hits > 100);
    assert!(saved > 100);
}

#[test]
fn hierarchy_holds_every_object_and_splits_along_an_axis() {
    let mut seed = 5u64;
    for count in vec![1usize, 2, 3, 5, 6, 7, 33, 100] {
        let (_, list) = scene(count, &mut seed);
        let tree = BVHNode::from_vec(&list.objects, 0, count);
        let all = check_node(&tree);
        let mut ids: Vec<usize> = all.iter().map(|o| o.id).collect();
        ids.sort();
        ids.dedup();
        assert_eq!(ids, (0..count).collect::<Vec<usize>>());
        let whole = tree.bounding_box();
        let listed = list.bounding_box();
        for n in 0..3 {
            assert_eq!(f(whole.axis(n).min()), f(listed.axis(n).min()));
            assert_eq!(f(whole.axis(n).max()), f(listed.axis(n).max()));
        }
    }
}

#[test]
fn one_object_hangs_below_its_node_twice() {
    let mut seed = 1u64;
    let (_, list) = scene(1, &mut seed);
    let tree = BVHNode::from_list(&list).unwrap();
    let mut ids = Vec::new();
    leaves(&tree.left, &mut ids);
    leaves(&tree.right, &mut ids);
    assert_eq!(ids, vec![0, 0]);
}

#[test]
fn three_objects_are_halved_at_the_middle() {
    let mut seed = 3u64;
    let (_, list) = scene(3, &mut seed);
    let tree = BVHNode::from_list(&list).unwrap();
    let mut left = Vec::new();
    let mut right = Vec::new();
    leaves(&tree.left, &mut left);
    leaves(&tree.right, &mut right);
    assert_eq!(left.len(), 2);
    assert_eq!(left[0], left[1]);
    assert_eq!(right.len(), 2);
    assert!(right[0] != right[1]);
    assert!(!right.contains(&left[0]));
}

#[test]
fn span_of_the_list_is_respected() {
    let mut seed = 11u64;
    let (_, list) = scene(10, &mut seed);
    let tree = BVHNode::from_vec(&list.objects, 4, 7);
    let mut ids = Vec::new();
    leaves(&tree.left, &mut ids);
    leaves(&tree.right, &mut ids);
    ids.sort();
    ids.dedup();
    assert_eq!(ids, vec![4, 5, 6]);
}

#[test]
fn empty_scene_reports_no_hit() {
    let list = HittableList::new();
    assert!(BVHNode::from_list(&list).is_none());
    let empty = list.bounding_box();
    assert_eq!(f(empty.x.min()), f64::INFINITY);
    assert_eq!(f(empty.x.max()), f64::NEG_INFINITY);
    assert!(list.random().is_none());
    let time = Interval::new(s(0.001), s(f64::INFINITY));
    let mut given = HitRecord::new();
    given.mat = Some(7);
    given.time = s(3.5);
    let walk = list.begin(&time, &given);
    assert!(matches!(list.probe(&walk), Probe::Done));
    assert!(!walk.scan.hit_anything());
    assert_eq!(walk.scan.record.mat, Some(7));
    let none: Option<BVHNode> = BVHNode::from_list(&list);
    let mut over_nothing = BVHTraversal::begin_over(&none, &time, &given);
    assert!(over_nothing.finished());
    assert!(matches!(over_nothing.probe(), Probe::Done));
    over_nothing.answer_box(true);
    over_nothing.answer_object(Some(HitRecord::new()));
    assert!(over_nothing.finished());
    assert!(!over_nothing.scan.hit_anything());
    assert_eq!(over_nothing.scan.record.mat, Some(7));
    assert_eq!(f(over_nothing.scan.record.time), 3.5);
    let nothing = BVHNode::bounding_box_of(&none);
    assert_eq!(f(nothing.x.min()), f64::INFINITY);
    assert_eq!(f(nothing.z.max()), f64::NEG_INFINITY);
}

#[test]
fn list_keeps_the_nearest_hit_and_shrinks_the_window() {
    let mut list = HittableList::new();
    for id in 0..4 {
        list.add(Bounded { id: 10 + id, bbox: AABB::empty() });
    }
    let answers = vec![Some(5.0), None, Some(2.0), Some(3.0)];
    let time = Interval::new(s(0.001), s(100.0));
    let mut walk = list.begin(&time, &HitRecord::new());
    let mut asked = Vec::new();
    loop {
        match list.probe(&walk) {
            Probe::Object(id, window) => {
                asked.push((id, f(window.min()), f(window.max())));
                let answer: Option<f64> = answers[id - 10];
                let inside = answer.filter(|t| window.surrounds(s(*t)));
                list.answer(&mut walk, inside.map(|t| {
                    let mut rec = HitRecord::new();
                    rec.time = s(t);
                    rec.mat = Some(id);
                    rec
                }));
            }
            _ => break,
        }
    }
    assert_eq!(asked, vec![(10, 0.001, 100.0), (11, 0.001, 5.0), (12, 0.001, 5.0), (13, 0.001, 2.0)]);
    assert_eq!(walk.scan.nearest, Some(12));
    assert_eq!(f(walk.scan.closest_so_far), 2.0);
    assert_eq!(walk.scan.record.mat, Some(12));
    assert_eq!(f(walk.scan.record.time), 2.0);
    let before = walk;
    list.answer(&mut walk, Some(HitRecord::new()));
    assert_eq!(walk.next, before.next);
    assert_eq!(walk.scan.nearest, Some(12));
}

#[test]
fn random_member_is_a_member() {
    let mut seed = 21u64;
    let (_, list) = scene(5, &mut seed);
    let mut seen = vec![false; 5];
    for _ in 0..400 {
        seen[list.random().unwrap()] = true;
    }
    assert!(seen.iter().all(|s| *s));
}

#[test]
fn missed_box_drops_all_that_hangs_below() {
    let mut seed = 8u64;
    let (_, list) = scene(9, &mut seed);
    let tree = BVHNode::from_list(&list).unwrap();
    let time = Interval::new(s(0.001), s(f64::INFINITY));
    let mut walk = BVHTraversal::begin(&tree, &time, &HitRecord::new());
    assert!(matches!(walk.probe(), Probe::Box(_, _)));
    walk.answer_object(Some(HitRecord::new()));
    assert!(matches!(walk.probe(), Probe::Box(_, _)));
    assert!(!walk.scan.hit_anything());
    walk.answer_box(false);
    assert!(walk.finished());
    assert!(matches!(walk.probe(), Probe::Done));
    walk.answer_box(true);
    assert!(walk.finished());
    assert!(!walk.scan.hit_anything());
}

#[test]
fn tied_objects_are_hit_at_the_same_time() {
    // two objects that the ray meets at the same moment: list and hierarchy
    // may keep either, but both are hit, and at that time
    let mut list = HittableList::new();
    let near = AABB::from_vec3s(Vec3::new(s(0.0), s(0.0), s(0.0)), Vec3::new(s(1.0), s(1.0), s(1.0)));
    let far = AABB::from_vec3s(Vec3::new(s(5.0), s(0.0), s(0.0)), Vec3::new(s(6.0), s(1.0), s(1.0)));
    list.add(Bounded { id: 0, bbox: far });
    list.add(Bounded { id: 1, bbox: near });
    list.add(Bounded { id: 2, bbox: near });
    let times = vec![4.0, 2.0, 2.0];
    let time = Interval::new(s(0.001), s(f64::INFINITY));
    let answer = |id: usize, window: &Interval| {
        if window.contains(s(times[id])) {
            let mut rec = HitRecord::new();
            rec.time = s(times[id]);
            rec.mat = Some(id);
            Some(rec)
        } else {
            None
        }
    };
    let mut pass = list.begin(&time, &HitRecord::new());
    while let Probe::Object(id, window) = list.probe(&pass) {
        list.answer(&mut pass, answer(id, &window));
    }
    for _ in 0..20 {
        let tree = BVHNode::from_list(&list).unwrap();
        let mut walk = BVHTraversal::begin(&tree, &time, &HitRecord::new());
        loop {
            match walk.probe() {
                Probe::Done => break,
                Probe::Box(_, _) => walk.answer_box(true),
                Probe::Object(id, window) => walk.answer_object(answer(id, &window)),
            }
        }
        assert_eq!(walk.scan.hit_anything(), pass.scan.hit_anything());
        assert_eq!(f(walk.scan.closest_so_far), 2.0);
        assert_eq!(f(pass.scan.closest_so_far), 2.0);
        assert_eq!(f(walk.scan.record.time), f(pass.scan.record.time));
        assert!(walk.scan.nearest == Some(1) || walk.scan.nearest == Some(2));
        assert_eq!(walk.scan.record.mat, walk.scan.nearest);
    }
    assert_eq!(pass.scan.nearest, Some(2));
}
