use ray_tracing::perlin::checker_is_even;
use ray_tracing::perlin::generate_perm;
use ray_tracing::perlin::Perlin;
use ray_tracing::rtweekend::random_axis;
use ray_tracing::rtweekend::random_u32_range;

#[test]
fn table_is_a_shuffle_of_all_places() {
    let table = generate_perm();
    assert_eq!(table.len(), 256);
    let mut sorted = table.clone();
    sorted.sort();
    assert_eq!(sorted, (0..256).collect::<Vec<i32>>());
    assert!(table != sorted);
    assert!(generate_perm() != table);
}

#[test]
fn lattice_corners_land_in_the_table() {
    let perlin = Perlin::new();
    assert!(perlin.usable());
    for (i, j, k) in vec![(0, 0, 0), (-1, -1, -1), (255, 256, 257), (i32::MAX, i32::MIN, -300), (12345, -54321, 7)] {
        for di in 0..2 {
            for dj in 0..2 {
                for dk in 0..2 {
                    let place = perlin.lattice(i, j, k, di, dj, dk);
                    assert!(place < 256);
                    let x = perlin.perm_x[((i as i64 + di as i64) & 255) as usize];
                    let y = perlin.perm_y[((j as i64 + dj as i64) & 255) as usize];
                    let z = perlin.perm_z[((k as i64 + dk as i64) & 255) as usize];
                    assert_eq!(place, (x ^ y ^ z) as usize);
                }
            }
        }
    }
}

#[test]
fn lattice_with_known_tables() {
    let identity: Vec<i32> = (0..256).collect();
    let reversed: Vec<i32> = (0..256).rev().collect();
    let perlin = Perlin { perm_x: identity.clone(), perm_y: reversed, perm_z: identity };
    assert_eq!(perlin.lattice(3, 5, 9, 0, 0, 0), (3 ^ 250 ^ 9) as usize);
    assert_eq!(perlin.lattice(3, 5, 9, 1, 1, 1), (4 ^ 249 ^ 10) as usize);
    assert_eq!(perlin.lattice(-1, 0, 256, 0, 0, 0), (255 ^ 255 ^ 0) as usize);
    assert_eq!(perlin.lattice(-1, 0, 256, 1, 0, 1), (0 ^ 255 ^ 1) as usize);
    assert!(perlin.usable());
    let short = Perlin { perm_x: vec![0; 255], perm_y: (0..256).collect(), perm_z: (0..256).collect() };
    assert!(!short.usable());
    let beyond = Perlin { perm_x: vec![256; 256], perm_y: (0..256).collect(), perm_z: (0..256).collect() };
    assert!(!beyond.usable());
    let below = Perlin { perm_x: (0..256).collect(), perm_y: (0..256).collect(), perm_z: vec![-1; 256] };
    assert!(!below.usable());
}

#[test]
fn checker_cubes_alternate() {
    assert!(checker_is_even(0, 0, 0));
    assert!(!checker_is_even(1, 0, 0));
    assert!(checker_is_even(1, 1, 0));
    assert!(!checker_is_even(1, 1, 1));
    assert!(!checker_is_even(-1, 0, 0));
    assert!(checker_is_even(-1, -1, 0));
    assert!(checker_is_even(-3, 2, 1));
    assert!(!checker_is_even(i32::MAX, i32::MAX, i32::MAX));
    assert!(checker_is_even(i32::MIN, i32::MIN, 0));
}

#[test]
fn drawn_numbers_stay_in_their_range() {
    let mut seen = vec![false; 3];
    for _ in 0..600 {
        let axis = random_axis();
        assert!(axis <= 2);
        seen[axis as usize] = true;
    }
    assert!(seen.iter().all(|s| *s));
    let mut above_low = false;
    for _ in 0..200 {
        let drawn = random_u32_range(100, 1100);
        assert!(100 <= drawn && drawn <= 1100);
        if drawn != 100 {
            above_low = true;
        }
    }
    assert!(above_low);
    assert_eq!(random_u32_range(7, 7), 7);
    assert_eq!(random_u32_range(8, 7), 8);
    for _ in 0..100 {
        let between = random_u32_range(20, 10);
        assert!(10 < between && between < 20);
    }
}
