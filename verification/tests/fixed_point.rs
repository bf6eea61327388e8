use planet_simulator::fixed::{isqrt, UNIT};
use planet_simulator::vector::Vec3;

#[test]
fn unit_is_one_million() {
    assert_eq!(UNIT, 1_000_000);
}

#[test]
fn isqrt_of_small_numbers() {
    let expected: [u64; 18] = [0, 1, 1, 1, 2, 2, 2, 2, 2, 3, 3, 3, 3, 3, 3, 3, 4, 4];
    for (n, r) in expected.iter().enumerate() {
        assert_eq!(isqrt(n as u128), *r, "isqrt({})", n);
    }
}

#[test]
fn isqrt_around_perfect_squares() {
    let roots: [u128; 5] = [1_500_000, 4_294_967_295, 4_294_967_296, 1_000_000_007, 123_456_789_012];
    for r in roots {
        assert_eq!(isqrt(r * r) as u128, r);
        assert_eq!(isqrt(r * r - 1) as u128, r - 1);
        assert_eq!(isqrt(r * r + 2 * r) as u128, r);
        assert_eq!(isqrt(r * r + 2 * r + 1) as u128, r + 1);
    }
}

#[test]
fn isqrt_of_the_largest_number() {
    assert_eq!(isqrt(u128::MAX), u64::MAX);
    assert_eq!(isqrt((u64::MAX as u128) * (u64::MAX as u128)), u64::MAX);
    assert_eq!(isqrt((u64::MAX as u128) * (u64::MAX as u128) - 1), u64::MAX - 1);
}

#[test]
fn length_of_a_pythagorean_vector() {
    assert_eq!(Vec3 { x: 3, y: -4, z: 0 }.length(), 5);
    assert_eq!(Vec3 { x: 2_000_000, y: 3_000_000, z: -6_000_000 }.length(), 7_000_000);
}

#[test]
fn length_rounds_down() {
    assert_eq!(Vec3 { x: 1, y: 1, z: 0 }.length(), 1);
    assert_eq!(Vec3 { x: 1, y: 1, z: 1 }.length(), 1);
    assert_eq!(Vec3 { x: 2, y: 2, z: 1 }.length(), 3);
    assert_eq!(Vec3 { x: 1_000_000, y: 1_000_000, z: 0 }.length(), 1_414_213);
}

#[test]
fn length_at_rest_is_zero() {
    assert_eq!(Vec3::zero().length(), 0);
    assert_eq!(Vec3::zero(), Vec3 { x: 0, y: 0, z: 0 });
}

#[test]
fn length_of_the_longest_vectors() {
    let far = Vec3 { x: i64::MIN, y: i64::MIN, z: i64::MIN };
    assert_eq!(far.length(), 15_975_348_984_942_515_101);
    let near = Vec3 { x: i64::MAX, y: i64::MAX, z: i64::MAX };
    assert_eq!(near.length(), 15_975_348_984_942_515_099);
}
