//! Scalar and vector arithmetic of the fixed-point core.

use orbitcam::fixed::{isqrt, SCALE};
use orbitcam::vec3::{v3_add_x, v3_cross_x, v3_dot_x, v3_length, v3_normalize_x, v3_sub_x, Vec3};

#[test]
fn isqrt_exact_squares() {
    assert_eq!(isqrt(0), 0);
    assert_eq!(isqrt(1), 1);
    assert_eq!(isqrt(4), 2);
    assert_eq!(isqrt(1_000_000_000_000), 1_000_000);
    assert_eq!(isqrt(u128::MAX), (1u128 << 64) - 1);
}

#[test]
fn isqrt_rounds_down() {
    assert_eq!(isqrt(2), 1);
    assert_eq!(isqrt(3), 1);
    assert_eq!(isqrt(8), 2);
    assert_eq!(isqrt(999_999_999_999), 999_999);
}

#[test]
fn length_of_pythagorean_triple() {
    // (3, 4, 0) units has length exactly 5 units.
    let v = Vec3::new(3 * SCALE, 4 * SCALE, 0);
    assert_eq!(v3_length(&v), 5 * SCALE);
}

#[test]
fn normalize_axis_vector() {
    let v = Vec3::new(2 * SCALE, 0, 0);
    let n = v3_normalize_x(&v);
    assert_eq!((n.x, n.y, n.z), (SCALE, 0, 0));
}

#[test]
fn normalize_zero_vector_is_zero() {
    let v = Vec3::new(0, 0, 0);
    let n = v3_normalize_x(&v);
    assert_eq!((n.x, n.y, n.z), (0, 0, 0));
}

#[test]
fn add_sub_dot_cross() {
    let a = Vec3::new(SCALE, 2 * SCALE, 3 * SCALE);
    let b = Vec3::new(4 * SCALE, 5 * SCALE, 6 * SCALE);
    let s = v3_add_x(&a, &b);
    assert_eq!((s.x, s.y, s.z), (5 * SCALE, 7 * SCALE, 9 * SCALE));
    let d = v3_sub_x(&b, &a);
    assert_eq!((d.x, d.y, d.z), (3 * SCALE, 3 * SCALE, 3 * SCALE));
    // 1*4 + 2*5 + 3*6 = 32 units.
    assert_eq!(v3_dot_x(&a, &b), 32 * SCALE);
    // (2*6-3*5, 3*4-1*6, 1*5-2*4) = (-3, 6, -3) units.
    let c = v3_cross_x(&a, &b);
    assert_eq!((c.x, c.y, c.z), (-3 * SCALE, 6 * SCALE, -3 * SCALE));
}
