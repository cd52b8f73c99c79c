//! Fixed-point geometry: exact values for the square root, the
//! normaliser, the sine approximation, angle wrapping and the overlap
//! test.

use color_switch::geom::{
    clamp_i64, cos_milli, dist, isqrt, normalize_or_zero, rect_collide, rotate_vec,
    sin_milli, tdiv, wrap_angle, Rect,
};

#[test]
fn isqrt_exact_values() {
    assert_eq!(isqrt(0), 0);
    assert_eq!(isqrt(1), 1);
    assert_eq!(isqrt(2), 1);
    assert_eq!(isqrt(3), 1);
    assert_eq!(isqrt(4), 2);
    assert_eq!(isqrt(999_999), 999);
    assert_eq!(isqrt(1_000_000), 1000);
    assert_eq!(isqrt(1_600_000_000_000_000), 40_000_000);
}

#[test]
fn normalize_three_four_five() {
    assert_eq!(normalize_or_zero(3, 4), (600, 800));
    assert_eq!(normalize_or_zero(-3, -4), (-600, -800));
    assert_eq!(normalize_or_zero(300_000, 400_000), (600, 800));
}

#[test]
fn normalize_zero_stays_zero() {
    assert_eq!(normalize_or_zero(0, 0), (0, 0));
}

#[test]
fn normalize_axis_is_unit() {
    assert_eq!(normalize_or_zero(5, 0), (1000, 0));
    assert_eq!(normalize_or_zero(0, -7), (0, -1000));
}

#[test]
fn sine_key_angles() {
    assert_eq!(sin_milli(0), 0);
    assert_eq!(sin_milli(90_000), 1000);
    assert_eq!(sin_milli(180_000), 0);
    assert_eq!(sin_milli(30_000), 500);
    assert_eq!(sin_milli(-30_000), -500);
}

#[test]
fn cosine_key_angles() {
    assert_eq!(cos_milli(0), 1000);
    assert_eq!(cos_milli(60_000), 500);
    assert_eq!(cos_milli(-60_000), 500);
    assert_eq!(cos_milli(90_000), 0);
    assert_eq!(cos_milli(180_000), -1000);
}

#[test]
fn rotate_quarter_turn() {
    // a unit vector along x, turned a quarter turn, points along y
    assert_eq!(rotate_vec(1000, 0, 90_000), (0, 1_000_000));
    assert_eq!(rotate_vec(1000, 0, 0), (1_000_000, 0));
}

#[test]
fn wrap_angle_folds_into_half_turn() {
    assert_eq!(wrap_angle(0), 0);
    assert_eq!(wrap_angle(190_000), -170_000);
    assert_eq!(wrap_angle(-190_000), 170_000);
    assert_eq!(wrap_angle(360_000), 0);
    assert_eq!(wrap_angle(180_000), 180_000);
    assert_eq!(wrap_angle(720_000 + 10_000), 10_000);
}

#[test]
fn rect_overlap_is_strict() {
    let a = Rect { x: 0, y: 0, w: 10, h: 10 };
    let b = Rect { x: 5, y: 5, w: 10, h: 10 };
    let touching = Rect { x: 10, y: 0, w: 10, h: 10 };
    let apart = Rect { x: 50, y: 50, w: 10, h: 10 };
    assert!(rect_collide(&a, &b));
    assert!(rect_collide(&b, &a));
    // rectangles that only share an edge do not collide
    assert!(!rect_collide(&a, &touching));
    assert!(!rect_collide(&a, &apart));
}

#[test]
fn dist_three_four_five() {
    assert_eq!(dist(0, 0, 300, 400), 500);
    assert_eq!(dist(100, 100, 100, 100), 0);
}

#[test]
fn tdiv_truncates_toward_zero() {
    assert_eq!(tdiv(7, 2), 3);
    assert_eq!(tdiv(-7, 2), -3);
    assert_eq!(tdiv(0, 5), 0);
}

#[test]
fn clamp_bounds() {
    assert_eq!(clamp_i64(5, 0, 10), 5);
    assert_eq!(clamp_i64(-5, 0, 10), 0);
    assert_eq!(clamp_i64(15, 0, 10), 10);
}
