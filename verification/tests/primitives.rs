//! The scalar, vector and trigonometric primitives on concrete values.

use flocksim::fx::{abs_i64, clamp_i64, isqrt, mul_div};
use flocksim::trig::{atan2_fx, cos_fx, sin_fx, wrap_angle, HALF_PI_FX, PI_FX, TWO_PI_FX};
use flocksim::vec2::Vec2Fx;

#[test]
fn clamp_within_and_outside() {
    assert_eq!(clamp_i64(5, -3, 3), 3);
    assert_eq!(clamp_i64(-5, -3, 3), -3);
    assert_eq!(clamp_i64(2, -3, 3), 2);
    assert_eq!(clamp_i64(-3, -3, 3), -3);
}

#[test]
fn abs_of_both_signs() {
    assert_eq!(abs_i64(-7), 7);
    assert_eq!(abs_i64(7), 7);
    assert_eq!(abs_i64(0), 0);
}

#[test]
fn isqrt_exact_and_truncated() {
    assert_eq!(isqrt(0), 0);
    assert_eq!(isqrt(1), 1);
    assert_eq!(isqrt(24), 4);
    assert_eq!(isqrt(25), 5);
    assert_eq!(isqrt(25_010_000), 5000);
    assert_eq!(isqrt(1_000_000_000_000), 1_000_000);
}

#[test]
fn mul_div_truncates_toward_zero() {
    assert_eq!(mul_div(130, 16, 1000), 2);
    assert_eq!(mul_div(-10, 16, 1000), 0);
    assert_eq!(mul_div(-1500, 1, 1000), -1);
    assert_eq!(mul_div(1500, 1, 1000), 1);
}

#[test]
fn vector_length_and_normalize() {
    let v = Vec2Fx::new(3000, 4000);
    assert_eq!(v.len_fx(), 5000);
    let u = v.normalize_to(1000);
    assert_eq!((u.x, u.y), (600, 800));
}

#[test]
fn normalize_zero_vector_is_zero() {
    let z = Vec2Fx::zero();
    let u = z.normalize_to(300_000);
    assert_eq!((u.x, u.y), (0, 0));
}

#[test]
fn normalize_never_exceeds_requested_magnitude() {
    let v = Vec2Fx::new(-123_456, 789_012);
    let u = v.normalize_to(300_000);
    assert!(u.x.abs() <= 300_000);
    assert!(u.y.abs() <= 300_000);
}

#[test]
fn sine_on_quarter_points() {
    assert_eq!(sin_fx(0), 0);
    assert_eq!(sin_fx(PI_FX), 0);
    assert_eq!(sin_fx(HALF_PI_FX), 999);
    assert_eq!(sin_fx(PI_FX + HALF_PI_FX), -999);
}

#[test]
fn cosine_follows_sine_a_quarter_ahead() {
    assert_eq!(cos_fx(0), sin_fx(HALF_PI_FX));
    assert_eq!(cos_fx(PI_FX), sin_fx(PI_FX + HALF_PI_FX));
}

#[test]
fn wrap_angle_stays_in_turn() {
    assert_eq!(wrap_angle(6000, 400), 6000 + 400 - TWO_PI_FX);
    assert_eq!(wrap_angle(100, -300), 100 - 300 + TWO_PI_FX);
    assert_eq!(wrap_angle(3000, 100), 3100);
}

#[test]
fn atan2_on_axes_and_diagonal() {
    assert_eq!(atan2_fx(0, 1000), 0);
    assert_eq!(atan2_fx(1000, 0), HALF_PI_FX);
    assert_eq!(atan2_fx(-1000, 0), -HALF_PI_FX);
    assert_eq!(atan2_fx(0, -1000), PI_FX);
    assert_eq!(atan2_fx(1000, 1000), 785);
    assert_eq!(atan2_fx(0, 0), 0);
}
