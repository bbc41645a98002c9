use render_math::math::{clamp, clamp_u32, inverse_lerp, lerp};
use render_math::scalar::{q_div, q_mul, q_sqrt, q_tan, sat_add, sat_neg, sat_sub, ONE};

/// A Q32.32 scalar from a float, for expected values in tests.
fn q(x: f64) -> i64 {
    (x * 4294967296.0).round() as i64
}

/// A float from a Q32.32 scalar, for approximate comparisons.
fn to_f(x: i64) -> f64 {
    x as f64 / 4294967296.0
}

fn assert_close(actual: i64, expected: f64, tol: f64) {
    let a = to_f(actual);
    assert!(
        (a - expected).abs() <= tol,
        "expected about {expected}, got {a}"
    );
}

#[test]
fn one_is_two_to_the_thirty_two() {
    assert_eq!(ONE, 1i64 << 32);
    assert_eq!(q(1.0), ONE);
}

#[test]
fn sat_add_is_exact_in_range() {
    assert_eq!(sat_add(q(1.5), q(2.25)), q(3.75));
    assert_eq!(sat_add(q(-1.5), q(0.5)), q(-1.0));
}

#[test]
fn sat_add_saturates_at_the_ends() {
    assert_eq!(sat_add(i64::MAX, ONE), i64::MAX);
    assert_eq!(sat_add(i64::MIN, -ONE), i64::MIN);
}

#[test]
fn sat_sub_is_exact_in_range() {
    assert_eq!(sat_sub(q(1.5), q(2.0)), q(-0.5));
    assert_eq!(sat_sub(i64::MIN, ONE), i64::MIN);
}

#[test]
fn sat_neg_flips_the_sign() {
    assert_eq!(sat_neg(q(2.5)), q(-2.5));
    assert_eq!(sat_neg(i64::MIN), i64::MAX);
}

#[test]
fn q_mul_multiplies_exactly_on_the_grid() {
    assert_eq!(q_mul(q(1.5), q(2.0)), q(3.0));
    assert_eq!(q_mul(q(-0.5), q(0.5)), q(-0.25));
    assert_eq!(q_mul(q(3.0), q(3.0)), q(9.0));
}

#[test]
fn q_div_divides_exactly_on_the_grid() {
    assert_eq!(q_div(q(3.0), q(2.0)), q(1.5));
    assert_eq!(q_div(q(-1.0), q(4.0)), q(-0.25));
}

#[test]
fn q_div_by_zero_saturates() {
    assert_eq!(q_div(q(1.0), 0), i64::MAX);
    assert_eq!(q_div(q(-1.0), 0), i64::MIN);
    assert_eq!(q_div(0, 0), i64::MAX);
}

#[test]
fn q_sqrt_of_a_perfect_square_is_exact() {
    assert_eq!(q_sqrt(q(4.0)), q(2.0));
    assert_eq!(q_sqrt(q(9.0)), q(3.0));
    assert_eq!(q_sqrt(0), 0);
}

#[test]
fn q_sqrt_of_two_is_close() {
    assert_close(q_sqrt(q(2.0)), 1.4142135623730951, 1e-9);
}

#[test]
fn q_tan_matches_the_tangent() {
    // tan(pi/6) is about 0.5774: far from the angle itself, so an identity
    // sine or cosine would be caught here.
    assert_close(q_tan(q(0.5235987755982988)), 0.5773502691896258, 1e-6);
    assert_close(q_tan(q(0.7853981633974483)), 1.0, 1e-6);
}

#[test]
fn clamp_u32_picks_the_nearer_bound() {
    assert_eq!(clamp_u32(5, 1, 10), 5);
    assert_eq!(clamp_u32(0, 1, 10), 1);
    assert_eq!(clamp_u32(11, 1, 10), 10);
    // The upper bound is checked first, so an empty interval yields `max`.
    assert_eq!(clamp_u32(7, 10, 1), 1);
}

#[test]
fn clamp_scalar_picks_the_nearer_bound() {
    assert_eq!(clamp(q(0.5), q(0.0), q(1.0)), q(0.5));
    assert_eq!(clamp(q(-2.0), q(0.0), q(1.0)), q(0.0));
    assert_eq!(clamp(q(2.0), q(0.0), q(1.0)), q(1.0));
}

#[test]
fn lerp_hits_the_midpoint_exactly() {
    assert_eq!(lerp(q(0.0), q(10.0), q(0.5)), q(5.0));
    assert_eq!(lerp(q(2.0), q(4.0), q(0.25)), q(2.5));
}

#[test]
fn inverse_lerp_inverts_lerp() {
    assert_eq!(inverse_lerp(q(0.0), q(10.0), q(5.0)), q(0.5));
    assert_eq!(inverse_lerp(q(2.0), q(4.0), q(2.5)), q(0.25));
    // An empty interval saturates instead of dividing by zero.
    assert_eq!(inverse_lerp(q(3.0), q(3.0), q(4.0)), i64::MAX);
}
