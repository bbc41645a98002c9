use render_math::scalar::ONE;
use render_math::vector_wrapper::Vec3Wrapper;

fn q(x: f64) -> i64 {
    (x * 4294967296.0).round() as i64
}

fn to_f(x: i64) -> f64 {
    x as f64 / 4294967296.0
}

#[test]
fn new_and_to_owned_round_trip() {
    let v = Vec3Wrapper::new([q(1.0), q(2.0), q(3.0)]);
    assert_eq!(v.to_owned(), [q(1.0), q(2.0), q(3.0)]);
    assert_eq!(v.x(), q(1.0));
    assert_eq!(v.y(), q(2.0));
    assert_eq!(v.z(), q(3.0));
}

#[test]
fn sub_is_component_wise() {
    let a = Vec3Wrapper::new([q(5.0), q(3.0), q(1.0)]);
    let b = Vec3Wrapper::new([q(1.0), q(1.5), q(-1.0)]);
    assert_eq!(a.sub(&b).to_owned(), [q(4.0), q(1.5), q(2.0)]);
}

#[test]
fn dot_of_small_integers_is_exact() {
    let a = Vec3Wrapper::new([q(1.0), q(2.0), q(3.0)]);
    let b = Vec3Wrapper::new([q(4.0), q(5.0), q(6.0)]);
    assert_eq!(a.dot(&b), q(32.0));
}

#[test]
fn dot_is_commutative() {
    let a = Vec3Wrapper::new([q(1.25), q(-2.5), q(3.75)]);
    let b = Vec3Wrapper::new([q(0.5), q(4.0), q(-1.5)]);
    assert_eq!(a.dot(&b), b.dot(&a));
}

#[test]
fn cross_of_axes_gives_the_third_axis() {
    let x = Vec3Wrapper::new([ONE, 0, 0]);
    let y = Vec3Wrapper::new([0, ONE, 0]);
    assert_eq!(x.cross(&y).to_owned(), [0, 0, ONE]);
    assert_eq!(y.cross(&x).to_owned(), [0, 0, -ONE]);
}

#[test]
fn cross_is_orthogonal_to_both_inputs() {
    let a = Vec3Wrapper::new([q(1.3), q(-0.7), q(2.1)]);
    let b = Vec3Wrapper::new([q(0.4), q(1.9), q(-1.2)]);
    let c = a.cross(&b);
    assert!(to_f(c.dot(&a)).abs() < 1e-6);
    assert!(to_f(c.dot(&b)).abs() < 1e-6);
}

#[test]
fn magnitude_of_a_pythagorean_triple_is_exact() {
    let v = Vec3Wrapper::new([q(3.0), q(4.0), q(12.0)]);
    assert_eq!(v.magnitude(), q(13.0));
}

#[test]
fn normalize_scales_to_unit_length() {
    let mut v = Vec3Wrapper::new([q(3.0), q(4.0), q(12.0)]);
    v.normalize();
    assert!((to_f(v.magnitude()) - 1.0).abs() < 1e-6);
}

#[test]
fn normalized_leaves_the_original_alone() {
    let v = Vec3Wrapper::new([q(0.3), q(-0.4), q(1.2)]);
    let n = v.normalized();
    assert_eq!(v.x(), q(0.3));
    assert!((to_f(n.magnitude()) - 1.0).abs() < 1e-6);
}


#[test]
fn cross_is_anticommutative() {
    let a = Vec3Wrapper::new([q(1.5), q(-2.0), q(0.75)]);
    let b = Vec3Wrapper::new([q(0.25), q(3.0), q(-1.0)]);
    let ab = a.cross(&b).to_owned();
    let ba = b.cross(&a).to_owned();
    assert_eq!(ba, [-ab[0], -ab[1], -ab[2]]);
}

#[test]
fn normalizing_the_zero_vector_saturates() {
    // The zero vector has no direction; every component divides by a zero
    // length and saturates, the library's analogue of an undefined result.
    let mut v = Vec3Wrapper::new([0, 0, 0]);
    v.normalize();
    assert_eq!(v.to_owned(), [i64::MAX, i64::MAX, i64::MAX]);
}
