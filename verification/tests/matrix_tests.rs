use render_math::linear_algebra::{identity, orthographic, perspective, translation, Matrix4};
use render_math::matrix_wrapper::MatrixWrapper;
use render_math::scalar::ONE;

fn q(x: f64) -> i64 {
    (x * 4294967296.0).round() as i64
}

fn to_f(x: i64) -> f64 {
    x as f64 / 4294967296.0
}

fn assert_cell_close(m: &Matrix4, i: usize, j: usize, expected: f64, tol: f64) {
    let a = to_f(m[i][j]);
    assert!(
        (a - expected).abs() <= tol,
        "cell [{i}][{j}]: expected about {expected}, got {a}"
    );
}

fn sample() -> Matrix4 {
    [
        [q(1.5), q(-2.0), q(0.25), q(3.0)],
        [q(0.0), q(4.5), q(-1.25), q(2.0)],
        [q(7.0), q(0.5), q(1.0), q(-3.5)],
        [q(-0.75), q(2.25), q(5.0), q(1.0)],
    ]
}

#[test]
fn multiplying_by_identity_changes_nothing() {
    let m = MatrixWrapper::new(sample());
    let id = MatrixWrapper::new(identity());
    assert_eq!(id.multiply(&m).to_owned(), sample());
    assert_eq!(m.multiply(&id).to_owned(), sample());
}

#[test]
fn transposing_twice_gives_the_matrix_back() {
    let m = MatrixWrapper::new(sample());
    assert_eq!(m.transposed().transposed().to_owned(), sample());
    assert_eq!(m.transposed().to_owned()[1][3], sample()[3][1]);
}

#[test]
fn add_and_sub_are_cell_wise_inverses() {
    let m = MatrixWrapper::new(sample());
    let id = MatrixWrapper::new(identity());
    let s = m.add(&id);
    assert_eq!(s.to_owned()[0][0], q(2.5));
    assert_eq!(s.sub(&id).to_owned(), sample());
}

#[test]
fn translation_fills_the_last_row() {
    let t = [q(2.0), q(-3.0), q(0.5)];
    let m = translation(t);
    assert_eq!(m[3], [q(2.0), q(-3.0), q(0.5), ONE]);
    assert_eq!(m[0], [ONE, 0, 0, 0]);
    assert_eq!(m[1], [0, ONE, 0, 0]);
    assert_eq!(m[2], [0, 0, ONE, 0]);
}

#[test]
fn translation_times_identity_moves_the_origin() {
    let t = [q(2.0), q(-3.0), q(0.5)];
    let p = MatrixWrapper::translation(t).multiply(&MatrixWrapper::new(identity()));
    // The homogeneous origin [0, 0, 0, 1], taken through `p` as a row
    // vector, lands on row three: exactly the translation.
    assert_eq!(p.to_owned()[3], [q(2.0), q(-3.0), q(0.5), ONE]);
    assert_eq!(p.to_owned(), translation(t));
}

#[test]
fn translated_adds_a_translation() {
    let z = MatrixWrapper::new([[0i64; 4]; 4]);
    let t = z.translated([q(1.0), q(2.0), q(3.0)]);
    assert_eq!(t.to_owned(), translation([q(1.0), q(2.0), q(3.0)]));
}

#[test]
fn scale_multiplies_the_first_three_columns() {
    let m = MatrixWrapper::new(sample());
    let s = m.scale([q(2.0), q(0.5), q(-1.0)]);
    assert_eq!(s.to_owned()[0], [q(3.0), q(-4.0), q(0.5), q(6.0)]);
    assert_eq!(s.to_owned()[1], [q(0.0), q(2.25), q(-0.625), q(1.0)]);
    assert_eq!(s.to_owned()[2], [q(-7.0), q(-0.5), q(-1.0), q(3.5)]);
    assert_eq!(s.to_owned()[3], sample()[3]);
}

#[test]
fn scale_matrix_has_the_scale_on_the_diagonal() {
    let s = MatrixWrapper::scale_matrix([q(2.0), q(3.0), q(4.0)]);
    assert_eq!(
        s.to_owned(),
        [
            [q(2.0), 0, 0, 0],
            [0, q(3.0), 0, 0],
            [0, 0, q(4.0), 0],
            [0, 0, 0, ONE],
        ]
    );
}

#[test]
fn with_value_replaces_one_cell() {
    let m = MatrixWrapper::new(sample()).with_value(2, 1, q(9.0));
    assert_eq!(m.to_owned()[2][1], q(9.0));
    assert_eq!(m.to_owned()[2][0], sample()[2][0]);
    assert_eq!(m.to_owned()[0][1], sample()[0][1]);
}

#[test]
fn look_at_down_the_negative_z_axis_is_the_identity() {
    let m = MatrixWrapper::look_at(
        [0, 0, 0],
        [0, 0, q(-1.0)],
        [0, ONE, 0],
    );
    assert_eq!(m.to_owned(), identity());
}

#[test]
fn look_at_places_the_eye_in_the_last_row() {
    let m = MatrixWrapper::look_at(
        [q(1.0), q(2.0), q(3.0)],
        [q(1.0), q(2.0), q(2.0)],
        [0, ONE, 0],
    );
    let c = m.to_owned();
    // Same viewing direction as from the origin, so the rotation rows match
    // the identity; the last row holds the negated eye position.
    assert_eq!(c[0], [ONE, 0, 0, 0]);
    assert_eq!(c[1], [0, ONE, 0, 0]);
    assert_eq!(c[2], [0, 0, ONE, 0]);
    assert_eq!(c[3], [q(-1.0), q(-2.0), q(-3.0), ONE]);
}

#[test]
fn perspective_with_square_aspect_has_unit_focal_cells() {
    // fov = pi/2, aspect = 1, near = 0.1, far = 100.
    let m = perspective(q(1.5707963267948966), q(1.0), q(0.1), q(100.0));
    assert_cell_close(&m, 0, 0, 1.0, 1e-6);
    assert_cell_close(&m, 1, 1, 1.0, 1e-6);
    assert_cell_close(&m, 2, 2, (0.1 + 100.0) / (0.1 - 100.0), 1e-6);
    assert_eq!(m[2][3], -ONE);
    assert_cell_close(&m, 3, 2, (2.0 * 0.1 * 100.0) / (0.1 - 100.0), 1e-6);
    assert_eq!(m[3][3], 0);
    assert_eq!(m[0][1], 0);
    assert_eq!(m[1][0], 0);
}

#[test]
fn perspective_divides_the_focal_cell_by_the_aspect() {
    let m = perspective(q(1.5707963267948966), q(2.0), q(0.1), q(100.0));
    assert_cell_close(&m, 0, 0, 0.5, 1e-6);
    assert_cell_close(&m, 1, 1, 1.0, 1e-6);
}

#[test]
fn orthographic_with_swapped_planes_keeps_the_quirk() {
    // The depth planes are passed as `far = -1, near = 1` on purpose: the
    // depth cell comes out as `-2 / (far - near) = 1`, and callers depend
    // on exactly this arithmetic.
    let m = orthographic(800, 600, q(-1.0), q(1.0));
    assert_cell_close(&m, 0, 0, 0.0025, 1e-9);
    assert_cell_close(&m, 1, 1, 1.0 / 300.0, 1e-9);
    assert_cell_close(&m, 2, 2, 1.0, 1e-9);
    assert_eq!(m[3][3], ONE);
    assert_cell_close(&m, 3, 0, -1.0, 1e-9);
    assert_cell_close(&m, 3, 1, -1.0, 1e-9);
    assert_cell_close(&m, 3, 2, 0.0, 1e-9);
}

#[test]
fn orthographic_with_zero_width_saturates() {
    let m = orthographic(0, 600, q(-1.0), q(1.0));
    assert_eq!(m[0][0], i64::MAX);
}

#[test]
fn scale_agrees_with_multiplying_by_the_scale_matrix() {
    let m = MatrixWrapper::new(sample());
    let s = [q(2.0), q(-0.5), q(3.25)];
    let direct = m.scale(s);
    let via_product = MatrixWrapper::scale_matrix(s).multiply(&m);
    assert_eq!(direct.to_owned(), via_product.to_owned());
}

#[test]
fn perspective_with_equal_planes_saturates() {
    // near == far makes the plane terms divide by zero; the scalars
    // saturate instead of producing infinities.
    let m = perspective(q(1.0), q(1.0), q(5.0), q(5.0));
    assert_eq!(m[2][2], i64::MAX);
    assert_eq!(m[3][2], i64::MAX);
}
