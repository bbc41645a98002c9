//! The free matrix constructors: identity, translation, and the
//! orthographic and perspective projections.

use vstd::prelude::*;
use crate::scalar::{add_v, div_trunc, div_v, mul_v, sat64, sub_v, tan_v, ONE};
use crate::scalar::{q_div, q_mul, q_tan, sat_add, sat_neg, sat_sub};
use crate::vector_wrapper::Vec3;

verus! {

/// A 4x4 matrix of Q32.32 scalars; the outer index picks a column of the
/// transform, matching the column-major layout the renderer consumes.
pub type Matrix4 = [[i64; 4]; 4];

/// Two as a scalar.
pub const TWO: i64 = 0x2_0000_0000;

/// The entries of the identity matrix: one on the diagonal, zero elsewhere.
pub open spec fn identity_v(i: int, j: int) -> int {
    if i == j {
        0x1_0000_0000int
    } else {
        0int
    }
}

/// The entries of a translation matrix: the identity with the first three
/// cells of row three replaced by the translation vector.
pub open spec fn translation_v(t: Vec3, i: int, j: int) -> int {
    if i == 3 && j < 3 {
        t[j] as int
    } else {
        identity_v(i, j)
    }
}

/// The entries of the orthographic projection built from a viewport of
/// `width` by `height` scalar units with the given depth planes. The box
/// `[0, width] x [0, height]` maps to clip space; `far` and `near` are taken
/// in the order the caller passes them, so a caller that hands them swapped
/// gets the mirrored depth mapping, exactly as written here.
pub open spec fn ortho_entry(width: i32, height: i32, far: i64, near: i64, i: int, j: int) -> int {
    let right: int = (width as int) * 0x1_0000_0000;
    let top: int = (height as int) * 0x1_0000_0000;
    if i == 0 && j == 0 {
        div_v(0x2_0000_0000, right)
    } else if i == 1 && j == 1 {
        div_v(0x2_0000_0000, top)
    } else if i == 2 && j == 2 {
        div_v(-0x2_0000_0000, sub_v(far as int, near as int))
    } else if i == 3 && j == 0 {
        div_v(sat64(-right), right)
    } else if i == 3 && j == 1 {
        div_v(sat64(-top), top)
    } else if i == 3 && j == 2 {
        div_v(sat64(-add_v(far as int, near as int)), sub_v(far as int, near as int))
    } else if i == 3 && j == 3 {
        0x1_0000_0000int
    } else {
        0int
    }
}

/// The entries of the symmetric-frustum perspective projection:
/// `q = 1 / tan(fov / 2)`, `a = q / aspect`, `b = (near + far) / (near - far)`
/// and `c = 2 * near * far / (near - far)`, with `-1` in the cell that turns
/// the homogeneous coordinate into the negated depth. A degenerate lens
/// (`near == far`, a zero aspect, or a tangent that rounds to zero) saturates
/// instead of overflowing.
pub open spec fn persp_entry(fov: i64, aspect_ratio: i64, near: i64, far: i64, i: int, j: int) -> int {
    let t: int = tan_v(div_trunc(fov as int, 2) as i64);
    let q: int = div_v(0x1_0000_0000, t);
    let a: int = div_v(q, aspect_ratio as int);
    let b: int = div_v(add_v(near as int, far as int), sub_v(near as int, far as int));
    let c: int = div_v(
        mul_v(mul_v(0x2_0000_0000, near as int), far as int),
        sub_v(near as int, far as int),
    );
    if i == 0 && j == 0 {
        a
    } else if i == 1 && j == 1 {
        q
    } else if i == 2 && j == 2 {
        b
    } else if i == 2 && j == 3 {
        -0x1_0000_0000int
    } else if i == 3 && j == 2 {
        c
    } else {
        0int
    }
}

/// The identity matrix.
pub fn identity() -> (m: Matrix4)
    ensures
        forall|i: int, j: int| 0 <= i < 4 && 0 <= j < 4 ==> #[trigger] m[i][j] == identity_v(i, j),
{
    [
        [ONE, 0, 0, 0],
        [0, ONE, 0, 0],
        [0, 0, ONE, 0],
        [0, 0, 0, ONE],
    ]
}

/// The translation matrix for `v3`: the identity with row three's first
/// three cells replaced by the vector.
pub fn translation(v3: Vec3) -> (m: Matrix4)
    ensures
        forall|i: int, j: int|
            0 <= i < 4 && 0 <= j < 4 ==> #[trigger] m[i][j] == translation_v(v3, i, j),
{
    [
        [ONE, 0, 0, 0],
        [0, ONE, 0, 0],
        [0, 0, ONE, 0],
        [v3[0], v3[1], v3[2], ONE],
    ]
}

/// The orthographic projection for a `width` by `height` viewport between
/// the given depth planes (see `ortho_entry` for the exact cell values and
/// for the deliberate handling of the `far`/`near` argument order).
pub fn orthographic(width: i32, height: i32, far: i64, near: i64) -> (m: Matrix4)
    ensures
        forall|i: int, j: int|
            0 <= i < 4 && 0 <= j < 4 ==> #[trigger] m[i][j] == ortho_entry(
                width,
                height,
                far,
                near,
                i,
                j,
            ),
{
    let right: i64 = (width as i64) * ONE;
    let top: i64 = (height as i64) * ONE;
    let d: i64 = sat_sub(far, near);
    [
        [q_div(TWO, right), 0, 0, 0],
        [0, q_div(TWO, top), 0, 0],
        [0, 0, q_div(-TWO, d), 0],
        [
            q_div(sat_neg(right), right),
            q_div(sat_neg(top), top),
            q_div(sat_neg(sat_add(far, near)), d),
            ONE,
        ],
    ]
}

/// The perspective projection for a field of view (radians), aspect ratio
/// and depth planes (see `persp_entry` for the exact cell values).
pub fn perspective(fov: i64, aspect_ratio: i64, near: i64, far: i64) -> (m: Matrix4)
    ensures
        forall|i: int, j: int|
            0 <= i < 4 && 0 <= j < 4 ==> #[trigger] m[i][j] == persp_entry(
                fov,
                aspect_ratio,
                near,
                far,
                i,
                j,
            ),
{
    let half: i64 = fov / 2;
    proof {
        assert(half == div_trunc(fov as int, 2));
    }
    let t: i64 = q_tan(half);
    let q: i64 = q_div(ONE, t);
    let a: i64 = q_div(q, aspect_ratio);
    let nd: i64 = sat_sub(near, far);
    let b: i64 = q_div(sat_add(near, far), nd);
    let c: i64 = q_div(q_mul(q_mul(TWO, near), far), nd);
    [
        [a, 0, 0, 0],
        [0, q, 0, 0],
        [0, 0, b, -ONE],
        [0, 0, c, 0],
    ]
}

} // verus!
