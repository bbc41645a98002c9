//! 4x4 matrices: sums, products, transposition, scaling, translation and
//! view-matrix construction, with the laws that tie them together.

use vstd::prelude::*;
use crate::linear_algebra::{identity_v, translation, translation_v, Matrix4};
use crate::scalar::{add_v, div_trunc, mul_v, sat64, sub_v, ONE};
use crate::scalar::{q_mul, sat_add, sat_neg, sat_sub};
use crate::vector_wrapper::{cross3, dot_v, norm3, sub3, Vec3, Vec3Wrapper};

verus! {

/// The forward direction of a view matrix: from the eye toward the center,
/// normalized.
pub open spec fn look_fwd(eye: Vec3, center: Vec3) -> Vec3 {
    norm3(sub3(center, eye))
}

/// The side direction of a view matrix: forward crossed with the caller's
/// up direction, normalized. When the two are parallel the cross product is
/// the zero vector and normalizing it saturates: the caller is expected to
/// keep `up` off the view axis.
pub open spec fn look_side(eye: Vec3, center: Vec3, up: Vec3) -> Vec3 {
    norm3(cross3(look_fwd(eye, center), up))
}

/// The true up direction of a view matrix: side crossed with forward.
pub open spec fn look_true_up(eye: Vec3, center: Vec3, up: Vec3) -> Vec3 {
    cross3(look_side(eye, center, up), look_fwd(eye, center))
}

/// A 4x4 transform with named matrix operations.
#[derive(Debug, Clone, Copy)]
pub struct MatrixWrapper(pub Matrix4);

/// One cell of the matrix product: the four partial products of row `i` of
/// `a` against column `j` of `b`, accumulated left to right with the scalar
/// operations (each step rounded and saturated in turn).
pub open spec fn product_entry(a: Matrix4, b: Matrix4, i: int, j: int) -> int {
    add_v(
        add_v(
            add_v(
                mul_v(a[i][0] as int, b[0][j] as int),
                mul_v(a[i][1] as int, b[1][j] as int),
            ),
            mul_v(a[i][2] as int, b[2][j] as int),
        ),
        mul_v(a[i][3] as int, b[3][j] as int),
    )
}

/// One cell of the matrix product, computed.
fn product_cell(a: &Matrix4, b: &Matrix4, i: usize, j: usize) -> (r: i64)
    requires
        i < 4,
        j < 4,
    ensures
        r == product_entry(*a, *b, i as int, j as int),
{
    sat_add(
        sat_add(
            sat_add(q_mul(a[i][0], b[0][j]), q_mul(a[i][1], b[1][j])),
            q_mul(a[i][2], b[2][j]),
        ),
        q_mul(a[i][3], b[3][j]),
    )
}

impl MatrixWrapper {
    /// Wraps a bare cell array.
    pub fn new(matrix: Matrix4) -> (r: MatrixWrapper)
        ensures
            r.0 == matrix,
    {
        Self(matrix)
    }

    /// Hands back the bare cell array.
    pub fn to_owned(self) -> (r: Matrix4)
        ensures
            r == self.0,
    {
        self.0
    }

    /// The matrix sum: cells added pairwise, saturating.
    pub fn add(&self, rhs: &MatrixWrapper) -> (r: MatrixWrapper)
        ensures
            forall|i: int, j: int|
                0 <= i < 4 && 0 <= j < 4 ==> #[trigger] r.0[i][j] == add_v(
                    self.0[i][j] as int,
                    rhs.0[i][j] as int,
                ),
    {
        let a: &Matrix4 = &self.0;
        let b: &Matrix4 = &rhs.0;
        Self(
            [
                [
                    sat_add(a[0][0], b[0][0]),
                    sat_add(a[0][1], b[0][1]),
                    sat_add(a[0][2], b[0][2]),
                    sat_add(a[0][3], b[0][3]),
                ],
                [
                    sat_add(a[1][0], b[1][0]),
                    sat_add(a[1][1], b[1][1]),
                    sat_add(a[1][2], b[1][2]),
                    sat_add(a[1][3], b[1][3]),
                ],
                [
                    sat_add(a[2][0], b[2][0]),
                    sat_add(a[2][1], b[2][1]),
                    sat_add(a[2][2], b[2][2]),
                    sat_add(a[2][3], b[2][3]),
                ],
                [
                    sat_add(a[3][0], b[3][0]),
                    sat_add(a[3][1], b[3][1]),
                    sat_add(a[3][2], b[3][2]),
                    sat_add(a[3][3], b[3][3]),
                ],
            ],
        )
    }

    /// The matrix difference: cells subtracted pairwise, saturating.
    pub fn sub(&self, rhs: &MatrixWrapper) -> (r: MatrixWrapper)
        ensures
            forall|i: int, j: int|
                0 <= i < 4 && 0 <= j < 4 ==> #[trigger] r.0[i][j] == sub_v(
                    self.0[i][j] as int,
                    rhs.0[i][j] as int,
                ),
    {
        let a: &Matrix4 = &self.0;
        let b: &Matrix4 = &rhs.0;
        Self(
            [
                [
                    sat_sub(a[0][0], b[0][0]),
                    sat_sub(a[0][1], b[0][1]),
                    sat_sub(a[0][2], b[0][2]),
                    sat_sub(a[0][3], b[0][3]),
                ],
                [
                    sat_sub(a[1][0], b[1][0]),
                    sat_sub(a[1][1], b[1][1]),
                    sat_sub(a[1][2], b[1][2]),
                    sat_sub(a[1][3], b[1][3]),
                ],
                [
                    sat_sub(a[2][0], b[2][0]),
                    sat_sub(a[2][1], b[2][1]),
                    sat_sub(a[2][2], b[2][2]),
                    sat_sub(a[2][3], b[2][3]),
                ],
                [
                    sat_sub(a[3][0], b[3][0]),
                    sat_sub(a[3][1], b[3][1]),
                    sat_sub(a[3][2], b[3][2]),
                    sat_sub(a[3][3], b[3][3]),
                ],
            ],
        )
    }

    /// The matrix product, row of `self` against column of `rhs`.
    pub fn multiply(&self, rhs: &MatrixWrapper) -> (r: MatrixWrapper)
        ensures
            forall|i: int, j: int|
                0 <= i < 4 && 0 <= j < 4 ==> #[trigger] r.0[i][j] == product_entry(
                    self.0,
                    rhs.0,
                    i,
                    j,
                ),
    {
        let a: &Matrix4 = &self.0;
        let b: &Matrix4 = &rhs.0;
        Self(
            [
                [
                    product_cell(a, b, 0, 0),
                    product_cell(a, b, 0, 1),
                    product_cell(a, b, 0, 2),
                    product_cell(a, b, 0, 3),
                ],
                [
                    product_cell(a, b, 1, 0),
                    product_cell(a, b, 1, 1),
                    product_cell(a, b, 1, 2),
                    product_cell(a, b, 1, 3),
                ],
                [
                    product_cell(a, b, 2, 0),
                    product_cell(a, b, 2, 1),
                    product_cell(a, b, 2, 2),
                    product_cell(a, b, 2, 3),
                ],
                [
                    product_cell(a, b, 3, 0),
                    product_cell(a, b, 3, 1),
                    product_cell(a, b, 3, 2),
                    product_cell(a, b, 3, 3),
                ],
            ],
        )
    }

    /// The matrix with rows and columns exchanged.
    pub fn transposed(self) -> (r: MatrixWrapper)
        ensures
            forall|i: int, j: int|
                0 <= i < 4 && 0 <= j < 4 ==> #[trigger] r.0[i][j] == self.0[j][i],
    {
        let m: &Matrix4 = &self.0;
        Self(
            [
                [m[0][0], m[1][0], m[2][0], m[3][0]],
                [m[0][1], m[1][1], m[2][1], m[3][1]],
                [m[0][2], m[1][2], m[2][2], m[3][2]],
                [m[0][3], m[1][3], m[2][3], m[3][3]],
            ],
        )
    }

    /// The matrix with the cell at `x`, `y` replaced by `value`.
    pub fn with_value(self, x: usize, y: usize, value: i64) -> (r: Self)
        requires
            x < 4,
            y < 4,
        ensures
            r.0[x as int][y as int] == value,
            forall|i: int, j: int|
                0 <= i < 4 && 0 <= j < 4 && !(i == x && j == y) ==> #[trigger] r.0[i][j]
                    == self.0[i][j],
    {
        let mut m: Matrix4 = self.0;
        m[x][y] = value;
        Self(m)
    }

    /// The translation matrix for `t`.
    pub fn translation(t: Vec3) -> (r: MatrixWrapper)
        ensures
            forall|i: int, j: int|
                0 <= i < 4 && 0 <= j < 4 ==> #[trigger] r.0[i][j] == translation_v(t, i, j),
    {
        MatrixWrapper(translation(t))
    }

    /// This matrix translated by `t`: the translation matrix for `t` added
    /// cell by cell to `self`.
    pub fn translated(&self, t: Vec3) -> (r: MatrixWrapper)
        ensures
            forall|i: int, j: int|
                0 <= i < 4 && 0 <= j < 4 ==> #[trigger] r.0[i][j] == add_v(
                    translation_v(t, i, j),
                    self.0[i][j] as int,
                ),
    {
        MatrixWrapper(translation(t)).add(self)
    }

    /// The matrix with columns zero, one and two scaled by the respective
    /// component of `scale`, and column three kept; the outer index of the
    /// cell array picks the column.
    pub fn scale(&self, scale: Vec3) -> (r: MatrixWrapper)
        ensures
            forall|i: int, j: int|
                0 <= i < 4 && 0 <= j < 4 ==> #[trigger] r.0[i][j] == if i < 3 {
                    mul_v(self.0[i][j] as int, scale[i] as int)
                } else {
                    self.0[i][j] as int
                },
    {
        let m: &Matrix4 = &self.0;
        Self(
            [
                [
                    q_mul(m[0][0], scale[0]),
                    q_mul(m[0][1], scale[0]),
                    q_mul(m[0][2], scale[0]),
                    q_mul(m[0][3], scale[0]),
                ],
                [
                    q_mul(m[1][0], scale[1]),
                    q_mul(m[1][1], scale[1]),
                    q_mul(m[1][2], scale[1]),
                    q_mul(m[1][3], scale[1]),
                ],
                [
                    q_mul(m[2][0], scale[2]),
                    q_mul(m[2][1], scale[2]),
                    q_mul(m[2][2], scale[2]),
                    q_mul(m[2][3], scale[2]),
                ],
                [m[3][0], m[3][1], m[3][2], m[3][3]],
            ],
        )
    }

    /// A right-handed view matrix for an eye position, a point looked at
    /// and an up direction: the first three columns of the transform hold
    /// the side, true-up and negated forward directions, and the last row
    /// places the eye. Degenerate when `up` is parallel to the view
    /// direction: the side vector then normalizes to saturated garbage,
    /// which the caller is expected to rule out.
    pub fn look_at(eye: Vec3, center: Vec3, up: Vec3) -> (r: MatrixWrapper)
        ensures
            r.0[0][0] == look_side(eye, center, up)[0],
            r.0[1][0] == look_side(eye, center, up)[1],
            r.0[2][0] == look_side(eye, center, up)[2],
            r.0[0][1] == look_true_up(eye, center, up)[0],
            r.0[1][1] == look_true_up(eye, center, up)[1],
            r.0[2][1] == look_true_up(eye, center, up)[2],
            r.0[0][2] == sat64(-(look_fwd(eye, center)[0] as int)),
            r.0[1][2] == sat64(-(look_fwd(eye, center)[1] as int)),
            r.0[2][2] == sat64(-(look_fwd(eye, center)[2] as int)),
            r.0[0][3] == 0 && r.0[1][3] == 0 && r.0[2][3] == 0,
            r.0[3][0] == sat64(-dot_v(look_side(eye, center, up), eye)),
            r.0[3][1] == sat64(-dot_v(look_true_up(eye, center, up), eye)),
            r.0[3][2] == dot_v(look_fwd(eye, center), eye),
            r.0[3][3] == ONE,
    {
        let d: Vec3Wrapper = Vec3Wrapper::new(center).sub(&Vec3Wrapper::new(eye));
        proof {
            assert(d.0 =~= sub3(center, eye));
        }
        let f: Vec3Wrapper = d.normalized();
        proof {
            assert(f.0 =~= look_fwd(eye, center));
        }
        let c: Vec3Wrapper = f.cross(&Vec3Wrapper::new(up));
        proof {
            assert(c.0 =~= cross3(look_fwd(eye, center), up));
        }
        let s: Vec3Wrapper = c.normalized();
        proof {
            assert(s.0 =~= look_side(eye, center, up));
        }
        let u: Vec3Wrapper = s.cross(&f);
        proof {
            assert(u.0 =~= look_true_up(eye, center, up));
        }
        let e: Vec3Wrapper = Vec3Wrapper::new(eye);
        Self(
            [
                [s.x(), u.x(), sat_neg(f.x()), 0],
                [s.y(), u.y(), sat_neg(f.y()), 0],
                [s.z(), u.z(), sat_neg(f.z()), 0],
                [sat_neg(s.dot(&e)), sat_neg(u.dot(&e)), f.dot(&e), ONE],
            ],
        )
    }

    /// The scale matrix for `scale`: the identity with the first three
    /// diagonal cells replaced by the scale components.
    pub fn scale_matrix(scale: Vec3) -> (r: MatrixWrapper)
        ensures
            forall|i: int, j: int|
                0 <= i < 4 && 0 <= j < 4 ==> #[trigger] r.0[i][j] == if i == j && i < 3 {
                    scale[i] as int
                } else {
                    identity_v(i, j)
                },
    {
        Self(
            [
                [scale[0], 0, 0, 0],
                [0, scale[1], 0, 0],
                [0, 0, scale[2], 0],
                [0, 0, 0, ONE],
            ],
        )
    }
}

/// A homogeneous row vector taken through a matrix: component `j` of
/// `p * m` under the library's row-vector convention, accumulated with the
/// scalar operations.
pub open spec fn point_entry(p: [i64; 4], m: Matrix4, j: int) -> int {
    add_v(
        add_v(
            add_v(
                mul_v(p[0] as int, m[0][j] as int),
                mul_v(p[1] as int, m[1][j] as int),
            ),
            mul_v(p[2] as int, m[2][j] as int),
        ),
        mul_v(p[3] as int, m[3][j] as int),
    )
}

/// The homogeneous origin, with the weight component one.
pub open spec fn origin_point() -> [i64; 4] {
    [0i64, 0i64, 0i64, 0x1_0000_0000i64]
}

/// Multiplying a scalar by one gives it back exactly: one partial product
/// of a matrix product against an identity cell loses nothing.
pub proof fn lemma_mul_v_one(x: i64)
    ensures
        mul_v(0x1_0000_0000, x as int) == x,
        mul_v(x as int, 0x1_0000_0000) == x,
{
    assert(0x1_0000_0000 * (x as int) == (x as int) * 0x1_0000_0000) by (nonlinear_arith);
    assert((x as int) * 0x1_0000_0000 % 0x1_0000_0000 == 0) by (nonlinear_arith);
    assert(((x as int) * 0x1_0000_0000) / 0x1_0000_0000 == x) by (nonlinear_arith);
    if x >= 0 {
        assert(div_trunc((x as int) * 0x1_0000_0000, 0x1_0000_0000) == x);
    } else {
        assert((-(x as int)) * 0x1_0000_0000 == -((x as int) * 0x1_0000_0000))
            by (nonlinear_arith);
        assert(((-(x as int)) * 0x1_0000_0000) / 0x1_0000_0000 == -(x as int))
            by (nonlinear_arith);
        assert(div_trunc((x as int) * 0x1_0000_0000, 0x1_0000_0000) == x);
    }
}

/// Multiplying a scalar by zero gives zero.
pub proof fn lemma_mul_v_zero(x: i64)
    ensures
        mul_v(0, x as int) == 0,
        mul_v(x as int, 0) == 0,
{
    assert(0 * (x as int) == 0) by (nonlinear_arith);
    assert((x as int) * 0 == 0) by (nonlinear_arith);
}

/// Multiplying by the identity matrix on either side gives back the matrix
/// exactly, cell for cell: for any matrix `idm` whose cells are the identity
/// and any matrix `m`, every cell of the product equals the matching cell of
/// `m`.
pub proof fn lemma_multiply_identity(m: Matrix4, idm: Matrix4)
    requires
        forall|i: int, j: int|
            0 <= i < 4 && 0 <= j < 4 ==> #[trigger] idm[i][j] == identity_v(i, j),
    ensures
        forall|i: int, j: int|
            0 <= i < 4 && 0 <= j < 4 ==> #[trigger] product_entry(idm, m, i, j) == m[i][j],
        forall|i: int, j: int|
            0 <= i < 4 && 0 <= j < 4 ==> #[trigger] product_entry(m, idm, i, j) == m[i][j],
{
    assert forall|i: int, j: int|
        0 <= i < 4 && 0 <= j < 4 implies #[trigger] product_entry(idm, m, i, j) == m[i][j] by {
        lemma_mul_v_one(m[i][j]);
        lemma_mul_v_zero(m[0][j]);
        lemma_mul_v_zero(m[1][j]);
        lemma_mul_v_zero(m[2][j]);
        lemma_mul_v_zero(m[3][j]);
    }
    assert forall|i: int, j: int|
        0 <= i < 4 && 0 <= j < 4 implies #[trigger] product_entry(m, idm, i, j) == m[i][j] by {
        lemma_mul_v_one(m[i][j]);
        lemma_mul_v_zero(m[i][0]);
        lemma_mul_v_zero(m[i][1]);
        lemma_mul_v_zero(m[i][2]);
        lemma_mul_v_zero(m[i][3]);
    }
}

/// Scaling columns directly agrees with multiplying by the scale matrix:
/// for any `sm` whose cells are those of the scale matrix for `s`, every
/// cell of the product `sm * m` equals the matching cell of `m` scaled by
/// `s` column by column — the same values that `scale` computes, cell for
/// cell and rounding for rounding.
pub proof fn lemma_scale_matches_scale_matrix(m: Matrix4, sm: Matrix4, s: Vec3)
    requires
        forall|i: int, j: int|
            0 <= i < 4 && 0 <= j < 4 ==> #[trigger] sm[i][j] == if i == j && i < 3 {
                s[i] as int
            } else {
                identity_v(i, j)
            },
    ensures
        forall|i: int, j: int|
            0 <= i < 4 && 0 <= j < 4 ==> #[trigger] product_entry(sm, m, i, j) == if i < 3 {
                mul_v(m[i][j] as int, s[i] as int)
            } else {
                m[i][j] as int
            },
{
    assert forall|i: int, j: int|
        0 <= i < 4 && 0 <= j < 4 implies #[trigger] product_entry(sm, m, i, j) == if i < 3 {
        mul_v(m[i][j] as int, s[i] as int)
    } else {
        m[i][j] as int
    } by {
        lemma_mul_v_zero(m[0][j]);
        lemma_mul_v_zero(m[1][j]);
        lemma_mul_v_zero(m[2][j]);
        lemma_mul_v_zero(m[3][j]);
        if i < 3 {
            crate::scalar::lemma_mul_v_commutative(s[i] as int, m[i][j] as int);
        } else {
            lemma_mul_v_one(m[3][j]);
        }
    }
}

/// Transposing a matrix twice gives back the original: if `t` holds the
/// transpose of `m` and `r` the transpose of `t`, then `r` is `m`.
pub proof fn lemma_transpose_involution(m: Matrix4, t: Matrix4, r: Matrix4)
    requires
        forall|i: int, j: int| 0 <= i < 4 && 0 <= j < 4 ==> #[trigger] t[i][j] == m[j][i],
        forall|i: int, j: int| 0 <= i < 4 && 0 <= j < 4 ==> #[trigger] r[i][j] == t[j][i],
    ensures
        r == m,
{
    assert forall|i: int| 0 <= i < 4 implies #[trigger] r[i] == m[i] by {
        assert(r[i] =~= m[i]);
    }
    assert(r =~= m);
}

/// Translating the homogeneous origin: taken through the product of the
/// translation matrix for `t` and the identity, the origin lands exactly on
/// `t` with its weight kept at one.
pub proof fn lemma_translation_moves_origin(t: Vec3, idm: Matrix4, tr: Matrix4, p: Matrix4)
    requires
        forall|i: int, j: int|
            0 <= i < 4 && 0 <= j < 4 ==> #[trigger] idm[i][j] == identity_v(i, j),
        forall|i: int, j: int|
            0 <= i < 4 && 0 <= j < 4 ==> #[trigger] tr[i][j] == translation_v(t, i, j),
        forall|i: int, j: int|
            0 <= i < 4 && 0 <= j < 4 ==> #[trigger] p[i][j] == product_entry(tr, idm, i, j),
    ensures
        point_entry(origin_point(), p, 0) == t[0],
        point_entry(origin_point(), p, 1) == t[1],
        point_entry(origin_point(), p, 2) == t[2],
        point_entry(origin_point(), p, 3) == 0x1_0000_0000,
{
    lemma_multiply_identity(tr, idm);
    assert forall|j: int| 0 <= j < 4 implies #[trigger] point_entry(origin_point(), p, j)
        == p[3][j] by {
        lemma_mul_v_one(p[3][j]);
        lemma_mul_v_zero(p[0][j]);
        lemma_mul_v_zero(p[1][j]);
        lemma_mul_v_zero(p[2][j]);
    }
}

} // verus!
