//! Three-component vectors: subtraction, cross and dot products, length
//! and normalization.

use vstd::prelude::*;
use crate::scalar::{add_v, div_v, mul_v, sqrt_floor, sub_v};
use crate::scalar::{q_div, q_mul, q_sqrt, sat_add, sat_sub};

verus! {

/// A three-component vector of Q32.32 scalars.
pub type Vec3 = [i64; 3];

/// A direction or position in space, with named vector operations.
#[derive(Debug, Clone, Copy)]
pub struct Vec3Wrapper(pub Vec3);

/// The dot product, each partial product rounded and saturated in turn.
pub open spec fn dot_v(a: Vec3, b: Vec3) -> int {
    add_v(
        add_v(mul_v(a[0] as int, b[0] as int), mul_v(a[1] as int, b[1] as int)),
        mul_v(a[2] as int, b[2] as int),
    )
}

/// One component of the cross product: `p*q - r*s`, rounded per operation.
pub open spec fn cross_part(p: i64, q: i64, r: i64, s: i64) -> int {
    sub_v(mul_v(p as int, q as int), mul_v(r as int, s as int))
}

/// The squared length of `v`: the vector dotted with itself.
pub open spec fn norm2_v(v: Vec3) -> int {
    dot_v(v, v)
}

/// The length of `v`: the fixed-point square root of the squared length.
pub open spec fn mag_v(v: Vec3) -> int {
    sqrt_floor(norm2_v(v) * 0x1_0000_0000)
}

/// The normalized form of `v`: each component divided by the length. For a
/// vector of length zero the quotients saturate (the library's analogue of
/// the undefined normalization of a zero vector).
pub open spec fn normalized_v(v: Vec3, i: int) -> int
    recommends
        0 <= i < 3,
{
    div_v(v[i] as int, mag_v(v))
}

/// The component-wise difference of two vectors, as a spec-level vector.
pub open spec fn sub3(a: Vec3, b: Vec3) -> Vec3 {
    [
        sub_v(a[0] as int, b[0] as int) as i64,
        sub_v(a[1] as int, b[1] as int) as i64,
        sub_v(a[2] as int, b[2] as int) as i64,
    ]
}

/// The normalized form of `v`, as a spec-level vector.
pub open spec fn norm3(v: Vec3) -> Vec3 {
    [normalized_v(v, 0) as i64, normalized_v(v, 1) as i64, normalized_v(v, 2) as i64]
}

/// The cross product of two vectors, as a spec-level vector.
pub open spec fn cross3(a: Vec3, b: Vec3) -> Vec3 {
    [
        cross_part(a[1], b[2], a[2], b[1]) as i64,
        cross_part(a[2], b[0], a[0], b[2]) as i64,
        cross_part(a[0], b[1], a[1], b[0]) as i64,
    ]
}

impl Vec3Wrapper {
    /// Hands back the bare component array.
    pub fn to_owned(self) -> (r: Vec3)
        ensures
            r == self.0,
    {
        self.0
    }

    /// Wraps a bare component array.
    pub fn new(field0: Vec3) -> (r: Self)
        ensures
            r.0 == field0,
    {
        Self(field0)
    }

    /// The Euclidean length of the vector.
    pub fn magnitude(&self) -> (r: i64)
        ensures
            r == mag_v(self.0),
    {
        let xx: i64 = q_mul(self.0[0], self.0[0]);
        let yy: i64 = q_mul(self.0[1], self.0[1]);
        let zz: i64 = q_mul(self.0[2], self.0[2]);
        proof {
            assert((self.0[0] as int) * (self.0[0] as int) >= 0 && (self.0[1] as int) * (
            self.0[1] as int) >= 0 && (self.0[2] as int) * (self.0[2] as int) >= 0)
                by (nonlinear_arith);
        }
        let n2: i64 = sat_add(sat_add(xx, yy), zz);
        q_sqrt(n2)
    }

    /// Rescales the vector in place to length one (saturating for a vector
    /// of length zero).
    pub fn normalize(&mut self)
        ensures
            final(self).0[0] == normalized_v(old(self).0, 0),
            final(self).0[1] == normalized_v(old(self).0, 1),
            final(self).0[2] == normalized_v(old(self).0, 2),
    {
        let m: i64 = self.magnitude();
        let r: Vec3 = [q_div(self.0[0], m), q_div(self.0[1], m), q_div(self.0[2], m)];
        *self = Self(r);
    }

    /// The normalized form of the vector, as a new value.
    pub fn normalized(&self) -> (r: Vec3Wrapper)
        ensures
            r.0[0] == normalized_v(self.0, 0),
            r.0[1] == normalized_v(self.0, 1),
            r.0[2] == normalized_v(self.0, 2),
    {
        let mut s = self.clone();
        s.normalize();
        s
    }

    /// The cross product, orthogonal to both inputs up to rounding.
    pub fn cross(&self, b: &Vec3Wrapper) -> (r: Vec3Wrapper)
        ensures
            r.0[0] == cross_part(self.0[1], b.0[2], self.0[2], b.0[1]),
            r.0[1] == cross_part(self.0[2], b.0[0], self.0[0], b.0[2]),
            r.0[2] == cross_part(self.0[0], b.0[1], self.0[1], b.0[0]),
    {
        let a: &Vec3 = &self.0;
        let c: &Vec3 = &b.0;
        Self(
            [
                sat_sub(q_mul(a[1], c[2]), q_mul(a[2], c[1])),
                sat_sub(q_mul(a[2], c[0]), q_mul(a[0], c[2])),
                sat_sub(q_mul(a[0], c[1]), q_mul(a[1], c[0])),
            ],
        )
    }

    /// The dot product of two vectors.
    pub fn dot(&self, b: &Vec3Wrapper) -> (r: i64)
        ensures
            r == dot_v(self.0, b.0),
    {
        sat_add(
            sat_add(q_mul(self.0[0], b.0[0]), q_mul(self.0[1], b.0[1])),
            q_mul(self.0[2], b.0[2]),
        )
    }

    /// The first component.
    pub fn x(&self) -> (r: i64)
        ensures
            r == self.0[0],
    {
        self.0[0]
    }

    /// The second component.
    pub fn y(&self) -> (r: i64)
        ensures
            r == self.0[1],
    {
        self.0[1]
    }

    /// The third component.
    pub fn z(&self) -> (r: i64)
        ensures
            r == self.0[2],
    {
        self.0[2]
    }

    /// Component-wise difference of two vectors.
    pub fn sub(&self, rhs: &Vec3Wrapper) -> (r: Vec3Wrapper)
        ensures
            r.0[0] == sub_v(self.0[0] as int, rhs.0[0] as int),
            r.0[1] == sub_v(self.0[1] as int, rhs.0[1] as int),
            r.0[2] == sub_v(self.0[2] as int, rhs.0[2] as int),
    {
        Self(
            [
                sat_sub(self.0[0], rhs.0[0]),
                sat_sub(self.0[1], rhs.0[1]),
                sat_sub(self.0[2], rhs.0[2]),
            ],
        )
    }
}

/// The dot product does not depend on the order of its arguments.
pub proof fn lemma_dot_commutative(a: Vec3, b: Vec3)
    ensures
        dot_v(a, b) == dot_v(b, a),
{
    assert(forall|x: int, y: int| #[trigger] (x * y) == y * x) by (nonlinear_arith);
}

/// The cross product is anti-commutative: with its factors swapped, each
/// component is the negation of the original. The saturating clamp is
/// asymmetric by one at the very ends of the scalar range, so the law is
/// stated for inputs whose exact partial-product differences stay in range.
pub proof fn lemma_cross_anticommutative(a: Vec3, b: Vec3)
    requires
        forall|i: int| 0 <= i < 3 ==> -0x7fff_ffff_ffff_ffff <= #[trigger] cross_diff(a, b, i)
            <= 0x7fff_ffff_ffff_ffff,
    ensures
        cross3(b, a)[0] == -(cross3(a, b)[0] as int),
        cross3(b, a)[1] == -(cross3(a, b)[1] as int),
        cross3(b, a)[2] == -(cross3(a, b)[2] as int),
{
    crate::scalar::lemma_mul_v_commutative(a[1] as int, b[2] as int);
    crate::scalar::lemma_mul_v_commutative(a[2] as int, b[1] as int);
    crate::scalar::lemma_mul_v_commutative(a[2] as int, b[0] as int);
    crate::scalar::lemma_mul_v_commutative(a[0] as int, b[2] as int);
    crate::scalar::lemma_mul_v_commutative(a[0] as int, b[1] as int);
    crate::scalar::lemma_mul_v_commutative(a[1] as int, b[0] as int);
    assert(-0x7fff_ffff_ffff_ffff <= cross_diff(a, b, 0) <= 0x7fff_ffff_ffff_ffff);
    assert(-0x7fff_ffff_ffff_ffff <= cross_diff(a, b, 1) <= 0x7fff_ffff_ffff_ffff);
    assert(-0x7fff_ffff_ffff_ffff <= cross_diff(a, b, 2) <= 0x7fff_ffff_ffff_ffff);
}

/// The exact (unsaturated) difference behind component `i` of the cross
/// product of `a` and `b`.
pub open spec fn cross_diff(a: Vec3, b: Vec3, i: int) -> int {
    if i == 0 {
        mul_v(a[1] as int, b[2] as int) - mul_v(a[2] as int, b[1] as int)
    } else if i == 1 {
        mul_v(a[2] as int, b[0] as int) - mul_v(a[0] as int, b[2] as int)
    } else {
        mul_v(a[0] as int, b[1] as int) - mul_v(a[1] as int, b[0] as int)
    }
}

/// With exact (unrounded) integer arithmetic the cross product is orthogonal
/// to both of its factors: dotted with either input, the three cross-product
/// numerators cancel. The executable `cross` rounds each part to the scalar
/// grid, so its result is orthogonal up to that rounding.
pub proof fn lemma_cross_orthogonal_exact(
    a0: int,
    a1: int,
    a2: int,
    b0: int,
    b1: int,
    b2: int,
)
    ensures
        (a1 * b2 - a2 * b1) * a0 + (a2 * b0 - a0 * b2) * a1 + (a0 * b1 - a1 * b0) * a2 == 0,
        (a1 * b2 - a2 * b1) * b0 + (a2 * b0 - a0 * b2) * b1 + (a0 * b1 - a1 * b0) * b2 == 0,
{
    assert((a1 * b2 - a2 * b1) * a0 + (a2 * b0 - a0 * b2) * a1 + (a0 * b1 - a1 * b0) * a2 == 0)
        by (nonlinear_arith);
    assert((a1 * b2 - a2 * b1) * b0 + (a2 * b0 - a0 * b2) * b1 + (a0 * b1 - a1 * b0) * b2 == 0)
        by (nonlinear_arith);
}

} // verus!
