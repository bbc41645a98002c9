//! The scalar layer: signed 64-bit fixed-point numbers with 32 fractional
//! bits (Q32.32), with saturating arithmetic, an exact integer square root,
//! and the CORDIC sine and cosine behind the tangent.

use vstd::prelude::*;

verus! {

/// The number one as a scalar: scalars are signed 64-bit fixed-point numbers
/// with 32 fractional bits (Q32.32), so one is `2^32`.
pub const ONE: i64 = 0x1_0000_0000;

/// Absolute value of an unbounded integer.
pub open spec fn abs_i(x: int) -> int {
    if x < 0 {
        -x
    } else {
        x
    }
}

/// Quotient of `n` and `d`, rounded toward zero, the rounding this library
/// uses everywhere.
pub open spec fn div_trunc(n: int, d: int) -> int
    recommends
        d != 0,
{
    let q: int = abs_i(n) / abs_i(d);
    if (n < 0) == (d < 0) {
        q
    } else {
        -q
    }
}

/// Clamps an unbounded integer into the `i64` range: out-of-range results
/// saturate at the nearest end, the library's analogue of an overflow.
pub open spec fn sat64(x: int) -> int {
    if x > i64::MAX {
        i64::MAX as int
    } else if x < i64::MIN {
        i64::MIN as int
    } else {
        x
    }
}

/// The scalar sum: exact, saturated into range.
pub open spec fn add_v(a: int, b: int) -> int {
    sat64(a + b)
}

/// The scalar difference: exact, saturated into range.
pub open spec fn sub_v(a: int, b: int) -> int {
    sat64(a - b)
}

/// The scalar product: `(a * b) / 2^32` rounded toward zero, saturated.
pub open spec fn mul_v(a: int, b: int) -> int {
    sat64(div_trunc(a * b, 0x1_0000_0000))
}

/// The scalar quotient: `(a * 2^32) / b` rounded toward zero, saturated.
/// Division by zero saturates in the direction of the dividend's sign
/// (`i64::MAX` for a dividend of zero), the library's analogue of the
/// infinities that a degenerate denominator produces elsewhere.
pub open spec fn div_v(a: int, b: int) -> int {
    if b == 0 {
        if a >= 0 {
            i64::MAX as int
        } else {
            i64::MIN as int
        }
    } else {
        sat64(div_trunc(a * 0x1_0000_0000, b))
    }
}

/// The greatest integer whose square does not exceed `n` (zero for negative `n`).
pub open spec fn sqrt_floor(n: int) -> int
    decreases n,
{
    if n <= 0 {
        0
    } else {
        let p: int = sqrt_floor(n - 1);
        if (p + 1) * (p + 1) <= n {
            p + 1
        } else {
            p
        }
    }
}

/// What `cordic::sin` returns for a Q32.32 angle.
pub uninterp spec fn sin_q(x: i64) -> i64;

/// What `cordic::cos` returns for a Q32.32 angle.
pub uninterp spec fn cos_q(x: i64) -> i64;

/// The tangent of a Q32.32 angle: the quotient of the CORDIC sine and cosine.
pub open spec fn tan_v(x: i64) -> int {
    div_v(sin_q(x) as int, cos_q(x) as int)
}

/// Relies on cordic::sin: the sine of a binary fixed-point angle, computed by
/// CORDIC rotation; the result depends on the argument bits alone.
#[verifier::external_body]
fn sin_call(x: i64) -> (r: i64)
    ensures
        r == sin_q(x),
{
    cordic::sin(fixed::types::I32F32::from_bits(x)).to_bits()
}

/// Relies on cordic::cos: the cosine of a binary fixed-point angle, computed
/// by CORDIC rotation; the result depends on the argument bits alone.
#[verifier::external_body]
fn cos_call(x: i64) -> (r: i64)
    ensures
        r == cos_q(x),
{
    cordic::cos(fixed::types::I32F32::from_bits(x)).to_bits()
}

/// Saturating scalar addition.
pub fn sat_add(a: i64, b: i64) -> (r: i64)
    ensures
        r == add_v(a as int, b as int),
{
    if b >= 0 {
        if a > i64::MAX - b {
            i64::MAX
        } else {
            a + b
        }
    } else {
        if a < i64::MIN - b {
            i64::MIN
        } else {
            a + b
        }
    }
}

/// Saturating scalar subtraction.
pub fn sat_sub(a: i64, b: i64) -> (r: i64)
    ensures
        r == sub_v(a as int, b as int),
{
    if b >= 0 {
        if a < i64::MIN + b {
            i64::MIN
        } else {
            a - b
        }
    } else {
        if a > i64::MAX + b {
            i64::MAX
        } else {
            a - b
        }
    }
}

/// Saturating scalar negation.
pub fn sat_neg(a: i64) -> (r: i64)
    ensures
        r == sat64(-(a as int)),
{
    if a == i64::MIN {
        i64::MAX
    } else {
        -a
    }
}

/// Saturating fixed-point multiplication.
pub fn q_mul(a: i64, b: i64) -> (r: i64)
    ensures
        r == mul_v(a as int, b as int),
{
    proof {
        assert((a as int) * (b as int) <= 0x8000_0000_0000_0000int * 0x8000_0000_0000_0000int
            && -(0x8000_0000_0000_0000int * 0x8000_0000_0000_0000int) <= (a as int) * (b as int))
            by (nonlinear_arith)
            requires
                -0x8000_0000_0000_0000 <= a <= 0x7fff_ffff_ffff_ffff,
                -0x8000_0000_0000_0000 <= b <= 0x7fff_ffff_ffff_ffff;
    }
    let p: i128 = (a as i128) * (b as i128);
    let q: i128 = p / 0x1_0000_0000i128;
    proof {
        assert(q == div_trunc(p as int, 0x1_0000_0000));
    }
    if q > i64::MAX as i128 {
        i64::MAX
    } else if q < i64::MIN as i128 {
        i64::MIN
    } else {
        q as i64
    }
}

/// Saturating fixed-point division.
pub fn q_div(a: i64, b: i64) -> (r: i64)
    ensures
        r == div_v(a as int, b as int),
{
    if b == 0 {
        if a >= 0 {
            i64::MAX
        } else {
            i64::MIN
        }
    } else {
        let n: i128 = (a as i128) * 0x1_0000_0000i128;
        let negative: bool = (a < 0) != (b < 0);
        let nm: i128 = if n < 0 {
            -n
        } else {
            n
        };
        let bm: i128 = if b < 0 {
            -(b as i128)
        } else {
            b as i128
        };
        let qm: i128 = nm / bm;
        let q: i128 = if negative {
            -qm
        } else {
            qm
        };
        proof {
            assert(q == div_trunc(n as int, b as int));
        }
        if q > i64::MAX as i128 {
            i64::MAX
        } else if q < i64::MIN as i128 {
            i64::MIN
        } else {
            q as i64
        }
    }
}

/// The tangent of a Q32.32 angle, as the saturating quotient of the CORDIC
/// sine and cosine; saturates where the cosine rounds to zero.
pub fn q_tan(x: i64) -> (r: i64)
    ensures
        r == tan_v(x),
{
    let s: i64 = sin_call(x);
    let c: i64 = cos_call(x);
    q_div(s, c)
}

/// The scalar product does not depend on the order of its factors.
pub proof fn lemma_mul_v_commutative(a: int, b: int)
    ensures
        mul_v(a, b) == mul_v(b, a),
{
    assert(a * b == b * a) by (nonlinear_arith);
}

/// `sqrt_floor(n)` squares to at most `n`, and is the largest such integer.
pub proof fn lemma_sqrt_floor_is_root(n: int)
    requires
        n >= 0,
    ensures
        sqrt_floor(n) >= 0,
        sqrt_floor(n) * sqrt_floor(n) <= n,
        n < (sqrt_floor(n) + 1) * (sqrt_floor(n) + 1),
    decreases n,
{
    if n > 0 {
        lemma_sqrt_floor_is_root(n - 1);
        let p: int = sqrt_floor(n - 1);
        if (p + 1) * (p + 1) <= n {
            assert(n < (p + 2) * (p + 2)) by (nonlinear_arith)
                requires
                    p >= 0,
                    n - 1 < (p + 1) * (p + 1),
                    (p + 1) * (p + 1) <= n;
        }
    }
}

/// Any nonnegative `r` with `r^2 <= n < (r+1)^2` is `sqrt_floor(n)`.
pub proof fn lemma_sqrt_floor_unique(n: int, r: int)
    requires
        n >= 0,
        r >= 0,
        r * r <= n,
        n < (r + 1) * (r + 1),
    ensures
        r == sqrt_floor(n),
{
    lemma_sqrt_floor_is_root(n);
    let s: int = sqrt_floor(n);
    assert(r == s) by (nonlinear_arith)
        requires
            r >= 0,
            s >= 0,
            r * r <= n,
            n < (r + 1) * (r + 1),
            s * s <= n,
            n < (s + 1) * (s + 1);
}

/// Integer square root by bisection.
fn isqrt_u128(n: u128) -> (r: u128)
    requires
        n < 0x1_0000_0000_0000_0000_0000_0000u128,
    ensures
        r * r <= n,
        n < (r + 1) * (r + 1),
{
    let mut lo: u128 = 0;
    let mut hi: u128 = 0x1_0000_0000_0000u128;
    while lo + 1 < hi
        invariant
            lo * lo <= n,
            n < hi * hi,
            lo < hi,
            hi <= 0x1_0000_0000_0000u128,
        decreases hi - lo,
    {
        let mid: u128 = lo + (hi - lo) / 2;
        proof {
            assert((mid as int) * (mid as int) <= 0x1_0000_0000_0000_0000_0000_0000int)
                by (nonlinear_arith)
                requires
                    mid <= 0x1_0000_0000_0000u128;
        }
        if mid * mid <= n {
            lo = mid;
        } else {
            hi = mid;
        }
    }
    lo
}

/// The square root of a nonnegative Q32.32 scalar, rounded down.
pub fn q_sqrt(a: i64) -> (r: i64)
    requires
        a >= 0,
    ensures
        r == sqrt_floor((a as int) * 0x1_0000_0000),
{
    let n: u128 = (a as u128) * 0x1_0000_0000u128;
    let s: u128 = isqrt_u128(n);
    proof {
        assert(s < 0x1_0000_0000_0000u128) by (nonlinear_arith)
            requires
                (s as int) * (s as int) <= n as int,
                n < 0x1_0000_0000_0000_0000_0000_0000u128;
        lemma_sqrt_floor_unique(n as int, s as int);
    }
    s as i64
}

} // verus!
