//! Small stateless numeric helpers: clamping and linear interpolation.

use vstd::prelude::*;
use crate::scalar::{add_v, div_v, mul_v, sub_v};
use crate::scalar::{q_div, q_mul, sat_add, sat_sub};

verus! {

/// Clamps `value` into the interval given by `min` and `max`, checking the
/// upper bound first; when `min > max` the upper bound wins.
pub fn clamp_u32(value: u32, min: u32, max: u32) -> (r: u32)
    ensures
        r == if value >= max {
            max
        } else if value <= min {
            min
        } else {
            value
        },
{
    if value >= max {
        return max;
    } else if value <= min {
        return min;
    }
    value
}

/// Clamps a scalar into the interval given by `min` and `max`, checking the
/// upper bound first; when `min > max` the upper bound wins.
pub fn clamp(value: i64, min: i64, max: i64) -> (r: i64)
    ensures
        r == if value >= max {
            max
        } else if value <= min {
            min
        } else {
            value
        },
{
    if value >= max {
        return max;
    } else if value <= min {
        return min;
    }
    value
}

/// Linear interpolation: `min + (max - min) * d`, each step with the
/// saturating scalar operations.
pub fn lerp(min: i64, max: i64, d: i64) -> (r: i64)
    ensures
        r == add_v(min as int, mul_v(sub_v(max as int, min as int), d as int)),
{
    sat_add(min, q_mul(sat_sub(max, min), d))
}

/// Where `l` sits between `min` and `max`: `(l - min) / (max - min)`, with
/// the saturating scalar operations (an empty interval saturates).
pub fn inverse_lerp(min: i64, max: i64, l: i64) -> (r: i64)
    ensures
        r == div_v(sub_v(l as int, min as int), sub_v(max as int, min as int)),
{
    q_div(sat_sub(l, min), sat_sub(max, min))
}

} // verus!
