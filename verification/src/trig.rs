//! Fixed-point trigonometry in milli-degrees: sine and cosine with results
//! scaled by 1000, and a two-argument arctangent for heading angles.
//!
//! The sine uses Bhaskara's rational approximation, which is exact at every
//! multiple of 30 degrees; the arctangent uses a quadratic correction of the
//! linear ramp. Both are deterministic closed forms, stated verbatim as spec
//! functions.

use crate::num::{iabs, lemma_div_le_k, lemma_div_nonneg, muldiv};
use vstd::prelude::*;

verus! {

/// Sine of `x` milli-degrees for `x` in `[0, 180000]`, scaled by 1000:
/// Bhaskara's approximation `4 t (180 - t) / (40500 - t (180 - t))` in
/// degrees `t`.
pub open spec fn half_sin_spec(x: int) -> int {
    4000 * (x * (180000 - x)) / (40500000000 - x * (180000 - x))
}

/// Sine of `a` milli-degrees for `a` in `[0, 360000)`, scaled by 1000.
pub open spec fn sin_spec(a: int) -> int {
    if a <= 180000 {
        half_sin_spec(a)
    } else {
        -half_sin_spec(a - 180000)
    }
}

/// Cosine of `a` milli-degrees for `a` in `[0, 360000)`, scaled by 1000.
pub open spec fn cos_spec(a: int) -> int {
    if a < 270000 {
        sin_spec(a + 90000)
    } else {
        sin_spec(a - 270000)
    }
}

/// The product `x * (180000 - x)` stays within `[0, 8100000000]` on the half
/// turn, which keeps Bhaskara's denominator positive.
proof fn lemma_half_sin_product_bounds(x: int)
    by (nonlinear_arith)
    requires
        0 <= x <= 180000,
    ensures
        0 <= x * (180000 - x) <= 8100000000,
{
}

/// Bhaskara's sine stays within `[0, 1000]` on the half turn.
pub proof fn lemma_half_sin_spec_bounds(x: int)
    requires
        0 <= x <= 180000,
    ensures
        0 <= half_sin_spec(x) <= 1000,
{
    lemma_half_sin_product_bounds(x);
    let p = x * (180000 - x);
    lemma_div_nonneg(4000 * p, 40500000000 - p);
    lemma_div_le_k(4000 * p, 40500000000 - p, 1000);
}

/// Computes Bhaskara's scaled sine on the half turn.
fn half_sin(x: i64) -> (r: i64)
    requires
        0 <= x <= 180000,
    ensures
        r == half_sin_spec(x as int),
        0 <= r <= 1000,
{
    proof {
        lemma_half_sin_product_bounds(x as int);
        lemma_half_sin_spec_bounds(x as int);
    }
    let p: i64 = x * (180000 - x);
    (4000 * p) / (40500000000 - p)
}

/// Computes the scaled sine of an angle in `[0, 360000)` milli-degrees.
pub fn sin_milli(a: i64) -> (r: i64)
    requires
        0 <= a < 360000,
    ensures
        r == sin_spec(a as int),
        -1000 <= r <= 1000,
{
    if a <= 180000 {
        half_sin(a)
    } else {
        -half_sin(a - 180000)
    }
}

/// Computes the scaled cosine of an angle in `[0, 360000)` milli-degrees.
pub fn cos_milli(a: i64) -> (r: i64)
    requires
        0 <= a < 360000,
    ensures
        r == cos_spec(a as int),
        -1000 <= r <= 1000,
{
    if a < 270000 {
        sin_milli(a + 90000)
    } else {
        sin_milli(a - 270000)
    }
}

/// Arctangent in milli-degrees of a ratio `t` given in thousandths, for `t`
/// in `[0, 1000]`: a linear ramp to 45 degrees with a quadratic correction.
pub open spec fn atan_unit_spec(t: int) -> int {
    45 * t + 15644 * (t * (1000 - t)) / 1000000
}

/// The arctangent ramp stays within `[0, 48911]` milli-degrees and is exact
/// at both ends.
pub proof fn lemma_atan_unit_spec_bounds(t: int)
    requires
        0 <= t <= 1000,
    ensures
        0 <= atan_unit_spec(t) <= 48911,
{
    assert(0 <= t * (1000 - t) <= 250000) by (nonlinear_arith)
        requires
            0 <= t <= 1000,
    ;
    let p = t * (1000 - t);
    lemma_div_nonneg(15644 * p, 1000000);
    lemma_div_le_k(15644 * p, 1000000, 3911);
}

/// Computes the arctangent ramp on `[0, 1000]`.
fn atan_unit(t: i64) -> (r: i64)
    requires
        0 <= t <= 1000,
    ensures
        r == atan_unit_spec(t as int),
        0 <= r <= 48911,
{
    proof {
        assert(0 <= t * (1000 - t) <= 250000) by (nonlinear_arith)
            requires
                0 <= t <= 1000,
        ;
        lemma_atan_unit_spec_bounds(t as int);
    }
    let p: i64 = t * (1000 - t);
    45 * t + (15644 * p) / 1000000
}

/// Arctangent in milli-degrees of `y / x` in the first quadrant (`x, y >= 0`,
/// not both zero).
pub open spec fn atan1_spec(y: int, x: int) -> int {
    if y <= x {
        atan_unit_spec(muldiv(y, 1000, x))
    } else {
        90000 - atan_unit_spec(muldiv(x, 1000, y))
    }
}

/// Two-argument arctangent in milli-degrees for a non-negative `y`.
pub open spec fn atan2_upper_spec(y: int, x: int) -> int {
    if x >= 0 {
        atan1_spec(y, x)
    } else {
        180000 - atan1_spec(y, -x)
    }
}

/// Two-argument arctangent in milli-degrees: the heading of the vector
/// `(x, y)`, in `(-180000, 180000]`, measured from the positive x axis.
pub open spec fn atan2_spec(y: int, x: int) -> int {
    if y < 0 {
        -atan2_upper_spec(-y, x)
    } else {
        atan2_upper_spec(y, x)
    }
}

/// The scaled ratio of the smaller leg to the larger stays in `[0, 1000]`.
proof fn lemma_leg_ratio(y: int, x: int)
    requires
        0 <= y <= x,
        x >= 1,
    ensures
        0 <= muldiv(y, 1000, x) <= 1000,
{
    assert(y * 1000 >= 0 && y * 1000 <= 1000 * x) by (nonlinear_arith)
        requires
            0 <= y <= x,
    ;
    lemma_div_nonneg(y * 1000, x);
    lemma_div_le_k(y * 1000, x, 1000);
}

/// Computes the first-quadrant arctangent.
fn atan1(y: i64, x: i64) -> (r: i64)
    requires
        0 <= y,
        0 <= x,
        x != 0 || y != 0,
    ensures
        r == atan1_spec(y as int, x as int),
        0 <= r <= 90000,
{
    if y <= x {
        proof {
            lemma_leg_ratio(y as int, x as int);
        }
        let t: i64 = crate::num::mul_div(y, 1000, x);
        atan_unit(t)
    } else {
        proof {
            lemma_leg_ratio(x as int, y as int);
        }
        let t: i64 = crate::num::mul_div(x, 1000, y);
        90000 - atan_unit(t)
    }
}

/// Computes the heading of the vector `(x, y)` in milli-degrees, in
/// `(-180000, 180000]`, measured from the positive x axis.
pub fn atan2_milli(y: i64, x: i64) -> (r: i64)
    requires
        x != 0 || y != 0,
        iabs(y as int) <= 0x4000_0000_0000_0000,
        iabs(x as int) <= 0x4000_0000_0000_0000,
    ensures
        r == atan2_spec(y as int, x as int),
        -180000 <= r <= 180000,
{
    let ya: i64 = if y < 0 {
        -y
    } else {
        y
    };
    let upper: i64 = if x >= 0 {
        atan1(ya, x)
    } else {
        180000 - atan1(ya, -x)
    };
    if y < 0 {
        -upper
    } else {
        upper
    }
}

} // verus!
