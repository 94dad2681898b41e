//! 2D points and vectors over fixed-point coordinates, with the scaled
//! arithmetic, magnitude and normalization the motion code relies on.

use crate::config::{CFG_LIMIT, MAG_LIMIT, POS_LIMIT};
use crate::num::{
    iabs, is_sqrt_floor, lemma_div_le_k, lemma_mul_div_exact, lemma_muldiv_mag,
    lemma_sqrt_floor_dominates, mul_div, muldiv, sqrt_floor, sqrt_floor_of, tdiv,
};
use vstd::prelude::*;

verus! {

/// A point or vector in the plane; coordinates in milli-pixels (or
/// milli-pixels per second when used as a velocity).
#[derive(Clone, Copy, Debug, PartialEq, Eq, Structural)]
pub struct Point {
    pub x: i64,
    pub y: i64,
}

/// The absolute value of a coordinate, as executable code.
pub fn abs_i64(v: i64) -> (r: u128)
    ensures
        r == iabs(v as int),
{
    if v < 0 {
        (-(v as i128)) as u128
    } else {
        v as u128
    }
}

impl Point {
    /// The squared Euclidean length of the vector.
    pub open spec fn mag_sq(self) -> int {
        self.x * self.x + self.y * self.y
    }

    /// Both coordinates lie within `[-b, b]`.
    pub open spec fn within(self, b: int) -> bool {
        iabs(self.x as int) <= b && iabs(self.y as int) <= b
    }

    pub fn new(x: i64, y: i64) -> (p: Point)
        ensures
            p == (Point { x, y }),
    {
        Point { x, y }
    }

    /// Componentwise sum.
    pub fn add(self, other: Point) -> (p: Point)
        requires
            i64::MIN <= self.x + other.x <= i64::MAX,
            i64::MIN <= self.y + other.y <= i64::MAX,
        ensures
            p.x == self.x + other.x,
            p.y == self.y + other.y,
    {
        Point { x: self.x + other.x, y: self.y + other.y }
    }

    /// Componentwise difference.
    pub fn sub(self, other: Point) -> (p: Point)
        requires
            i64::MIN <= self.x - other.x <= i64::MAX,
            i64::MIN <= self.y - other.y <= i64::MAX,
        ensures
            p.x == self.x - other.x,
            p.y == self.y - other.y,
    {
        Point { x: self.x - other.x, y: self.y - other.y }
    }

    /// Scalar multiple.
    pub fn mul(self, k: i64) -> (p: Point)
        requires
            i64::MIN <= self.x * k <= i64::MAX,
            i64::MIN <= self.y * k <= i64::MAX,
        ensures
            p.x == self.x * k,
            p.y == self.y * k,
    {
        Point { x: self.x * k, y: self.y * k }
    }

    /// Scalar division, rounded toward zero. Division by zero is a caller
    /// error and is ruled out here.
    pub fn div(self, k: i64) -> (p: Point)
        requires
            k != 0,
            iabs(self.x as int) <= i64::MAX,
            iabs(self.y as int) <= i64::MAX,
        ensures
            p.x == tdiv(self.x as int, k as int),
            p.y == tdiv(self.y as int, k as int),
    {
        proof {
            lemma_div_one_factor(self.x as int, k as int);
            lemma_div_one_factor(self.y as int, k as int);
        }
        Point { x: mul_div(self.x, 1, k), y: mul_div(self.y, 1, k) }
    }

    /// Componentwise `v * num / den`, the "scale by a ratio" step of motion
    /// integration (for example `velocity * dt / 1000`).
    pub fn scaled(self, num: i64, den: i64) -> (p: Point)
        requires
            num >= 0,
            den >= 1,
            iabs(muldiv(self.x as int, num as int, den as int)) <= i64::MAX,
            iabs(muldiv(self.y as int, num as int, den as int)) <= i64::MAX,
        ensures
            p.x == muldiv(self.x as int, num as int, den as int),
            p.y == muldiv(self.y as int, num as int, den as int),
    {
        Point { x: mul_div(self.x, num, den), y: mul_div(self.y, num, den) }
    }

    /// The Euclidean length of the vector, rounded down.
    pub fn magnitude(self) -> (r: i64)
        requires
            self.within(MAG_LIMIT as int),
        ensures
            r == sqrt_floor_of(self.mag_sq()),
            is_sqrt_floor(self.mag_sq(), r as int),
            r >= 0,
    {
        let xa: u128 = abs_i64(self.x);
        let ya: u128 = abs_i64(self.y);
        assert(xa * xa == (self.x as int) * (self.x as int) && xa * xa
            <= 900000000000000000000000000000000) by (nonlinear_arith)
            requires
                xa == iabs(self.x as int),
                xa <= MAG_LIMIT as u128,
        ;
        assert(ya * ya == (self.y as int) * (self.y as int) && ya * ya
            <= 900000000000000000000000000000000) by (nonlinear_arith)
            requires
                ya == iabs(self.y as int),
                ya <= MAG_LIMIT as u128,
        ;
        let s: u128 = xa * xa + ya * ya;
        let r: u64 = sqrt_floor(s);
        assert(r < 0x8000_0000_0000_0000u64) by (nonlinear_arith)
            requires
                (r as int) * (r as int) <= 1800000000000000000000000000000000,
        ;
        r as i64
    }

    /// The first component of the unit vector along `self`, scaled by 1000.
    pub open spec fn spec_normalized_x(self) -> int {
        if self.mag_sq() == 0 {
            0
        } else {
            muldiv(self.x as int, 1000, sqrt_floor_of(self.mag_sq()))
        }
    }

    /// The second component of the unit vector along `self`, scaled by 1000.
    pub open spec fn spec_normalized_y(self) -> int {
        if self.mag_sq() == 0 {
            0
        } else {
            muldiv(self.y as int, 1000, sqrt_floor_of(self.mag_sq()))
        }
    }

    /// The unit vector along `self`, scaled by 1000; the zero vector stays
    /// the zero vector rather than being an error.
    pub fn normalized(self) -> (p: Point)
        requires
            self.within(MAG_LIMIT as int),
        ensures
            p.x == self.spec_normalized_x(),
            p.y == self.spec_normalized_y(),
            p.within(1000),
    {
        let m: i64 = self.magnitude();
        proof {
            assert((self.x as int) * (self.x as int) >= 0) by (nonlinear_arith);
            assert((self.y as int) * (self.y as int) >= 0) by (nonlinear_arith);
        }
        if m > 0 {
            proof {
                let s = self.mag_sq();
                assert(s >= 1) by (nonlinear_arith)
                    requires
                        m >= 1,
                        (m as int) * (m as int) <= s,
                ;
                lemma_sqrt_floor_dominates(s, m as int, self.x as int);
                lemma_sqrt_floor_dominates(s, m as int, self.y as int);
                lemma_muldiv_mag(self.x as int, 1000, m as int, m as int);
                lemma_muldiv_mag(self.y as int, 1000, m as int, m as int);
                lemma_mul_div_exact(1000, m as int);
                assert(m as int * 1000 == 1000 * (m as int));
            }
            Point { x: mul_div(self.x, 1000, m), y: mul_div(self.y, 1000, m) }
        } else {
            proof {
                let s = self.mag_sq();
                assert(s <= 0) by (nonlinear_arith)
                    requires
                        m == 0,
                        s < (m as int + 1) * (m as int + 1),
                ;
                assert(self.x == 0 && self.y == 0) by (nonlinear_arith)
                    requires
                        (self.x as int) * (self.x as int) == 0,
                        (self.y as int) * (self.y as int) == 0,
                ;
            }
            Point { x: 0, y: 0 }
        }
    }
}

/// A coordinate clamped into the world boundary.
pub open spec fn clamp_pos(v: int) -> int {
    if v < -POS_LIMIT {
        -POS_LIMIT as int
    } else if v > POS_LIMIT {
        POS_LIMIT as int
    } else {
        v
    }
}

/// Clamps a coordinate into the world boundary.
pub fn clamp_coord(v: i64) -> (r: i64)
    ensures
        r == clamp_pos(v as int),
        crate::num::iabs(r as int) <= POS_LIMIT,
{
    if v < -POS_LIMIT {
        -POS_LIMIT
    } else if v > POS_LIMIT {
        POS_LIMIT
    } else {
        v
    }
}

/// One explicit-Euler motion step with world-scroll compensation: the
/// position advanced by its own velocity for `dt` milliseconds, then pulled
/// back by the player's velocity for the same interval, clamped into the
/// world boundary.
pub open spec fn spec_shifted(pos: Point, vel: Point, pvx: int, pvy: int, dt: int) -> Point {
    Point {
        x: clamp_pos(
            pos.x + muldiv(vel.x as int, dt, 1000) - muldiv(pvx, dt, 1000),
        ) as i64,
        y: clamp_pos(
            pos.y + muldiv(vel.y as int, dt, 1000) - muldiv(pvy, dt, 1000),
        ) as i64,
    }
}

impl Point {
    /// Performs one motion step with scroll compensation: `self` moved by
    /// `vel * dt`, pulled back by `pvel * dt`, clamped into the world.
    pub fn scroll_step(self, vel: Point, pvel: Point, dt: u32) -> (p: Point)
        requires
            self.within(POS_LIMIT as int),
            vel.within(CFG_LIMIT as int),
            pvel.within(CFG_LIMIT as int),
        ensures
            p == spec_shifted(self, vel, pvel.x as int, pvel.y as int, dt as int),
            p.within(POS_LIMIT as int),
    {
        proof {
            lemma_scroll_step_bounds(vel.x as int, dt as int);
            lemma_scroll_step_bounds(vel.y as int, dt as int);
            lemma_scroll_step_bounds(pvel.x as int, dt as int);
            lemma_scroll_step_bounds(pvel.y as int, dt as int);
        }
        let dx1: i64 = mul_div(vel.x, dt as i64, 1000);
        let dy1: i64 = mul_div(vel.y, dt as i64, 1000);
        let dx2: i64 = mul_div(pvel.x, dt as i64, 1000);
        let dy2: i64 = mul_div(pvel.y, dt as i64, 1000);
        Point { x: clamp_coord(self.x + dx1 - dx2), y: clamp_coord(self.y + dy1 - dy2) }
    }
}

/// A bounded velocity scaled by a tick length stays well within machine
/// range.
pub proof fn lemma_scroll_step_bounds(v: int, dt: int)
    requires
        iabs(v) <= CFG_LIMIT,
        0 <= dt <= 0xffff_ffff,
    ensures
        iabs(muldiv(v, dt, 1000)) <= 5000000000000000,
{
    lemma_muldiv_mag(v, dt, 1000, CFG_LIMIT as int);
    assert(0 <= CFG_LIMIT * dt <= 5000000000000000 * 1000) by (nonlinear_arith)
        requires
            0 <= dt <= 0xffff_ffff,
    ;
    lemma_div_le_k(CFG_LIMIT * dt, 1000, 5000000000000000);
}

/// Dividing a single factor is the scaled product with a unit numerator.
proof fn lemma_div_one_factor(a: int, k: int)
    requires
        k != 0,
    ensures
        muldiv(a, 1, k) == tdiv(a, k),
        iabs(muldiv(a, 1, k)) <= iabs(a),
{
    assert(a * 1 == a);
    assert(iabs(a) <= iabs(a) * iabs(k)) by (nonlinear_arith)
        requires
            iabs(k) >= 1,
            iabs(a) >= 0,
    ;
    crate::num::lemma_div_nonneg(iabs(a), iabs(k));
    lemma_div_le_k(iabs(a), iabs(k), iabs(a));
}

} // verus!
