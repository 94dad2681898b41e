//! Circular colliders: a centre, a radius and an enabled flag. Two colliders
//! collide exactly when both are enabled and their centres are strictly
//! closer than the sum of their radii; tangent circles do not collide.

use crate::config::{CFG_LIMIT, POS_LIMIT};
use crate::point::Point;
use vstd::prelude::*;

verus! {

/// A circle that takes part in collision checks while enabled.
#[derive(Clone, Copy, Debug, PartialEq, Eq, Structural)]
pub struct Collider {
    pub pos: Point,
    pub radius: i64,
    pub enabled: bool,
}

/// Squared Euclidean distance between two points.
pub open spec fn dist_sq(a: Point, b: Point) -> int {
    (a.x - b.x) * (a.x - b.x) + (a.y - b.y) * (a.y - b.y)
}

impl Collider {
    /// A usable collider: positive bounded radius, position inside the
    /// world boundary.
    pub open spec fn wf(self) -> bool {
        &&& 1 <= self.radius <= CFG_LIMIT
        &&& self.pos.within(POS_LIMIT as int)
    }

    /// Whether `self` and `other` collide: both enabled and strictly closer
    /// than the sum of the radii.
    pub open spec fn spec_collides(self, other: Collider) -> bool {
        &&& self.enabled
        &&& other.enabled
        &&& dist_sq(self.pos, other.pos) < (self.radius + other.radius) * (self.radius
            + other.radius)
    }

    /// Builds an enabled collider. A radius of zero or less is a
    /// configuration bug and is ruled out here rather than reported.
    pub fn new(pos: Point, radius: i64) -> (c: Collider)
        requires
            1 <= radius <= CFG_LIMIT,
            pos.within(POS_LIMIT as int),
        ensures
            c == (Collider { pos, radius, enabled: true }),
            c.wf(),
    {
        Collider { pos, radius, enabled: true }
    }

    /// Collision test; pure, no side effects. Disabled colliders never
    /// collide, in either direction.
    pub fn collides_with(&self, other: &Collider) -> (r: bool)
        requires
            self.wf(),
            other.wf(),
        ensures
            r == self.spec_collides(*other),
    {
        if !self.enabled || !other.enabled {
            return false;
        }
        let dx: i64 = self.pos.x - other.pos.x;
        let dy: i64 = self.pos.y - other.pos.y;
        assert(0 <= (dx as int) * (dx as int) <= 0x1_0000_0000_0000_0000_0000_0000 && 0 <= (
        dy as int) * (dy as int) <= 0x1_0000_0000_0000_0000_0000_0000) by (nonlinear_arith)
            requires
                crate::num::iabs(dx as int) <= 2 * POS_LIMIT,
                crate::num::iabs(dy as int) <= 2 * POS_LIMIT,
        ;
        assert((dx as int) * (dx as int) + (dy as int) * (dy as int) == dist_sq(
            self.pos,
            other.pos,
        )) by (nonlinear_arith)
            requires
                dx == self.pos.x - other.pos.x,
                dy == self.pos.y - other.pos.y,
                dist_sq(self.pos, other.pos) == (self.pos.x - other.pos.x) * (self.pos.x
                    - other.pos.x) + (self.pos.y - other.pos.y) * (self.pos.y - other.pos.y),
        ;
        let d2: i128 = (dx as i128) * (dx as i128) + (dy as i128) * (dy as i128);
        let rsum: i64 = self.radius + other.radius;
        assert(0 <= (rsum as i128) * (rsum as i128) <= 0x1_0000_0000_0000_0000_0000_0000_0000)
            by (nonlinear_arith)
            requires
                0 <= rsum <= 2 * CFG_LIMIT,
        ;
        d2 < (rsum as i128) * (rsum as i128)
    }

    /// Lets the collider take part in collision checks again.
    pub fn enable(&mut self)
        ensures
            *final(self) == (Collider { enabled: true, ..*old(self) }),
    {
        self.enabled = true;
    }

    /// Withdraws the collider from collision checks without destroying it.
    pub fn disable(&mut self)
        ensures
            *final(self) == (Collider { enabled: false, ..*old(self) }),
    {
        self.enabled = false;
    }
}

/// A disabled collider never collides, in either direction, regardless of
/// the distance between the centres.
pub proof fn lemma_disabled_never_collides(a: Collider, b: Collider)
    requires
        !a.enabled || !b.enabled,
    ensures
        !a.spec_collides(b),
        !b.spec_collides(a),
{
}

/// Collision is symmetric: `a` collides with `b` exactly when `b` collides
/// with `a`, whatever the radii and wherever the centres.
pub proof fn lemma_collides_symmetric(a: Collider, b: Collider)
    ensures
        a.spec_collides(b) == b.spec_collides(a),
{
    assert(dist_sq(a.pos, b.pos) == dist_sq(b.pos, a.pos)) by (nonlinear_arith);
    assert((a.radius + b.radius) * (a.radius + b.radius) == (b.radius + a.radius) * (b.radius
        + a.radius)) by (nonlinear_arith);
}

} // verus!

