//! Homing missiles: a state machine over `Active`, `Exploding` and
//! `Inactive`, explicit-Euler motion with world-scroll compensation, homing
//! acceleration toward the player capped at a maximum speed, and a pooled
//! spawn generator that places missiles on a circle around the screen
//! centre at a random angle.

use crate::animation::Animation;
use crate::collider::Collider;
use crate::config::{sat_add, Config, CFG_LIMIT, ELAPSED_CAP, FULL_TURN, POS_LIMIT};
use crate::num::{
    iabs, is_sqrt_floor, lemma_div_ge_one, lemma_div_nonneg, lemma_mul_div_exact, lemma_muldiv_mag,
    lemma_sqrt_floor_exists, lemma_sqrt_floor_unique, lemma_zero_div, mul_div, muldiv, sqrt_ceil,
    sqrt_ceil_of, sqrt_floor_of,
};
use crate::player::Player;
use crate::point::{abs_i64, lemma_scroll_step_bounds, spec_shifted, Point};
use crate::rng::random_below;
use crate::traits::Collides;
use crate::trig::{atan2_milli, atan2_spec, cos_milli, cos_spec, half_sin_spec, sin_milli, sin_spec};
use vstd::arithmetic::div_mod::lemma_fundamental_div_mod;
use vstd::prelude::*;

verus! {

/// The missile's life-cycle state.
#[derive(Clone, Copy, Debug, PartialEq, Eq, Structural)]
pub enum MissileState {
    Active,
    Exploding,
    Inactive,
}

/// One pooled missile.
#[derive(Clone, Copy, Debug, PartialEq, Eq, Structural)]
pub struct Missile {
    pub state: MissileState,
    pub collider: Collider,
    pub velocity: Point,
    pub explosion: Animation,
}

/// A velocity capped at magnitude `max`: rescaled onto the cap along its own
/// direction when its squared magnitude reaches `max` squared, else kept.
pub open spec fn spec_capped(vx: int, vy: int, max: int) -> Point {
    let s = vx * vx + vy * vy;
    if s >= max * max {
        let m = sqrt_ceil_of(s);
        Point { x: muldiv(vx, max, m) as i64, y: muldiv(vy, max, m) as i64 }
    } else {
        Point { x: vx as i64, y: vy as i64 }
    }
}

/// One homing step: the velocity nudged toward the target by the configured
/// acceleration for `dt` milliseconds, then capped at the maximum speed.
pub open spec fn spec_homed(vel: Point, from: Point, target: Point, cfg: Config, dt: int) -> Point {
    let diff = Point { x: (target.x - from.x) as i64, y: (target.y - from.y) as i64 };
    let q = muldiv(cfg.missile_accel as int, dt, 1000);
    let vx1 = vel.x + muldiv(diff.spec_normalized_x(), q, 1000);
    let vy1 = vel.y + muldiv(diff.spec_normalized_y(), q, 1000);
    spec_capped(vx1, vy1, cfg.missile_max_speed as int)
}

/// Rescaling onto the cap really lands inside it: when `vx^2 + vy^2` is at
/// most `m^2`, the components scaled by `max / m` have squared magnitude at
/// most `max^2`, each no larger than `max` in magnitude.
proof fn lemma_cap_bounds(vx: int, vy: int, max: int, m: int)
    requires
        max >= 1,
        m >= 1,
        vx * vx + vy * vy <= m * m,
    ensures
        muldiv(vx, max, m) * muldiv(vx, max, m) + muldiv(vy, max, m) * muldiv(vy, max, m) <= max
            * max,
        iabs(muldiv(vx, max, m)) <= max,
        iabs(muldiv(vy, max, m)) <= max,
{
    assert(vx * vx <= m * m && vy * vy <= m * m && iabs(vx) * iabs(vx) == vx * vx && iabs(vy)
        * iabs(vy) == vy * vy) by (nonlinear_arith)
        requires
            vx * vx + vy * vy <= m * m,
    ;
    assert(iabs(vx) <= m && iabs(vy) <= m) by (nonlinear_arith)
        requires
            iabs(vx) * iabs(vx) <= m * m,
            iabs(vy) * iabs(vy) <= m * m,
            iabs(vx) >= 0,
            iabs(vy) >= 0,
            m >= 0,
    ;
    lemma_muldiv_mag(vx, max, m, m);
    lemma_muldiv_mag(vy, max, m, m);
    lemma_mul_div_exact(max, m);
    assert(m * max == max * m) by (nonlinear_arith);
    let a1 = iabs(muldiv(vx, max, m));
    let b1 = iabs(muldiv(vy, max, m));
    lemma_fundamental_div_mod(iabs(vx) * max, m);
    lemma_fundamental_div_mod(iabs(vy) * max, m);
    assert(a1 * m <= iabs(vx) * max && b1 * m <= iabs(vy) * max) by (nonlinear_arith)
        requires
            m >= 1,
            a1 == iabs(vx) * max / m,
            b1 == iabs(vy) * max / m,
            iabs(vx) * max == m * (iabs(vx) * max / m) + (iabs(vx) * max) % m,
            iabs(vy) * max == m * (iabs(vy) * max / m) + (iabs(vy) * max) % m,
            (iabs(vx) * max) % m >= 0,
            (iabs(vy) * max) % m >= 0,
    ;
    assert(a1 * a1 * (m * m) <= (iabs(vx) * iabs(vx)) * (max * max)) by (nonlinear_arith)
        requires
            a1 >= 0,
            m >= 1,
            max >= 1,
            iabs(vx) >= 0,
            a1 * m <= iabs(vx) * max,
    ;
    assert(b1 * b1 * (m * m) <= (iabs(vy) * iabs(vy)) * (max * max)) by (nonlinear_arith)
        requires
            b1 >= 0,
            m >= 1,
            max >= 1,
            iabs(vy) >= 0,
            b1 * m <= iabs(vy) * max,
    ;
    let aa2 = a1 * a1;
    let bb2 = b1 * b1;
    let mm = m * m;
    let mx2 = max * max;
    let xx = vx * vx;
    let yy = vy * vy;
    assert(mm >= 1 && mx2 >= 0) by (nonlinear_arith)
        requires
            m >= 1,
            max >= 1,
            mm == m * m,
            mx2 == max * max,
    ;
    assert(aa2 * mm + bb2 * mm <= (xx + yy) * mx2) by (nonlinear_arith)
        requires
            aa2 * mm <= xx * mx2,
            bb2 * mm <= yy * mx2,
    ;
    assert((xx + yy) * mx2 <= mm * mx2) by (nonlinear_arith)
        requires
            xx + yy <= mm,
            mx2 >= 0,
    ;
    assert(aa2 + bb2 <= mx2) by (nonlinear_arith)
        requires
            aa2 * mm + bb2 * mm <= mm * mx2,
            mm >= 1,
    ;
    assert(muldiv(vx, max, m) * muldiv(vx, max, m) == a1 * a1 && muldiv(vy, max, m) * muldiv(
        vy,
        max,
        m,
    ) == b1 * b1) by (nonlinear_arith)
        requires
            a1 == iabs(muldiv(vx, max, m)),
            b1 == iabs(muldiv(vy, max, m)),
    ;
}

impl Missile {
    /// A consistent missile: sound collider and animation, velocity inside
    /// the configured speed cap, and the collider enabled exactly while
    /// active.
    pub open spec fn wf(self, cfg: Config) -> bool {
        &&& self.collider.wf()
        &&& self.explosion.wf()
        &&& self.velocity.mag_sq() <= cfg.missile_max_speed * cfg.missile_max_speed
        &&& self.velocity.within(cfg.missile_max_speed as int)
        &&& (self.collider.enabled <==> self.state is Active)
    }

    /// Builds an inactive, disabled missile ready for the pool.
    pub fn new(cfg: &Config, collider: Collider, velocity: Point, explosion: Animation) -> (m:
        Missile)
        requires
            cfg.wf(),
            collider.wf(),
            explosion.wf(),
            velocity.mag_sq() <= cfg.missile_max_speed * cfg.missile_max_speed,
            velocity.within(cfg.missile_max_speed as int),
        ensures
            m == (Missile {
                state: MissileState::Inactive,
                collider: Collider { enabled: false, ..collider },
                velocity,
                explosion,
            }),
            m.wf(*cfg),
    {
        let mut c = collider;
        c.disable();
        Missile { state: MissileState::Inactive, collider: c, velocity, explosion }
    }

    /// The state one tick later. An active missile drifts by its velocity
    /// and the world scroll, then, while the player is still active, homes
    /// toward the player under the capped acceleration. An exploding missile
    /// keeps drifting while its explosion plays at its position, and goes
    /// inactive when the animation stops. An inactive missile does nothing.
    pub open spec fn spec_update(self, player: Player, cfg: Config, dt: int) -> Missile {
        match self.state {
            MissileState::Active => {
                let pos2 = spec_shifted(
                    self.collider.pos,
                    self.velocity,
                    player.spec_velocity_x(cfg),
                    player.spec_velocity_y(cfg),
                    dt,
                );
                let moved = Missile { collider: Collider { pos: pos2, ..self.collider }, ..self };
                if player.state is Active {
                    Missile {
                        velocity: spec_homed(self.velocity, pos2, player.collider.pos, cfg, dt),
                        ..moved
                    }
                } else {
                    moved
                }
            },
            MissileState::Exploding => {
                let pos2 = spec_shifted(
                    self.collider.pos,
                    self.velocity,
                    player.spec_velocity_x(cfg),
                    player.spec_velocity_y(cfg),
                    dt,
                );
                let e2 = self.explosion.spec_update(dt);
                Missile {
                    state: if !e2.playing {
                        MissileState::Inactive
                    } else {
                        MissileState::Exploding
                    },
                    collider: Collider { pos: pos2, ..self.collider },
                    explosion: Animation { pos: pos2, ..e2 },
                    ..self
                }
            },
            MissileState::Inactive => self,
        }
    }

    /// Advances the missile by `dt` milliseconds.
    pub fn update(&mut self, player: &Player, cfg: &Config, dt: u32)
        requires
            old(self).wf(*cfg),
            player.wf(),
            cfg.wf(),
        ensures
            *final(self) == old(self).spec_update(*player, *cfg, dt as int),
            final(self).wf(*cfg),
    {
        match self.state {
            MissileState::Active => {
                self.update_position(player, cfg, dt);
                if player.is_active() {
                    self.update_velocity(player, cfg, dt);
                }
            },
            MissileState::Exploding => {
                self.update_position(player, cfg, dt);
                self.update_explosion(dt);
                if !self.explosion.is_playing() {
                    self.state = MissileState::Inactive;
                }
            },
            MissileState::Inactive => {},
        }
    }

    /// Integrates the position: own velocity forward, world scroll back.
    fn update_position(&mut self, player: &Player, cfg: &Config, dt: u32)
        requires
            old(self).collider.wf(),
            old(self).velocity.within(cfg.missile_max_speed as int),
            player.wf(),
            cfg.wf(),
        ensures
            *final(self) == (Missile {
                collider: Collider {
                    pos: spec_shifted(
                        old(self).collider.pos,
                        old(self).velocity,
                        player.spec_velocity_x(*cfg),
                        player.spec_velocity_y(*cfg),
                        dt as int,
                    ),
                    ..old(self).collider
                },
                ..*old(self)
            }),
            final(self).collider.wf(),
    {
        let pvel: Point = player.velocity(cfg);
        let p2: Point = self.collider.pos.scroll_step(self.velocity, pvel, dt);
        self.collider.pos = p2;
    }

    /// Applies the homing acceleration toward the player and caps the speed.
    fn update_velocity(&mut self, player: &Player, cfg: &Config, dt: u32)
        requires
            old(self).collider.wf(),
            old(self).velocity.within(cfg.missile_max_speed as int),
            player.collider.wf(),
            cfg.wf(),
        ensures
            *final(self) == (Missile {
                velocity: spec_homed(
                    old(self).velocity,
                    old(self).collider.pos,
                    player.collider.pos,
                    *cfg,
                    dt as int,
                ),
                ..*old(self)
            }),
            final(self).velocity.mag_sq() <= cfg.missile_max_speed * cfg.missile_max_speed,
            final(self).velocity.within(cfg.missile_max_speed as int),
    {
        let diff = Point {
            x: player.collider.pos.x - self.collider.pos.x,
            y: player.collider.pos.y - self.collider.pos.y,
        };
        let dir: Point = diff.normalized();
        proof {
            lemma_scroll_step_bounds(cfg.missile_accel as int, dt as int);
            assert(cfg.missile_accel * (dt as int) >= 0) by (nonlinear_arith)
                requires
                    cfg.missile_accel >= 0,
                    dt >= 0,
            ;
            lemma_div_nonneg(cfg.missile_accel as int * (dt as int), 1000);
        }
        let q: i64 = mul_div(cfg.missile_accel, dt as i64, 1000);
        proof {
            lemma_muldiv_mag(dir.x as int, q as int, 1000, 1000);
            lemma_muldiv_mag(dir.y as int, q as int, 1000, 1000);
            lemma_mul_div_exact(q as int, 1000);
            assert(1000 * (q as int) == (q as int) * 1000);
        }
        let dvx: i64 = mul_div(dir.x, q, 1000);
        let dvy: i64 = mul_div(dir.y, q, 1000);
        let vx1: i64 = self.velocity.x + dvx;
        let vy1: i64 = self.velocity.y + dvy;
        let xa: u128 = abs_i64(vx1);
        let ya: u128 = abs_i64(vy1);
        assert(xa * xa == (vx1 as int) * (vx1 as int) && xa * xa
            <= 40000000000000000000000000000000) by (nonlinear_arith)
            requires
                xa == iabs(vx1 as int),
                xa <= 6000000000000000u128,
        ;
        assert(ya * ya == (vy1 as int) * (vy1 as int) && ya * ya
            <= 40000000000000000000000000000000) by (nonlinear_arith)
            requires
                ya == iabs(vy1 as int),
                ya <= 6000000000000000u128,
        ;
        let s: u128 = xa * xa + ya * ya;
        let maxv: i64 = cfg.missile_max_speed;
        assert((maxv as u128) * (maxv as u128) == (maxv as int) * (maxv as int) && 1 <= (
        maxv as int) * (maxv as int) <= 1000000000000000000) by (nonlinear_arith)
            requires
                1 <= maxv <= 1000000000,
        ;
        let ms: u128 = (maxv as u128) * (maxv as u128);
        if s >= ms {
            let m64: u64 = sqrt_ceil(s);
            proof {
                assert(s > 0);
                assert(m64 >= 1);
                assert((vx1 as int) * (vx1 as int) <= (m64 as int) * (m64 as int) && (vy1 as int)
                    * (vy1 as int) <= (m64 as int) * (m64 as int)) by (nonlinear_arith)
                    requires
                        (vx1 as int) * (vx1 as int) + (vy1 as int) * (vy1 as int) <= (m64 as int)
                            * (m64 as int),
                ;
                lemma_cap_bounds(vx1 as int, vy1 as int, maxv as int, m64 as int);
            }
            let mi: i64 = m64 as i64;
            let nvx: i64 = mul_div(vx1, maxv, mi);
            let nvy: i64 = mul_div(vy1, maxv, mi);
            self.velocity = Point { x: nvx, y: nvy };
        } else {
            proof {
                assert(iabs(vx1 as int) <= maxv && iabs(vy1 as int) <= maxv) by (nonlinear_arith)
                    requires
                        (vx1 as int) * (vx1 as int) + (vy1 as int) * (vy1 as int) < (maxv as int)
                            * (maxv as int),
                        maxv >= 1,
                ;
            }
            self.velocity = Point { x: vx1, y: vy1 };
        }
    }

    /// Advances the explosion and pins it to the missile's position.
    fn update_explosion(&mut self, dt: u32)
        requires
            old(self).explosion.wf(),
            old(self).collider.wf(),
        ensures
            *final(self) == (Missile {
                explosion: Animation {
                    pos: old(self).collider.pos,
                    ..old(self).explosion.spec_update(dt as int)
                },
                ..*old(self)
            }),
            final(self).explosion.wf(),
    {
        self.explosion.update(dt);
        let p: Point = self.collider.pos;
        self.explosion.set_pos(p);
    }

    /// The state after an explosion is triggered: only an active missile
    /// starts exploding, its collider is disabled and the explosion restarts
    /// at its position; otherwise nothing changes.
    pub open spec fn spec_explode(self) -> Missile {
        if self.state is Active {
            Missile {
                state: MissileState::Exploding,
                collider: Collider { enabled: false, ..self.collider },
                explosion: Animation {
                    elapsed: 0i64,
                    playing: true,
                    pos: self.collider.pos,
                    ..self.explosion
                },
                ..self
            }
        } else {
            self
        }
    }

    /// Blows the missile up; a no-op while exploding or inactive.
    pub fn explode(&mut self)
        requires
            old(self).collider.wf(),
            old(self).explosion.wf(),
        ensures
            *final(self) == old(self).spec_explode(),
    {
        match self.state {
            MissileState::Active => {
                self.state = MissileState::Exploding;
                self.collider.disable();
                self.explosion.play();
                let p: Point = self.collider.pos;
                self.explosion.set_pos(p);
            },
            MissileState::Exploding | MissileState::Inactive => {},
        }
    }

    /// The state after a respawn at `pos` with velocity `velocity`: active,
    /// collider enabled, explosion stopped.
    pub open spec fn spec_place(self, pos: Point, velocity: Point) -> Missile {
        Missile {
            state: MissileState::Active,
            collider: Collider { pos, enabled: true, ..self.collider },
            velocity,
            explosion: Animation { elapsed: 0i64, playing: false, ..self.explosion },
        }
    }

    /// Respawns the missile from the pool.
    pub fn place(&mut self, cfg: &Config, pos: Point, velocity: Point)
        requires
            old(self).wf(*cfg),
            cfg.wf(),
            pos.within(POS_LIMIT as int),
            velocity.mag_sq() <= cfg.missile_max_speed * cfg.missile_max_speed,
            velocity.within(cfg.missile_max_speed as int),
        ensures
            *final(self) == old(self).spec_place(pos, velocity),
            final(self).wf(*cfg),
    {
        self.collider.pos = pos;
        self.velocity = velocity;
        self.state = MissileState::Active;
        self.collider.enable();
        self.explosion.stop();
    }

    /// Returns the missile to the pool: inactive, disabled, explosion
    /// stopped.
    pub fn reset(&mut self)
        requires
            old(self).collider.wf(),
            old(self).explosion.wf(),
        ensures
            *final(self) == (Missile {
                state: MissileState::Inactive,
                collider: Collider { enabled: false, ..old(self).collider },
                velocity: old(self).velocity,
                explosion: Animation { elapsed: 0i64, playing: false, ..old(self).explosion },
            }),
    {
        self.state = MissileState::Inactive;
        self.collider.disable();
        self.explosion.stop();
    }

    /// Whether the missile is waiting in the pool.
    pub fn is_inactive(&self) -> (r: bool)
        ensures
            r == (self.state is Inactive),
    {
        match self.state {
            MissileState::Inactive => true,
            _ => false,
        }
    }

    /// The heading of the velocity vector in milli-degrees, for rendering;
    /// zero for a missile at rest.
    pub fn get_rotation(&self) -> (r: i64)
        requires
            self.velocity.within(CFG_LIMIT as int),
        ensures
            self.velocity.x == 0 && self.velocity.y == 0 ==> r == 0,
            !(self.velocity.x == 0 && self.velocity.y == 0) ==> r == atan2_spec(
                self.velocity.y as int,
                self.velocity.x as int,
            ),
            -180000 <= r <= 180000,
    {
        if self.velocity.x == 0 && self.velocity.y == 0 {
            0
        } else {
            atan2_milli(self.velocity.y, self.velocity.x)
        }
    }

    /// Collision test against any other collidable entity.
    pub fn collides_with<C: Collides>(&self, other: &C) -> (r: bool)
        requires
            self.collider.wf(),
            other.spec_collider().wf(),
        ensures
            r == self.collider.spec_collides(other.spec_collider()),
    {
        self.collider.collides_with(other.get_collider())
    }
}

impl Collides for Missile {
    open spec fn spec_collider(&self) -> Collider {
        self.collider
    }

    fn get_collider(&self) -> (c: &Collider) {
        &self.collider
    }
}

/// The pool slot every missile starts from: inactive at the origin.
pub open spec fn spec_initial_missile(cfg: Config) -> Missile {
    Missile {
        state: MissileState::Inactive,
        collider: Collider {
            pos: Point { x: 0i64, y: 0i64 },
            radius: cfg.missile_radius,
            enabled: false,
        },
        velocity: Point { x: 0i64, y: 0i64 },
        explosion: Animation {
            pos: Point { x: 0i64, y: 0i64 },
            length: cfg.missile_explosion_ms,
            elapsed: 0i64,
            playing: false,
            zoom: cfg.missile_explosion_scale,
        },
    }
}

/// Builds the missile pool: `max_missiles` inactive missiles.
pub fn initialise_missiles(cfg: &Config) -> (v: Vec<Missile>)
    requires
        cfg.wf(),
    ensures
        v@.len() == cfg.max_missiles,
        forall|i: int| 0 <= i < v@.len() ==> #[trigger] v@[i] == spec_initial_missile(*cfg),
        forall|i: int| 0 <= i < v@.len() ==> (#[trigger] v@[i]).wf(*cfg),
{
    let mut v: Vec<Missile> = Vec::new();
    let mut k: usize = 0;
    while k < cfg.max_missiles
        invariant
            cfg.wf(),
            0 <= k <= cfg.max_missiles,
            v@.len() == k,
            forall|i: int| 0 <= i < v@.len() ==> #[trigger] v@[i] == spec_initial_missile(*cfg),
            forall|i: int| 0 <= i < v@.len() ==> (#[trigger] v@[i]).wf(*cfg),
        decreases cfg.max_missiles - k,
    {
        proof {
            assert(Point { x: 0i64, y: 0i64 }.mag_sq() == 0) by (nonlinear_arith);
        }
        let m = Missile::new(
            cfg,
            Collider::new(Point::new(0, 0), cfg.missile_radius),
            Point::new(0, 0),
            Animation::new(cfg.missile_explosion_ms, cfg.missile_explosion_scale),
        );
        v.push(m);
        k = k + 1;
    }
    v
}

/// Where a missile spawned at `angle` milli-degrees appears: on the circle
/// of the configured spawn radius around the screen centre.
pub open spec fn spec_missile_spawn_pos(cfg: Config, angle: int) -> Point {
    Point {
        x: (cfg.screen_w / 2 - muldiv(cos_spec(angle), cfg.missile_spawn_radius as int,
        1000)) as i64,
        y: (cfg.screen_h / 2 - muldiv(sin_spec(angle), cfg.missile_spawn_radius as int,
        1000)) as i64,
    }
}

/// Spawns the missile at a uniformly random angle on the spawn circle, at
/// rest. Every outcome lies on that circle; which angle comes out is up to
/// the random source.
fn place_missile(missile: &mut Missile, cfg: &Config)
    requires
        old(missile).wf(*cfg),
        cfg.wf(),
    ensures
        exists|angle: int|
            0 <= angle < FULL_TURN && *final(missile) == old(missile).spec_place(
                #[trigger] spec_missile_spawn_pos(*cfg, angle),
                Point { x: 0i64, y: 0i64 },
            ),
        final(missile).wf(*cfg),
        final(missile).state is Active,
{
    let angle: i64 = random_below(360000) as i64;
    let c: i64 = cos_milli(angle);
    let s: i64 = sin_milli(angle);
    proof {
        lemma_muldiv_mag(c as int, cfg.missile_spawn_radius as int, 1000, 1000);
        lemma_muldiv_mag(s as int, cfg.missile_spawn_radius as int, 1000, 1000);
        lemma_mul_div_exact(cfg.missile_spawn_radius as int, 1000);
        assert(1000 * (cfg.missile_spawn_radius as int) == (cfg.missile_spawn_radius as int)
            * 1000);
        assert(Point { x: 0i64, y: 0i64 }.mag_sq() == 0) by (nonlinear_arith);
    }
    let px: i64 = cfg.screen_w / 2 - mul_div(c, cfg.missile_spawn_radius, 1000);
    let py: i64 = cfg.screen_h / 2 - mul_div(s, cfg.missile_spawn_radius, 1000);
    let pos = Point { x: px, y: py };
    missile.place(cfg, pos, Point { x: 0, y: 0 });
    proof {
        assert(pos == spec_missile_spawn_pos(*cfg, angle as int));
        assert(0 <= angle < FULL_TURN && *missile == old(missile).spec_place(
            spec_missile_spawn_pos(*cfg, angle as int),
            Point { x: 0i64, y: 0i64 },
        ));
    }
}

/// Index of the first inactive slot, or the pool size when none is free.
pub open spec fn first_inactive(s: Seq<Missile>) -> int
    decreases s.len(),
{
    if s.len() == 0 {
        0
    } else if s.first().state is Inactive {
        0
    } else {
        1 + first_inactive(s.drop_first())
    }
}

/// `first_inactive` is pinned down by a scan that stopped at `i`.
proof fn lemma_first_inactive_is(s: Seq<Missile>, i: int)
    requires
        0 <= i <= s.len(),
        forall|j: int| 0 <= j < i ==> !((#[trigger] s[j]).state is Inactive),
        i < s.len() ==> s[i].state is Inactive,
    ensures
        first_inactive(s) == i,
    decreases s.len(),
{
    if s.len() == 0 {
    } else if s.first().state is Inactive {
        assert(i == 0) by {
            if i > 0 {
                assert(!(s[0].state is Inactive));
            }
        }
    } else {
        let rest = s.drop_first();
        assert(forall|j: int| 0 <= j < i - 1 ==> rest[j] == s[j + 1]);
        lemma_first_inactive_is(rest, i - 1);
    }
}

/// The missile spawner: a timer that, while the player is active, places
/// one pooled missile on the spawn circle each time the interval elapses.
#[derive(Clone, Copy, Debug, PartialEq, Eq, Structural)]
pub struct Generator {
    pub time_since_last_missile: i64,
}

impl Generator {
    /// The spawn timer lies inside the model's clock range.
    pub open spec fn wf(self) -> bool {
        0 <= self.time_since_last_missile <= ELAPSED_CAP
    }

    /// A fresh spawner with its timer at zero.
    pub fn new() -> (g: Generator)
        ensures
            g == (Generator { time_since_last_missile: 0i64 }),
            g.wf(),
    {
        Generator { time_since_last_missile: 0 }
    }

    /// Accumulates `dt` and, once the interval is exceeded, keeps the
    /// remainder and places the first inactive missile at a random angle on
    /// the spawn circle; a full pool skips the spawn silently. Does nothing
    /// while the player is not active.
    pub fn update(&mut self, missiles: &mut Vec<Missile>, player: &Player, cfg: &Config, dt: u32)
        requires
            old(self).wf(),
            cfg.wf(),
            player.wf(),
            forall|i: int|
                0 <= i < old(missiles)@.len() ==> (#[trigger] old(missiles)@[i]).wf(*cfg),
        ensures
            final(self).wf(),
            final(missiles)@.len() == old(missiles)@.len(),
            forall|i: int|
                0 <= i < final(missiles)@.len() ==> (#[trigger] final(missiles)@[i]).wf(*cfg),
            !(player.state is Active) ==> *final(self) == *old(self) && final(missiles)@ == old(
                missiles,
            )@,
            player.state is Active && sat_add(old(self).time_since_last_missile as int, dt as int)
                <= cfg.missile_spawn_interval_ms ==> final(self).time_since_last_missile == sat_add(
                old(self).time_since_last_missile as int,
                dt as int,
            ) && final(missiles)@ == old(missiles)@,
            player.state is Active && sat_add(old(self).time_since_last_missile as int, dt as int)
                > cfg.missile_spawn_interval_ms ==> {
                &&& final(self).time_since_last_missile == sat_add(
                    old(self).time_since_last_missile as int,
                    dt as int,
                ) - cfg.missile_spawn_interval_ms
                &&& {
                    let idx = first_inactive(old(missiles)@);
                    if idx < old(missiles)@.len() {
                        &&& (exists|angle: int|
                            0 <= angle < FULL_TURN && final(missiles)@[idx] == old(
                                missiles,
                            )@[idx].spec_place(
                                #[trigger] spec_missile_spawn_pos(*cfg, angle),
                                Point { x: 0i64, y: 0i64 },
                            ))
                        &&& forall|i: int|
                            0 <= i < old(missiles)@.len() && i != idx ==> final(missiles)@[i] == old(
                                missiles,
                            )@[i]
                    } else {
                        final(missiles)@ == old(missiles)@
                    }
                }
            },
    {
        if !player.is_active() {
            return ;
        }
        let acc2: i64 = if self.time_since_last_missile + (dt as i64) <= ELAPSED_CAP {
            self.time_since_last_missile + (dt as i64)
        } else {
            ELAPSED_CAP
        };
        if acc2 > cfg.missile_spawn_interval_ms {
            self.time_since_last_missile = acc2 - cfg.missile_spawn_interval_ms;
            let n: usize = missiles.len();
            let mut idx: usize = 0;
            while idx < n && !missiles[idx].is_inactive()
                invariant
                    n == missiles@.len(),
                    0 <= idx <= n,
                    forall|j: int| 0 <= j < idx ==> !((#[trigger] missiles@[j]).state is Inactive),
                decreases n - idx,
            {
                idx = idx + 1;
            }
            proof {
                lemma_first_inactive_is(missiles@, idx as int);
            }
            if idx < n {
                let mut m: Missile = missiles[idx];
                place_missile(&mut m, cfg);
                missiles.set(idx, m);
            }
        } else {
            self.time_since_last_missile = acc2;
        }
    }

    /// Game restart: every missile back to the pool, the first one placed
    /// immediately so the game never starts empty, and the timer cleared.
    pub fn reset_missiles(&mut self, missiles: &mut Vec<Missile>, cfg: &Config)
        requires
            cfg.wf(),
            old(missiles)@.len() >= 1,
            forall|i: int|
                0 <= i < old(missiles)@.len() ==> (#[trigger] old(missiles)@[i]).wf(*cfg),
        ensures
            final(self).time_since_last_missile == 0,
            final(self).wf(),
            final(missiles)@.len() == old(missiles)@.len(),
            forall|i: int|
                0 <= i < final(missiles)@.len() ==> (#[trigger] final(missiles)@[i]).wf(*cfg),
            forall|i: int|
                1 <= i < old(missiles)@.len() ==> final(missiles)@[i] == spec_missile_reset(
                    old(missiles)@[i],
                ),
            exists|angle: int|
                0 <= angle < FULL_TURN && final(missiles)@[0] == spec_missile_reset(
                    old(missiles)@[0],
                ).spec_place(
                    #[trigger] spec_missile_spawn_pos(*cfg, angle),
                    Point { x: 0i64, y: 0i64 },
                ),
    {
        let n: usize = missiles.len();
        let mut k: usize = 0;
        while k < n
            invariant
                n == missiles@.len(),
                0 <= k <= n,
                cfg.wf(),
                forall|i: int| 0 <= i < n ==> (#[trigger] missiles@[i]).wf(*cfg),
                forall|i: int|
                    0 <= i < k ==> missiles@[i] == spec_missile_reset(#[trigger] old(
                        missiles,
                    )@[i]),
                forall|i: int| k <= i < n ==> #[trigger] missiles@[i] == old(missiles)@[i],
            decreases n - k,
        {
            let mut m: Missile = missiles[k];
            m.reset();
            missiles.set(k, m);
            k = k + 1;
        }
        let mut first: Missile = missiles[0];
        place_missile(&mut first, cfg);
        missiles.set(0, first);
        self.time_since_last_missile = 0;
    }
}

/// The rounded-up square root of a square sum is positive and bounds it.
proof fn lemma_sqrt_ceil_of_sum(s: int)
    requires
        s >= 1,
    ensures
        sqrt_ceil_of(s) >= 1,
        s <= sqrt_ceil_of(s) * sqrt_ceil_of(s),
{
    lemma_sqrt_floor_exists(s);
    let f = sqrt_floor_of(s);
    if f * f == s {
        assert(f >= 1) by (nonlinear_arith)
            requires
                f * f >= 1,
                f >= 0,
        ;
    } else {
        assert(s < (f + 1) * (f + 1));
    }
}

/// One homing step never leaves the speed cap, whatever velocity within the
/// cap came in and wherever the missile and its target stand: either the
/// nudged velocity is already inside the cap, or it is rescaled onto it.
/// With the per-tick transition this is the invariant that the speed never
/// exceeds the cap across arbitrarily many ticks.
pub proof fn lemma_homing_speed_capped(vel: Point, from: Point, target: Point, cfg: Config, dt: int)
    requires
        cfg.wf(),
        vel.within(cfg.missile_max_speed as int),
        from.within(POS_LIMIT as int),
        target.within(POS_LIMIT as int),
        0 <= dt <= 0xffff_ffff,
    ensures
        spec_homed(vel, from, target, cfg, dt).mag_sq() <= cfg.missile_max_speed
            * cfg.missile_max_speed,
        spec_homed(vel, from, target, cfg, dt).within(cfg.missile_max_speed as int),
{
    let diff = Point { x: (target.x - from.x) as i64, y: (target.y - from.y) as i64 };
    let maxv = cfg.missile_max_speed as int;

    // The direction components stay within one thousand in magnitude.
    assert(diff.mag_sq() >= 0 && (diff.x as int) * (diff.x as int) <= diff.mag_sq() && (
    diff.y as int) * (diff.y as int) <= diff.mag_sq()) by (nonlinear_arith)
        requires
            diff.mag_sq() == diff.x * diff.x + diff.y * diff.y,
    ;
    if diff.mag_sq() > 0 {
        lemma_sqrt_floor_exists(diff.mag_sq());
        let mg = sqrt_floor_of(diff.mag_sq());
        assert(mg >= 1) by {
            if mg == 0 {
                assert((mg + 1) * (mg + 1) == 1) by (nonlinear_arith)
                    requires
                        mg == 0,
                ;
            }
        }
        crate::num::lemma_sqrt_floor_dominates(diff.mag_sq(), mg, diff.x as int);
        crate::num::lemma_sqrt_floor_dominates(diff.mag_sq(), mg, diff.y as int);
        lemma_muldiv_mag(diff.x as int, 1000, mg, mg);
        lemma_muldiv_mag(diff.y as int, 1000, mg, mg);
        lemma_mul_div_exact(1000, mg);
        assert(mg * 1000 == 1000 * mg) by (nonlinear_arith);
    }
    assert(iabs(diff.spec_normalized_x()) <= 1000 && iabs(diff.spec_normalized_y()) <= 1000);

    // The velocity gain is bounded by the acceleration over the tick.
    let q = muldiv(cfg.missile_accel as int, dt, 1000);
    lemma_scroll_step_bounds(cfg.missile_accel as int, dt);
    assert(q >= 0) by {
        assert(cfg.missile_accel * dt >= 0) by (nonlinear_arith)
            requires
                cfg.missile_accel >= 0,
                dt >= 0,
        ;
        lemma_div_nonneg(cfg.missile_accel as int * dt, 1000);
    }
    lemma_muldiv_mag(diff.spec_normalized_x(), q, 1000, 1000);
    lemma_muldiv_mag(diff.spec_normalized_y(), q, 1000, 1000);
    lemma_mul_div_exact(q, 1000);
    assert(1000 * q == q * 1000) by (nonlinear_arith);

    let vx1 = vel.x + muldiv(diff.spec_normalized_x(), q, 1000);
    let vy1 = vel.y + muldiv(diff.spec_normalized_y(), q, 1000);
    let s = vx1 * vx1 + vy1 * vy1;
    if s >= maxv * maxv {
        assert(s >= 1) by (nonlinear_arith)
            requires
                s >= maxv * maxv,
                maxv >= 1,
        ;
        lemma_sqrt_ceil_of_sum(s);
        let m = sqrt_ceil_of(s);
        lemma_cap_bounds(vx1, vy1, maxv, m);
        let r = spec_capped(vx1, vy1, maxv);
        assert(r.x == muldiv(vx1, maxv, m) && r.y == muldiv(vy1, maxv, m));
        assert(r.mag_sq() <= maxv * maxv && r.within(maxv)) by (nonlinear_arith)
            requires
                r.mag_sq() == r.x * r.x + r.y * r.y,
                r.x == muldiv(vx1, maxv, m),
                r.y == muldiv(vy1, maxv, m),
                muldiv(vx1, maxv, m) * muldiv(vx1, maxv, m) + muldiv(vy1, maxv, m) * muldiv(
                    vy1,
                    maxv,
                    m,
                ) <= maxv * maxv,
                iabs(muldiv(vx1, maxv, m)) <= maxv,
                iabs(muldiv(vy1, maxv, m)) <= maxv,
                r.within(maxv) == (iabs(r.x as int) <= maxv && iabs(r.y as int) <= maxv),
    ;
    } else {
        let r = spec_capped(vx1, vy1, maxv);
        assert(r.x == vx1 && r.y == vy1);
        assert(iabs(vx1) <= maxv && iabs(vy1) <= maxv) by (nonlinear_arith)
            requires
                vx1 * vx1 + vy1 * vy1 < maxv * maxv,
                maxv >= 1,
        ;
        assert(r.mag_sq() <= maxv * maxv) by (nonlinear_arith)
            requires
                r.mag_sq() == r.x * r.x + r.y * r.y,
                r.x == vx1,
                r.y == vy1,
                vx1 * vx1 + vy1 * vy1 < maxv * maxv,
        ;
    }
}

/// The per-tick transition keeps the speed invariant: a consistent missile
/// never comes out of an update faster than the cap, in any state.
pub proof fn lemma_missile_speed_invariant(m: Missile, p: Player, cfg: Config, dt: int)
    requires
        cfg.wf(),
        m.wf(cfg),
        p.wf(),
        0 <= dt <= 0xffff_ffff,
    ensures
        m.spec_update(p, cfg, dt).velocity.mag_sq() <= cfg.missile_max_speed
            * cfg.missile_max_speed,
{
    match m.state {
        MissileState::Active => {
            if p.state is Active {
                let pos2 = spec_shifted(
                    m.collider.pos,
                    m.velocity,
                    p.spec_velocity_x(cfg),
                    p.spec_velocity_y(cfg),
                    dt,
                );
                assert(pos2.within(POS_LIMIT as int));
                lemma_homing_speed_capped(m.velocity, pos2, p.collider.pos, cfg, dt);
            }
        },
        MissileState::Exploding => {},
        MissileState::Inactive => {},
    }
}

/// Homing points straight at the player. A missile at rest whose target
/// sits at a positive distance along the positive x axis, with the player
/// active at heading zero, comes out of one update with no vertical
/// velocity, a strictly positive horizontal velocity, and a speed inside the
/// cap. The acceleration gained over the tick must amount to at least one
/// velocity unit, or the fixed-point step truncates to rest.
pub proof fn lemma_homing_straight_line(m: Missile, p: Player, cfg: Config, dt: int)
    requires
        cfg.wf(),
        m.wf(cfg),
        p.wf(),
        m.state is Active,
        p.state is Active,
        m.velocity == (Point { x: 0i64, y: 0i64 }),
        p.rot == 0,
        p.collider.pos.y == m.collider.pos.y,
        p.collider.pos.x > m.collider.pos.x,
        0 <= dt <= 0xffff_ffff,
        cfg.missile_accel * dt >= 1000,
    ensures
        m.spec_update(p, cfg, dt).velocity.y == 0,
        m.spec_update(p, cfg, dt).velocity.x > 0,
        m.spec_update(p, cfg, dt).velocity.mag_sq() <= cfg.missile_max_speed
            * cfg.missile_max_speed,
{
    // The player's scroll velocity at heading zero points along positive x.
    assert(sin_spec(0) == 0) by {
        lemma_zero_div(40500000000);
    }
    lemma_half_sin_quarter_turn();
    assert(cos_spec(0) == 1000) by {
        assert(cos_spec(0) == sin_spec(90000));
    }
    let pvx = p.spec_velocity_x(cfg);
    let pvy = p.spec_velocity_y(cfg);
    assert(pvy == 0) by {
        assert(0int * (cfg.player_speed as int) == 0) by (nonlinear_arith);
        lemma_zero_div(1000);
    }
    assert(pvx == cfg.player_speed) by {
        lemma_mul_div_exact(cfg.player_speed as int, 1000);
        assert(1000 * (cfg.player_speed as int) == (cfg.player_speed as int) * 1000
            && 1000 * (cfg.player_speed as int) >= 0) by (nonlinear_arith)
            requires
                cfg.player_speed >= 1,
        ;
    }

    // One scroll step keeps the vertical coordinate and never moves the
    // missile past the player.
    let pos2 = spec_shifted(m.collider.pos, m.velocity, pvx, pvy, dt);
    assert(muldiv(0, dt, 1000) == 0) by {
        assert(0int * dt == 0) by (nonlinear_arith);
        lemma_zero_div(1000);
    }
    assert(pos2.y == m.collider.pos.y);
    let sh = muldiv(pvx, dt, 1000);
    assert(sh >= 0) by {
        assert(pvx * dt >= 0) by (nonlinear_arith)
            requires
                pvx >= 0,
                dt >= 0,
        ;
        crate::num::lemma_div_nonneg(pvx * dt, 1000);
    }
    assert(pos2.x <= m.collider.pos.x);

    // The homing direction is exactly the positive x unit vector.
    let dxv = p.collider.pos.x - pos2.x;
    assert(dxv > 0);
    let diff = Point { x: (p.collider.pos.x - pos2.x) as i64, y: (p.collider.pos.y - pos2.y) as i64 };
    assert(diff.x == dxv && diff.y == 0);
    assert(diff.mag_sq() == dxv * dxv && dxv * dxv >= 1) by (nonlinear_arith)
        requires
            diff.x == dxv,
            diff.y == 0,
            dxv >= 1,
            diff.mag_sq() == diff.x * diff.x + diff.y * diff.y,
    ;
    assert(is_sqrt_floor(dxv * dxv, dxv)) by (nonlinear_arith)
        requires
            dxv >= 0,
    ;
    lemma_sqrt_floor_exists(dxv * dxv);
    lemma_sqrt_floor_unique(dxv * dxv, dxv, sqrt_floor_of(dxv * dxv));
    assert(diff.spec_normalized_x() == 1000) by {
        lemma_mul_div_exact(1000, dxv);
        assert(diff.x * 1000 == 1000 * dxv && 1000 * dxv >= 0) by (nonlinear_arith)
            requires
                diff.x == dxv,
                dxv >= 1,
        ;
    }
    assert(diff.spec_normalized_y() == 0) by {
        assert(0int * 1000 == 0);
        lemma_zero_div(dxv);
    }

    // The gained speed is a positive whole number of velocity units.
    let q = muldiv(cfg.missile_accel as int, dt, 1000);
    assert(q >= 1) by {
        lemma_div_ge_one(cfg.missile_accel * dt, 1000);
    }
    assert(muldiv(1000, q, 1000) == q) by {
        lemma_mul_div_exact(q, 1000);
        assert(1000 * q == q * 1000 && 1000 * q >= 0) by (nonlinear_arith)
            requires
                q >= 1,
        ;
    }
    assert(muldiv(0, q, 1000) == 0) by {
        assert(0int * q == 0) by (nonlinear_arith);
        lemma_zero_div(1000);
    }

    // The cap keeps the heading: either the velocity is already inside it,
    // or it is rescaled onto the cap along the same positive x direction.
    let maxv = cfg.missile_max_speed as int;
    let capped = spec_capped(q, 0, maxv);
    assert(q * q + 0int * 0int == q * q) by (nonlinear_arith);
    if q * q >= maxv * maxv {
        assert(is_sqrt_floor(q * q, q)) by (nonlinear_arith)
            requires
                q >= 0,
        ;
        lemma_sqrt_floor_exists(q * q);
        lemma_sqrt_floor_unique(q * q, q, sqrt_floor_of(q * q));
        assert(sqrt_ceil_of(q * q) == q);
        assert(muldiv(q, maxv, q) == maxv) by {
            lemma_mul_div_exact(maxv, q);
            assert(q * maxv == maxv * q && q * maxv >= 0) by (nonlinear_arith)
                requires
                    q >= 1,
                    maxv >= 1,
            ;
        }
        assert(muldiv(0, maxv, q) == 0) by {
            assert(0int * maxv == 0) by (nonlinear_arith);
            lemma_zero_div(q);
        }
        assert(capped.x == maxv && capped.y == 0);
        assert(capped.mag_sq() == maxv * maxv) by (nonlinear_arith)
            requires
                capped.x == maxv,
                capped.y == 0,
                capped.mag_sq() == capped.x * capped.x + capped.y * capped.y,
        ;
    } else {
        assert(0 <= q < maxv) by (nonlinear_arith)
            requires
                q >= 1,
                maxv >= 1,
                q * q < maxv * maxv,
        ;
        assert(capped.x == q && capped.y == 0);
        assert(capped.mag_sq() <= maxv * maxv) by (nonlinear_arith)
            requires
                capped.x == q,
                capped.y == 0,
                q * q < maxv * maxv,
                capped.mag_sq() == capped.x * capped.x + capped.y * capped.y,
        ;
    }
    assert(m.spec_update(p, cfg, dt).velocity == capped);
}

/// Bhaskara's approximation is exact a quarter turn into the half turn: the
/// sine of ninety degrees is one, in thousandths.
pub proof fn lemma_half_sin_quarter_turn()
    ensures
        half_sin_spec(90000) == 1000,
{
    assert(90000int * (180000 - 90000) == 8100000000) by (nonlinear_arith);
    assert(4000 * 8100000000int == 32400000000000int);
    lemma_mul_div_exact(1000, 32400000000);
    assert(1000 * 32400000000int == 32400000000000int);
}

/// A missile as `reset` leaves it: inactive, disabled, explosion stopped.
pub open spec fn spec_missile_reset(m: Missile) -> Missile {
    Missile {
        state: MissileState::Inactive,
        collider: Collider { enabled: false, ..m.collider },
        velocity: m.velocity,
        explosion: Animation { elapsed: 0i64, playing: false, ..m.explosion },
    }
}

} // verus!
