//! Pickups: a state machine over `Active`, `Collected`, `Disappearing` and
//! `Inactive`. An active pickup spins, drifts with the world scroll and
//! expires after a maximum lifetime; collection and expiry play tween-driven
//! fade-outs that end back in the inactive pool. A pooled spawn generator
//! places pickups at a random angle and radius around the screen centre.

use crate::collider::Collider;
use crate::config::{sat_add, Config, ELAPSED_CAP, FULL_TURN, POS_LIMIT};
use crate::num::{lemma_mul_div_exact, lemma_muldiv_mag, mul_div, muldiv};
use crate::player::Player;
use crate::point::{spec_shifted, Point};
use crate::rng::random_below;
use crate::traits::Collides;
use crate::trig::{cos_milli, cos_spec, sin_milli, sin_spec};
use crate::tween::{Easing, Tween};
use vstd::prelude::*;

verus! {

/// The pickup's life-cycle state.
#[derive(Clone, Copy, Debug, PartialEq, Eq, Structural)]
pub enum PickupState {
    Active,
    Collected,
    Disappearing,
    Inactive,
}

/// One pooled pickup with its decorative tweens.
#[derive(Debug)]
pub struct Pickup {
    pub state: PickupState,
    pub collider: Collider,
    pub time_alive: i64,
    pub rot_tween: Tween,
    pub collect_opacity_tween: Tween,
    pub collect_rot_tween: Tween,
    pub grow_tween: Tween,
    pub disappear_opacity_tween: Tween,
    pub shrink_tween: Tween,
}

/// A position pulled back by the player's world-scroll velocity for `dt`
/// milliseconds (a pickup has no velocity of its own).
pub open spec fn spec_scrolled(pos: Point, player: Player, cfg: Config, dt: int) -> Point {
    spec_shifted(
        pos,
        Point { x: 0i64, y: 0i64 },
        player.spec_velocity_x(cfg),
        player.spec_velocity_y(cfg),
        dt,
    )
}

impl Pickup {
    /// A consistent pickup: sound collider and tweens, lifetime clock in
    /// range and inside the configured maximum while active, and the
    /// collider enabled exactly while active.
    pub open spec fn wf(self, cfg: Config) -> bool {
        &&& self.collider.wf()
        &&& self.rot_tween.wf()
        &&& self.collect_opacity_tween.wf()
        &&& self.collect_rot_tween.wf()
        &&& self.grow_tween.wf()
        &&& self.disappear_opacity_tween.wf()
        &&& self.shrink_tween.wf()
        &&& 0 <= self.time_alive <= ELAPSED_CAP
        &&& (self.state is Active ==> self.time_alive <= cfg.pickup_max_time_ms)
        &&& (self.collider.enabled <==> self.state is Active)
    }

    /// Builds an inactive, disabled pickup with its six tweens in their
    /// stock shapes.
    pub fn new(cfg: &Config, collider: Collider) -> (p: Pickup)
        requires
            cfg.wf(),
            collider.wf(),
        ensures
            is_initial_pickup(p, *cfg, collider),
            p.wf(*cfg),
    {
        let mut c = collider;
        c.disable();
        Pickup {
            state: PickupState::Inactive,
            collider: c,
            time_alive: 0,
            rot_tween: Tween::two_keyframes(0, 360000, cfg.pickup_rotation_ms, Easing::Linear, true),
            collect_opacity_tween: Tween::two_keyframes(
                1000,
                0,
                cfg.pickup_collect_fade_ms,
                Easing::EaseOut,
                false,
            ),
            collect_rot_tween: Tween::two_keyframes(
                360000,
                0,
                cfg.pickup_collect_rotation_ms,
                Easing::Linear,
                true,
            ),
            grow_tween: Tween::two_keyframes(
                cfg.pickup_scale,
                cfg.pickup_collect_scale,
                cfg.pickup_collect_fade_ms,
                Easing::EaseOut,
                false,
            ),
            disappear_opacity_tween: Tween::two_keyframes(
                1000,
                0,
                cfg.pickup_disappear_fade_ms,
                Easing::EaseOut,
                false,
            ),
            shrink_tween: Tween::two_keyframes(
                cfg.pickup_scale,
                0,
                cfg.pickup_disappear_fade_ms,
                Easing::EaseInOut,
                false,
            ),
        }
    }

    /// The state after collection: collected, collider disabled, the spin
    /// stopped and the collection tweens playing from their start. Any state
    /// may take this step; collision checks gate the call, so it only ever
    /// fires from `Active`.
    pub open spec fn spec_collect(self) -> Pickup {
        Pickup {
            state: PickupState::Collected,
            collider: Collider { enabled: false, ..self.collider },
            rot_tween: Tween {
                elapsed: self.rot_tween.length,
                playing: false,
                ..self.rot_tween
            },
            collect_opacity_tween: Tween {
                elapsed: 0i64,
                playing: true,
                ..self.collect_opacity_tween
            },
            collect_rot_tween: Tween { elapsed: 0i64, playing: true, ..self.collect_rot_tween },
            grow_tween: Tween { elapsed: 0i64, playing: true, ..self.grow_tween },
            ..self
        }
    }

    /// Marks the pickup collected.
    pub fn collect(&mut self)
        ensures
            *final(self) == old(self).spec_collect(),
    {
        self.state = PickupState::Collected;
        self.collider.disable();
        self.rot_tween.stop();
        self.collect_opacity_tween.reset();
        self.collect_rot_tween.reset();
        self.grow_tween.reset();
    }

    /// The state after expiry: disappearing, collider disabled, the expiry
    /// tweens playing from their start.
    pub open spec fn spec_disappear(self) -> Pickup {
        Pickup {
            state: PickupState::Disappearing,
            collider: Collider { enabled: false, ..self.collider },
            disappear_opacity_tween: Tween {
                elapsed: 0i64,
                playing: true,
                ..self.disappear_opacity_tween
            },
            shrink_tween: Tween { elapsed: 0i64, playing: true, ..self.shrink_tween },
            ..self
        }
    }

    /// Starts the expiry fade-out.
    pub fn disappear(&mut self)
        ensures
            *final(self) == old(self).spec_disappear(),
    {
        self.state = PickupState::Disappearing;
        self.collider.disable();
        self.disappear_opacity_tween.reset();
        self.shrink_tween.reset();
    }

    /// The state after a return to the pool: inactive, disabled, the spin
    /// and collection tweens stopped.
    pub open spec fn spec_reset(self) -> Pickup {
        Pickup {
            state: PickupState::Inactive,
            collider: Collider { enabled: false, ..self.collider },
            rot_tween: Tween {
                elapsed: self.rot_tween.length,
                playing: false,
                ..self.rot_tween
            },
            collect_opacity_tween: Tween {
                elapsed: self.collect_opacity_tween.length,
                playing: false,
                ..self.collect_opacity_tween
            },
            collect_rot_tween: Tween {
                elapsed: self.collect_rot_tween.length,
                playing: false,
                ..self.collect_rot_tween
            },
            grow_tween: Tween {
                elapsed: self.grow_tween.length,
                playing: false,
                ..self.grow_tween
            },
            ..self
        }
    }

    /// Returns the pickup to the pool.
    pub fn reset(&mut self)
        ensures
            *final(self) == old(self).spec_reset(),
    {
        self.state = PickupState::Inactive;
        self.collider.disable();
        self.rot_tween.stop();
        self.collect_opacity_tween.stop();
        self.collect_rot_tween.stop();
        self.grow_tween.stop();
    }

    /// The state after a respawn at `pos`: active, collider enabled, the
    /// spin playing from its start, the lifetime clock cleared.
    pub open spec fn spec_place(self, pos: Point) -> Pickup {
        Pickup {
            state: PickupState::Active,
            collider: Collider { pos, enabled: true, ..self.collider },
            rot_tween: Tween { elapsed: 0i64, playing: true, ..self.rot_tween },
            time_alive: 0i64,
            ..self
        }
    }

    /// Respawns the pickup from the pool.
    pub fn place(&mut self, pos: Point)
        requires
            pos.within(POS_LIMIT as int),
        ensures
            *final(self) == old(self).spec_place(pos),
    {
        self.collider.pos = pos;
        self.state = PickupState::Active;
        self.collider.enable();
        self.rot_tween.reset();
        self.time_alive = 0;
    }

    /// The state one tick later. An active pickup ages, spins and drifts
    /// with the scroll, and starts disappearing past its maximum lifetime; a
    /// collected or disappearing pickup advances its fade-out and returns to
    /// the pool once the fade stops; an inactive pickup does nothing.
    pub open spec fn spec_update(self, player: Player, cfg: Config, dt: int) -> Pickup {
        match self.state {
            PickupState::Active => {
                let stepped = Pickup {
                    time_alive: (self.time_alive + dt) as i64,
                    rot_tween: self.rot_tween.spec_update(dt),
                    collider: Collider {
                        pos: spec_scrolled(self.collider.pos, player, cfg, dt),
                        ..self.collider
                    },
                    ..self
                };
                if self.time_alive + dt > cfg.pickup_max_time_ms {
                    stepped.spec_disappear()
                } else {
                    stepped
                }
            },
            PickupState::Collected => {
                let stepped = Pickup {
                    collect_opacity_tween: self.collect_opacity_tween.spec_update(dt),
                    collect_rot_tween: self.collect_rot_tween.spec_update(dt),
                    grow_tween: self.grow_tween.spec_update(dt),
                    collider: Collider {
                        pos: spec_scrolled(self.collider.pos, player, cfg, dt),
                        ..self.collider
                    },
                    ..self
                };
                if !self.collect_opacity_tween.spec_update(dt).playing {
                    stepped.spec_reset()
                } else {
                    stepped
                }
            },
            PickupState::Disappearing => {
                let stepped = Pickup {
                    disappear_opacity_tween: self.disappear_opacity_tween.spec_update(dt),
                    rot_tween: self.rot_tween.spec_update(dt),
                    shrink_tween: self.shrink_tween.spec_update(dt),
                    collider: Collider {
                        pos: spec_scrolled(self.collider.pos, player, cfg, dt),
                        ..self.collider
                    },
                    ..self
                };
                if !self.disappear_opacity_tween.spec_update(dt).playing {
                    stepped.spec_reset()
                } else {
                    stepped
                }
            },
            PickupState::Inactive => self,
        }
    }

    /// Advances the pickup by `dt` milliseconds.
    pub fn update(&mut self, player: &Player, cfg: &Config, dt: u32)
        requires
            old(self).wf(*cfg),
            player.wf(),
            cfg.wf(),
        ensures
            *final(self) == old(self).spec_update(*player, *cfg, dt as int),
            final(self).wf(*cfg),
    {
        match self.state {
            PickupState::Active => {
                self.time_alive = self.time_alive + (dt as i64);
                self.rot_tween.update(dt);
                let pvel: Point = player.velocity(cfg);
                self.collider.pos = self.collider.pos.scroll_step(Point::new(0, 0), pvel, dt);
                if self.time_alive > cfg.pickup_max_time_ms {
                    self.disappear();
                }
            },
            PickupState::Collected => {
                self.collect_opacity_tween.update(dt);
                self.collect_rot_tween.update(dt);
                self.grow_tween.update(dt);
                let pvel: Point = player.velocity(cfg);
                self.collider.pos = self.collider.pos.scroll_step(Point::new(0, 0), pvel, dt);
                if !self.collect_opacity_tween.is_playing() {
                    self.reset();
                }
            },
            PickupState::Disappearing => {
                self.disappear_opacity_tween.update(dt);
                self.rot_tween.update(dt);
                self.shrink_tween.update(dt);
                let pvel: Point = player.velocity(cfg);
                self.collider.pos = self.collider.pos.scroll_step(Point::new(0, 0), pvel, dt);
                if !self.disappear_opacity_tween.is_playing() {
                    self.reset();
                }
            },
            PickupState::Inactive => {},
        }
    }

    /// Whether the pickup is waiting in the pool.
    pub fn is_inactive(&self) -> (r: bool)
        ensures
            r == (self.state is Inactive),
    {
        match self.state {
            PickupState::Inactive => true,
            _ => false,
        }
    }

    /// Collision test against any other collidable entity.
    pub fn collides_with<C: Collides>(&self, other: &C) -> (r: bool)
        requires
            self.collider.wf(),
            other.spec_collider().wf(),
        ensures
            r == self.collider.spec_collides(other.spec_collider()),
    {
        self.collider.collides_with(other.get_collider())
    }
}

impl Collides for Pickup {
    open spec fn spec_collider(&self) -> Collider {
        self.collider
    }

    fn get_collider(&self) -> (c: &Collider) {
        &self.collider
    }
}

/// A pickup as `new` builds it from `collider`: inactive and disabled, with
/// the six stock tweens stopped at elapsed zero.
pub open spec fn is_initial_pickup(p: Pickup, cfg: Config, collider: Collider) -> bool {
    &&& p.state is Inactive
    &&& p.collider == (Collider { enabled: false, ..collider })
    &&& p.time_alive == 0
    &&& stock_tween(p.rot_tween, 0, 360000, cfg.pickup_rotation_ms, Easing::Linear, true)
    &&& stock_tween(
        p.collect_opacity_tween,
        1000,
        0,
        cfg.pickup_collect_fade_ms,
        Easing::EaseOut,
        false,
    )
    &&& stock_tween(
        p.collect_rot_tween,
        360000,
        0,
        cfg.pickup_collect_rotation_ms,
        Easing::Linear,
        true,
    )
    &&& stock_tween(
        p.grow_tween,
        cfg.pickup_scale,
        cfg.pickup_collect_scale,
        cfg.pickup_collect_fade_ms,
        Easing::EaseOut,
        false,
    )
    &&& stock_tween(
        p.disappear_opacity_tween,
        1000,
        0,
        cfg.pickup_disappear_fade_ms,
        Easing::EaseOut,
        false,
    )
    &&& stock_tween(p.shrink_tween, cfg.pickup_scale, 0, cfg.pickup_disappear_fade_ms,
    Easing::EaseInOut, false)
}

/// A freshly built two-keyframe tween from `v0` to `v1`, stopped at zero.
pub open spec fn stock_tween(t: Tween, v0: i64, v1: i64, length: i64, easing: Easing, looped: bool) -> bool {
    &&& t.keyframes@ == seq![(0i64, v0), (1000i64, v1)]
    &&& t.length == length
    &&& t.elapsed == 0
    &&& t.easing == easing
    &&& t.looped == looped
    &&& !t.playing
}

/// Builds the pickup pool: `max_pickups` inactive pickups.
pub fn initialise_pickups(cfg: &Config) -> (v: Vec<Pickup>)
    requires
        cfg.wf(),
    ensures
        v@.len() == cfg.max_pickups,
        forall|i: int|
            0 <= i < v@.len() ==> is_initial_pickup(
                #[trigger] v@[i],
                *cfg,
                Collider {
                    pos: Point { x: 0i64, y: 0i64 },
                    radius: cfg.pickup_radius,
                    enabled: true,
                },
            ),
        forall|i: int| 0 <= i < v@.len() ==> (#[trigger] v@[i]).wf(*cfg),
{
    let mut v: Vec<Pickup> = Vec::new();
    let mut k: usize = 0;
    while k < cfg.max_pickups
        invariant
            cfg.wf(),
            0 <= k <= cfg.max_pickups,
            v@.len() == k,
            forall|i: int|
                0 <= i < v@.len() ==> is_initial_pickup(
                    #[trigger] v@[i],
                    *cfg,
                    Collider {
                        pos: Point { x: 0i64, y: 0i64 },
                        radius: cfg.pickup_radius,
                        enabled: true,
                    },
                ),
            forall|i: int| 0 <= i < v@.len() ==> (#[trigger] v@[i]).wf(*cfg),
        decreases cfg.max_pickups - k,
    {
        let p = Pickup::new(cfg, Collider::new(Point::new(0, 0), cfg.pickup_radius));
        v.push(p);
        k = k + 1;
    }
    v
}

/// Where a pickup spawned at `angle` milli-degrees and distance `radius`
/// appears, relative to the screen centre.
pub open spec fn spec_pickup_spawn_pos(cfg: Config, angle: int, radius: int) -> Point {
    Point {
        x: (cfg.screen_w / 2 - muldiv(cos_spec(angle), radius, 1000)) as i64,
        y: (cfg.screen_h / 2 - muldiv(sin_spec(angle), radius, 1000)) as i64,
    }
}

/// Spawns the pickup at a uniformly random angle, at a uniformly random
/// distance between the configured spawn radii. Every outcome lies in that
/// ring; which point comes out is up to the random source.
fn place_pickup(pickup: &mut Pickup, cfg: &Config)
    requires
        old(pickup).wf(*cfg),
        cfg.wf(),
    ensures
        exists|angle: int, radius: int|
            0 <= angle < FULL_TURN && cfg.pickup_min_spawn_radius <= radius
                <= cfg.pickup_max_spawn_radius && *final(pickup) == old(pickup).spec_place(
                #[trigger] spec_pickup_spawn_pos(*cfg, angle, radius),
            ),
        final(pickup).wf(*cfg),
        final(pickup).state is Active,
{
    let angle: i64 = random_below(360000) as i64;
    let spread: u64 = (cfg.pickup_max_spawn_radius - cfg.pickup_min_spawn_radius) as u64 + 1;
    let radius: i64 = cfg.pickup_min_spawn_radius + (random_below(spread) as i64);
    let c: i64 = cos_milli(angle);
    let s: i64 = sin_milli(angle);
    proof {
        lemma_muldiv_mag(c as int, radius as int, 1000, 1000);
        lemma_muldiv_mag(s as int, radius as int, 1000, 1000);
        lemma_mul_div_exact(radius as int, 1000);
        assert(1000 * (radius as int) == (radius as int) * 1000);
    }
    let px: i64 = cfg.screen_w / 2 - mul_div(c, radius, 1000);
    let py: i64 = cfg.screen_h / 2 - mul_div(s, radius, 1000);
    let pos = Point { x: px, y: py };
    pickup.place(pos);
    proof {
        assert(pos == spec_pickup_spawn_pos(*cfg, angle as int, radius as int));
        assert(0 <= angle < FULL_TURN && cfg.pickup_min_spawn_radius <= radius
            <= cfg.pickup_max_spawn_radius && *pickup == old(pickup).spec_place(
            spec_pickup_spawn_pos(*cfg, angle as int, radius as int),
        ));
    }
}

/// Index of the first inactive slot, or the pool size when none is free.
pub open spec fn first_inactive(s: Seq<Pickup>) -> int
    decreases s.len(),
{
    if s.len() == 0 {
        0
    } else if s.first().state is Inactive {
        0
    } else {
        1 + first_inactive(s.drop_first())
    }
}

/// `first_inactive` is pinned down by a scan that stopped at `i`.
proof fn lemma_first_inactive_is(s: Seq<Pickup>, i: int)
    requires
        0 <= i <= s.len(),
        forall|j: int| 0 <= j < i ==> !((#[trigger] s[j]).state is Inactive),
        i < s.len() ==> s[i].state is Inactive,
    ensures
        first_inactive(s) == i,
    decreases s.len(),
{
    if s.len() == 0 {
    } else if s.first().state is Inactive {
        assert(i == 0) by {
            if i > 0 {
                assert(!(s[0].state is Inactive));
            }
        }
    } else {
        let rest = s.drop_first();
        assert(forall|j: int| 0 <= j < i - 1 ==> rest[j] == s[j + 1]);
        lemma_first_inactive_is(rest, i - 1);
    }
}

/// The pickup spawner: a timer that, while the player is active, places one
/// pooled pickup in the spawn ring each time the interval elapses.
#[derive(Clone, Copy, Debug, PartialEq, Eq, Structural)]
pub struct Generator {
    pub time_since_last_pickup: i64,
}

impl Generator {
    /// The spawn timer lies inside the model's clock range.
    pub open spec fn wf(self) -> bool {
        0 <= self.time_since_last_pickup <= ELAPSED_CAP
    }

    /// A fresh spawner with its timer at zero.
    pub fn new() -> (g: Generator)
        ensures
            g == (Generator { time_since_last_pickup: 0i64 }),
            g.wf(),
    {
        Generator { time_since_last_pickup: 0 }
    }

    /// Accumulates `dt` and, once the interval is exceeded, keeps the
    /// remainder and places the first inactive pickup at a random point of
    /// the spawn ring; a full pool skips the spawn silently. Does nothing
    /// while the player is not active.
    pub fn update(&mut self, pickups: &mut Vec<Pickup>, player: &Player, cfg: &Config, dt: u32)
        requires
            old(self).wf(),
            cfg.wf(),
            player.wf(),
            forall|i: int| 0 <= i < old(pickups)@.len() ==> (#[trigger] old(pickups)@[i]).wf(*cfg),
        ensures
            final(self).wf(),
            final(pickups)@.len() == old(pickups)@.len(),
            forall|i: int|
                0 <= i < final(pickups)@.len() ==> (#[trigger] final(pickups)@[i]).wf(*cfg),
            !(player.state is Active) ==> *final(self) == *old(self) && final(pickups)@ == old(
                pickups,
            )@,
            player.state is Active && sat_add(old(self).time_since_last_pickup as int, dt as int)
                <= cfg.pickup_spawn_interval_ms ==> final(self).time_since_last_pickup == sat_add(
                old(self).time_since_last_pickup as int,
                dt as int,
            ) && final(pickups)@ == old(pickups)@,
            player.state is Active && sat_add(old(self).time_since_last_pickup as int, dt as int)
                > cfg.pickup_spawn_interval_ms ==> {
                &&& final(self).time_since_last_pickup == sat_add(
                    old(self).time_since_last_pickup as int,
                    dt as int,
                ) - cfg.pickup_spawn_interval_ms
                &&& {
                    let idx = first_inactive(old(pickups)@);
                    if idx < old(pickups)@.len() {
                        &&& (exists|angle: int, radius: int|
                            0 <= angle < FULL_TURN && cfg.pickup_min_spawn_radius <= radius
                                <= cfg.pickup_max_spawn_radius && final(pickups)@[idx] == old(
                                pickups,
                            )@[idx].spec_place(#[trigger] spec_pickup_spawn_pos(*cfg, angle, radius)))
                        &&& forall|i: int|
                            0 <= i < old(pickups)@.len() && i != idx ==> final(pickups)@[i] == old(
                                pickups,
                            )@[i]
                    } else {
                        final(pickups)@ == old(pickups)@
                    }
                }
            },
    {
        if !player.is_active() {
            return ;
        }
        let acc2: i64 = if self.time_since_last_pickup + (dt as i64) <= ELAPSED_CAP {
            self.time_since_last_pickup + (dt as i64)
        } else {
            ELAPSED_CAP
        };
        if acc2 > cfg.pickup_spawn_interval_ms {
            self.time_since_last_pickup = acc2 - cfg.pickup_spawn_interval_ms;
            let n: usize = pickups.len();
            let mut idx: usize = 0;
            while idx < n && !pickups[idx].is_inactive()
                invariant
                    n == pickups@.len(),
                    0 <= idx <= n,
                    forall|j: int| 0 <= j < idx ==> !((#[trigger] pickups@[j]).state is Inactive),
                decreases n - idx,
            {
                idx = idx + 1;
            }
            proof {
                lemma_first_inactive_is(pickups@, idx as int);
            }
            if idx < n {
                let ghost before = pickups@;
                let mut p: Pickup = pickups.remove(idx);
                place_pickup(&mut p, cfg);
                pickups.insert(idx, p);
                proof {
                    assert(pickups@ =~= before.update(idx as int, pickups@[idx as int]));
                }
            }
        } else {
            self.time_since_last_pickup = acc2;
        }
    }

    /// Game restart: every pickup back to the pool and the timer cleared.
    pub fn reset_pickups(&mut self, pickups: &mut Vec<Pickup>, cfg: &Config)
        requires
            cfg.wf(),
            forall|i: int| 0 <= i < old(pickups)@.len() ==> (#[trigger] old(pickups)@[i]).wf(*cfg),
        ensures
            final(self).time_since_last_pickup == 0,
            final(self).wf(),
            final(pickups)@.len() == old(pickups)@.len(),
            forall|i: int|
                0 <= i < final(pickups)@.len() ==> (#[trigger] final(pickups)@[i]).wf(*cfg),
            forall|i: int|
                0 <= i < old(pickups)@.len() ==> final(pickups)@[i] == (#[trigger] old(
                    pickups,
                )@[i]).spec_reset(),
    {
        let n: usize = pickups.len();
        let mut k: usize = 0;
        while k < n
            invariant
                n == pickups@.len(),
                0 <= k <= n,
                cfg.wf(),
                forall|i: int| 0 <= i < n ==> (#[trigger] pickups@[i]).wf(*cfg),
                forall|i: int|
                    0 <= i < k ==> pickups@[i] == (#[trigger] old(pickups)@[i]).spec_reset(),
                forall|i: int| k <= i < n ==> #[trigger] pickups@[i] == old(pickups)@[i],
            decreases n - k,
        {
            let ghost before = pickups@;
            let mut p: Pickup = pickups.remove(k);
            p.reset();
            pickups.insert(k, p);
            proof {
                assert(pickups@ =~= before.update(k as int, pickups@[k as int]));
            }
            k = k + 1;
        }
        self.time_since_last_pickup = 0;
    }
}

} // verus!
