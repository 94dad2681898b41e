//! The player ship: a state machine over `Active(action)`, `Exploding` and
//! `Inactive`. While active the ship rotates under key input; its velocity
//! is derived from the heading and scrolls the rest of the world, since the
//! sprite itself stays fixed on screen. An explosion plays out over its
//! animation and ends in the terminal `Inactive` state until a reset.

use crate::animation::Animation;
use crate::collider::Collider;
use crate::config::{Config, FULL_TURN};
use crate::num::{lemma_div_nonneg, lemma_mul_div_exact, lemma_muldiv_mag, mul_div, muldiv};
use crate::point::Point;
use crate::traits::Collides;
use crate::trig::{cos_milli, cos_spec, sin_milli, sin_spec};
use vstd::prelude::*;

verus! {

/// Whether a key is held down this tick.
#[derive(Clone, Copy, Debug, PartialEq, Eq, Structural)]
pub enum KeyState {
    Pressed,
    NotPressed,
}

/// The steering action derived from the key pair.
#[derive(Clone, Copy, Debug, PartialEq, Eq, Structural)]
pub enum Action {
    NoMove,
    Left,
    Right,
}

/// The player's life-cycle state.
#[derive(Clone, Copy, Debug, PartialEq, Eq, Structural)]
pub enum PlayerState {
    Active(Action),
    Exploding,
    Inactive,
}

/// The action a key pair maps to: both or neither pressed steer nowhere.
pub open spec fn spec_action(left: KeyState, right: KeyState) -> Action {
    match (left, right) {
        (KeyState::Pressed, KeyState::Pressed) => Action::NoMove,
        (KeyState::Pressed, KeyState::NotPressed) => Action::Left,
        (KeyState::NotPressed, KeyState::Pressed) => Action::Right,
        (KeyState::NotPressed, KeyState::NotPressed) => Action::NoMove,
    }
}

/// Brings an angle in `[0, 2 * FULL_TURN)` back into `[0, FULL_TURN)`.
pub open spec fn wrap_once(v: int) -> int {
    if v >= FULL_TURN {
        v - FULL_TURN
    } else {
        v
    }
}

/// How far the ship turns in `dt` milliseconds, reduced to under one turn.
pub open spec fn spec_turn_step(cfg: Config, dt: int) -> int {
    muldiv(cfg.player_turn_rate as int, dt, 1000) % (FULL_TURN as int)
}

/// The player ship.
#[derive(Clone, Copy, Debug, PartialEq, Eq, Structural)]
pub struct Player {
    pub state: PlayerState,
    pub collider: Collider,
    pub explosion: Animation,
    pub rot: i64,
}

impl Player {
    /// A consistent player: sound collider and animation, heading within
    /// one turn, and the collider enabled exactly while active.
    pub open spec fn wf(self) -> bool {
        &&& self.collider.wf()
        &&& self.explosion.wf()
        &&& 0 <= self.rot < FULL_TURN
        &&& self.collider.enabled <==> self.state is Active
    }

    /// Builds a player in `Active(NoMove)` facing heading zero.
    pub fn new(collider: Collider, explosion: Animation) -> (p: Player)
        requires
            collider.wf(),
            collider.enabled,
            explosion.wf(),
        ensures
            p == (Player {
                state: PlayerState::Active(Action::NoMove),
                collider,
                explosion,
                rot: 0i64,
            }),
            p.wf(),
    {
        Player { state: PlayerState::Active(Action::NoMove), collider, explosion, rot: 0 }
    }

    /// The state after a key report: while active, the action becomes the
    /// one the key pair maps to; exploding and inactive ships ignore input.
    pub open spec fn spec_input(self, left: KeyState, right: KeyState) -> Player {
        if self.state is Active {
            Player { state: PlayerState::Active(spec_action(left, right)), ..self }
        } else {
            self
        }
    }

    /// Reports the current key pair.
    pub fn input(&mut self, left_key: KeyState, right_key: KeyState)
        requires
            old(self).wf(),
        ensures
            *final(self) == old(self).spec_input(left_key, right_key),
            final(self).wf(),
    {
        match self.state {
            PlayerState::Active(_) => {
                match (left_key, right_key) {
                    (KeyState::Pressed, KeyState::Pressed) => {
                        self.state = PlayerState::Active(Action::NoMove);
                    },
                    (KeyState::Pressed, KeyState::NotPressed) => {
                        self.state = PlayerState::Active(Action::Left);
                    },
                    (KeyState::NotPressed, KeyState::Pressed) => {
                        self.state = PlayerState::Active(Action::Right);
                    },
                    (KeyState::NotPressed, KeyState::NotPressed) => {
                        self.state = PlayerState::Active(Action::NoMove);
                    },
                }
            },
            PlayerState::Exploding | PlayerState::Inactive => {},
        }
    }

    /// The state one tick later: an active ship turns by the configured
    /// rate; an exploding ship advances its explosion and dies once the
    /// animation stops; an inactive ship stays put.
    pub open spec fn spec_update(self, cfg: Config, dt: int) -> Player {
        match self.state {
            PlayerState::Active(a) => {
                let d = spec_turn_step(cfg, dt);
                let r2 = match a {
                    Action::Left => wrap_once(self.rot + FULL_TURN - d),
                    Action::Right => wrap_once(self.rot + d),
                    Action::NoMove => self.rot as int,
                };
                Player { rot: r2 as i64, ..self }
            },
            PlayerState::Exploding => {
                let e2 = self.explosion.spec_update(dt);
                if !e2.playing {
                    Player { explosion: e2, state: PlayerState::Inactive, ..self }
                } else {
                    Player { explosion: e2, ..self }
                }
            },
            PlayerState::Inactive => self,
        }
    }

    /// Advances the ship by `dt` milliseconds.
    pub fn update(&mut self, cfg: &Config, dt: u32)
        requires
            old(self).wf(),
            cfg.wf(),
        ensures
            *final(self) == old(self).spec_update(*cfg, dt as int),
            final(self).wf(),
    {
        match self.state {
            PlayerState::Active(a) => {
                proof {
                    crate::num::lemma_muldiv_le_prod(cfg.player_turn_rate as int, dt as int, 1000);
                    assert(crate::num::iabs(cfg.player_turn_rate as int) * dt
                        <= 1000000000 * 0x1_0000_0000) by (nonlinear_arith)
                        requires
                            1 <= cfg.player_turn_rate <= 1000000000,
                            dt <= 0xffff_ffffu32,
                    ;
                    assert(muldiv(cfg.player_turn_rate as int, dt as int, 1000) >= 0) by {
                        assert(cfg.player_turn_rate * dt >= 0) by (nonlinear_arith)
                            requires
                                cfg.player_turn_rate >= 0,
                                dt >= 0,
                        ;
                        lemma_div_nonneg(cfg.player_turn_rate as int * dt, 1000);
                    }
                }
                let q: i64 = mul_div(cfg.player_turn_rate, dt as i64, 1000);
                let d: i64 = q % FULL_TURN;
                match a {
                    Action::Left => {
                        let r2: i64 = self.rot + FULL_TURN - d;
                        self.rot = if r2 >= FULL_TURN {
                            r2 - FULL_TURN
                        } else {
                            r2
                        };
                    },
                    Action::Right => {
                        let r2: i64 = self.rot + d;
                        self.rot = if r2 >= FULL_TURN {
                            r2 - FULL_TURN
                        } else {
                            r2
                        };
                    },
                    Action::NoMove => {},
                }
            },
            PlayerState::Exploding => {
                self.explosion.update(dt);
                if !self.explosion.is_playing() {
                    self.state = PlayerState::Inactive;
                }
            },
            PlayerState::Inactive => {},
        }
    }

    /// Horizontal world-scroll velocity: `cos(heading) * speed`.
    pub open spec fn spec_velocity_x(self, cfg: Config) -> int {
        muldiv(cos_spec(self.rot as int), cfg.player_speed as int, 1000)
    }

    /// Vertical world-scroll velocity: `sin(heading) * speed`.
    pub open spec fn spec_velocity_y(self, cfg: Config) -> int {
        muldiv(sin_spec(self.rot as int), cfg.player_speed as int, 1000)
    }

    /// The world-scroll velocity derived from the heading: the unit heading
    /// vector times the configured speed, in milli-pixels per second. Every
    /// other entity is displaced by the negative of this each tick.
    pub fn velocity(&self, cfg: &Config) -> (v: Point)
        requires
            self.wf(),
            cfg.wf(),
        ensures
            v.x == self.spec_velocity_x(*cfg),
            v.y == self.spec_velocity_y(*cfg),
            v.within(cfg.player_speed as int),
    {
        let c: i64 = cos_milli(self.rot);
        let s: i64 = sin_milli(self.rot);
        proof {
            lemma_muldiv_mag(c as int, cfg.player_speed as int, 1000, 1000);
            lemma_muldiv_mag(s as int, cfg.player_speed as int, 1000, 1000);
            lemma_mul_div_exact(cfg.player_speed as int, 1000);
            assert(1000 * (cfg.player_speed as int) == (cfg.player_speed as int) * 1000);
        }
        Point { x: mul_div(c, cfg.player_speed, 1000), y: mul_div(s, cfg.player_speed, 1000) }
    }

    /// The state after an explosion is triggered: an active ship starts
    /// exploding, its collider is disabled and the explosion animation
    /// restarts at the ship's position; otherwise nothing changes.
    pub open spec fn spec_explode(self) -> Player {
        if self.state is Active {
            Player {
                state: PlayerState::Exploding,
                collider: Collider { enabled: false, ..self.collider },
                explosion: Animation {
                    elapsed: 0i64,
                    playing: true,
                    pos: self.collider.pos,
                    ..self.explosion
                },
                ..self
            }
        } else {
            self
        }
    }

    /// Blows the ship up; a no-op while already exploding or inactive.
    pub fn explode(&mut self)
        requires
            old(self).wf(),
        ensures
            *final(self) == old(self).spec_explode(),
            final(self).wf(),
    {
        match self.state {
            PlayerState::Active(_) => {
                self.state = PlayerState::Exploding;
                self.collider.disable();
                self.explosion.play();
                let p: Point = self.collider.pos;
                self.explosion.set_pos(p);
            },
            PlayerState::Exploding | PlayerState::Inactive => {},
        }
    }

    /// Full revival on game restart: active again, heading zero, collider
    /// enabled, explosion stopped.
    pub fn reset(&mut self)
        requires
            old(self).wf(),
        ensures
            *final(self) == (Player {
                state: PlayerState::Active(Action::NoMove),
                rot: 0i64,
                collider: Collider { enabled: true, ..old(self).collider },
                explosion: Animation { elapsed: 0i64, playing: false, ..old(self).explosion },
            }),
            final(self).wf(),
    {
        self.state = PlayerState::Active(Action::NoMove);
        self.rot = 0;
        self.collider.enable();
        self.explosion.stop();
    }

    /// True only in the `Active` state; gates homing and spawning.
    pub fn is_active(&self) -> (r: bool)
        ensures
            r == (self.state is Active),
    {
        match self.state {
            PlayerState::Active(_) => true,
            _ => false,
        }
    }

    /// Collision test against any other collidable entity.
    pub fn collides_with<C: Collides>(&self, other: &C) -> (r: bool)
        requires
            self.collider.wf(),
            other.spec_collider().wf(),
        ensures
            r == self.collider.spec_collides(other.spec_collider()),
    {
        self.collider.collides_with(other.get_collider())
    }
}

impl Collides for Player {
    open spec fn spec_collider(&self) -> Collider {
        self.collider
    }

    fn get_collider(&self) -> (c: &Collider) {
        &self.collider
    }
}

} // verus!
