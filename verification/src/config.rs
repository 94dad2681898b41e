//! The immutable configuration of the simulation: every speed, radius,
//! interval and screen dimension the core consumes, injected once at startup
//! instead of read from ambient globals.
//!
//! Units: lengths in milli-pixels, times in milliseconds, speeds in
//! milli-pixels per second, angular rates in milli-degrees per second,
//! scales in thousandths.

use vstd::prelude::*;

verus! {

/// One unit in the fixed-point scale: values carry three decimal places.
pub const MILLI: i64 = 1000;

/// A full turn in milli-degrees.
pub const FULL_TURN: i64 = 360000;

/// Positions are clamped into `[-POS_LIMIT, POS_LIMIT]` per axis, a world
/// boundary far beyond anything the game reaches, so that motion arithmetic
/// stays within machine range.
pub const POS_LIMIT: i64 = 2000000000000;

/// Upper bound on every configured magnitude (a speed, radius or interval).
pub const CFG_LIMIT: i64 = 1000000000;

/// Accumulated clocks saturate here, about thirty-one millennia.
pub const ELAPSED_CAP: i64 = 1000000000000000;

/// Bound on coordinates accepted by magnitude and normalization routines.
pub const MAG_LIMIT: i64 = 30000000000000000;

/// Bound on the magnitude of a tween keyframe value.
pub const VAL_LIMIT: i64 = 1000000000000;

/// An accumulating clock advanced by `dt` milliseconds, saturating at
/// `ELAPSED_CAP`.
pub open spec fn sat_add(a: int, dt: int) -> int {
    if a + dt <= ELAPSED_CAP {
        a + dt
    } else {
        ELAPSED_CAP as int
    }
}

/// All constants the simulation consumes.
#[derive(Clone, Copy, Debug, PartialEq, Eq, Structural)]
pub struct Config {
    /// Screen width in milli-pixels.
    pub screen_w: i64,
    /// Screen height in milli-pixels.
    pub screen_h: i64,
    /// Inset of the off-screen pointer from the screen edges, milli-pixels.
    pub offscreen_offset: i64,
    /// World-scroll speed of the player ship, milli-pixels per second.
    pub player_speed: i64,
    /// Player turn rate, milli-degrees per second.
    pub player_turn_rate: i64,
    /// Player collider radius, milli-pixels.
    pub player_radius: i64,
    /// Length of the player explosion animation, milliseconds.
    pub player_explosion_ms: i64,
    /// Zoom of the player explosion animation, thousandths.
    pub player_explosion_scale: i64,
    /// Speed cap of a homing missile, milli-pixels per second.
    pub missile_max_speed: i64,
    /// Homing acceleration of a missile, milli-pixels per second squared.
    pub missile_accel: i64,
    /// Missile collider radius, milli-pixels.
    pub missile_radius: i64,
    /// Length of the missile explosion animation, milliseconds.
    pub missile_explosion_ms: i64,
    /// Zoom of the missile explosion animation, thousandths.
    pub missile_explosion_scale: i64,
    /// Distance from the screen centre at which missiles appear.
    pub missile_spawn_radius: i64,
    /// Milliseconds between missile spawns.
    pub missile_spawn_interval_ms: i64,
    /// Capacity of the missile pool.
    pub max_missiles: usize,
    /// Pickup collider radius, milli-pixels.
    pub pickup_radius: i64,
    /// Period of the decorative pickup spin, milliseconds.
    pub pickup_rotation_ms: i64,
    /// Lifetime of an uncollected pickup, milliseconds.
    pub pickup_max_time_ms: i64,
    /// Length of the collection fade-out, milliseconds.
    pub pickup_collect_fade_ms: i64,
    /// Period of the collection spin, milliseconds.
    pub pickup_collect_rotation_ms: i64,
    /// Resting sprite scale of a pickup, thousandths.
    pub pickup_scale: i64,
    /// Sprite scale a collected pickup grows to, thousandths.
    pub pickup_collect_scale: i64,
    /// Length of the expiry fade-out, milliseconds.
    pub pickup_disappear_fade_ms: i64,
    /// Smallest distance from the screen centre at which pickups appear.
    pub pickup_min_spawn_radius: i64,
    /// Largest distance from the screen centre at which pickups appear.
    pub pickup_max_spawn_radius: i64,
    /// Milliseconds between pickup spawns.
    pub pickup_spawn_interval_ms: i64,
    /// Capacity of the pickup pool.
    pub max_pickups: usize,
    /// Length of the game-over fade-in, milliseconds.
    pub game_over_fade_ms: i64,
    /// Score awarded per missile destroyed.
    pub points_per_missile: u32,
    /// Score awarded per pickup collected.
    pub points_per_pickup: u32,
}

impl Config {
    /// A well-formed configuration: every magnitude positive and small enough
    /// that the motion arithmetic stays within machine range, and the
    /// pointer inset leaves room inside the screen.
    pub open spec fn wf(self) -> bool {
        &&& 1 <= self.screen_w <= CFG_LIMIT
        &&& 1 <= self.screen_h <= CFG_LIMIT
        &&& 1 <= self.offscreen_offset
        &&& 2 * self.offscreen_offset < self.screen_w
        &&& 2 * self.offscreen_offset < self.screen_h
        &&& 1 <= self.player_speed <= CFG_LIMIT
        &&& 1 <= self.player_turn_rate <= CFG_LIMIT
        &&& 1 <= self.player_radius <= CFG_LIMIT
        &&& 1 <= self.player_explosion_ms <= CFG_LIMIT
        &&& 0 <= self.player_explosion_scale <= CFG_LIMIT
        &&& 1 <= self.missile_max_speed <= CFG_LIMIT
        &&& 1 <= self.missile_accel <= CFG_LIMIT
        &&& 1 <= self.missile_radius <= CFG_LIMIT
        &&& 1 <= self.missile_explosion_ms <= CFG_LIMIT
        &&& 0 <= self.missile_explosion_scale <= CFG_LIMIT
        &&& 1 <= self.missile_spawn_radius <= CFG_LIMIT
        &&& 1 <= self.missile_spawn_interval_ms <= CFG_LIMIT
        &&& 1 <= self.max_missiles
        &&& 1 <= self.pickup_radius <= CFG_LIMIT
        &&& 1 <= self.pickup_rotation_ms <= CFG_LIMIT
        &&& 1 <= self.pickup_max_time_ms <= CFG_LIMIT
        &&& 1 <= self.pickup_collect_fade_ms <= CFG_LIMIT
        &&& 1 <= self.pickup_collect_rotation_ms <= CFG_LIMIT
        &&& 0 <= self.pickup_scale <= CFG_LIMIT
        &&& 0 <= self.pickup_collect_scale <= CFG_LIMIT
        &&& 1 <= self.pickup_disappear_fade_ms <= CFG_LIMIT
        &&& 1 <= self.pickup_min_spawn_radius
        &&& self.pickup_min_spawn_radius <= self.pickup_max_spawn_radius
        &&& self.pickup_max_spawn_radius <= CFG_LIMIT
        &&& 1 <= self.pickup_spawn_interval_ms <= CFG_LIMIT
        &&& 1 <= self.max_pickups
        &&& 1 <= self.game_over_fade_ms <= CFG_LIMIT
    }

    /// The stock configuration the game ships with.
    pub fn standard() -> (c: Config)
        ensures
            c.wf(),
            c == Config::standard_spec(),
    {
        let c = Config {
            screen_w: 1440000,
            screen_h: 720000,
            offscreen_offset: 60000,
            player_speed: 220000,
            player_turn_rate: 270000,
            player_radius: 16000,
            player_explosion_ms: 2000,
            player_explosion_scale: 1000,
            missile_max_speed: 390000,
            missile_accel: 445000,
            missile_radius: 10000,
            missile_explosion_ms: 1000,
            missile_explosion_scale: 700,
            missile_spawn_radius: 1200000,
            missile_spawn_interval_ms: 10000,
            max_missiles: 6,
            pickup_radius: 10000,
            pickup_rotation_ms: 8000,
            pickup_max_time_ms: 20000,
            pickup_collect_fade_ms: 800,
            pickup_collect_rotation_ms: 600,
            pickup_scale: 1000,
            pickup_collect_scale: 2800,
            pickup_disappear_fade_ms: 400,
            pickup_min_spawn_radius: 500000,
            pickup_max_spawn_radius: 1000000,
            pickup_spawn_interval_ms: 8000,
            max_pickups: 4,
            game_over_fade_ms: 1000,
            points_per_missile: 100,
            points_per_pickup: 500,
        };
        c
    }

    /// The stock configuration, as a specification value.
    pub open spec fn standard_spec() -> Config {
        Config {
            screen_w: 1440000,
            screen_h: 720000,
            offscreen_offset: 60000,
            player_speed: 220000,
            player_turn_rate: 270000,
            player_radius: 16000,
            player_explosion_ms: 2000,
            player_explosion_scale: 1000,
            missile_max_speed: 390000,
            missile_accel: 445000,
            missile_radius: 10000,
            missile_explosion_ms: 1000,
            missile_explosion_scale: 700,
            missile_spawn_radius: 1200000,
            missile_spawn_interval_ms: 10000,
            max_missiles: 6,
            pickup_radius: 10000,
            pickup_rotation_ms: 8000,
            pickup_max_time_ms: 20000,
            pickup_collect_fade_ms: 800,
            pickup_collect_rotation_ms: 600,
            pickup_scale: 1000,
            pickup_collect_scale: 2800,
            pickup_disappear_fade_ms: 400,
            pickup_min_spawn_radius: 500000,
            pickup_max_spawn_radius: 1000000,
            pickup_spawn_interval_ms: 8000,
            max_pickups: 4,
            game_over_fade_ms: 1000,
            points_per_missile: 100,
            points_per_pickup: 500,
        }
    }
}

} // verus!
