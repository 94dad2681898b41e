//! Simulation core of a 2D "dodge the missiles, gather the pickups" arcade
//! game: per-entity state machines (player, missile, pickup), homing physics
//! with a speed cap, circular collision detection, explosion sequencing,
//! object-pool spawn generators, tween-driven animation timing and off-screen
//! indicator geometry.
//!
//! All quantities are fixed-point integers: lengths in milli-pixels, times in
//! milliseconds, angles in milli-degrees and scales/fractions in thousandths.
//! Rendering, asset loading and window plumbing are outside collaborators and
//! are not part of this crate's logic.

pub mod animation;
pub mod background;
pub mod collider;
pub mod collisions;
pub mod config;
pub mod game;
pub mod missile;
pub mod num;
pub mod offscreen;
pub mod pickups;
pub mod player;
pub mod point;
pub mod rng;
pub mod traits;
pub mod trig;
pub mod tween;
pub mod ui;
