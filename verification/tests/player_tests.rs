//! The player state machine: input mapping, rotation, heading-derived
//! velocity, explosion sequencing and reset.

use ironsky::animation::Animation;
use ironsky::collider::Collider;
use ironsky::config::Config;
use ironsky::player::{Action, KeyState, Player, PlayerState};
use ironsky::point::Point;

fn fresh_player(cfg: &Config) -> Player {
    Player::new(
        Collider::new(Point::new(cfg.screen_w / 2, cfg.screen_h / 2), cfg.player_radius),
        Animation::new(cfg.player_explosion_ms, cfg.player_explosion_scale),
    )
}

#[test]
fn input_maps_key_pairs_to_actions() {
    let cfg = Config::standard();
    let mut p = fresh_player(&cfg);
    p.input(KeyState::Pressed, KeyState::Pressed);
    assert_eq!(p.state, PlayerState::Active(Action::NoMove));
    p.input(KeyState::Pressed, KeyState::NotPressed);
    assert_eq!(p.state, PlayerState::Active(Action::Left));
    p.input(KeyState::NotPressed, KeyState::Pressed);
    assert_eq!(p.state, PlayerState::Active(Action::Right));
    p.input(KeyState::NotPressed, KeyState::NotPressed);
    assert_eq!(p.state, PlayerState::Active(Action::NoMove));
}

#[test]
fn input_is_ignored_while_exploding() {
    let cfg = Config::standard();
    let mut p = fresh_player(&cfg);
    p.explode();
    let before = p.state;
    p.input(KeyState::Pressed, KeyState::NotPressed);
    assert_eq!(p.state, before);
}

#[test]
fn rotation_follows_the_turn_rate() {
    // 270 degrees per second for one second.
    let cfg = Config::standard();
    let mut p = fresh_player(&cfg);
    p.input(KeyState::NotPressed, KeyState::Pressed);
    p.update(&cfg, 1000);
    assert_eq!(p.rot, 270000);
    // Another second wraps past a full turn: 540 becomes 180 degrees.
    p.update(&cfg, 1000);
    assert_eq!(p.rot, 180000);
}

#[test]
fn turning_left_wraps_below_zero() {
    let cfg = Config::standard();
    let mut p = fresh_player(&cfg);
    p.input(KeyState::Pressed, KeyState::NotPressed);
    p.update(&cfg, 1000);
    assert_eq!(p.rot, 90000);
}

#[test]
fn velocity_at_heading_zero_points_along_x() {
    let cfg = Config::standard();
    let p = fresh_player(&cfg);
    let v = p.velocity(&cfg);
    assert_eq!(v.x, cfg.player_speed);
    assert_eq!(v.y, 0);
}

#[test]
fn velocity_at_a_quarter_turn_points_along_y() {
    let cfg = Config::standard();
    let mut p = fresh_player(&cfg);
    p.input(KeyState::NotPressed, KeyState::Pressed);
    // One third of a second at 270 degrees per second: heading 90 degrees.
    p.update(&cfg, 333);
    assert_eq!(p.rot, 89910);
    let v = p.velocity(&cfg);
    // Within a tenth of a degree of straight down the y axis.
    assert!(v.y >= cfg.player_speed * 998 / 1000);
    assert!(v.x.abs() < cfg.player_speed / 100);
}

#[test]
fn explosion_runs_to_the_terminal_state() {
    let cfg = Config::standard();
    let mut p = fresh_player(&cfg);
    assert!(p.is_active());
    p.explode();
    assert_eq!(p.state, PlayerState::Exploding);
    assert!(!p.collider.enabled);
    assert!(!p.is_active());
    // A second explosion is a no-op.
    p.explode();
    assert_eq!(p.state, PlayerState::Exploding);
    // The explosion lasts two seconds; past that the ship is gone.
    p.update(&cfg, 2001);
    assert_eq!(p.state, PlayerState::Inactive);
    p.update(&cfg, 1000);
    assert_eq!(p.state, PlayerState::Inactive);
}

#[test]
fn reset_revives_the_ship() {
    let cfg = Config::standard();
    let mut p = fresh_player(&cfg);
    p.input(KeyState::NotPressed, KeyState::Pressed);
    p.update(&cfg, 500);
    p.explode();
    p.reset();
    assert_eq!(p.state, PlayerState::Active(Action::NoMove));
    assert_eq!(p.rot, 0);
    assert!(p.collider.enabled);
    assert!(p.is_active());
}
