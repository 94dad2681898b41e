//! Missile behaviour: homing direction and the speed cap, the explosion
//! state machine, pooling, and spawn-generator timing.

use ironsky::animation::Animation;
use ironsky::collider::Collider;
use ironsky::config::Config;
use ironsky::missile::{initialise_missiles, Generator, Missile, MissileState};
use ironsky::player::Player;
use ironsky::point::Point;

fn fresh_player(cfg: &Config) -> Player {
    Player::new(
        Collider::new(Point::new(cfg.screen_w / 2, cfg.screen_h / 2), cfg.player_radius),
        Animation::new(cfg.player_explosion_ms, cfg.player_explosion_scale),
    )
}

fn fresh_missile(cfg: &Config) -> Missile {
    Missile::new(
        cfg,
        Collider::new(Point::new(0, 0), cfg.missile_radius),
        Point::new(0, 0),
        Animation::new(cfg.missile_explosion_ms, cfg.missile_explosion_scale),
    )
}

fn speed_sq(m: &Missile) -> i128 {
    (m.velocity.x as i128) * (m.velocity.x as i128) + (m.velocity.y as i128) * (m.velocity.y
        as i128)
}

#[test]
fn homing_from_rest_accelerates_straight_at_the_player() {
    // Player dead ahead on the positive x axis, heading zero: after one
    // tick the velocity points along positive x exactly, already capped.
    let cfg = Config::standard();
    let player = fresh_player(&cfg);
    let mut m = fresh_missile(&cfg);
    m.place(&cfg, Point::new(100000, cfg.screen_h / 2), Point::new(0, 0));
    m.update(&player, &cfg, 1000);
    // 445 px/s^2 for one second exceeds the 390 px/s cap.
    assert_eq!(m.velocity.y, 0);
    assert_eq!(m.velocity.x, cfg.missile_max_speed);
}

#[test]
fn speed_never_exceeds_the_cap() {
    let cfg = Config::standard();
    let player = fresh_player(&cfg);
    let mut m = fresh_missile(&cfg);
    m.place(&cfg, Point::new(100000, 100000), Point::new(0, 0));
    let cap = (cfg.missile_max_speed as i128) * (cfg.missile_max_speed as i128);
    let mut k = 0;
    while k < 200 {
        m.update(&player, &cfg, 16);
        assert!(speed_sq(&m) <= cap);
        k += 1;
    }
}

#[test]
fn explode_disables_the_collider_and_is_idempotent() {
    let cfg = Config::standard();
    let mut m = fresh_missile(&cfg);
    m.place(&cfg, Point::new(500000, 360000), Point::new(0, 0));
    assert_eq!(m.state, MissileState::Active);
    assert!(m.collider.enabled);

    m.explode();
    assert_eq!(m.state, MissileState::Exploding);
    assert!(!m.collider.enabled);
    // An exploding missile no longer collides, even head-on.
    let other = Collider::new(Point::new(500000, 360000), 1000000);
    assert_eq!(m.collider.collides_with(&other), false);

    // Repeated explosions are no-ops.
    let snapshot = m;
    m.explode();
    assert_eq!(m, snapshot);
}

#[test]
fn explosion_ends_in_the_pool() {
    let cfg = Config::standard();
    let player = fresh_player(&cfg);
    let mut m = fresh_missile(&cfg);
    m.place(&cfg, Point::new(500000, 360000), Point::new(0, 0));
    m.explode();
    // The missile explosion lasts one second; past that the next update
    // returns the missile to the pool.
    m.update(&player, &cfg, 1001);
    assert_eq!(m.state, MissileState::Inactive);
}

#[test]
fn pool_starts_fully_inactive() {
    let cfg = Config::standard();
    let missiles = initialise_missiles(&cfg);
    assert_eq!(missiles.len(), cfg.max_missiles);
    for m in &missiles {
        assert_eq!(m.state, MissileState::Inactive);
        assert!(!m.collider.enabled);
    }
}

#[test]
fn generator_spawns_once_the_interval_is_exceeded() {
    let cfg = Config::standard();
    let player = fresh_player(&cfg);
    let mut missiles = initialise_missiles(&cfg);
    let mut gen = Generator::new();

    // Exactly the interval does not trigger: the accumulator must exceed it.
    gen.update(&mut missiles, &player, &cfg, 10000);
    assert!(missiles.iter().all(|m| m.state == MissileState::Inactive));
    assert_eq!(gen.time_since_last_missile, 10000);

    // One more millisecond spawns exactly one missile, into the first slot.
    gen.update(&mut missiles, &player, &cfg, 1);
    assert_eq!(missiles[0].state, MissileState::Active);
    assert!(missiles[1..].iter().all(|m| m.state == MissileState::Inactive));
    assert_eq!(gen.time_since_last_missile, 1);
}

#[test]
fn generator_spawns_at_most_once_per_update_and_keeps_the_remainder() {
    let cfg = Config::standard();
    let player = fresh_player(&cfg);
    let mut missiles = initialise_missiles(&cfg);
    let mut gen = Generator::new();

    // Two and a half intervals in one tick: one spawn, remainder kept.
    gen.update(&mut missiles, &player, &cfg, 25000);
    let active = missiles.iter().filter(|m| m.state == MissileState::Active).count();
    assert_eq!(active, 1);
    assert_eq!(gen.time_since_last_missile, 15000);

    // The kept remainder already exceeds the interval: the next tick spawns
    // again at once.
    gen.update(&mut missiles, &player, &cfg, 1);
    let active = missiles.iter().filter(|m| m.state == MissileState::Active).count();
    assert_eq!(active, 2);
    assert_eq!(gen.time_since_last_missile, 5001);
}

#[test]
fn generator_idles_while_the_player_is_down() {
    let cfg = Config::standard();
    let mut player = fresh_player(&cfg);
    player.explode();
    let mut missiles = initialise_missiles(&cfg);
    let mut gen = Generator::new();
    gen.update(&mut missiles, &player, &cfg, 60000);
    assert!(missiles.iter().all(|m| m.state == MissileState::Inactive));
    assert_eq!(gen.time_since_last_missile, 0);
}

#[test]
fn generator_skips_the_spawn_when_the_pool_is_full() {
    let cfg = Config::standard();
    let player = fresh_player(&cfg);
    let mut missiles = initialise_missiles(&cfg);
    for m in missiles.iter_mut() {
        m.place(&cfg, Point::new(0, 0), Point::new(0, 0));
    }
    let mut gen = Generator::new();
    gen.update(&mut missiles, &player, &cfg, 10001);
    assert!(missiles.iter().all(|m| m.state == MissileState::Active));
    assert_eq!(gen.time_since_last_missile, 1);
}

#[test]
fn reset_places_the_first_missile_on_the_spawn_circle() {
    let cfg = Config::standard();
    let mut missiles = initialise_missiles(&cfg);
    let mut gen = Generator::new();
    gen.reset_missiles(&mut missiles, &cfg);

    assert_eq!(gen.time_since_last_missile, 0);
    assert_eq!(missiles[0].state, MissileState::Active);
    assert_eq!(missiles[0].velocity, Point::new(0, 0));
    assert!(missiles[1..].iter().all(|m| m.state == MissileState::Inactive));

    // The spawn point lies on the circle of the configured radius around
    // the screen centre, give or take the sine approximation.
    let dx = (missiles[0].collider.pos.x - cfg.screen_w / 2) as i128;
    let dy = (missiles[0].collider.pos.y - cfg.screen_h / 2) as i128;
    let d2 = dx * dx + dy * dy;
    let r = cfg.missile_spawn_radius as i128;
    assert!(d2 >= (r * 98 / 100) * (r * 98 / 100));
    assert!(d2 <= (r * 102 / 100) * (r * 102 / 100));
}

#[test]
fn spawn_angles_vary_across_draws() {
    // Fill the pool one spawn at a time: six independent random angles.
    // Were the random source a constant, every missile would sit at the
    // same point of the circle.
    let cfg = Config::standard();
    let player = fresh_player(&cfg);
    let mut missiles = initialise_missiles(&cfg);
    let mut gen = Generator::new();
    let mut k = 0;
    while k < cfg.max_missiles {
        gen.update(&mut missiles, &player, &cfg, 10001);
        k += 1;
    }
    assert!(missiles.iter().all(|m| m.state == MissileState::Active));
    let first = missiles[0].collider.pos;
    assert!(missiles[1..].iter().any(|m| m.collider.pos != first));
}

#[test]
fn rotation_reports_the_velocity_heading() {
    let cfg = Config::standard();
    let mut m = fresh_missile(&cfg);
    assert_eq!(m.get_rotation(), 0);
    m.place(&cfg, Point::new(0, 0), Point::new(5000, 0));
    assert_eq!(m.get_rotation(), 0);
    m.place(&cfg, Point::new(0, 0), Point::new(0, 5000));
    assert_eq!(m.get_rotation(), 90000);
    m.place(&cfg, Point::new(0, 0), Point::new(-5000, 0));
    assert_eq!(m.get_rotation(), 180000);
    m.place(&cfg, Point::new(0, 0), Point::new(0, -5000));
    assert_eq!(m.get_rotation(), -90000);
    m.place(&cfg, Point::new(0, 0), Point::new(5000, 5000));
    assert_eq!(m.get_rotation(), 45000);
}
