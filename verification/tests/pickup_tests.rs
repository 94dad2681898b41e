//! Pickup behaviour: lifetime expiry, collection and disappearance
//! fade-outs, pooling and spawn-generator timing.

use ironsky::animation::Animation;
use ironsky::collider::Collider;
use ironsky::config::Config;
use ironsky::pickups::{initialise_pickups, Generator, PickupState};
use ironsky::player::Player;
use ironsky::point::Point;

fn fresh_player(cfg: &Config) -> Player {
    Player::new(
        Collider::new(Point::new(cfg.screen_w / 2, cfg.screen_h / 2), cfg.player_radius),
        Animation::new(cfg.player_explosion_ms, cfg.player_explosion_scale),
    )
}

#[test]
fn pickup_pool_starts_fully_inactive() {
    let cfg = Config::standard();
    let pickups = initialise_pickups(&cfg);
    assert_eq!(pickups.len(), cfg.max_pickups);
    for p in &pickups {
        assert_eq!(p.state, PickupState::Inactive);
        assert!(!p.collider.enabled);
        assert!(!p.rot_tween.playing);
    }
}

#[test]
fn place_starts_the_spin_and_the_lifetime() {
    let cfg = Config::standard();
    let mut pickups = initialise_pickups(&cfg);
    let p = &mut pickups[0];
    p.place(Point::new(100000, 100000));
    assert_eq!(p.state, PickupState::Active);
    assert!(p.collider.enabled);
    assert!(p.rot_tween.playing);
    assert_eq!(p.time_alive, 0);
    // The decorative spin starts at zero rotation.
    assert_eq!(p.rot_tween.get_val(), 0);
}

#[test]
fn pickup_expires_into_disappearing_then_inactive() {
    let cfg = Config::standard();
    let player = fresh_player(&cfg);
    let mut pickups = initialise_pickups(&cfg);
    let p = &mut pickups[0];
    p.place(Point::new(100000, 100000));

    // Just at the maximum lifetime nothing happens (strictly exceeded).
    p.update(&player, &cfg, 20000);
    assert_eq!(p.state, PickupState::Active);

    p.update(&player, &cfg, 1);
    assert_eq!(p.state, PickupState::Disappearing);
    assert!(!p.collider.enabled);
    assert!(p.disappear_opacity_tween.playing);
    assert!(p.shrink_tween.playing);

    // The expiry fade lasts 400 ms; past that the pickup is pooled again.
    p.update(&player, &cfg, 401);
    p.update(&player, &cfg, 1);
    assert_eq!(p.state, PickupState::Inactive);
}

#[test]
fn collect_plays_the_collection_tweens_to_the_end() {
    let cfg = Config::standard();
    let player = fresh_player(&cfg);
    let mut pickups = initialise_pickups(&cfg);
    let p = &mut pickups[0];
    p.place(Point::new(100000, 100000));
    p.collect();
    assert_eq!(p.state, PickupState::Collected);
    assert!(!p.collider.enabled);
    assert!(p.collect_opacity_tween.playing);
    assert!(p.grow_tween.playing);
    assert!(!p.rot_tween.playing);
    // Opacity starts fully opaque and the sprite at its resting scale.
    assert_eq!(p.collect_opacity_tween.get_val(), 1000);
    assert_eq!(p.grow_tween.get_val(), cfg.pickup_scale);

    // Halfway through the 800 ms fade the sprite has grown.
    p.update(&player, &cfg, 400);
    assert!(p.grow_tween.get_val() > cfg.pickup_scale);
    assert!(p.collect_opacity_tween.get_val() < 1000);

    // Past the fade the pickup returns to the pool.
    p.update(&player, &cfg, 401);
    p.update(&player, &cfg, 1);
    assert_eq!(p.state, PickupState::Inactive);
}

#[test]
fn active_pickup_drifts_with_the_scroll() {
    let cfg = Config::standard();
    let player = fresh_player(&cfg);
    let mut pickups = initialise_pickups(&cfg);
    let p = &mut pickups[0];
    p.place(Point::new(100000, 100000));
    // Heading zero at 220 px/s for one second pulls the world 220 px left.
    p.update(&player, &cfg, 1000);
    assert_eq!(p.collider.pos, Point::new(100000 - 220000, 100000));
}

#[test]
fn generator_spawns_into_the_configured_ring() {
    let cfg = Config::standard();
    let player = fresh_player(&cfg);
    let mut pickups = initialise_pickups(&cfg);
    let mut gen = Generator::new();

    gen.update(&mut pickups, &player, &cfg, 8001);
    assert_eq!(pickups[0].state, PickupState::Active);
    assert!(pickups[1..].iter().all(|p| p.state == PickupState::Inactive));
    assert_eq!(gen.time_since_last_pickup, 1);

    // The spawn point lies between the configured radii around the screen
    // centre, give or take the sine approximation.
    let dx = (pickups[0].collider.pos.x - cfg.screen_w / 2) as i128;
    let dy = (pickups[0].collider.pos.y - cfg.screen_h / 2) as i128;
    let d2 = dx * dx + dy * dy;
    let lo = cfg.pickup_min_spawn_radius as i128;
    let hi = cfg.pickup_max_spawn_radius as i128;
    assert!(d2 >= (lo * 98 / 100) * (lo * 98 / 100));
    assert!(d2 <= (hi * 102 / 100) * (hi * 102 / 100));
}

#[test]
fn generator_timer_only_runs_while_the_player_is_active() {
    let cfg = Config::standard();
    let mut player = fresh_player(&cfg);
    player.explode();
    let mut pickups = initialise_pickups(&cfg);
    let mut gen = Generator::new();
    gen.update(&mut pickups, &player, &cfg, 60000);
    assert!(pickups.iter().all(|p| p.state == PickupState::Inactive));
    assert_eq!(gen.time_since_last_pickup, 0);
}

#[test]
fn reset_returns_every_pickup_to_the_pool() {
    let cfg = Config::standard();
    let player = fresh_player(&cfg);
    let mut pickups = initialise_pickups(&cfg);
    let mut gen = Generator::new();
    gen.update(&mut pickups, &player, &cfg, 8001);
    gen.update(&mut pickups, &player, &cfg, 8001);
    gen.reset_pickups(&mut pickups, &cfg);
    assert!(pickups.iter().all(|p| p.state == PickupState::Inactive));
    assert_eq!(gen.time_since_last_pickup, 0);
}
