//! The per-tick collision pass: missile-missile and player-missile
//! explosions with mark-then-apply, its idempotence within a tick, and
//! pickup collection.

use ironsky::animation::Animation;
use ironsky::collider::Collider;
use ironsky::collisions::{collect_collisions, explosion_collisions};
use ironsky::config::Config;
use ironsky::missile::{initialise_missiles, MissileState};
use ironsky::pickups::{initialise_pickups, PickupState};
use ironsky::player::{Player, PlayerState};
use ironsky::point::Point;

fn fresh_player(cfg: &Config) -> Player {
    Player::new(
        Collider::new(Point::new(cfg.screen_w / 2, cfg.screen_h / 2), cfg.player_radius),
        Animation::new(cfg.player_explosion_ms, cfg.player_explosion_scale),
    )
}

#[test]
fn overlapping_missiles_explode_each_other() {
    let cfg = Config::standard();
    let mut player = fresh_player(&cfg);
    let mut missiles = initialise_missiles(&cfg);
    missiles[0].place(&cfg, Point::new(100000, 100000), Point::new(0, 0));
    missiles[1].place(&cfg, Point::new(105000, 100000), Point::new(0, 0));
    missiles[2].place(&cfg, Point::new(500000, 500000), Point::new(0, 0));

    let count = explosion_collisions(&mut player, &mut missiles, &cfg);
    assert_eq!(count, 2);
    assert_eq!(missiles[0].state, MissileState::Exploding);
    assert_eq!(missiles[1].state, MissileState::Exploding);
    assert_eq!(missiles[2].state, MissileState::Active);
    assert_eq!(player.state, PlayerState::Active(ironsky::player::Action::NoMove));
}

#[test]
fn a_missile_reaching_the_player_explodes_both() {
    let cfg = Config::standard();
    let mut player = fresh_player(&cfg);
    let mut missiles = initialise_missiles(&cfg);
    missiles[0].place(&cfg, Point::new(cfg.screen_w / 2 + 5000, cfg.screen_h / 2), Point::new(0, 0));

    let count = explosion_collisions(&mut player, &mut missiles, &cfg);
    assert_eq!(count, 1);
    assert_eq!(missiles[0].state, MissileState::Exploding);
    assert_eq!(player.state, PlayerState::Exploding);
    assert!(!player.collider.enabled);
}

#[test]
fn the_pass_is_idempotent_within_a_tick() {
    let cfg = Config::standard();
    let mut player = fresh_player(&cfg);
    let mut missiles = initialise_missiles(&cfg);
    missiles[0].place(&cfg, Point::new(100000, 100000), Point::new(0, 0));
    missiles[1].place(&cfg, Point::new(105000, 100000), Point::new(0, 0));
    missiles[2].place(&cfg, Point::new(cfg.screen_w / 2 + 5000, cfg.screen_h / 2), Point::new(0, 0));

    let first = explosion_collisions(&mut player, &mut missiles, &cfg);
    assert_eq!(first, 3);
    let snapshot_missiles = missiles.clone();
    let snapshot_player = player;

    // A second pass over the already-exploded state marks nothing, changes
    // nothing and scores nothing.
    let second = explosion_collisions(&mut player, &mut missiles, &cfg);
    assert_eq!(second, 0);
    assert_eq!(missiles, snapshot_missiles);
    assert_eq!(player, snapshot_player);
}

#[test]
fn touching_pickups_are_collected_and_counted() {
    let cfg = Config::standard();
    let player = fresh_player(&cfg);
    let mut pickups = initialise_pickups(&cfg);
    pickups[0].place(Point::new(cfg.screen_w / 2 + 10000, cfg.screen_h / 2));
    pickups[1].place(Point::new(900000, 100000));

    let count = collect_collisions(&player, &mut pickups, &cfg);
    assert_eq!(count, 1);
    assert_eq!(pickups[0].state, PickupState::Collected);
    assert_eq!(pickups[1].state, PickupState::Active);
}

#[test]
fn collected_pickups_are_not_collected_twice() {
    let cfg = Config::standard();
    let player = fresh_player(&cfg);
    let mut pickups = initialise_pickups(&cfg);
    pickups[0].place(Point::new(cfg.screen_w / 2 + 10000, cfg.screen_h / 2));

    assert_eq!(collect_collisions(&player, &mut pickups, &cfg), 1);
    // The collected pickup's collider is disabled, so a second pass finds
    // nothing.
    assert_eq!(collect_collisions(&player, &mut pickups, &cfg), 0);
    assert_eq!(pickups[0].state, PickupState::Collected);
}

#[test]
fn a_downed_player_collides_with_nothing() {
    let cfg = Config::standard();
    let mut player = fresh_player(&cfg);
    player.explode();
    let mut missiles = initialise_missiles(&cfg);
    missiles[0].place(&cfg, Point::new(cfg.screen_w / 2, cfg.screen_h / 2), Point::new(0, 0));

    let count = explosion_collisions(&mut player, &mut missiles, &cfg);
    assert_eq!(count, 0);
    assert_eq!(missiles[0].state, MissileState::Active);
    assert_eq!(player.state, PlayerState::Exploding);
}
