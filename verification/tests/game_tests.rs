//! The assembled game: the fixed per-tick pipeline, score accounting and
//! the restart fan-out.

use ironsky::background::{Background, BgLayer};
use ironsky::config::Config;
use ironsky::game::Game;
use ironsky::missile::MissileState;
use ironsky::pickups::PickupState;
use ironsky::player::{Action, KeyState, PlayerState};
use ironsky::point::Point;

fn fresh_game() -> Game {
    let cfg = Config::standard();
    let background = Background::new(vec![BgLayer::new(Point::new(1024000, 1024000), 1000)]);
    Game::new(cfg, background)
}

#[test]
fn a_fresh_game_has_one_missile_in_flight() {
    let g = fresh_game();
    assert_eq!(g.score, 0);
    assert!(g.player.is_active());
    assert_eq!(g.missiles.len(), g.cfg.max_missiles);
    assert_eq!(g.pickups.len(), g.cfg.max_pickups);
    assert_eq!(g.missiles[0].state, MissileState::Active);
    assert!(g.missiles[1..].iter().all(|m| m.state == MissileState::Inactive));
    assert!(g.pickups.iter().all(|p| p.state == PickupState::Inactive));
}

#[test]
fn input_only_steers_the_player() {
    let mut g = fresh_game();
    let score = g.score;
    g.input(KeyState::Pressed, KeyState::NotPressed);
    assert_eq!(g.player.state, PlayerState::Active(Action::Left));
    assert_eq!(g.score, score);
}

#[test]
fn colliding_missiles_score_during_a_tick() {
    let mut g = fresh_game();
    let cfg = g.cfg;
    // Two missiles in the same spot, far from the player, at rest: after
    // one tick they still overlap and the pass explodes both.
    g.missiles[0].place(&cfg, Point::new(100000, 100000), Point::new(0, 0));
    g.missiles[1].place(&cfg, Point::new(100000, 100000), Point::new(0, 0));
    let (exploded, collected) = g.tick(16);
    assert_eq!(exploded, 2);
    assert_eq!(collected, 0);
    assert_eq!(g.score, 2 * cfg.points_per_missile as u64);
    assert_eq!(g.missiles[0].state, MissileState::Exploding);
    assert_eq!(g.missiles[1].state, MissileState::Exploding);
}

#[test]
fn a_pickup_on_the_ship_is_collected_during_a_tick() {
    let mut g = fresh_game();
    let cfg = g.cfg;
    g.missiles[0].reset();
    // Sit a pickup on the ship; the scroll moves it during the tick, but at
    // heading zero only 3.5 milli-pixels in 16 ms, far inside the radii.
    g.pickups[0].place(Point::new(cfg.screen_w / 2, cfg.screen_h / 2));
    let (exploded, collected) = g.tick(16);
    assert_eq!(exploded, 0);
    assert_eq!(collected, 1);
    assert_eq!(g.score, cfg.points_per_pickup as u64);
    assert_eq!(g.pickups[0].state, PickupState::Collected);
}

#[test]
fn ticks_with_nothing_nearby_score_nothing() {
    let mut g = fresh_game();
    g.missiles[0].reset();
    let mut k = 0;
    while k < 50 {
        let (exploded, collected) = g.tick(16);
        assert_eq!(exploded, 0);
        assert_eq!(collected, 0);
        k += 1;
    }
    assert_eq!(g.score, 0);
    assert!(g.player.is_active());
}

#[test]
fn restart_clears_the_board_and_the_score() {
    let mut g = fresh_game();
    let cfg = g.cfg;
    g.missiles[0].place(&cfg, Point::new(100000, 100000), Point::new(0, 0));
    g.missiles[1].place(&cfg, Point::new(100000, 100000), Point::new(0, 0));
    g.tick(16);
    assert!(g.score > 0);

    g.restart();
    assert_eq!(g.score, 0);
    assert!(g.player.is_active());
    assert_eq!(g.player.rot, 0);
    assert_eq!(g.missiles[0].state, MissileState::Active);
    assert!(g.missiles[1..].iter().all(|m| m.state == MissileState::Inactive));
    assert!(g.pickups.iter().all(|p| p.state == PickupState::Inactive));
    assert_eq!(g.missile_gen.time_since_last_missile, 0);
    assert_eq!(g.pickup_gen.time_since_last_pickup, 0);
}
