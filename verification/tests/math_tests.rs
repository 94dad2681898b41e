//! Exact fixed-point values of the arithmetic and trigonometry primitives,
//! and the background and interface state machines built on them.

use ironsky::animation::{frame_rects, Animation};
use ironsky::background::{Background, BgLayer};
use ironsky::collider::Collider;
use ironsky::config::Config;
use ironsky::num::{emod, mul_div, sqrt_ceil, sqrt_floor};
use ironsky::player::Player;
use ironsky::point::Point;
use ironsky::trig::{atan2_milli, cos_milli, sin_milli};
use ironsky::ui::{UiState, UI};

fn fresh_player(cfg: &Config) -> Player {
    Player::new(
        Collider::new(Point::new(cfg.screen_w / 2, cfg.screen_h / 2), cfg.player_radius),
        Animation::new(cfg.player_explosion_ms, cfg.player_explosion_scale),
    )
}

#[test]
fn scaled_division_rounds_toward_zero() {
    assert_eq!(mul_div(7, 3, 2), 10);
    assert_eq!(mul_div(-7, 3, 2), -10);
    assert_eq!(mul_div(7, -3, 2), -10);
    assert_eq!(mul_div(-7, -3, 2), 10);
    assert_eq!(mul_div(7, 3, -2), -10);
    assert_eq!(mul_div(1000000000, 1000000000, 1), 1000000000000000000);
}

#[test]
fn integer_square_roots_bracket_their_argument() {
    assert_eq!(sqrt_floor(0), 0);
    assert_eq!(sqrt_floor(1), 1);
    assert_eq!(sqrt_floor(2), 1);
    assert_eq!(sqrt_floor(24), 4);
    assert_eq!(sqrt_floor(25), 5);
    assert_eq!(sqrt_ceil(24), 5);
    assert_eq!(sqrt_ceil(25), 5);
    assert_eq!(sqrt_ceil(26), 6);
}

#[test]
fn euclidean_remainder_is_never_negative() {
    assert_eq!(emod(7, 5), 2);
    assert_eq!(emod(-7, 5), 3);
    assert_eq!(emod(-10, 5), 0);
    assert_eq!(emod(0, 5), 0);
}

#[test]
fn sine_and_cosine_are_exact_at_the_book_angles() {
    assert_eq!(sin_milli(0), 0);
    assert_eq!(sin_milli(30000), 500);
    assert_eq!(sin_milli(90000), 1000);
    assert_eq!(sin_milli(180000), 0);
    assert_eq!(sin_milli(270000), -1000);
    assert_eq!(cos_milli(0), 1000);
    assert_eq!(cos_milli(90000), 0);
    assert_eq!(cos_milli(180000), -1000);
    assert_eq!(cos_milli(270000), 0);
}

#[test]
fn headings_are_exact_on_the_axes_and_the_diagonal() {
    assert_eq!(atan2_milli(0, 1000), 0);
    assert_eq!(atan2_milli(1000, 0), 90000);
    assert_eq!(atan2_milli(0, -1000), 180000);
    assert_eq!(atan2_milli(-1000, 0), -90000);
    assert_eq!(atan2_milli(1000, 1000), 45000);
}

#[test]
fn magnitudes_follow_the_books_triangle() {
    let p = Point::new(3000, 4000);
    assert_eq!(p.magnitude(), 5000);
    let n = p.normalized();
    assert_eq!(n, Point::new(600, 800));
    assert_eq!(Point::new(0, 0).normalized(), Point::new(0, 0));
}

#[test]
fn animation_stops_itself_and_clamps_its_frame() {
    let mut a = Animation::new(1000, 1000);
    assert!(!a.is_playing());
    a.play();
    assert!(a.is_playing());
    a.update(250);
    assert_eq!(a.frame_index(64), 16);
    a.update(750);
    // At the full length the frame clamps to the last one.
    assert_eq!(a.frame_index(64), 63);
    a.update(1);
    assert!(!a.is_playing());
    assert_eq!(a.elapsed, 0);
}

#[test]
fn sprite_sheets_cut_into_a_row_major_grid() {
    let frames = frame_rects(256, 128, 2, 4);
    assert_eq!(frames.len(), 8);
    assert_eq!(frames[0], (0, 0, 64, 64));
    assert_eq!(frames[3], (192, 0, 64, 64));
    assert_eq!(frames[4], (0, 64, 64, 64));
    assert_eq!(frames[7], (192, 64, 64, 64));
}

#[test]
fn background_layers_wrap_inside_their_tile() {
    let cfg = Config::standard();
    let player = fresh_player(&cfg);
    let mut bg = Background::new(vec![
        BgLayer::new(Point::new(100000, 100000), 1000),
        BgLayer::new(Point::new(100000, 100000), 500),
    ]);
    bg.update(&player, &cfg, 1000);
    // Full parallax: 220 px of scroll folded into a 100 px tile.
    assert_eq!(bg.layers[0].pos, Point::new(80000, 0));
    // Half parallax: 110 px of scroll.
    assert_eq!(bg.layers[1].pos, Point::new(90000, 0));
}

#[test]
fn interface_follows_the_player_state() {
    let cfg = Config::standard();
    let mut player = fresh_player(&cfg);
    let mut ui = UI::new(&cfg);
    assert_eq!(ui.state, UiState::GameActive);

    ui.update(&player, 16);
    assert_eq!(ui.state, UiState::GameActive);
    assert!(!ui.game_over_tween.playing);

    // Run the explosion to its end: the player goes inactive and the
    // game-over fade starts.
    player.explode();
    ui.update(&player, 16);
    assert_eq!(ui.state, UiState::GameActive);
    player.update(&cfg, 2001);
    ui.update(&player, 500);
    assert_eq!(ui.state, UiState::GameOver);
    assert!(ui.game_over_tween.playing);
    assert_eq!(ui.game_over_tween.get_val(), 500);

    // A revived player flips the interface back and stops the fade.
    player.reset();
    ui.update(&player, 16);
    assert_eq!(ui.state, UiState::GameActive);
    assert!(!ui.game_over_tween.playing);
}
