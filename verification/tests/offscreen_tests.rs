//! Off-screen detection and pointer projection, against the stock screen of
//! 1440 by 720 pixels with a 60 pixel pointer inset.

use ironsky::config::Config;
use ironsky::offscreen::{is_offscreen, place_pointer};
use ironsky::point::Point;

#[test]
fn it_should_be_offscreen() {
    let cfg = Config::standard();
    let (x, y) = (cfg.screen_w, cfg.screen_h);
    let pos1 = Point::new(x + 1000, y / 2);
    let pos2 = Point::new(x / 2, y + 1000);
    let pos3 = Point::new(-1000, y / 2);
    let pos4 = Point::new(x / 2, -1000);

    assert_eq!(is_offscreen(&cfg, pos1), true);
    assert_eq!(is_offscreen(&cfg, pos2), true);
    assert_eq!(is_offscreen(&cfg, pos3), true);
    assert_eq!(is_offscreen(&cfg, pos4), true);
}

#[test]
fn it_should_not_be_offscreen() {
    let cfg = Config::standard();
    let pos1 = Point::new(cfg.screen_w / 2, cfg.screen_h / 2);
    assert_eq!(is_offscreen(&cfg, pos1), false);
}

#[test]
fn edges_count_as_offscreen() {
    let cfg = Config::standard();
    assert!(is_offscreen(&cfg, Point::new(0, cfg.screen_h / 2)));
    assert!(is_offscreen(&cfg, Point::new(cfg.screen_w, cfg.screen_h / 2)));
    assert!(is_offscreen(&cfg, Point::new(cfg.screen_w / 2, 0)));
    assert!(is_offscreen(&cfg, Point::new(cfg.screen_w / 2, cfg.screen_h)));
}

#[test]
fn pointer_for_entity_right_of_centre_sits_on_the_right_inset_edge() {
    // Entity at (2000, 360) pixels, far right of the 1440x720 screen: the
    // pointer clamps to x = width - offset at the centre height, pointing
    // right (90 degrees, with 0 pointing up).
    let cfg = Config::standard();
    let r = place_pointer(&cfg, Point::new(2000000, 360000));
    let (pos, rot) = r.expect("entity is off screen");
    assert_eq!(pos.x, cfg.screen_w - cfg.offscreen_offset);
    assert_eq!(pos.y, 360000);
    assert_eq!(rot, 90000);
}

#[test]
fn pointer_for_entity_directly_above_points_up() {
    let cfg = Config::standard();
    let r = place_pointer(&cfg, Point::new(cfg.screen_w / 2, -5000));
    let (pos, rot) = r.expect("entity is off screen");
    assert_eq!(pos.x, 0);
    assert_eq!(pos.y, cfg.offscreen_offset);
    assert_eq!(rot, 0);
}

#[test]
fn pointer_for_entity_directly_below_points_down() {
    let cfg = Config::standard();
    let r = place_pointer(&cfg, Point::new(cfg.screen_w / 2, cfg.screen_h + 5000));
    let (pos, rot) = r.expect("entity is off screen");
    assert_eq!(pos.x, 0);
    assert_eq!(pos.y, cfg.screen_h - cfg.offscreen_offset);
    assert_eq!(rot, 180000);
}

#[test]
fn no_pointer_for_an_on_screen_entity() {
    let cfg = Config::standard();
    assert!(place_pointer(&cfg, Point::new(100000, 100000)).is_none());
}

#[test]
fn pointer_for_entity_below_left_lands_inside_the_inset() {
    let cfg = Config::standard();
    let r = place_pointer(&cfg, Point::new(-500000, 1500000));
    let (pos, _rot) = r.expect("entity is off screen");
    assert!(pos.x >= cfg.offscreen_offset && pos.x <= cfg.screen_w - cfg.offscreen_offset);
    assert!(pos.y >= cfg.offscreen_offset && pos.y <= cfg.screen_h - cfg.offscreen_offset);
}
