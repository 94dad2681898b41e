//! Tween interpolation and easing: exact fixed-point values of the easing
//! curves, interpolation at the ends and the midpoint, looped wrapping, and
//! the stopped-tween quirk.

use ironsky::tween::{ease_in, ease_in_out, ease_out, Easing, Tween};

fn check_easing(f: fn(i64) -> i64, inputs: &[i64], expected: &[i64]) {
    for (i, x) in inputs.iter().enumerate() {
        assert_eq!(f(*x), expected[i]);
    }
}

#[test]
fn it_should_calcualate_correct_ease_in() {
    let input = [0, 250, 500, 750, 1000];
    let expected_output = [0, 15, 125, 421, 1000];
    check_easing(ease_in, &input, &expected_output);
}

#[test]
fn it_should_calcualate_correct_ease_out() {
    let input = [0, 250, 500, 750, 1000];
    let expected_output = [0, 579, 875, 985, 1000];
    check_easing(ease_out, &input, &expected_output);
}

#[test]
fn it_should_calcualate_correct_ease_in_out() {
    let input = [0, 250, 500, 750, 1000];
    let expected_output = [0, 62, 500, 938, 1000];
    check_easing(ease_in_out, &input, &expected_output);
}

#[test]
fn linear_tween_interpolates_between_keyframes() {
    let mut t = Tween::two_keyframes(0, 100000, 1000, Easing::Linear, false);
    t.reset();
    assert_eq!(t.get_val(), 0);
    t.update(250);
    assert_eq!(t.get_val(), 25000);
    t.update(750);
    // At elapsed == length the tween still plays and reports the last value.
    assert_eq!(t.get_val(), 100000);
}

#[test]
fn ease_out_tween_hits_the_book_value_at_the_midpoint() {
    // 100 * ((0.5 - 1)^3 + 1) = 87.5, in milli-units: 87500.
    let mut t = Tween::two_keyframes(0, 100000, 1000, Easing::EaseOut, false);
    t.reset();
    t.update(500);
    assert_eq!(t.get_val(), 87500);
}

#[test]
fn looped_tween_wraps_once() {
    let mut t = Tween::two_keyframes(0, 100000, 10000, Easing::Linear, true);
    t.reset();
    t.update(12000);
    assert_eq!(t.elapsed, 2000);
    assert!(t.playing);
}

#[test]
fn one_shot_tween_clamps_and_stops() {
    let mut t = Tween::two_keyframes(0, 100000, 10000, Easing::Linear, false);
    t.reset();
    t.update(12000);
    assert_eq!(t.elapsed, 10000);
    assert!(!t.playing);
}

#[test]
fn stopped_tween_reports_the_last_fraction() {
    // The terminal value is the final keyframe's fraction, not its value: a
    // quirk the callers rely on, since their final fraction is one thousand.
    let mut t = Tween::two_keyframes(500, 2800, 800, Easing::EaseOut, false);
    assert_eq!(t.get_val(), 1000);
    t.reset();
    assert_eq!(t.get_val(), 500);
    t.stop();
    assert_eq!(t.get_val(), 1000);
}

#[test]
fn update_does_nothing_while_stopped() {
    let mut t = Tween::two_keyframes(0, 100000, 10000, Easing::Linear, true);
    t.update(5000);
    assert_eq!(t.elapsed, 0);
    assert!(!t.playing);
}
