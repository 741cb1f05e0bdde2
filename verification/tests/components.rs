//! The timer, the easing curves and the scalar lens on their own.

use tweening::easing::EaseFunction;
use tweening::lens::ScalarLens;
use tweening::timer::{Timer, FP_ONE};

#[test]
fn timer_crossing_sets_both_flags_once() {
    let mut t = Timer::new(100);
    t.tick(60);
    assert!(!t.finished());
    assert!(!t.just_finished());
    assert_eq!(t.percent(), 60 * FP_ONE / 100);

    t.tick(60);
    assert!(t.finished());
    assert!(t.just_finished());
    assert_eq!(t.elapsed, 100);
    assert_eq!(t.percent(), FP_ONE);

    t.tick(10);
    assert!(t.finished());
    assert!(!t.just_finished());
}

#[test]
fn timer_reset_clears_elapsed_and_flags() {
    let mut t = Timer::new(50);
    t.tick(80);
    t.reset();
    assert_eq!(t.elapsed, 0);
    assert!(!t.finished());
    assert!(!t.just_finished());
    assert_eq!(t.duration(), 50);
}

#[test]
fn timer_set_duration_keeps_elapsed() {
    let mut t = Timer::new(50);
    t.tick(20);
    t.set_duration(200);
    assert_eq!(t.duration(), 200);
    assert_eq!(t.elapsed, 20);
}

#[test]
fn timer_percent_left_is_complement() {
    let mut t = Timer::new(200);
    t.tick(50);
    assert_eq!(t.percent(), FP_ONE / 4);
    assert_eq!(t.percent_left(), 3 * FP_ONE / 4);
}

#[test]
fn easing_endpoints_are_fixed() {
    let curves = [
        EaseFunction::Linear,
        EaseFunction::QuadraticIn,
        EaseFunction::QuadraticOut,
        EaseFunction::CubicIn,
    ];
    for c in curves {
        assert_eq!(c.sample(0), 0);
        assert_eq!(c.sample(FP_ONE), FP_ONE as i64);
    }
}

#[test]
fn easing_midpoint_values() {
    let half = FP_ONE / 2;
    assert_eq!(EaseFunction::Linear.sample(half), FP_ONE as i64 / 2);
    assert_eq!(EaseFunction::QuadraticIn.sample(half), FP_ONE as i64 / 4);
    assert_eq!(EaseFunction::QuadraticOut.sample(half), 3 * FP_ONE as i64 / 4);
    assert_eq!(EaseFunction::CubicIn.sample(half), FP_ONE as i64 / 8);
}

#[test]
fn lens_endpoints_and_midpoint() {
    let lens = ScalarLens::new(100, 300);
    let mut v: i64 = 0;
    lens.apply(&mut v, 0);
    assert_eq!(v, 100);
    lens.apply(&mut v, FP_ONE as i64);
    assert_eq!(v, 300);
    lens.apply(&mut v, FP_ONE as i64 / 2);
    assert_eq!(v, 200);
}

#[test]
fn lens_interpolates_downward_too() {
    let lens = ScalarLens::new(50, -150);
    let mut v: i64 = 0;
    lens.apply(&mut v, FP_ONE as i64 / 4);
    assert_eq!(v, 0);
    lens.apply(&mut v, FP_ONE as i64);
    assert_eq!(v, -150);
}
