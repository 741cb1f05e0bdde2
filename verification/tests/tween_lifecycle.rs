//! Lifecycle scenarios: the once / loop / ping-pong policies, pauses,
//! retirement and zero-delta updates.

use tweening::animator::{Animator, AnimatorState, TweeningDirection, TweeningType};
use tweening::easing::EaseFunction;
use tweening::lens::ScalarLens;
use tweening::timer::FP_ONE;

fn once_animator(duration: u64) -> Animator {
    Animator::new(
        TweeningType::Once { duration },
        EaseFunction::Linear,
        ScalarLens::new(0, 1000),
    )
}

#[test]
fn once_applies_then_retires() {
    // duration 1.0s, deltas of 0.4s: factors at progress 0.4, 0.8, then
    // completion clamps at progress 1.0 and the retire signal fires.
    let mut a = once_animator(1000);
    let mut target: i64 = 0;

    let r = a.tick(400);
    assert_eq!(r.factor, Some(400 * FP_ONE as i64 / 1000));
    assert!(!r.retire);
    a.apply(&mut target, r.factor.unwrap());
    assert_eq!(target, 399);

    let r = a.tick(400);
    assert_eq!(r.factor, Some(800 * FP_ONE as i64 / 1000));
    assert!(!r.retire);
    a.apply(&mut target, r.factor.unwrap());
    assert_eq!(target, 799);

    let r = a.tick(400);
    assert_eq!(r.factor, Some(FP_ONE as i64));
    assert!(r.retire);
    a.apply(&mut target, r.factor.unwrap());
    assert_eq!(target, 1000);
}

#[test]
fn once_keeps_signalling_until_detached() {
    let mut a = once_animator(100);
    let r = a.tick(150);
    assert!(r.retire);
    let r = a.tick(10);
    assert!(r.retire);
}

#[test]
fn loop_resets_each_cycle_and_keeps_direction() {
    let mut a = Animator::new(
        TweeningType::Loop { duration: 100, pause: None },
        EaseFunction::Linear,
        ScalarLens::new(0, 100),
    );
    for _ in 0..4 {
        let r = a.tick(50);
        assert!(!r.retire);
        assert_eq!(a.direction, TweeningDirection::Forward);
    }
    // two full cycles over 200ms: elapsed is back at 0, never paused
    assert_eq!(a.timer.elapsed, 0);
    assert!(!a.paused);

    let r = a.tick(30);
    assert_eq!(a.timer.elapsed, 30);
    assert_eq!(r.factor, Some(30 * FP_ONE as i64 / 100));
}

#[test]
fn ping_pong_flips_direction_each_cycle() {
    let mut a = Animator::new(
        TweeningType::PingPong { duration: 1000, pause: None },
        EaseFunction::Linear,
        ScalarLens::new(0, 1000),
    );
    a.tick(500);
    a.tick(500);
    assert_eq!(a.direction, TweeningDirection::Backward);
    assert_eq!(a.timer.elapsed, 0);

    // progress is read backward now: half a cycle in, the factor is at
    // the half-way point coming down
    let r = a.tick(500);
    assert_eq!(r.factor, Some(FP_ONE as i64 / 2));

    let r = a.tick(500);
    assert!(!r.retire);
    assert_eq!(a.direction, TweeningDirection::Forward);
    assert_eq!(a.timer.elapsed, 0);
    let _ = r;
}

#[test]
fn ping_pong_backward_progress_stays_in_range() {
    let mut a = Animator::new(
        TweeningType::PingPong { duration: 100, pause: None },
        EaseFunction::Linear,
        ScalarLens::new(0, 100),
    );
    for _ in 0..40 {
        let r = a.tick(30);
        if let Some(f) = r.factor {
            assert!(0 <= f && f <= FP_ONE as i64);
        }
    }
}

#[test]
fn loop_with_pause_dwells_for_the_pause_duration() {
    // duration 1.0s, pause 0.5s, deltas [1.0, 0.3, 0.3]: the cycle
    // completes at t=1.0 and enters the pause; at t=1.3 it is still
    // paused (0.3 < 0.5); at t=1.6 the pause has elapsed (0.6 >= 0.5)
    // and the active phase is re-armed.
    let mut a = Animator::new(
        TweeningType::Loop { duration: 1000, pause: Some(500) },
        EaseFunction::Linear,
        ScalarLens::new(0, 1000),
    );

    let r = a.tick(1000);
    assert_eq!(r.factor, Some(FP_ONE as i64));
    assert!(a.paused);
    assert_eq!(a.timer.duration, 500);
    assert_eq!(a.timer.elapsed, 0);

    let r = a.tick(300);
    assert_eq!(r.factor, None);
    assert!(a.paused);
    assert_eq!(a.timer.elapsed, 300);

    let r = a.tick(300);
    assert_eq!(r.factor, None);
    assert!(!a.paused);
    assert_eq!(a.timer.duration, 1000);
    assert_eq!(a.timer.elapsed, 0);

    let r = a.tick(100);
    assert_eq!(r.factor, Some(100 * FP_ONE as i64 / 1000));
}

#[test]
fn ping_pong_with_pause_flips_when_entering_the_pause() {
    let mut a = Animator::new(
        TweeningType::PingPong { duration: 100, pause: Some(40) },
        EaseFunction::Linear,
        ScalarLens::new(0, 100),
    );
    a.tick(100);
    assert!(a.paused);
    assert_eq!(a.direction, TweeningDirection::Backward);
    assert_eq!(a.timer.duration, 40);

    let r = a.tick(40);
    assert_eq!(r.factor, None);
    assert!(!a.paused);
    assert_eq!(a.timer.duration, 100);
    assert_eq!(a.direction, TweeningDirection::Backward);
}

#[test]
fn zero_delta_updates_are_idempotent() {
    let mut a = Animator::new(
        TweeningType::Loop { duration: 100, pause: Some(50) },
        EaseFunction::Linear,
        ScalarLens::new(0, 100),
    );
    a.tick(100);
    // the cycle just completed and the pause was entered; repeated
    // zero-delta updates change nothing further
    let first = a;
    let r1 = a.tick(0);
    let after_first = a;
    let r2 = a.tick(0);
    assert_eq!(after_first, a);
    assert_eq!(r1, r2);
    assert_eq!(first, after_first);
}

#[test]
fn zero_duration_never_applies_and_retires_at_once() {
    let mut a = once_animator(0);
    let r = a.tick(0);
    assert_eq!(r.factor, None);
    assert!(r.retire);
}

#[test]
fn user_paused_animator_does_not_advance() {
    let mut a = once_animator(100);
    a.state = AnimatorState::Paused;
    let r = a.tick(50);
    assert_eq!(a.timer.elapsed, 0);
    assert_eq!(r.factor, Some(0));
    assert!(!r.retire);
}
