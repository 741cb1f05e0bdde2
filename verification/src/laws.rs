//! The lifecycle laws of the tween state machine, stated over whole
//! delta sequences and proved from the contracts in the rest of the
//! crate.

use crate::animator::Animator;
use crate::systems::spec_attached_run;
use crate::timer::Timer;
use vstd::arithmetic::div_mod::{
    lemma_div_pos_is_pos, lemma_fundamental_div_mod, lemma_fundamental_div_mod_converse,
    lemma_mod_bound, lemma_small_mod,
};
use vstd::prelude::*;

verus! {

/// The total elapsed time of a sequence of per-tick deltas.
pub open spec fn sum_of(ds: Seq<u64>) -> int
    decreases ds.len(),
{
    if ds.len() == 0 {
        0
    } else {
        sum_of(ds.drop_last()) + ds.last()
    }
}

/// The instance after running one Tween Update per delta, in order.
pub open spec fn run_ticks(a: Animator, ds: Seq<u64>) -> Animator
    decreases ds.len(),
{
    if ds.len() == 0 {
        a
    } else {
        run_ticks(a, ds.drop_last()).spec_tick(ds.last()).0
    }
}

/// How many ticks of the run completed a cycle: those whose timer
/// advance reached the cycle boundary while the instance was actively
/// animating (not dwelling in a pause window).
pub open spec fn completions(a: Animator, ds: Seq<u64>) -> int
    decreases ds.len(),
{
    if ds.len() == 0 {
        0
    } else {
        let av = run_ticks(a, ds.drop_last()).spec_advanced(ds.last());
        completions(a, ds.drop_last()) + if !av.paused && av.timer.finished {
            1int
        } else {
            0int
        }
    }
}

proof fn lemma_sum_of_nonneg(ds: Seq<u64>)
    ensures
        sum_of(ds) >= 0,
    decreases ds.len(),
{
    if ds.len() > 0 {
        lemma_sum_of_nonneg(ds.drop_last());
    }
}

/// A playing `Once` tween asks to be retired on a tick exactly when that
/// tick brings its cumulative elapsed time to the configured duration or
/// beyond; nothing else about the instance changes on that tick beyond
/// the timer advance, and the retire request never resets the timer, so
/// it is repeated until the caller honors it.
pub proof fn lemma_once_retire(a: Animator, delta: u64)
    requires
        a.wf(),
        a.state is Playing,
        !a.paused,
        a.tweening_type is Once,
    ensures
        a.spec_tick(delta).1.retire <==> a.timer.elapsed + delta >= a.tweening_type.spec_duration(),
        a.spec_tick(delta).0 == (Animator { timer: a.timer.spec_ticked(delta), ..a }),
{
}

/// A retired tween is detached: a pass of the attached system over a
/// list containing it drops its entry, so no later pass applies a value
/// to it or signals its retirement again. Together with
/// `lemma_once_retire` this pins the `Once` lifecycle: one retire signal
/// when cumulative elapsed time reaches the duration, nothing afterward.
pub proof fn lemma_retired_is_removed(target: i64, a: Animator, delta: u64, delta2: u64)
    requires
        a.spec_tick(delta).1.retire,
    ensures
        spec_attached_run(seq![(target, a)], delta) == Seq::<(i64, Animator)>::empty(),
        spec_attached_run(
            spec_attached_run(seq![(target, a)], delta),
            delta2,
        ) == Seq::<(i64, Animator)>::empty(),
{
    assert(seq![(target, a)].drop_first() =~= Seq::<(i64, Animator)>::empty());
    assert(spec_attached_run(Seq::<(i64, Animator)>::empty(), delta) == Seq::<(
        i64,
        Animator,
    )>::empty());
    assert(spec_attached_run(Seq::<(i64, Animator)>::empty(), delta2) == Seq::<(
        i64,
        Animator,
    )>::empty());
}

/// The cyclic law for pause-free `Loop` and `PingPong` tweens, over any
/// delta sequence in which no single tick overshoots a cycle boundary:
/// after total elapsed time `t` the timer reads `t % d` — progress is
/// `(t % d) / d` of a turn — the instance completes a cycle and resets
/// exactly `t / d` times, never enters a pause, a `Loop` never changes
/// direction, and a `PingPong` points forward or backward according to
/// whether `t / d` full cycles is even or odd.
pub proof fn lemma_cycles_no_pause(a: Animator, ds: Seq<u64>)
    requires
        a.wf(),
        a.state is Playing,
        !a.paused,
        a.tweening_type is Loop || a.tweening_type is PingPong,
        a.tweening_type.spec_pause() is None,
        a.tweening_type.spec_duration() > 0,
        a.timer.elapsed == 0,
        !a.timer.finished,
        !a.timer.just_finished,
        forall|i: int|
            0 <= i < ds.len() ==> (#[trigger] run_ticks(a, ds.take(i))).timer.elapsed + ds[i]
                <= a.tweening_type.spec_duration(),
    ensures
        ({
            let b = run_ticks(a, ds);
            let d = a.tweening_type.spec_duration() as int;
            let k = sum_of(ds) / d;
            &&& b.timer == (Timer {
                duration: a.timer.duration,
                elapsed: (sum_of(ds) % d) as u64,
                finished: false,
                just_finished: false,
            })
            &&& b.state == a.state
            &&& !b.paused
            &&& b.tweening_type == a.tweening_type
            &&& b.ease_function == a.ease_function
            &&& b.lens == a.lens
            &&& completions(a, ds) == k
            &&& (a.tweening_type is Loop ==> b.direction == a.direction)
            &&& (a.tweening_type is PingPong ==> b.direction == (if k % 2 == 0 {
                a.direction
            } else {
                a.direction.spec_opposite()
            }))
        }),
    decreases ds.len(),
{
    let d = a.tweening_type.spec_duration() as int;
    if ds.len() == 0 {
        lemma_fundamental_div_mod_converse(0, d, 0, 0);
    } else {
        let ds2 = ds.drop_last();
        let delta = ds.last();
        assert forall|i: int|
            0 <= i < ds2.len() implies (#[trigger] run_ticks(a, ds2.take(i))).timer.elapsed
            + ds2[i] <= a.tweening_type.spec_duration() by {
            assert(ds2.take(i) =~= ds.take(i));
            assert(run_ticks(a, ds.take(i)).timer.elapsed + ds[i]
                <= a.tweening_type.spec_duration());
        }
        lemma_cycles_no_pause(a, ds2);
        lemma_sum_of_nonneg(ds2);
        let b0 = run_ticks(a, ds2);
        let s0 = sum_of(ds2);
        let q = s0 / d;
        let e0 = s0 % d;
        lemma_fundamental_div_mod(s0, d);
        lemma_div_pos_is_pos(s0, d);
        assert(ds.take(ds.len() - 1) =~= ds2);
        assert(b0.timer.elapsed + delta <= d);
        if e0 + delta < d {
            lemma_fundamental_div_mod_converse(s0 + delta, d, q, e0 + delta);
        } else {
            assert(e0 + delta == d);
            assert(s0 + delta == d * (q + 1) + 0) by {
                assert(s0 == d * q + e0);
                assert(d * (q + 1) == d * q + d) by (nonlinear_arith);
            }
            lemma_fundamental_div_mod_converse(s0 + delta, d, q + 1, 0);
            lemma_mod_bound(q, 2);
            lemma_small_mod(1, 2);
            lemma_fundamental_div_mod_converse(q + 1, 2, (q + 1) / 2, (q + 1) % 2);
            if q % 2 == 0 {
                lemma_fundamental_div_mod(q, 2);
                lemma_fundamental_div_mod_converse(q + 1, 2, q / 2, 1);
            } else {
                lemma_fundamental_div_mod(q, 2);
                lemma_fundamental_div_mod_converse(q + 1, 2, q / 2 + 1, 0);
            }
        }
    }
}

/// Entering the pause window: when a tick completes a cycle of a tween
/// whose policy carries a pause, the instance stops applying values and
/// its timer is re-armed over the pause duration.
pub proof fn lemma_pause_entered(a: Animator, delta: u64)
    requires
        a.wf(),
        a.state is Playing,
        !a.paused,
        a.tweening_type.spec_pause() is Some,
        a.timer.elapsed + delta >= a.timer.duration,
    ensures
        ({
            let (b, r) = a.spec_tick(delta);
            &&& b.paused
            &&& b.timer == (Timer {
                duration: a.tweening_type.spec_pause()->0,
                elapsed: 0,
                finished: false,
                just_finished: false,
            })
            &&& !r.retire
        }),
{
}

/// While the pause window has not yet elapsed, a tick advances the pause
/// timer and does nothing else: no value is applied, no retirement is
/// signalled, the instance stays paused.
pub proof fn lemma_cycle_pause_applies_nothing(a: Animator, delta: u64)
    requires
        a.wf(),
        a.state is Playing,
        a.paused,
        a.timer.elapsed + delta < a.timer.duration,
    ensures
        ({
            let (b, r) = a.spec_tick(delta);
            &&& r.factor is None
            &&& !r.retire
            &&& b == (Animator {
                timer: Timer {
                    duration: a.timer.duration,
                    elapsed: (a.timer.elapsed + delta) as u64,
                    finished: false,
                    just_finished: false,
                },
                ..a
            })
            &&& b.paused
        }),
{
}

/// Leaving the pause window: on the tick whose delta brings the pause
/// timer to its boundary, the instance un-pauses and resumes with a
/// freshly reset timer over the policy's active duration; that tick
/// itself still applies no value. Together with
/// `lemma_cycle_pause_applies_nothing` this pins the pause window: no
/// value is applied from cycle completion until the configured pause has
/// elapsed.
pub proof fn lemma_pause_rearm(a: Animator, delta: u64)
    requires
        a.wf(),
        a.state is Playing,
        a.paused,
        !a.timer.finished,
        a.timer.elapsed + delta >= a.timer.duration,
    ensures
        ({
            let (b, r) = a.spec_tick(delta);
            &&& r.factor is None
            &&& !r.retire
            &&& b == (Animator {
                paused: false,
                timer: Timer {
                    duration: a.tweening_type.spec_duration(),
                    elapsed: 0,
                    finished: false,
                    just_finished: false,
                },
                ..a
            })
        }),
{
}

/// A zero-delta update is idempotent: whatever the first zero-delta tick
/// did — complete a cycle, enter or leave a pause — a second zero-delta
/// tick leaves the state exactly as the first left it, and signals
/// retirement only if the first did (the attached system removes the
/// instance on the first signal, so no duplicate is acted on). Requires
/// nonzero durations — a zero-duration cycle or pause completes afresh
/// on every tick by design — and completion flags that agree with the
/// elapsed time, as they do in every state reached through `new` and
/// `tick`.
pub proof fn lemma_zero_delta_idempotent(a: Animator)
    requires
        a.wf(),
        a.tweening_type.spec_duration() > 0,
        a.tweening_type.spec_pause() matches Some(p) ==> p > 0,
        a.timer.elapsed == a.timer.duration ==> a.timer.finished,
    ensures
        ({
            let (a1, r1) = a.spec_tick(0);
            &&& a1.spec_tick(0).0 == a1
            &&& (a1.spec_tick(0).1.retire ==> r1.retire)
        }),
{
}

} // verus!

