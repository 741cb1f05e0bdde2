//! Elapsed-time bookkeeping against a configurable duration.

use vstd::arithmetic::div_mod::{lemma_div_is_ordered, lemma_div_multiples_vanish};
use vstd::arithmetic::mul::lemma_mul_inequality;
use vstd::prelude::*;

verus! {

/// One full turn of fixed-point progress and factor values: `FP_ONE`
/// stands for 1.0, so a progress of one half is `FP_ONE / 2`.
pub const FP_ONE: u64 = 65536;

/// Tracks elapsed time against a duration, both in milliseconds.
///
/// `elapsed` never runs past `duration`: advancing clamps at the boundary.
/// `finished` is sticky — it becomes true on the tick that reaches the
/// duration and stays true until `reset`. `just_finished` is true exactly
/// on the tick that crossed the boundary.
#[derive(Clone, Copy, Debug, PartialEq, Eq, Structural)]
pub struct Timer {
    pub duration: u64,
    pub elapsed: u64,
    pub finished: bool,
    pub just_finished: bool,
}

impl Timer {
    /// Well-formedness: elapsed time is clamped at the duration, and a
    /// finished timer sits exactly on its duration boundary.
    pub open spec fn wf(self) -> bool {
        &&& self.elapsed <= self.duration
        &&& self.finished ==> self.elapsed == self.duration
    }

    /// The state after feeding `delta` milliseconds of elapsed time.
    pub open spec fn spec_ticked(self, delta: u64) -> Timer {
        if self.elapsed + delta >= self.duration {
            Timer {
                duration: self.duration,
                elapsed: self.duration,
                finished: true,
                just_finished: !self.finished,
            }
        } else {
            Timer {
                duration: self.duration,
                elapsed: (self.elapsed + delta) as u64,
                finished: false,
                just_finished: false,
            }
        }
    }

    /// Fractional progress forward, as a fixed-point value in `[0, FP_ONE]`.
    pub open spec fn spec_percent(self) -> u64 {
        ((self.elapsed * FP_ONE) / (self.duration as int)) as u64
    }

    pub fn new(duration: u64) -> (r: Timer)
        ensures
            r == (Timer { duration, elapsed: 0, finished: false, just_finished: false }),
            r.wf(),
    {
        Timer { duration, elapsed: 0, finished: false, just_finished: false }
    }

    /// Advance by `delta` milliseconds, clamping at the duration and
    /// recording whether the boundary was crossed on this very tick.
    pub fn tick(&mut self, delta: u64)
        requires
            old(self).wf(),
        ensures
            *final(self) == old(self).spec_ticked(delta),
            final(self).wf(),
    {
        let remaining = self.duration - self.elapsed;
        if delta >= remaining {
            self.elapsed = self.duration;
            self.just_finished = !self.finished;
            self.finished = true;
        } else {
            self.elapsed = self.elapsed + delta;
            self.just_finished = false;
            self.finished = false;
        }
    }

    /// Zero the elapsed time and clear both completion flags; the duration
    /// is kept.
    pub fn reset(&mut self)
        ensures
            *final(self) == (Timer {
                duration: old(self).duration,
                elapsed: 0,
                finished: false,
                just_finished: false,
            }),
            final(self).wf(),
    {
        self.elapsed = 0;
        self.finished = false;
        self.just_finished = false;
    }

    /// Rewrite the duration, e.g. when switching between an active phase
    /// and a pause phase. Elapsed time and flags are untouched, so callers
    /// reset the timer before relying on them again.
    pub fn set_duration(&mut self, duration: u64)
        ensures
            *final(self) == (Timer {
                duration,
                elapsed: old(self).elapsed,
                finished: old(self).finished,
                just_finished: old(self).just_finished,
            }),
    {
        self.duration = duration;
    }

    pub fn duration(&self) -> (r: u64)
        ensures
            r == self.duration,
    {
        self.duration
    }

    pub fn finished(&self) -> (r: bool)
        ensures
            r == self.finished,
    {
        self.finished
    }

    pub fn just_finished(&self) -> (r: bool)
        ensures
            r == self.just_finished,
    {
        self.just_finished
    }

    /// Fractional progress forward: elapsed over duration, in fixed point.
    pub fn percent(&self) -> (r: u64)
        requires
            self.wf(),
            self.duration != 0,
        ensures
            r == self.spec_percent(),
            r <= FP_ONE,
    {
        proof {
            lemma_mul_inequality(self.elapsed as int, self.duration as int, FP_ONE as int);
            lemma_div_is_ordered(
                self.elapsed * FP_ONE,
                self.duration * FP_ONE,
                self.duration as int,
            );
            lemma_div_multiples_vanish(FP_ONE as int, self.duration as int);
        }
        let num: u128 = (self.elapsed as u128) * (FP_ONE as u128);
        let q: u128 = num / (self.duration as u128);
        q as u64
    }

    /// Fractional progress remaining: `FP_ONE - percent()`.
    pub fn percent_left(&self) -> (r: u64)
        requires
            self.wf(),
            self.duration != 0,
        ensures
            r == FP_ONE - self.spec_percent(),
            r <= FP_ONE,
    {
        let p = self.percent();
        FP_ONE - p
    }
}

} // verus!
