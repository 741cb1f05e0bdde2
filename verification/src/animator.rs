//! The tween state machine: timer advancement, pause resolution, value
//! application and the repeat / ping-pong / removal lifecycle.

use crate::easing::EaseFunction;
use crate::lens::ScalarLens;
use crate::timer::{Timer, FP_ONE};
use vstd::prelude::*;

verus! {

/// User-controlled playback state, independent of inter-cycle pauses.
#[derive(Clone, Copy, Debug, PartialEq, Eq, Structural)]
pub enum AnimatorState {
    Playing,
    Paused,
}

/// Whether progress is read forward or reversed; only ever flips when a
/// ping-pong cycle completes.
#[derive(Clone, Copy, Debug, PartialEq, Eq, Structural)]
pub enum TweeningDirection {
    Forward,
    Backward,
}

impl TweeningDirection {
    pub open spec fn spec_opposite(self) -> TweeningDirection {
        match self {
            TweeningDirection::Forward => TweeningDirection::Backward,
            TweeningDirection::Backward => TweeningDirection::Forward,
        }
    }

    pub fn is_positive(&self) -> (r: bool)
        ensures
            r == (self is Forward),
    {
        match self {
            TweeningDirection::Forward => true,
            TweeningDirection::Backward => false,
        }
    }

    pub fn opposite(&self) -> (r: TweeningDirection)
        ensures
            r == self.spec_opposite(),
    {
        match self {
            TweeningDirection::Forward => TweeningDirection::Backward,
            TweeningDirection::Backward => TweeningDirection::Forward,
        }
    }
}

/// What happens once a cycle completes: retire the tween, restart it
/// (optionally after an inter-cycle pause), or restart it reversed.
#[derive(Clone, Copy, Debug, PartialEq, Eq, Structural)]
pub enum TweeningType {
    Once { duration: u64 },
    Loop { duration: u64, pause: Option<u64> },
    PingPong { duration: u64, pause: Option<u64> },
}

impl TweeningType {
    /// The active-phase duration this policy animates over.
    pub open spec fn spec_duration(self) -> u64 {
        match self {
            TweeningType::Once { duration } => duration,
            TweeningType::Loop { duration, .. } => duration,
            TweeningType::PingPong { duration, .. } => duration,
        }
    }

    /// The inter-cycle pause this policy dwells in after each completed
    /// cycle, if any. A `Once` tween never pauses: it retires instead.
    pub open spec fn spec_pause(self) -> Option<u64> {
        match self {
            TweeningType::Once { .. } => None,
            TweeningType::Loop { pause, .. } => pause,
            TweeningType::PingPong { pause, .. } => pause,
        }
    }

    pub fn duration(&self) -> (r: u64)
        ensures
            r == self.spec_duration(),
    {
        match self {
            TweeningType::Once { duration } => *duration,
            TweeningType::Loop { duration, .. } => *duration,
            TweeningType::PingPong { duration, .. } => *duration,
        }
    }
}

/// What one tick of the state machine asks its caller to do: hand
/// `factor` to the lens (absent while paused or for a zero duration), and
/// detach the tween from its target when `retire` is set.
#[derive(Clone, Copy, Debug, PartialEq, Eq, Structural)]
pub struct TickResult {
    pub factor: Option<i64>,
    pub retire: bool,
}

/// One tween instance: a timer, an easing curve, a lens onto the target,
/// a repeat policy and the flags the lifecycle needs.
#[derive(Clone, Copy, Debug, PartialEq, Eq, Structural)]
pub struct Animator {
    pub state: AnimatorState,
    /// True while dwelling in an inter-cycle pause window; distinct from
    /// the user-facing `state`.
    pub paused: bool,
    pub direction: TweeningDirection,
    pub tweening_type: TweeningType,
    pub timer: Timer,
    pub ease_function: EaseFunction,
    pub lens: ScalarLens,
}

impl Animator {
    /// Well-formedness: the timer is sound, and its duration agrees with
    /// the phase the tween is in — the policy's pause window while
    /// cycle-paused, the policy's active duration otherwise.
    pub open spec fn wf(self) -> bool {
        &&& self.timer.wf()
        &&& if self.paused {
            self.tweening_type.spec_pause() == Some(self.timer.duration)
        } else {
            self.timer.duration == self.tweening_type.spec_duration()
        }
    }

    /// The instance after Timer Advance: the timer is fed `delta` only
    /// while playback is running.
    pub open spec fn spec_advanced(self, delta: u64) -> Animator {
        if self.state is Playing {
            Animator { timer: self.timer.spec_ticked(delta), ..self }
        } else {
            self
        }
    }

    /// The instance after a pause window elapses: the timer is re-armed
    /// with the policy's active duration and the pause flag cleared.
    pub open spec fn spec_rearmed(self) -> Animator {
        Animator {
            paused: false,
            timer: Timer {
                duration: self.tweening_type.spec_duration(),
                elapsed: 0,
                finished: false,
                just_finished: false,
            },
            ..self
        }
    }

    /// The factor this tick hands to the lens, read off the advanced
    /// timer: progress forward or backward by `direction`, mapped through
    /// the easing curve. A zero-duration timer yields no factor at all.
    pub open spec fn spec_factor(self) -> Option<i64> {
        if self.timer.duration == 0 {
            None
        } else {
            let progress = if self.direction is Forward {
                self.timer.spec_percent()
            } else {
                (FP_ONE - self.timer.spec_percent()) as u64
            };
            Some(self.ease_function.spec_sample(progress))
        }
    }

    /// The instance after Cycle Completion: a `Once` tween is left as it
    /// is (its caller retires it), a `Loop` or `PingPong` tween enters its
    /// pause window if one is configured and resets its timer either way,
    /// and a `PingPong` tween additionally flips direction.
    pub open spec fn spec_completed(self) -> Animator {
        match self.tweening_type {
            TweeningType::Once { .. } => self,
            TweeningType::Loop { pause, .. } => {
                match pause {
                    Some(p) => Animator {
                        paused: true,
                        timer: Timer {
                            duration: p,
                            elapsed: 0,
                            finished: false,
                            just_finished: false,
                        },
                        ..self
                    },
                    None => Animator {
                        timer: Timer {
                            duration: self.timer.duration,
                            elapsed: 0,
                            finished: false,
                            just_finished: false,
                        },
                        ..self
                    },
                }
            },
            TweeningType::PingPong { pause, .. } => {
                match pause {
                    Some(p) => Animator {
                        paused: true,
                        direction: self.direction.spec_opposite(),
                        timer: Timer {
                            duration: p,
                            elapsed: 0,
                            finished: false,
                            just_finished: false,
                        },
                        ..self
                    },
                    None => Animator {
                        direction: self.direction.spec_opposite(),
                        timer: Timer {
                            duration: self.timer.duration,
                            elapsed: 0,
                            finished: false,
                            just_finished: false,
                        },
                        ..self
                    },
                }
            },
        }
    }

    /// The whole Tween Update step: Timer Advance, then either Pause
    /// Resolution (while cycle-paused) or Value Application followed by
    /// Cycle Completion. Yields the next state together with what the
    /// caller must do.
    pub open spec fn spec_tick(self, delta: u64) -> (Animator, TickResult) {
        let a = self.spec_advanced(delta);
        if a.paused {
            if a.timer.just_finished {
                (a.spec_rearmed(), TickResult { factor: None, retire: false })
            } else {
                (a, TickResult { factor: None, retire: false })
            }
        } else {
            let factor = a.spec_factor();
            if a.timer.finished {
                (a.spec_completed(), TickResult { factor, retire: a.tweening_type is Once })
            } else {
                (a, TickResult { factor, retire: false })
            }
        }
    }

    /// A fresh instance: playing, unpaused, forward, with the timer armed
    /// at the policy's active duration.
    pub fn new(tweening_type: TweeningType, ease_function: EaseFunction, lens: ScalarLens) -> (r:
        Animator)
        ensures
            r == (Animator {
                state: AnimatorState::Playing,
                paused: false,
                direction: TweeningDirection::Forward,
                tweening_type,
                timer: Timer {
                    duration: tweening_type.spec_duration(),
                    elapsed: 0,
                    finished: false,
                    just_finished: false,
                },
                ease_function,
                lens,
            }),
            r.wf(),
    {
        let duration = tweening_type.duration();
        Animator {
            state: AnimatorState::Playing,
            paused: false,
            direction: TweeningDirection::Forward,
            tweening_type,
            timer: Timer::new(duration),
            ease_function,
            lens,
        }
    }

    /// Run one Tween Update over `delta` elapsed milliseconds.
    ///
    /// The caller hands any returned factor to the lens and detaches the
    /// tween when `retire` is set; the state machine itself never touches
    /// a target.
    pub fn tick(&mut self, delta: u64) -> (r: TickResult)
        requires
            old(self).wf(),
        ensures
            final(self).wf(),
            (*final(self), r) == old(self).spec_tick(delta),
            r.factor matches Some(f) ==> 0 <= f <= FP_ONE,
    {
        if self.state == AnimatorState::Playing {
            self.timer.tick(delta);
        }
        if self.paused {
            if self.timer.just_finished() {
                let duration = self.tweening_type.duration();
                self.timer.set_duration(duration);
                self.timer.reset();
                self.paused = false;
            }
            TickResult { factor: None, retire: false }
        } else {
            let factor = if self.timer.duration() != 0 {
                let progress = if self.direction.is_positive() {
                    self.timer.percent()
                } else {
                    self.timer.percent_left()
                };
                Some(self.ease_function.sample(progress))
            } else {
                None
            };
            let mut retire = false;
            if self.timer.finished() {
                match self.tweening_type {
                    TweeningType::Once { .. } => {
                        retire = true;
                    },
                    TweeningType::Loop { pause, .. } => {
                        if let Some(p) = pause {
                            self.timer.set_duration(p);
                            self.paused = true;
                        }
                        self.timer.reset();
                    },
                    TweeningType::PingPong { pause, .. } => {
                        if let Some(p) = pause {
                            self.timer.set_duration(p);
                            self.paused = true;
                        }
                        self.timer.reset();
                        self.direction = self.direction.opposite();
                    },
                }
            }
            TickResult { factor, retire }
        }
    }

    /// Hand `factor` to this instance's lens, overwriting the target.
    pub fn apply(&self, target: &mut i64, factor: i64)
        requires
            0 <= factor <= FP_ONE,
        ensures
            *final(target) == self.lens.spec_value_at(factor),
    {
        self.lens.apply(target, factor);
    }
}

} // verus!
