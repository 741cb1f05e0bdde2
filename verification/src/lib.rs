//! A small tweening engine: time-driven interpolations ("tweens") advanced
//! once per tick, mapped through an easing function and applied to a target
//! value, with once / loop / ping-pong repeat policies, inter-cycle pauses
//! and directional reversal.
//!
//! Time is measured in integer milliseconds; interpolation progress and
//! easing factors are fixed-point numbers with `FP_ONE` standing for 1.0.

pub mod animator;
pub mod easing;
pub mod laws;
pub mod lens;
pub mod systems;
pub mod timer;
