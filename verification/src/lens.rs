//! A lens maps an interpolation factor to a mutation of a target value.

use crate::timer::FP_ONE;
use vstd::arithmetic::div_mod::{
    lemma_div_is_ordered, lemma_div_multiples_vanish, lemma_div_pos_is_pos,
};
use vstd::arithmetic::mul::{lemma_mul_inequality, lemma_mul_nonnegative};
use vstd::prelude::*;

verus! {

/// Interpolates a scalar target field linearly between `start` and `end`.
///
/// At factor `0` the target is written `start`, at factor `FP_ONE` it is
/// written `end`, and in between it moves monotonically from one to the
/// other (rounding toward `start`).
#[derive(Clone, Copy, Debug, PartialEq, Eq, Structural)]
pub struct ScalarLens {
    pub start: i64,
    pub end: i64,
}

impl ScalarLens {
    /// The value this lens writes at factor `factor`: `start` plus the
    /// span scaled by `factor / FP_ONE`.
    pub open spec fn spec_value_at(self, factor: i64) -> int {
        if self.end >= self.start {
            self.start + ((self.end - self.start) * factor) / (FP_ONE as int)
        } else {
            self.start - ((self.start - self.end) * factor) / (FP_ONE as int)
        }
    }

    pub fn new(start: i64, end: i64) -> (r: ScalarLens)
        ensures
            r == (ScalarLens { start, end }),
    {
        ScalarLens { start, end }
    }

    /// Compute the value this lens takes at `factor` without touching
    /// any target. The result always lies between `start` and `end`.
    pub fn value_at(&self, factor: i64) -> (r: i64)
        requires
            0 <= factor <= FP_ONE,
        ensures
            r == self.spec_value_at(factor),
            self.end >= self.start ==> self.start <= r <= self.end,
            self.end < self.start ==> self.end <= r <= self.start,
    {
        let span: i128 = if self.end >= self.start {
            (self.end as i128) - (self.start as i128)
        } else {
            (self.start as i128) - (self.end as i128)
        };
        proof {
            lemma_mul_nonnegative(span as int, factor as int);
            lemma_mul_inequality(factor as int, FP_ONE as int, span as int);
            lemma_div_is_ordered(span * factor, span * FP_ONE, FP_ONE as int);
            lemma_div_multiples_vanish(span as int, FP_ONE as int);
            lemma_div_pos_is_pos(span * factor, FP_ONE as int);
            assert(span * factor == factor * span) by (nonlinear_arith);
            assert(span * FP_ONE == FP_ONE * span) by (nonlinear_arith);
        }
        let scaled: i128 = (span * (factor as i128)) / (FP_ONE as i128);
        if self.end >= self.start {
            ((self.start as i128) + scaled) as i64
        } else {
            ((self.start as i128) - scaled) as i64
        }
    }

    /// Overwrite the target with the value this lens takes at `factor`.
    pub fn apply(&self, target: &mut i64, factor: i64)
        requires
            0 <= factor <= FP_ONE,
        ensures
            *final(target) == self.spec_value_at(factor),
            self.end >= self.start ==> self.start <= *final(target) <= self.end,
            self.end < self.start ==> self.end <= *final(target) <= self.start,
    {
        *target = self.value_at(factor);
    }
}

} // verus!
