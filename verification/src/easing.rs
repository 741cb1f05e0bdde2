//! Easing functions: pure mappings from normalized progress to an
//! interpolation factor, in fixed point with `FP_ONE` standing for 1.0.

use crate::timer::FP_ONE;
use vstd::arithmetic::div_mod::{lemma_div_is_ordered, lemma_div_multiples_vanish};
use vstd::arithmetic::mul::lemma_mul_inequality;
use vstd::prelude::*;

verus! {

/// The shape of the progress-to-factor curve.
///
/// Every curve here maps `0` to `0` and `FP_ONE` to `FP_ONE` and stays
/// within `[0, FP_ONE]`; the factor type is signed so that a lens written
/// against it can also accept curves that overshoot.
#[derive(Clone, Copy, Debug, PartialEq, Eq, Structural)]
pub enum EaseFunction {
    Linear,
    QuadraticIn,
    QuadraticOut,
    CubicIn,
}

impl EaseFunction {
    /// The factor this curve yields at progress `p`.
    pub open spec fn spec_sample(self, p: u64) -> i64 {
        match self {
            EaseFunction::Linear => p as i64,
            EaseFunction::QuadraticIn => ((p * p) / (FP_ONE as int)) as i64,
            EaseFunction::QuadraticOut => (FP_ONE
                - ((FP_ONE - p) * (FP_ONE - p)) / (FP_ONE as int)) as i64,
            EaseFunction::CubicIn => ((p * p * p) / ((FP_ONE * FP_ONE) as int)) as i64,
        }
    }

    /// Map a progress value in `[0, FP_ONE]` through this curve.
    pub fn sample(&self, p: u64) -> (r: i64)
        requires
            p <= FP_ONE,
        ensures
            r == self.spec_sample(p),
            0 <= r <= FP_ONE,
    {
        match self {
            EaseFunction::Linear => p as i64,
            EaseFunction::QuadraticIn => {
                proof {
                    lemma_mul_inequality(p as int, FP_ONE as int, p as int);
                    lemma_mul_inequality(FP_ONE as int, FP_ONE as int, FP_ONE as int);
                    lemma_div_is_ordered(p * p, FP_ONE * FP_ONE, FP_ONE as int);
                    lemma_div_multiples_vanish(FP_ONE as int, FP_ONE as int);
                }
                ((p * p) / FP_ONE) as i64
            },
            EaseFunction::QuadraticOut => {
                let q = FP_ONE - p;
                proof {
                    lemma_mul_inequality(q as int, FP_ONE as int, q as int);
                    lemma_mul_inequality(FP_ONE as int, FP_ONE as int, FP_ONE as int);
                    lemma_div_is_ordered(q * q, FP_ONE * FP_ONE, FP_ONE as int);
                    lemma_div_multiples_vanish(FP_ONE as int, FP_ONE as int);
                }
                (FP_ONE - (q * q) / FP_ONE) as i64
            },
            EaseFunction::CubicIn => {
                proof {
                    lemma_mul_inequality(p as int, FP_ONE as int, p as int);
                    lemma_mul_inequality(FP_ONE as int, FP_ONE as int, FP_ONE as int);
                    lemma_mul_inequality((p * p) as int, (FP_ONE * FP_ONE) as int, p as int);
                    lemma_mul_inequality(
                        (FP_ONE * FP_ONE) as int,
                        (FP_ONE * FP_ONE) as int,
                        FP_ONE as int,
                    );
                    lemma_div_is_ordered(
                        p * p * p,
                        FP_ONE * FP_ONE * FP_ONE,
                        (FP_ONE * FP_ONE) as int,
                    );
                    lemma_div_multiples_vanish(FP_ONE as int, (FP_ONE * FP_ONE) as int);
                }
                ((p * p * p) / (FP_ONE * FP_ONE)) as i64
            },
        }
    }
}

} // verus!
