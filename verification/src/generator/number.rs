//! Plain integer streams: a constant, or a uniform draw from `[0, n)`.
//!
//! The approximate Zipfian stream works in floating point, which the verified
//! core does not hold; the driver layer supplies such draws and the runner
//! validates every one of them before use.

use vstd::prelude::*;

use crate::generator::GeneratorError;
use crate::random::rng_below;

verus! {

/// A stream of integers: every draw is the same constant, or uniform over
/// `[0, count)`.
#[derive(Copy, Clone, Debug, PartialEq, Eq, Structural)]
pub enum Number {
    Constant(u64),
    Uniform(u64),
}

impl Number {
    /// A uniform stream has a non-empty range.
    pub open spec fn wf(self) -> bool {
        self matches Number::Uniform(n) ==> n >= 1
    }

    /// The stream that always yields `value`.
    pub fn constant(value: u64) -> (r: Number)
        ensures
            r == Number::Constant(value),
            r.wf(),
    {
        Number::Constant(value)
    }

    /// The stream uniform over `[0, count)`; an empty range is rejected.
    pub fn uniform(count: u64) -> (r: Result<Number, GeneratorError>)
        ensures
            r is Ok <==> count >= 1,
            r is Ok ==> r->Ok_0 == Number::Uniform(count) && r->Ok_0.wf(),
    {
        if count == 0 {
            Err(GeneratorError::EmptyRange)
        } else {
            Ok(Number::Uniform(count))
        }
    }

    /// Draws the next value: the constant itself, or a uniform draw below the
    /// bound.
    pub fn next(&self, rng: &mut rand::rngs::StdRng) -> (r: u64)
        requires
            self.wf(),
        ensures
            *self matches Number::Constant(v) ==> r == v,
            *self matches Number::Uniform(n) ==> r < n,
    {
        match self {
            Number::Constant(value) => *value,
            Number::Uniform(count) => rng_below(rng, *count),
        }
    }
}

} // verus!
