//! Integer generators: categorical choice over weighted values and plain
//! number streams.

use vstd::prelude::*;

mod discrete;
mod number;

pub use discrete::Discrete;
pub use number::Number;

verus! {

/// Why a generator could not be built.
#[derive(Copy, Clone, Debug, PartialEq, Eq, Structural)]
pub enum GeneratorError {
    /// A uniform generator was asked for an empty range.
    EmptyRange,
    /// A weighted choice had no choices, all weights zero, or a weight sum
    /// too large to represent.
    InvalidWeights,
}

/// The sum of a sequence of weights.
pub open spec fn weight_sum(s: Seq<u32>) -> int
    decreases s.len(),
{
    if s.len() == 0 {
        0
    } else {
        weight_sum(s.drop_last()) + s.last()
    }
}

} // verus!
