//! Categorical sampling: one of a fixed list of values, each drawn with
//! probability proportional to its weight.

use vstd::prelude::*;

use crate::generator::GeneratorError;
use crate::generator::weight_sum;

verus! {

/// Holds a `rand::distr::weighted::WeightedIndex<u32>`. The table is opaque
/// here: its contents are reachable only through `wi_weights` and the two
/// functions below.
#[verifier::external_body]
pub struct WeightTable {
    index: rand::distr::weighted::WeightedIndex<u32>,
}

/// The weights a `WeightTable` was built from, in order.
pub uninterp spec fn wi_weights(w: WeightTable) -> Seq<u32>;

/// Relies on `rand::distr::weighted::WeightedIndex::new`: `Ok` exactly when
/// the weight list is non-empty and its sum is positive and representable
/// (`u32` weights cannot be negative or not-a-number, so no other error case
/// remains), and the distribution then holds exactly those weights.
#[verifier::external_body]
fn weighted_index_new(weights: &Vec<u32>) -> (r: Option<WeightTable>)
    ensures
        r is Some == (weights@.len() > 0 && 0 < weight_sum(weights@) <= u32::MAX),
        r matches Some(w) ==> wi_weights(w) == weights@,
{
    match rand::distr::weighted::WeightedIndex::new(weights.iter().copied()) {
        Ok(index) => Some(WeightTable { index }),
        Err(_) => None,
    }
}

/// Relies on `<WeightedIndex as Distribution<usize>>::sample`: the returned
/// index is below the number of weights, and an index of weight zero is never
/// returned (its probability is zero).
#[verifier::external_body]
fn weighted_index_sample(w: &WeightTable, rng: &mut rand::rngs::StdRng) -> (r: usize)
    ensures
        r < wi_weights(*w).len(),
        wi_weights(*w)[r as int] > 0,
{
    rand::distr::Distribution::sample(&w.index, rng)
}

/// A categorical chooser over copyable values: `next` yields one of the
/// values with probability proportional to its weight, so a value of weight
/// zero is never yielded. The order of the values is kept.
pub struct Discrete<T> {
    index: WeightTable,
    values: Vec<T>,
}

impl<T: Copy> Discrete<T> {
    /// The values, in insertion order.
    pub closed spec fn spec_values(self) -> Seq<T> {
        self.values@
    }

    /// The weight of each value, in the same order.
    pub closed spec fn spec_weights(self) -> Seq<u32> {
        wi_weights(self.index)
    }

    pub closed spec fn wf(self) -> bool {
        &&& self.spec_weights().len() == self.spec_values().len()
        &&& self.spec_values().len() > 0
        &&& weight_sum(self.spec_weights()) > 0
    }

    /// Builds a chooser from `(value, weight)` pairs. Construction fails when
    /// there are no pairs, all weights are zero, or the weight sum does not
    /// fit the weight type.
    pub fn new(choices: Vec<(T, u32)>) -> (r: Result<Discrete<T>, GeneratorError>)
        ensures
            r is Ok <==> choices@.len() > 0 && 0 < weight_sum(
                choices@.map_values(|p: (T, u32)| p.1),
            ) <= u32::MAX,
            r is Ok ==> r->Ok_0.wf(),
            r is Ok ==> r->Ok_0.spec_values() == choices@.map_values(|p: (T, u32)| p.0),
            r is Ok ==> r->Ok_0.spec_weights() == choices@.map_values(|p: (T, u32)| p.1),
    {
        let mut values: Vec<T> = Vec::new();
        let mut weights: Vec<u32> = Vec::new();
        let mut i: usize = 0;
        while i < choices.len()
            invariant
                i <= choices@.len(),
                values@.len() == i,
                weights@.len() == i,
                forall|k: int| 0 <= k < i ==> #[trigger] values@[k] == choices@[k].0,
                forall|k: int| 0 <= k < i ==> #[trigger] weights@[k] == choices@[k].1,
            decreases choices@.len() - i,
        {
            let pair = &choices[i];
            values.push(pair.0);
            weights.push(pair.1);
            proof {
                assert(values@[i as int] == choices@[i as int].0);
                assert(weights@[i as int] == choices@[i as int].1);
            }
            i = i + 1;
        }
        proof {
            assert forall|k: int| 0 <= k < choices@.len() implies values@[k] == choices@.map_values(
                |p: (T, u32)| p.0,
            )[k] by {}
            assert forall|k: int|
                0 <= k < choices@.len() implies weights@[k] == choices@.map_values(
                |p: (T, u32)| p.1,
            )[k] by {}
            assert(values@ =~= choices@.map_values(|p: (T, u32)| p.0));
            assert(weights@ =~= choices@.map_values(|p: (T, u32)| p.1));
        }
        match weighted_index_new(&weights) {
            Some(index) => Ok(Discrete { index, values }),
            None => Err(GeneratorError::InvalidWeights),
        }
    }

    /// Draws one of the values; the result always carries a positive weight.
    pub fn next(&self, rng: &mut rand::rngs::StdRng) -> (r: T)
        requires
            self.wf(),
        ensures
            exists|i: int|
                0 <= i < self.spec_values().len() && r == self.spec_values()[i]
                    && #[trigger] self.spec_weights()[i] > 0,
    {
        let i = weighted_index_sample(&self.index, rng);
        self.values[i]
    }
}

} // verus!
