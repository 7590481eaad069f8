use vstd::prelude::*;
use rand::distributions::{Distribution, WeightedIndex};
use rand::thread_rng;
use crate::error::PullError;

verus! {

/// Whether a list of weights has a positive entry.
pub open spec fn has_positive(weights: Seq<u64>) -> bool {
    exists|i: int| 0 <= i < weights.len() && weights[i] > 0
}

/// Draws an index at random, each with a chance proportional to its weight.
///
/// This hands the weights to `rand::distributions::WeightedIndex::new` and
/// samples the distribution once with `rand::thread_rng`. The contract is
/// taken on trust from that crate: building the distribution fails exactly
/// when there is no weight or all weights are 0, and a sample is the index of
/// an entry whose weight is positive. Which such index comes out is left
/// open, and two calls may differ. The weights are widened to 128 bits, so
/// their running total cannot overflow.
#[verifier::external_body]
pub(crate) fn weighted_pick(weights: &Vec<u64>) -> (picked: Option<usize>)
    ensures
        picked is Some <==> has_positive(weights@),
        picked matches Some(i) ==> i < weights@.len() && weights@[i as int] > 0,
{
    match WeightedIndex::new(weights.iter().map(|w| u128::from(*w))) {
        Ok(index) => Some(index.sample(&mut thread_rng())),
        Err(_) => None,
    }
}

/// What a pick among candidates names.
pub open spec fn resolved(candidates: Seq<usize>, picked: Option<usize>) -> Result<usize, PullError> {
    match picked {
        Some(k) => if k < candidates.len() {
            Ok(candidates[k as int])
        } else {
            Err(PullError::NoEligibleProduct)
        },
        None => Err(PullError::NoEligibleProduct),
    }
}

/// Turns a pick among candidates into the candidate that it names. No pick,
/// or one beyond the candidates, means that nothing could be drawn.
pub fn resolve_pick(candidates: &Vec<usize>, picked: Option<usize>) -> (chosen: Result<usize, PullError>)
    ensures
        chosen == resolved(candidates@, picked),
{
    match picked {
        Some(k) => {
            if k < candidates.len() {
                Ok(candidates[k])
            } else {
                Err(PullError::NoEligibleProduct)
            }
        },
        None => Err(PullError::NoEligibleProduct),
    }
}

} // verus!
