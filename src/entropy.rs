use vstd::prelude::*;

verus! {

/// Relies on `rand::random_range`: a value drawn from the closed range
/// `lo..=hi`, which panics when the range is empty.
#[verifier::external_body]
pub(crate) fn random_in(lo: i64, hi: i64) -> (r: i64)
    requires
        lo <= hi,
    ensures
        lo <= r <= hi,
{
    rand::random_range(lo..=hi)
}

/// Relies on `rand::seq::index::sample`: exactly `amount` distinct indices
/// from `0..length`, which panics when `amount > length`.
#[verifier::external_body]
pub(crate) fn sample_indices(length: usize, amount: usize) -> (r: Vec<usize>)
    requires
        amount <= length,
    ensures
        r@.len() == amount,
        forall|i: int| 0 <= i < r@.len() ==> r@[i] < length,
        forall|i: int, j: int| 0 <= i < j < r@.len() ==> r@[i] != r@[j],
{
    rand::seq::index::sample(&mut rand::rng(), length, amount).into_vec()
}

/// Relies on `rand::distr::weighted::WeightedIndex`: building it fails (here
/// `None`) when the weights are empty, all zero or overflow in sum; else an
/// index is drawn with probability proportional to its weight, so never one
/// of weight zero.
#[verifier::external_body]
pub(crate) fn weighted_index(weights: &Vec<u64>) -> (r: Option<usize>)
    ensures
        r matches Some(i) ==> i < weights@.len() && weights@[i as int] > 0,
        (forall|i: int| 0 <= i < weights@.len() ==> weights@[i] == 0) ==> r is None,
{
    match rand::distr::weighted::WeightedIndex::new(weights) {
        Ok(dist) => Some(rand::distr::Distribution::sample(&dist, &mut rand::rng())),
        Err(_) => None,
    }
}

} // verus!
