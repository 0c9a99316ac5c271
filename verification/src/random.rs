//! Random choice policy: uniform and weighted discrete sampling.
//!
//! The two draws below are the only places where the library reaches the `rand`
//! crates. Their contracts are believed, not proved: they state the range of
//! every possible outcome and nothing about its probability.

use rand::distributions::WeightedIndex;
use rand_distr::{Distribution, Uniform};
use vstd::prelude::*;

verus! {

/// Sum of a list of weights.
pub open spec fn total_weight(weights: Seq<u32>) -> int
    decreases weights.len(),
{
    if weights.len() == 0 {
        0
    } else {
        total_weight(weights.drop_last()) + weights.last()
    }
}

/// A weight list that a weighted sampler can be built from: not empty, every
/// weight positive, and a total that fits the weight type.
pub open spec fn valid_weights(weights: Seq<u32>) -> bool {
    &&& weights.len() > 0
    &&& forall|i: int| 0 <= i < weights.len() ==> weights[i] > 0
    &&& total_weight(weights) <= u32::MAX
}

/// Draws an integer from `[low, high)`.
///
/// Trusted: the body builds `Uniform::from(low..high)` and samples it with
/// `rand::thread_rng()`. `Uniform::new` panics unless `low < high`, which the
/// precondition rules out; the integer sampler returns `low` plus an offset below
/// `high - low`. The only other failure is an operating system that cannot seed
/// the thread-local generator.
#[verifier::external_body]
pub(crate) fn uniform(low: i32, high: i32) -> (r: i32)
    requires
        low < high,
    ensures
        low <= r < high,
{
    Uniform::from(low..high).sample(&mut rand::thread_rng())
}

/// Draws an index into `weights`, each index with a chance proportional to its
/// weight.
///
/// Trusted: the body builds `WeightedIndex::new(weights)` and samples it with
/// `rand::thread_rng()`. Construction fails on an empty list, a negative weight or
/// a zero total, and adds the weights up in their own type; `valid_weights` rules
/// all of that out. Sampling returns the position found by a binary search over
/// the running totals of all weights but the last, which is below the number of
/// weights.
#[verifier::external_body]
pub(crate) fn weighted_index(weights: &Vec<u32>) -> (i: usize)
    requires
        valid_weights(weights@),
    ensures
        i < weights.len(),
{
    WeightedIndex::new(weights).unwrap().sample(&mut rand::thread_rng())
}

/// The total of a weight list never falls below the total of a prefix of it.
pub proof fn lemma_total_weight_grows(weights: Seq<u32>, n: int)
    requires
        0 <= n <= weights.len(),
    ensures
        0 <= total_weight(weights.take(n)) <= total_weight(weights),
    decreases weights.len() - n,
{
    if n == weights.len() {
        assert(weights.take(n) =~= weights);
        lemma_total_weight_nonnegative(weights);
    } else {
        lemma_total_weight_grows(weights, n + 1);
        lemma_total_weight_nonnegative(weights.take(n));
        assert(weights.take(n + 1).drop_last() =~= weights.take(n));
    }
}

/// The total of a weight list is not negative.
pub proof fn lemma_total_weight_nonnegative(weights: Seq<u32>)
    ensures
        0 <= total_weight(weights),
    decreases weights.len(),
{
    if weights.len() > 0 {
        lemma_total_weight_nonnegative(weights.drop_last());
    }
}

/// Tells whether a weighted sampler can be built from `weights`.
pub fn weights_valid(weights: &Vec<u32>) -> (ok: bool)
    ensures
        ok == valid_weights(weights@),
{
    if weights.len() == 0 {
        return false;
    }
    let mut total: u32 = 0;
    let mut i: usize = 0;
    while i < weights.len()
        invariant
            i <= weights.len(),
            total == total_weight(weights@.take(i as int)),
            forall|j: int| 0 <= j < i ==> weights[j] > 0,
        decreases weights.len() - i,
    {
        let weight: u32 = weights[i];
        proof {
            assert(weights@.take(i + 1).drop_last() =~= weights@.take(i as int));
            lemma_total_weight_grows(weights@, i + 1);
        }
        if weight == 0 || weight > u32::MAX - total {
            return false;
        }
        total = total + weight;
        i = i + 1;
    }
    assert(weights@.take(i as int) =~= weights@);
    true
}

/// Returns one of `values`, the entry at position `i` with a chance proportional
/// to `weights[i]`.
pub fn weighted<T: Copy>(values: &Vec<T>, weights: &Vec<u32>) -> (r: T)
    requires
        values.len() == weights.len(),
        valid_weights(weights@),
    ensures
        values@.contains(r),
{
    let i: usize = weighted_index(weights);
    values[i]
}

/// `n` bytes, each drawn uniformly from `[low, high)`.
pub fn uniform_bytes(n: usize, low: u8, high: u8) -> (bytes: Vec<u8>)
    requires
        low < high,
    ensures
        bytes.len() == n,
        forall|i: int| 0 <= i < n ==> low <= #[trigger] bytes[i] && bytes[i] < high,
{
    let mut bytes: Vec<u8> = Vec::new();
    let mut made: usize = 0;
    while made < n
        invariant
            low < high,
            made <= n,
            bytes.len() == made,
            forall|i: int| 0 <= i < made ==> low <= #[trigger] bytes[i] && bytes[i] < high,
        decreases n - made,
    {
        let drawn: i32 = uniform(low as i32, high as i32);
        bytes.push(drawn as u8);
        made = made + 1;
    }
    bytes
}

} // verus!
