//! Random draws: a number between two ends, and an index by weight.

use vstd::prelude::*;
use rand::thread_rng;
use rand_distr::{Distribution, Uniform, WeightedIndex};
use crate::error::CarError;
use crate::fixed::Fixed;

verus! {

/// The sum of the counts.
pub open spec fn counts_total(counts: Seq<i128>) -> int
    decreases counts.len(),
{
    if counts.len() == 0 {
        0
    } else {
        counts_total(counts.drop_last()) + counts.last()
    }
}

/// Whether a weighted draw can be made from the counts: there is one, none is
/// negative, and their sum is above zero and within what the machine can
/// hold.
pub open spec fn counts_valid(counts: Seq<i128>) -> bool {
    &&& counts.len() > 0
    &&& forall|i: int| 0 <= i < counts.len() ==> counts[i] >= 0
    &&& 0 < counts_total(counts) <= i128::MAX
}

/// The raw counts of the weights.
pub open spec fn raw_counts(weights: Seq<Fixed>) -> Seq<i128> {
    Seq::new(weights.len(), |i: int| weights[i].raw)
}

/// Draws a raw count with `rand`: `Uniform::new_inclusive(low, high)` sampled
/// once from `thread_rng()`. For integers `new_inclusive` panics only where
/// `low > high`, and the value sampled is `low` plus an offset below
/// `high - low + 1`. Which value comes depends on the generator, so nothing
/// more is claimed.
#[verifier::external_body]
fn draw_between(low: i128, high: i128) -> (r: i128)
    requires
        low <= high,
    ensures
        low <= r <= high,
{
    Uniform::new_inclusive(low, high).sample(&mut thread_rng())
}

/// Draws an index with `rand`: `WeightedIndex::new(counts)` sampled once from
/// `thread_rng()`. `new` fails on no weights, on a negative weight and on a
/// sum of zero, adds the weights up in their own type, and succeeds
/// otherwise; the index sampled is the first whose running sum is above a
/// number drawn below the total, so its own weight is above zero. Which index
/// comes depends on the generator.
#[verifier::external_body]
fn draw_weighted(counts: &Vec<i128>) -> (r: Option<usize>)
    requires
        counts_valid(counts@),
    ensures
        r is Some,
        r->0 < counts@.len(),
        counts@[r->0 as int] > 0,
{
    match WeightedIndex::new(counts) {
        Ok(choice) => Some(choice.sample(&mut thread_rng())),
        Err(_) => None,
    }
}

proof fn lemma_total_of_prefix(counts: Seq<i128>, n: int)
    requires
        0 <= n <= counts.len(),
        forall|i: int| 0 <= i < counts.len() ==> counts[i] >= 0,
    ensures
        0 <= counts_total(counts.take(n)) <= counts_total(counts),
    decreases counts.len() - n,
{
    if n == counts.len() {
        assert(counts.take(n) =~= counts);
        lemma_total_nonnegative(counts);
    } else {
        lemma_total_of_prefix(counts, n + 1);
        lemma_total_step(counts, n);
        lemma_total_nonnegative(counts.take(n));
    }
}

proof fn lemma_total_step(counts: Seq<i128>, n: int)
    requires
        0 <= n < counts.len(),
    ensures
        counts_total(counts.take(n + 1)) == counts_total(counts.take(n)) + counts[n],
{
    assert(counts.take(n + 1).drop_last() =~= counts.take(n));
    assert(counts.take(n + 1).last() == counts[n]);
}

proof fn lemma_total_nonnegative(counts: Seq<i128>)
    requires
        forall|i: int| 0 <= i < counts.len() ==> counts[i] >= 0,
    ensures
        0 <= counts_total(counts),
    decreases counts.len(),
{
    if counts.len() > 0 {
        lemma_total_nonnegative(counts.drop_last());
    }
}

/// A number drawn from the closed interval between `low` and `high`, each
/// raw count in it as likely as any other. Fails with `InvalidRange` where
/// `low` is above `high`.
pub fn random_uniform(low: Fixed, high: Fixed) -> (r: Result<Fixed, CarError>)
    ensures
        low.raw > high.raw ==> r == Err::<Fixed, CarError>(CarError::InvalidRange),
        low.raw <= high.raw ==> (r matches Ok(v) && low.raw <= v.raw <= high.raw),
{
    if low.raw > high.raw {
        Err(CarError::InvalidRange)
    } else {
        Ok(Fixed { raw: draw_between(low.raw, high.raw) })
    }
}

/// An index drawn with a chance in proportion to its weight: a loaded die.
/// Fails with `InvalidWeights` where there is no weight, where one is
/// negative, and where their sum is zero or more than the machine can hold.
pub fn multinomial_draw(weights: &Vec<Fixed>) -> (r: Result<usize, CarError>)
    ensures
        !counts_valid(raw_counts(weights@)) ==> r == Err::<usize, CarError>(
            CarError::InvalidWeights,
        ),
        counts_valid(raw_counts(weights@)) ==> (r matches Ok(i) && i < weights@.len()
            && weights@[i as int].raw > 0),
{
    let ghost all = raw_counts(weights@);
    let mut counts: Vec<i128> = Vec::new();
    let mut i: usize = 0;
    while i < weights.len()
        invariant
            i <= weights@.len(),
            all == raw_counts(weights@),
            counts@ == all.take(i as int),
            forall|j: int| 0 <= j < i ==> all[j] >= 0,
        decreases weights@.len() - i,
    {
        let w: i128 = weights[i].raw;
        if w < 0 {
            assert(all[i as int] < 0);
            return Err(CarError::InvalidWeights);
        }
        counts.push(w);
        assert(counts@ =~= all.take(i + 1));
        i = i + 1;
    }
    assert(counts@ =~= all);
    let mut total: i128 = 0;
    let mut k: usize = 0;
    while k < counts.len()
        invariant
            k <= counts@.len(),
            counts@ == all,
            all == raw_counts(weights@),
            forall|j: int| 0 <= j < all.len() ==> all[j] >= 0,
            total == counts_total(all.take(k as int)),
            0 <= total,
        decreases counts@.len() - k,
    {
        proof {
            lemma_total_step(all, k as int);
            lemma_total_of_prefix(all, k + 1);
        }
        match total.checked_add(counts[k]) {
            Some(sum) => {
                total = sum;
            },
            None => {
                assert(counts_total(all) > i128::MAX);
                return Err(CarError::InvalidWeights);
            },
        }
        k = k + 1;
    }
    assert(all.take(k as int) =~= all);
    if total == 0 {
        return Err(CarError::InvalidWeights);
    }
    match draw_weighted(&counts) {
        Some(index) => Ok(index),
        None => Err(CarError::InvalidWeights),
    }
}

} // verus!
