//! Random rolls, drawn from a seeded random number generator.
use rand::rngs::StdRng;
use rand::seq::SliceRandom;
use rand::Rng;
use vstd::prelude::*;

use crate::job::dnc::Step;

verus! {

/// The random number generator the rolls are drawn from.
#[verifier::external_type_specification]
#[verifier::external_body]
pub struct ExStdRng(StdRng);

/// Calls `rand::Rng::gen_ratio`, which is `true` with the probability
/// `numerator / denominator`. As its documentation and source show, it is always
/// `false` for a numerator of `0` and always `true` when the numerator equals the
/// denominator, and it panics for a zero denominator or a numerator above it.
/// Which value comes out otherwise rests on the generator and is not stated.
#[verifier::external_body]
pub(crate) fn gen_ratio(rng: &mut StdRng, numerator: u32, denominator: u32) -> (r: bool)
    requires
        0 < denominator,
        numerator <= denominator,
    ensures
        numerator == 0 ==> !r,
        numerator == denominator ==> r,
{
    rng.gen_ratio(numerator, denominator)
}

/// Calls `rand::Rng::gen_range` on the inclusive range from `low` to `high`, which
/// returns a value within the range and panics when the range is empty. Which
/// value comes out rests on the generator and is not stated.
#[verifier::external_body]
pub(crate) fn gen_range_inclusive(rng: &mut StdRng, low: u64, high: u64) -> (r: u64)
    requires
        low <= high,
    ensures
        low <= r <= high,
{
    rng.gen_range(low..=high)
}

/// Calls `rand::seq::SliceRandom::shuffle` on four steps. It only swaps elements
/// in place, so the result holds the same steps; their order rests on the
/// generator and is not stated.
#[verifier::external_body]
pub(crate) fn shuffle_steps(rng: &mut StdRng, steps: [Step; 4]) -> (r: [Step; 4])
    ensures
        r@.to_multiset() == steps@.to_multiset(),
{
    let mut s = steps;
    s.shuffle(rng);
    s
}

/// Calls `rand::seq::SliceRandom::partial_shuffle` on four steps, choosing
/// `amount` of them at random. It only swaps elements in place, so the result
/// holds the same steps; their order rests on the generator and is not stated.
#[verifier::external_body]
pub(crate) fn partial_shuffle_steps(rng: &mut StdRng, steps: [Step; 4], amount: usize) -> (r: [Step; 4])
    ensures
        r@.to_multiset() == steps@.to_multiset(),
{
    let mut s = steps;
    s.partial_shuffle(rng, amount);
    s
}

/// A reordering of four different steps has four different steps.
pub proof fn lemma_reordered_steps_differ(a: Seq<Step>, b: Seq<Step>)
    requires
        a.no_duplicates(),
        a.to_multiset() == b.to_multiset(),
    ensures
        b.no_duplicates(),
{
    a.lemma_multiset_has_no_duplicates();
    b.lemma_multiset_has_no_duplicates_conv();
}

} // verus!
