//! Randomness drawn from `rand`, behind contracts that say what holds of every draw.
use vstd::prelude::*;
use rand::seq::SliceRandom;
use rand::Rng;
use rand::rngs::ThreadRng;
use rand::distributions::WeightedError;

use crate::shotgun::Shell;

verus! {

/// The thread-local generator of `rand`; opaque here.
#[verifier::external_type_specification]
#[verifier::external_body]
pub struct ExThreadRng(ThreadRng);

/// The error `rand` reports for a malformed weight table; opaque here.
#[verifier::external_type_specification]
#[verifier::external_body]
pub struct ExWeightedError(WeightedError);

/// Relies on `rand::thread_rng`: it hands out the thread's generator. Nothing is
/// promised of its state.
pub assume_specification[ rand::thread_rng ]() -> ThreadRng;

/// Sum of a weight table, as an unbounded integer.
pub open spec fn weight_total(weights: Seq<usize>) -> int
    decreases weights.len(),
{
    if weights.len() == 0 {
        0
    } else {
        weight_total(weights.drop_last()) + weights.last()
    }
}

/// The weight column of a table of weighted shells.
pub open spec fn weights_of(table: Seq<(Shell, usize)>) -> Seq<usize> {
    table.map_values(|e: (Shell, usize)| e.1)
}

/// The outcome of one weighted draw.
pub type WeightedDraw = Result<Shell, WeightedError>;

/// `r` is a successful draw of one of the shells of `table`.
pub open spec fn drawn_from(r: WeightedDraw, table: Seq<(Shell, usize)>) -> bool {
    match r {
        Ok(s) => exists|i: int| 0 <= i < table.len() && table[i].0 == s,
        Err(_) => false,
    }
}

/// Relies on `rand::seq::SliceRandom::choose_weighted` (rand 0.8): it builds a
/// `WeightedIndex` from the weights and returns the entry it samples. On a non-empty
/// table whose weights are positive and whose running total fits in a `usize`,
/// `WeightedIndex::new` succeeds, so the result is `Ok` and holds one of the
/// table's entries.
#[verifier::external_body]
pub(crate) fn choose_weighted(table: &[(Shell, usize)], rng: &mut ThreadRng) -> (r: WeightedDraw)
    requires
        table@.len() > 0,
        forall|i: int| 0 <= i < table@.len() ==> table@[i].1 > 0,
        weight_total(weights_of(table@)) <= usize::MAX,
    ensures
        drawn_from(r, table@),
{
    table.choose_weighted(rng, |e: &(Shell, usize)| e.1).map(|e| e.0)
}

/// Relies on `rand::Rng::gen_range`: on the non-empty range `0..n` it returns a
/// value inside it (it panics on an empty range, which `requires` rules out).
#[verifier::external_body]
pub(crate) fn random_below(rng: &mut ThreadRng, n: usize) -> (r: usize)
    requires
        n > 0,
    ensures
        r < n,
{
    rng.gen_range(0..n)
}

} // verus!
