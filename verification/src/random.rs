//! The calls into the `rand` crate. Their contracts are taken on trust: they
//! say what holds of every outcome, whatever the generator draws.

use rand::seq::{IteratorRandom, SliceRandom};
use rand::Rng;
use std::time::Duration;
use vstd::prelude::*;

verus! {

/// Calls `rand::seq::IteratorRandom::choose` on the items of `items`, with
/// the thread's generator. The call returns one of the items, and `None` if
/// and only if there is none.
#[verifier::external_body]
pub(crate) fn pick_one<T>(items: Vec<T>) -> (choice: Option<T>)
    ensures
        choice is None <==> items@.len() == 0,
        choice matches Some(item) ==> items@.contains(item),
{
    items.into_iter().choose(&mut rand::thread_rng())
}

/// Calls `rand::Rng::gen_range` on the thread's generator, for the range of
/// durations from `min_secs` to `max_secs` seconds, both included. The call
/// returns a duration in that range, given here in nanoseconds. An empty
/// range makes it panic.
#[verifier::external_body]
pub(crate) fn duration_between(min_secs: u64, max_secs: u64) -> (nanos: u128)
    requires
        min_secs <= max_secs,
    ensures
        min_secs * 1_000_000_000 <= nanos <= max_secs * 1_000_000_000,
{
    let range = Duration::from_secs(min_secs)..=Duration::from_secs(max_secs);
    rand::thread_rng().gen_range(range).as_nanos()
}

/// Calls `rand::seq::SliceRandom::partial_shuffle` on `items`, with the
/// thread's generator. The call swaps items in place, so the items are
/// afterwards what they were, in some order; with an `amount` of 0 it swaps
/// none.
#[verifier::external_body]
pub(crate) fn partial_shuffle<T>(items: &mut Vec<T>, amount: usize)
    ensures
        final(items)@.to_multiset() == old(items)@.to_multiset(),
        amount == 0 ==> final(items)@ == old(items)@,
{
    items.partial_shuffle(&mut rand::thread_rng(), amount);
}

} // verus!
