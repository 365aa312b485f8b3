//! The AI's source of randomness: thin trusted wrappers over the `rand`
//! crate's thread-local generator.

use vstd::prelude::*;

verus! {

/// Relies on rand::random::<bool>: a fair coin from the thread-local
/// generator. Nothing can be promised of the outcome.
#[verifier::external_body]
pub(crate) fn coin_flip() -> bool {
    rand::random::<bool>()
}

/// Relies on rand::random_range: a uniform draw from `lo..=hi`, which panics
/// on an empty range and otherwise returns a value inside it.
#[verifier::external_body]
pub(crate) fn roll(lo: u32, hi: u32) -> (r: u32)
    requires
        lo <= hi,
    ensures
        lo <= r <= hi,
{
    rand::random_range(lo..=hi)
}

} // verus!
