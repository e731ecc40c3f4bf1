//! The library's one source of randomness, for reset directions.

use vstd::prelude::*;

verus! {

/// Relies on `rand::random`: draws a `u64` from the thread-local
/// generator, uniformly distributed over all values. Nothing is
/// assumed of the value drawn; callers state what holds of every
/// outcome.
#[verifier::external_body]
pub(crate) fn random_bits() -> u64 {
    rand::random::<u64>()
}

} // verus!
