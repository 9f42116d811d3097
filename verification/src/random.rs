//! Random numbers for the simulation, from the `rand` crate.
use vstd::prelude::*;
use rand::RngExt;

verus! {

/// A number drawn uniformly from `0..=max` by `rand::rng().random_range`.
/// Only the range of the result is claimed; it is random.
#[verifier::external_body]
pub(crate) fn random_up_to(max: u64) -> (r: u64)
    ensures
        r <= max,
{
    rand::rng().random_range(0..=max)
}

} // verus!
