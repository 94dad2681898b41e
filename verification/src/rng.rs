//! The single source of randomness the spawn generators draw from.

use vstd::prelude::*;

verus! {

/// Relies on rand::random_range over the integer range `0..n`: the sampled
/// value lies in the range, and the call panics only on an empty range,
/// which the precondition rules out. Nothing more is assumed of the
/// outcome: callers hold for every value the range admits.
#[verifier::external_body]
pub(crate) fn random_below(n: u64) -> (r: u64)
    requires
        n >= 1,
    ensures
        r < n,
{
    rand::random_range(0..n)
}

} // verus!
