//! The one place where the engine draws randomness.  Every worker draws from
//! the calling thread's own generator, so concurrent workers explore
//! independent candidate streams.

use vstd::prelude::*;
use rand::Rng;

verus! {

/// Relies on rand::Rng::gen_range over an inclusive range: it panics only on
/// an empty range (ruled out here) and returns a value drawn uniformly from
/// within the bounds.  Nothing more is assumed: the draw is random, so two
/// calls with the same bounds may differ.
#[verifier::external_body]
pub(crate) fn rand_in_range(lo: u64, hi: u64) -> (r: u64)
    requires
        lo <= hi,
    ensures
        lo <= r <= hi,
{
    rand::thread_rng().gen_range(lo..=hi)
}

} // verus!
