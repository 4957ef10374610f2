//! The randomness source of the pipeline: a general-purpose PRNG drawn from
//! behind one trusted boundary. Nothing is assumed of the values beyond the
//! range they are drawn from, so everything built on them holds whatever
//! comes out.

use vstd::prelude::*;

verus! {

/// Relies on rand's `Rng::gen_range` on `thread_rng`: the result lies in the
/// half-open range handed to it, which must not be empty.
#[verifier::external_body]
pub(crate) fn random_in_range(lo: u64, hi: u64) -> (r: u64)
    requires
        lo < hi,
    ensures
        lo <= r < hi,
{
    rand::Rng::gen_range(&mut rand::thread_rng(), lo..hi)
}

} // verus!
