//! The one source of randomness the simulation uses: a uniform draw from a
//! half-open integer range, for picking a spawn corner and a launch angle.

use vstd::prelude::*;

verus! {

/// Relies on rand::Rng::gen_range on rand::thread_rng: a draw from a
/// non-empty half-open range lies in that range (the call panics on an
/// empty range, which the precondition rules out). Nothing more is assumed:
/// every caller must hold for every value in the range.
#[verifier::external_body]
pub(crate) fn sample_range(lo: i64, hi: i64) -> (r: i64)
    requires
        lo < hi,
    ensures
        lo <= r < hi,
{
    rand::Rng::gen_range(&mut rand::thread_rng(), lo..hi)
}

} // verus!
