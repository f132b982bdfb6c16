//! The single trusted boundary to `rand`: drawing an integer from an
//! inclusive range. Nothing is assumed about the draw beyond its bounds, so
//! every caller is verified for every value the range admits.

use vstd::prelude::*;

verus! {

/// Relies on rand's `Rng::gen_range` on `lo..=hi`: it returns a value inside
/// the given range and panics only when the range is empty, which the
/// precondition rules out. Nothing is assumed about which value comes back.
#[verifier::external_body]
pub(crate) fn rand_i64_in(lo: i64, hi: i64) -> (r: i64)
    requires
        lo <= hi,
    ensures
        lo <= r <= hi,
{
    let mut rng = rand::thread_rng();
    rand::Rng::gen_range(&mut rng, lo..=hi)
}

} // verus!
