//! The library's single source of randomness.
//!
//! Random cell seeding and the blender's wandering targets both draw from
//! the thread-local generator through one trusted range sampler. Nothing is
//! assumed of an outcome beyond its bounds, so every caller is verified for
//! every value the sampler can hand back.

use vstd::prelude::*;
use rand::Rng;

verus! {

/// Relies on `rand::Rng::gen_range` over the thread-local generator: a
/// sample from the inclusive range `lo ..= hi`, which is non-empty because
/// `lo <= hi`, always lies inside that range.
#[verifier::external_body]
pub(crate) fn random_in(lo: u32, hi: u32) -> (r: u32)
    requires
        lo <= hi,
    ensures
        lo <= r <= hi,
{
    rand::thread_rng().gen_range(lo..=hi)
}

} // verus!
