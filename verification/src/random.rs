//! The one source of randomness: the vertical jitter applied to obstacle
//! pipes when they are spawned or recycled.

use vstd::prelude::*;

use rand::Rng;

use crate::config::JITTER_AMPLITUDE;

verus! {

/// Relies on rand::Rng::gen_range on an exclusive integer range: it returns
/// a value in [lo, hi), and panics only on an empty range, which the
/// precondition rules out.
#[verifier::external_body]
fn random_in_range(lo: i64, hi: i64) -> (r: i64)
    requires
        lo < hi,
    ensures
        lo <= r < hi,
{
    rand::thread_rng().gen_range(lo..hi)
}

/// Draws a fresh vertical jitter, uniform over the configured amplitude.
/// Only its range is promised: the value depends on chance.
pub fn generate_offset() -> (r: i64)
    ensures
        -JITTER_AMPLITUDE <= r < JITTER_AMPLITUDE,
{
    random_in_range(-JITTER_AMPLITUDE, JITTER_AMPLITUDE)
}

} // verus!
