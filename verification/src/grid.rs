//! The debug coordinate overlay's tick positions: evenly spaced marks along
//! an axis from one edge of the window to the other. The renderer draws a
//! short line at every tick and a text label at every nonzero one.

use vstd::prelude::*;

use crate::config::GRID_STEP;

verus! {

/// Tick positions along an axis of the given half extent (in world units):
/// the arithmetic progression from the negative half extent in steps of
/// GRID_STEP, up to and including the last value not beyond the positive
/// half extent.
pub fn axis_ticks(half_extent: i64) -> (v: Vec<i64>)
    requires
        0 <= half_extent <= 1_000_000_000,
    ensures
        v@.len() >= 1,
        forall|k: int| 0 <= k < v@.len() ==> #[trigger] v@[k] == -half_extent + GRID_STEP * k,
        v@[v@.len() - 1] <= half_extent,
        v@[v@.len() - 1] + GRID_STEP > half_extent,
{
    let mut v: Vec<i64> = Vec::new();
    let mut x: i64 = -half_extent;
    while x <= half_extent
        invariant
            0 <= half_extent <= 1_000_000_000,
            x == -half_extent + GRID_STEP * (v@.len() as int),
            x <= half_extent + GRID_STEP,
            forall|k: int| 0 <= k < v@.len() ==> #[trigger] v@[k] == -half_extent + GRID_STEP * k,
        decreases half_extent + GRID_STEP - x,
    {
        v.push(x);
        x = x + GRID_STEP;
    }
    v
}

} // verus!
