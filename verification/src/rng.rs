//! Trusted access to the game's pseudo-random number source.

use vstd::prelude::*;

verus! {

/// Relies on `macroquad::rand::gen_range` (the `quad-rand` generator).
/// For an integer type it computes `low + (high - low) * u` in `f64` from
/// a draw `u = rand() / 2^32` in `[0, 1)` and converts with `as`, which
/// truncates toward zero; with a positive `high` that truncation can only
/// pull the value down, so the result lies in `[low, high)`.  The bounds
/// required here keep the floating-point computation too far from `high`
/// for rounding to reach it.  Nothing more is promised: the draw depends
/// on hidden generator state.
#[verifier::external_body]
pub(crate) fn gen_range_i64(low: i64, high: i64) -> (r: i64)
    requires
        -2_000_000 <= low,
        1 <= high <= 2_000_000,
        low + 2 <= high,
    ensures
        low <= r < high,
{
    macroquad::rand::gen_range(low, high)
}

} // verus!
