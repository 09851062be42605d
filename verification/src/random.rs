//! The source of random numbers.

use vstd::prelude::*;

verus! {

/// The largest upper bound of a draw.
pub const DRAW_LIMIT: i64 = 2_097_152;

/// Draws a whole number from `low` up to, but not including, `high`.
///
/// This is `macroquad::rand::gen_range` at `i64`, which is believed, not proved.
/// It takes the next 32-bit value `k` of the generator and returns
/// `low + (high - low) * k / 2^32`, computed in `f64` and cut off to a whole
/// number. With both bounds between zero and `DRAW_LIMIT` every step of that
/// computation is exact in `f64`, so the result is at least `low` and less than
/// `high`. Which number comes out depends on the generator's state: nothing more
/// is claimed.
#[verifier::external_body]
pub(crate) fn gen_range(low: i64, high: i64) -> (r: i64)
    requires
        0 <= low < high <= DRAW_LIMIT,
    ensures
        low <= r < high,
{
    macroquad::rand::gen_range(low, high)
}

} // verus!
