//! Uniform random draws, taken from macroquad's generator.
use vstd::prelude::*;

verus! {

/// Relies on `macroquad::rand::gen_range` (quad-rand) for integers: it scales a
/// 32-bit draw `k` to `low + (high - low) * k / 2^32` in `f64` and truncates it.
/// For `0 <= low < high <= 2^20` every step is exact, so the result lies in
/// `[low, high)`.
#[verifier::external_body]
pub(crate) fn random_range(low: i64, high: i64) -> (r: i64)
    requires
        0 <= low < high <= 0x10_0000,
    ensures
        low <= r < high,
{
    macroquad::rand::gen_range(low, high)
}

} // verus!
