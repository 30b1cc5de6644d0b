//! Fixed-point units and saturating helpers shared by the world model.
//!
//! Lengths and positions are measured in micro-pixels (one million per
//! pixel), angles in micro-radians, and time in milliseconds.  World
//! coordinates are kept within `COORD_LIMIT` so that squared distances
//! stay representable.

use vstd::prelude::*;

verus! {

/// Largest magnitude a world coordinate or radius may take, in
/// micro-pixels.  Keeping coordinates within this bound lets squared
/// distances be computed exactly in 128-bit arithmetic.
pub const COORD_LIMIT: i64 = 0x2000_0000_0000_0000;

/// `v` clamped into the closed interval `[lo, hi]`.
pub open spec fn spec_clamp(v: int, lo: int, hi: int) -> int {
    if v < lo {
        lo
    } else if v > hi {
        hi
    } else {
        v
    }
}

/// Saturating signed addition: the exact sum, clamped into the `i64` range.
pub fn i64_sat_add(a: i64, b: i64) -> (r: i64)
    ensures
        r == spec_clamp(a + b, i64::MIN as int, i64::MAX as int),
{
    if b >= 0 {
        if a <= i64::MAX - b {
            a + b
        } else {
            i64::MAX
        }
    } else {
        if a >= i64::MIN - b {
            a + b
        } else {
            i64::MIN
        }
    }
}

/// `v` clamped into `[lo, hi]`, for 128-bit intermediates narrowed back
/// to a coordinate.
pub fn i128_clamp_to_i64(v: i128, lo: i64, hi: i64) -> (r: i64)
    requires
        lo <= hi,
    ensures
        r == spec_clamp(v as int, lo as int, hi as int),
{
    if v < lo as i128 {
        lo
    } else if v > hi as i128 {
        hi
    } else {
        v as i64
    }
}

} // verus!
