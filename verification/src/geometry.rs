//! Scalar clamping and axis-aligned box overlap: the two geometric
//! primitives of the simulation.

use vstd::prelude::*;

verus! {

/// `v` bounded to `[low, high]`: `low` if below, `high` if above,
/// otherwise `v` itself.
pub open spec fn spec_clamp(v: int, low: int, high: int) -> int {
    if v < low {
        low
    } else if v > high {
        high
    } else {
        v
    }
}

/// Absolute value.
pub open spec fn abs_val(v: int) -> int {
    if v < 0 {
        -v
    } else {
        v
    }
}

/// Sets `value` to `low` if it is below, to `high` if it is above, and
/// leaves it unchanged otherwise.
pub fn clamp(value: &mut i64, low: i64, high: i64)
    ensures
        *final(value) == spec_clamp(*old(value) as int, low as int, high as int),
{
    if *value < low {
        *value = low;
    } else if *value > high {
        *value = high;
    }
}

/// Returns the absolute value of `v`.
pub fn abs_i64(v: i64) -> (r: i64)
    requires
        v > i64::MIN,
    ensures
        r as int == abs_val(v as int),
{
    if v < 0 {
        -v
    } else {
        v
    }
}

/// Returns half of a non-negative coordinate, rounded down.
pub fn half_of(v: i64) -> (r: i64)
    requires
        0 <= v,
    ensures
        r as int == (v as int) / 2,
{
    ((v as u64) / 2) as i64
}

/// Two axis-aligned boxes, given by their centers and half-extents, overlap
/// exactly when all four axis separation tests fail.
pub open spec fn boxes_overlap(
    ax: int,
    ay: int,
    a_half_w: int,
    a_half_h: int,
    bx: int,
    by: int,
    b_half_w: int,
    b_half_h: int,
) -> bool {
    &&& ax - a_half_w < bx + b_half_w
    &&& ax + a_half_w > bx - b_half_w
    &&& ay - a_half_h < by + b_half_h
    &&& ay + a_half_h > by - b_half_h
}

} // verus!
