//! Range checks on pairs of bounds.
use vstd::prelude::*;

verus! {

/// `max`, for a range whose bounds are in order.
pub fn assert_i64_le(min: i64, max: i64) -> (r: i64)
    requires
        min <= max,
    ensures
        r == max,
{
    max
}

/// `max`, for a range whose bounds are in order.
pub fn assert_usize_le(min: usize, max: usize) -> (r: usize)
    requires
        min <= max,
    ensures
        r == max,
{
    max
}

} // verus!
