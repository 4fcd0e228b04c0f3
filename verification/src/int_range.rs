//! The integer side of integer parameters: the number of steps a range
//! offers the host, and keeping values inside the range.

use vstd::prelude::*;

verus! {

/// The step count of an integer range `min..=max`: its size, capped at
/// `i32::MAX`.
pub fn int_step_count(min: i64, max: i64) -> (r: i32)
    requires
        min <= max,
    ensures
        r == (if max - min > i32::MAX { i32::MAX as int } else { max - min }),
{
    let size: i128 = (max as i128) - (min as i128);
    if size > i32::MAX as i128 {
        i32::MAX
    } else {
        size as i32
    }
}

/// `value` limited to `min..=max`.
pub open spec fn clamped(value: int, min: int, max: int) -> int {
    if value < min { min } else if value > max { max } else { value }
}

/// `value` limited to `min..=max`.
pub fn clamp_int(value: i64, min: i64, max: i64) -> (r: i64)
    requires
        min <= max,
    ensures
        r == clamped(value as int, min as int, max as int),
{
    if value < min {
        min
    } else if value > max {
        max
    } else {
        value
    }
}

/// Clamping keeps a value inside the range, leaves values inside it
/// unchanged, and clamping twice is clamping once.
pub proof fn lemma_clamp_int(value: int, min: int, max: int)
    requires
        min <= max,
    ensures
        min <= clamped(value, min, max) <= max,
        min <= value <= max ==> clamped(value, min, max) == value,
        clamped(clamped(value, min, max), min, max) == clamped(value, min, max),
{
}

} // verus!
