//! Version counters that wrap around instead of overflowing.
use vstd::prelude::*;

verus! {

/// The counter after `c`: one more, or zero after the largest value.
pub open spec fn wrapping_inc(c: u64) -> u64 {
    if c == u64::MAX {
        0
    } else {
        (c + 1) as u64
    }
}

/// Compute `wrapping_inc(c)`.
pub fn increment(c: u64) -> (r: u64)
    ensures
        r == wrapping_inc(c),
        r != c,
{
    if c == u64::MAX {
        0
    } else {
        c + 1
    }
}

} // verus!
