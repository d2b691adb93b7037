//! Saturating index arithmetic. De Bruijn indices and character positions are
//! machine integers; every place that moves them clamps at the ends of the
//! range, and the specifications say so exactly.

use vstd::prelude::*;

verus! {

/// `v` clamped into the `u64` range.
pub open spec fn clamp_to_u64(v: int) -> u64 {
    if v < 0 {
        0u64
    } else if v > u64::MAX {
        u64::MAX
    } else {
        v as u64
    }
}

/// `a + p` clamped into the `u64` range.
pub open spec fn clamp_add(a: u64, p: int) -> u64 {
    clamp_to_u64(a + p)
}

/// `a + b` clamped into the `usize` range.
pub open spec fn clamp_add_usize(a: usize, b: usize) -> usize {
    if a + b > usize::MAX {
        usize::MAX
    } else {
        (a + b) as usize
    }
}

/// Saturating addition of a non-negative amount.
pub fn sat_add_u64(a: u64, b: u64) -> (r: u64)
    ensures
        r == clamp_add(a, b as int),
{
    if a > u64::MAX - b {
        u64::MAX
    } else {
        a + b
    }
}

/// Saturating addition of a signed displacement, clamping at both ends.
pub fn sat_add_signed_u64(a: u64, p: i64) -> (r: u64)
    ensures
        r == clamp_add(a, p as int),
{
    if p >= 0 {
        sat_add_u64(a, p as u64)
    } else {
        let magnitude: u64 = if p == i64::MIN {
            9223372036854775808
        } else {
            (-p) as u64
        };
        if a <= magnitude {
            0
        } else {
            a - magnitude
        }
    }
}

/// Saturating addition on `usize`.
pub fn sat_add_usize(a: usize, b: usize) -> (r: usize)
    ensures
        r == clamp_add_usize(a, b),
{
    if a > usize::MAX - b {
        usize::MAX
    } else {
        a + b
    }
}

} // verus!
