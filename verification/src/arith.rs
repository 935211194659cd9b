//! Saturating and clamping integer helpers with exact specifications.

use vstd::prelude::*;

verus! {

pub open spec fn spec_sat_add_u64(a: u64, b: u64) -> u64 {
    if a + b > u64::MAX {
        u64::MAX
    } else {
        (a + b) as u64
    }
}

pub open spec fn spec_sat_mul_u64(a: u64, b: u64) -> u64 {
    if a * b > u64::MAX {
        u64::MAX
    } else {
        (a * b) as u64
    }
}

pub open spec fn spec_sat_mul_u128(a: u128, b: u128) -> u128 {
    if a * b > u128::MAX {
        u128::MAX
    } else {
        (a * b) as u128
    }
}

pub open spec fn spec_sat_add_u128(a: u128, b: u128) -> u128 {
    if a + b > u128::MAX {
        u128::MAX
    } else {
        (a + b) as u128
    }
}

pub open spec fn spec_sat_sub_u128(a: u128, b: u128) -> u128 {
    if a < b {
        0
    } else {
        (a - b) as u128
    }
}

/// `x` clamped into `[0, u64::MAX]`.
pub open spec fn spec_clamp_u64(x: int) -> u64 {
    if x > u64::MAX {
        u64::MAX
    } else if x < 0 {
        0
    } else {
        x as u64
    }
}

/// `a * b`, saturating at `u64::MAX`.
pub fn sat_mul_u64(a: u64, b: u64) -> (r: u64)
    ensures
        r == spec_sat_mul_u64(a, b),
{
    match a.checked_mul(b) {
        Some(v) => v,
        None => u64::MAX,
    }
}

/// `a * b`, saturating at `u128::MAX`.
pub fn sat_mul_u128(a: u128, b: u128) -> (r: u128)
    ensures
        r == spec_sat_mul_u128(a, b),
{
    match a.checked_mul(b) {
        Some(v) => v,
        None => u128::MAX,
    }
}

/// `x` as a `u64`, saturating at `u64::MAX`.
pub fn clamp_u128_to_u64(x: u128) -> (r: u64)
    ensures
        r == spec_clamp_u64(x as int),
{
    if x > u64::MAX as u128 {
        u64::MAX
    } else {
        x as u64
    }
}

} // verus!
