//! Saturating integer helpers shared by the simulation.
//!
//! World coordinates are kept in thousandths of a world unit ("milli-units")
//! and velocities in world units per second, so that one integration step over
//! a delta of `t` milliseconds is the exact integer sum
//! `position + velocity * t`.  The saturating helpers keep every operation
//! total: a value that would leave the `i64` range is pinned to the nearest
//! bound instead of wrapping or panicking.

use vstd::prelude::*;

verus! {

/// An arbitrary integer pinned to the `i64` range.
pub open spec fn sat64(v: int) -> int {
    if v > i64::MAX as int {
        i64::MAX as int
    } else if v < i64::MIN as int {
        i64::MIN as int
    } else {
        v
    }
}

/// Saturating addition; exact whenever the mathematical sum fits in `i64`.
pub fn sat_add64(a: i64, b: i64) -> (r: i64)
    ensures
        r as int == sat64(a + b),
{
    if b >= 0 {
        if a <= i64::MAX - b {
            a + b
        } else {
            i64::MAX
        }
    } else {
        if a >= i64::MIN - b {
            a + b
        } else {
            i64::MIN
        }
    }
}

/// Pins an exact `i128` value into the `i64` range.
fn clip_to_i64(v: i128) -> (r: i64)
    ensures
        r as int == sat64(v as int),
{
    if v > i64::MAX as i128 {
        i64::MAX
    } else if v < i64::MIN as i128 {
        i64::MIN
    } else {
        v as i64
    }
}

/// Pins the negation of an exact `i128` value into the `i64` range.
pub fn neg_clip_to_i64(v: i128) -> (r: i64)
    ensures
        r as int == sat64(-(v as int)),
{
    if v < -(i64::MAX as i128) {
        i64::MAX
    } else if v > -(i64::MIN as i128) {
        i64::MIN
    } else {
        (-v) as i64
    }
}

/// One integration step on a single coordinate: `p + v * t`, saturated to the
/// `i64` range.  `p` is a coordinate in milli-units, `v` a velocity in units
/// per second and `t` a time delta in milliseconds, so the product is already
/// in milli-units and no rounding occurs.
pub fn integrate64(p: i64, v: i64, t: u64) -> (r: i64)
    ensures
        r as int == sat64(p + v * t),
{
    assert((i64::MIN as int) * (u64::MAX as int) <= (v as int) * (t as int) <= (i64::MAX
        as int) * (u64::MAX as int)) by (nonlinear_arith)
        requires
            i64::MIN as int <= v as int <= i64::MAX as int,
            0 <= t as int <= u64::MAX as int,
    ;
    let prod: i128 = (v as i128) * (t as i128);
    let sum: i128 = (p as i128) + prod;
    clip_to_i64(sum)
}

} // verus!
