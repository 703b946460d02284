//! The timestep of a tick, and lengths scaled by it.

use vstd::prelude::*;

verus! {

/// The time that a tick of `dt` clock ticks lets pass: a negative timestep is
/// invalid and counts as no time at all.
pub open spec fn effective_dt(dt: int) -> int {
    if dt < 0 {
        0
    } else {
        dt
    }
}

/// Clamps an invalid, negative timestep to zero and leaves a valid one as it
/// is. A host that wants to report the anomaly tests `dt < 0` itself.
pub fn clamp_timestep(dt: i64) -> (t: i64)
    ensures
        t == effective_dt(dt as int),
{
    if dt < 0 {
        0
    } else {
        dt
    }
}

/// The 64-bit signed integer equal to `v`, where there is one.
pub open spec fn as_i64(v: int) -> Option<i64> {
    if i64::MIN <= v <= i64::MAX {
        Some(v as i64)
    } else {
        None
    }
}

/// `base + rate * t * scale`, computed without loss: `None` exactly when the
/// result is no 64-bit signed integer.
pub(crate) fn offset_by_scaled(base: i64, rate: i128, t: i64, scale: i64) -> (r: Option<i64>)
    requires
        -0x1_0000_0000_0000_0000 <= rate <= 0x1_0000_0000_0000_0000,
        0 <= t,
    ensures
        r == as_i64(base + rate * t * scale),
{
    assert(-0x7fff_ffff_ffff_ffff_0000_0000_0000_0000 <= rate * t
        <= 0x7fff_ffff_ffff_ffff_0000_0000_0000_0000) by (nonlinear_arith)
        requires
            -0x1_0000_0000_0000_0000 <= rate <= 0x1_0000_0000_0000_0000,
            0 <= t <= 0x7fff_ffff_ffff_ffff,
    ;
    let travelled: i128 = rate * (t as i128);
    match travelled.checked_mul(scale as i128) {
        None => None,
        Some(step) => match step.checked_add(base as i128) {
            None => None,
            Some(v) => if -0x8000_0000_0000_0000 <= v && v <= 0x7fff_ffff_ffff_ffff {
                Some(v as i64)
            } else {
                None
            },
        },
    }
}

} // verus!
