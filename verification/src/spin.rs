//! The schedule of the spinning-cube demonstration: a four-second spin
//! whose three Euler angles grow linearly with elapsed time. Angles are
//! integer multiples of one eight-thousandth of pi radians, so the
//! schedule is exact; the caller scales them to radians when it builds
//! the rotation matrix.

use vstd::prelude::*;

verus! {

/// How long the spin runs, in milliseconds.
pub open spec fn spin_duration_ms() -> nat {
    4000
}

/// The spin angles after `elapsed_ms` milliseconds, in units of pi/8000
/// radians, or nothing once the spin is over. While it runs, the first
/// angle advances a quarter turn of pi/4 per second, the second twice as
/// fast, the third half as fast.
pub fn six_spin_angles(elapsed_ms: u64) -> (angles: Option<(u64, u64, u64)>)
    ensures
        elapsed_ms >= spin_duration_ms() ==> angles is None,
        elapsed_ms < spin_duration_ms() ==> {
            &&& angles matches Some(a)
            &&& a.0 == 2 * elapsed_ms
            &&& a.1 == 4 * elapsed_ms
            &&& a.2 == elapsed_ms
        },
{
    if elapsed_ms >= 4000 {
        None
    } else {
        Some((2 * elapsed_ms, 4 * elapsed_ms, elapsed_ms))
    }
}

} // verus!
