//! The current time, read from the system clock.

use vstd::prelude::*;

verus! {

/// `chrono::Utc::now` followed by `DateTime::timestamp`: the current time in
/// whole seconds since the Unix epoch. Trusted, and nothing is claimed of the
/// value: it is whatever the system clock says. The call panics if the system
/// clock is set before the epoch.
#[verifier::external_body]
pub(crate) fn unix_now() -> (now: i64) {
    chrono::Utc::now().timestamp()
}

/// `t` brought into the range of instants that fit in 64 bits.
pub open spec fn clamp_instant(t: int) -> int {
    if t < i64::MIN {
        i64::MIN as int
    } else if t > i64::MAX {
        i64::MAX as int
    } else {
        t
    }
}

/// The instant `secs` seconds after `t` (before, if negative), kept within
/// the range of instants.
pub fn shift_instant(t: i64, secs: i64) -> (shifted: i64)
    ensures
        shifted == clamp_instant(t + secs),
{
    if secs >= 0 {
        if t > i64::MAX - secs {
            i64::MAX
        } else {
            t + secs
        }
    } else {
        if t < i64::MIN - secs {
            i64::MIN
        } else {
            t + secs
        }
    }
}

} // verus!
