//! The wall clock, read as signed nanoseconds since the UNIX epoch:
//! negative for instants before it.

use std::time::{SystemTime, UNIX_EPOCH};
use vstd::prelude::*;

verus! {

/// Reads `SystemTime::now()` and returns how far it lies from the UNIX
/// epoch: whether it lies before the epoch, and the distance in nanoseconds
/// (`duration_since` gives the distance after the epoch, and its error the
/// distance before it). Nothing is claimed of the values: they depend on the
/// time of the call.
#[verifier::external_body]
fn system_clock() -> (reading: (bool, u128)) {
    match SystemTime::now().duration_since(UNIX_EPOCH) {
        Ok(after) => (false, after.as_nanos()),
        Err(before) => (true, before.duration().as_nanos()),
    }
}

/// The instant `distance` nanoseconds after the UNIX epoch, or before it
/// when `before_epoch` holds, clamped to the range of `i128`.
pub open spec fn signed_instant(before_epoch: bool, distance: u128) -> i128 {
    if before_epoch {
        if distance <= i128::MAX {
            (-(distance as int)) as i128
        } else {
            i128::MIN
        }
    } else {
        if distance <= i128::MAX {
            distance as i128
        } else {
            i128::MAX
        }
    }
}

/// The instant `distance` nanoseconds after the UNIX epoch (before it when
/// `before_epoch` holds), as signed nanoseconds since the epoch.
pub fn unix_nanos_from(before_epoch: bool, distance: u128) -> (instant: i128)
    ensures
        instant == signed_instant(before_epoch, distance),
{
    let max: u128 = 0x7fff_ffff_ffff_ffff_ffff_ffff_ffff_ffff;
    if distance > max {
        if before_epoch {
            i128::MIN
        } else {
            i128::MAX
        }
    } else if before_epoch {
        let magnitude = distance as i128;
        -magnitude
    } else {
        distance as i128
    }
}

/// The current time in signed nanoseconds since the UNIX epoch.
pub(crate) fn now_unix_nanos() -> i128 {
    let (before_epoch, distance) = system_clock();
    unix_nanos_from(before_epoch, distance)
}

} // verus!
