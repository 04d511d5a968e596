//! The wall clock, in whole seconds since the Unix epoch.

use std::time::UNIX_EPOCH;
use vstd::prelude::*;

verus! {

/// Whole seconds elapsed since the Unix epoch, from `SystemTime::elapsed`
/// on `UNIX_EPOCH`, or nothing when the system clock reads before the
/// epoch. Nothing is claimed of the reading.
#[verifier::external_body]
fn seconds_since_epoch() -> (r: Option<u64>) {
    match UNIX_EPOCH.elapsed() {
        Ok(elapsed) => Some(elapsed.as_secs()),
        Err(_) => None,
    }
}

/// A reading of whole seconds since the epoch as a Unix timestamp; a
/// reading beyond `i64::MAX` wraps, as a cast does.
pub fn unix_timestamp(secs: u64) -> (t: i64)
    ensures
        t as int == if secs <= i64::MAX {
            secs as int
        } else {
            secs - 0x1_0000_0000_0000_0000
        },
{
    let t = #[verifier::truncate] (secs as i64);
    assert(t as int == if secs <= i64::MAX {
        secs as int
    } else {
        secs - 0x1_0000_0000_0000_0000
    }) by (bit_vector)
        requires
            t == secs as i64,
    ;
    t
}

/// The current time as a Unix timestamp in seconds (see [`unix_timestamp`]
/// for how the clock's reading becomes one), or nothing when the system
/// clock reads before the epoch.
pub fn now_unix() -> Option<i64> {
    match seconds_since_epoch() {
        Some(secs) => Some(unix_timestamp(secs)),
        None => None,
    }
}

} // verus!
