//! The system clock, read as a distance from the Unix epoch.

use std::time::Duration;
use std::time::UNIX_EPOCH;
use vstd::prelude::*;

verus! {

/// `SystemTime::elapsed` of the standard library, taken on `UNIX_EPOCH`: how
/// far the system clock stands behind the epoch, or `None` where the clock
/// reads a time before it. Nothing is claimed of the distance.
#[verifier::external_body]
pub(crate) fn since_unix_epoch() -> (elapsed: Option<Duration>) {
    match UNIX_EPOCH.elapsed() {
        Ok(elapsed) => Some(elapsed),
        Err(_) => None,
    }
}

/// `Duration::as_millis` of the standard library: the whole milliseconds
/// that the duration holds. Nothing is claimed of their number.
#[verifier::external_body]
pub(crate) fn whole_millis(elapsed: &Duration) -> (millis: u128) {
    elapsed.as_millis()
}

/// The timestamp for a clock that stands `elapsed` milliseconds behind the
/// epoch. There is none for a clock that reads a time before the epoch, nor
/// for a distance that no `i64` holds.
pub open spec fn timestamp_of(elapsed: Option<u128>) -> Option<int> {
    match elapsed {
        Some(millis) => if millis <= i64::MAX {
            Some(millis as int)
        } else {
            None
        },
        None => None,
    }
}

/// The timestamp as a mathematical integer, where there is one.
pub open spec fn instant(now: Option<i64>) -> Option<int> {
    match now {
        Some(millis) => Some(millis as int),
        None => None,
    }
}

/// Turns a reading of the clock into a timestamp in milliseconds.
pub fn timestamp(elapsed: Option<u128>) -> (now: Option<i64>)
    ensures
        instant(now) == timestamp_of(elapsed),
        now matches Some(millis) ==> millis >= 0,
{
    match elapsed {
        Some(millis) => {
            if millis <= 9_223_372_036_854_775_807u128 {
                Some(millis as i64)
            } else {
                None
            }
        },
        None => None,
    }
}

/// Reads the system clock as whole milliseconds behind the Unix epoch.
pub fn read_clock() -> (elapsed: Option<u128>) {
    match since_unix_epoch() {
        Some(elapsed) => Some(whole_millis(&elapsed)),
        None => None,
    }
}

} // verus!
