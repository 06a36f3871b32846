//! The wall clock, read in milliseconds since the epoch.

use std::time::{Duration, SystemTime, SystemTimeError, UNIX_EPOCH};
use vstd::prelude::*;

verus! {

/// A reading of the system clock, opaque to the verifier.
#[verifier::external_type_specification]
#[verifier::external_body]
pub struct ExSystemTime(SystemTime);

/// The error of a clock reading that lies before the reference point.
#[verifier::external_type_specification]
#[verifier::external_body]
pub struct ExSystemTimeError(SystemTimeError);

/// `SystemTime::now` reads the system clock; nothing is claimed of the reading.
pub assume_specification[ SystemTime::now ]() -> (now: SystemTime);

/// `Duration::as_millis` gives the whole milliseconds that a duration holds;
/// nothing is claimed of the number.
pub assume_specification[ Duration::as_millis ](elapsed: &Duration) -> (millis: u128);

/// Calls `SystemTime::duration_since` with the epoch as the earlier time. It
/// fails where the reading lies before the epoch; nothing is claimed of the
/// duration.
#[verifier::external_body]
fn since_epoch(now: &SystemTime) -> (elapsed: Result<Duration, SystemTimeError>) {
    now.duration_since(UNIX_EPOCH)
}

/// The timestamp for a clock that stands `millis` milliseconds after the
/// epoch: the number itself where it fits the 64 bits of the timestamp, and
/// otherwise its low 64 bits read as a signed number.
pub open spec fn timestamp_of(millis: u128) -> i64 {
    let low = millis as int % 0x1_0000_0000_0000_0000;
    if low <= i64::MAX {
        low as i64
    } else {
        (low - 0x1_0000_0000_0000_0000) as i64
    }
}

/// The timestamp for a clock that stands `millis` milliseconds after the epoch.
pub fn timestamp_from_millis(millis: u128) -> (timestamp: i64)
    ensures
        timestamp == timestamp_of(millis),
        millis <= i64::MAX ==> timestamp == millis,
{
    let timestamp = #[verifier::truncate] (millis as i64);
    assert(timestamp == timestamp_of(millis)) by {
        let low = (millis % 0x1_0000_0000_0000_0000) as u64;
        assert(low == #[verifier::truncate] (millis as u64)) by (bit_vector)
            requires
                low == (millis % 0x1_0000_0000_0000_0000) as u64,
        ;
        assert(#[verifier::truncate] (millis as i64) == #[verifier::truncate] ((
        #[verifier::truncate] (millis as u64)) as i64)) by (bit_vector);
        assert(low <= 0x7fff_ffff_ffff_ffff ==> #[verifier::truncate] (low as i64) == low)
            by (bit_vector);
        assert(low > 0x7fff_ffff_ffff_ffff ==> #[verifier::truncate] (low as i64) == low
            - 0x1_0000_0000_0000_0000) by (bit_vector);
    }
    timestamp
}

/// The current time in milliseconds since the epoch, or `None` where the
/// system clock stands before the epoch. The time is the timestamp of the
/// milliseconds that the clock read.
pub fn get_current_timestamp_millis() -> (timestamp: Option<i64>)
    ensures
        timestamp matches Some(t) ==> exists|millis: u128| t == #[trigger] timestamp_of(millis),
{
    let now = SystemTime::now();
    match since_epoch(&now) {
        Ok(elapsed) => Some(timestamp_from_millis(elapsed.as_millis())),
        Err(_) => None,
    }
}

} // verus!
