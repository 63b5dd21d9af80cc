//! The wall clock, and the pause between two looks at it.

use crate::bits::word_size;
use std::time::{Duration, SystemTime, SystemTimeError};
use vstd::prelude::*;

verus! {

/// `std::time::SystemTime`, a reading of the system clock. The library
/// carries it and looks at nothing inside.
#[verifier::external_type_specification]
#[verifier::external_body]
pub struct ExSystemTime(SystemTime);

/// `std::time::SystemTimeError`, the failure of comparing two readings. The
/// library carries it and looks at nothing inside.
#[verifier::external_type_specification]
#[verifier::external_body]
pub struct ExSystemTimeError(SystemTimeError);

/// `SystemTime::now` reads the system clock. Nothing is claimed of the
/// reading.
pub assume_specification[ SystemTime::now ]() -> SystemTime;

/// `SystemTime::duration_since` gives the time from `earlier` to the
/// reading, or an error if the reading lies before `earlier`. Nothing is
/// claimed of either.
pub assume_specification[ SystemTime::duration_since ](
    reading: &SystemTime,
    earlier: SystemTime,
) -> Result<Duration, SystemTimeError>;

/// `Duration::as_millis` gives a duration in whole milliseconds. Nothing is
/// claimed of the number.
pub assume_specification[ Duration::as_millis ](duration: &Duration) -> u128;

/// The constant `std::time::UNIX_EPOCH`, the instant that clock readings are
/// counted from.
#[verifier::external_body]
pub(crate) fn unix_epoch() -> SystemTime {
    std::time::UNIX_EPOCH
}

/// The text that `SystemTimeError` shows for itself. Nothing is claimed of
/// it.
#[verifier::external_body]
pub(crate) fn clock_error_text(error: &SystemTimeError) -> String {
    error.to_string()
}

/// `std::hint::spin_loop` tells the processor that the caller is waiting in
/// a loop. It returns nothing and changes nothing the library can see.
#[verifier::external_body]
pub(crate) fn pause() {
    std::hint::spin_loop()
}

/// A clock reading in milliseconds since the Unix epoch, as the timestamp
/// the allocator works with: reduced to 64 bits, counted from `epoch`, and
/// zero if the reading lies before `epoch`.
pub open spec fn since_epoch_spec(millis: u128, epoch: u64) -> u64 {
    let reading = millis as nat % word_size();
    if reading < epoch {
        0
    } else {
        (reading - epoch) as u64
    }
}

/// Whether a timestamp is what some clock reading gives when it is counted
/// from `epoch`.
pub open spec fn counted_from(epoch: u64, timestamp: u64) -> bool {
    exists|millis: u128| timestamp == #[trigger] since_epoch_spec(millis, epoch)
}

/// Turns a clock reading in milliseconds since the Unix epoch into a
/// timestamp counted from `epoch`.
pub fn since_epoch(millis: u128, epoch: u64) -> (timestamp: u64)
    ensures
        timestamp == since_epoch_spec(millis, epoch),
{
    let reading: u64 = (millis % 0x1_0000_0000_0000_0000u128) as u64;
    reading.saturating_sub(epoch)
}

/// Reads the wall clock in milliseconds since the Unix epoch. The error is
/// the text of the failure, which comes when the clock stands before the
/// Unix epoch.
pub fn unix_millis() -> (r: Result<u128, String>) {
    let reading = SystemTime::now();
    match reading.duration_since(unix_epoch()) {
        Ok(elapsed) => Ok(elapsed.as_millis()),
        Err(error) => Err(clock_error_text(&error)),
    }
}

/// `chrono::Utc::now` reads the system clock, and `DateTime::to_rfc3339`
/// writes the instant as RFC 3339 does. Nothing is claimed of the text.
/// `Utc::now` panics while the clock stands before the Unix epoch, so the
/// library calls this only after it has read the clock itself and found it
/// at or after the epoch.
#[verifier::external_body]
pub(crate) fn utc_now_rfc3339() -> String {
    chrono::Utc::now().to_rfc3339()
}

/// `chrono::Utc::now` reads the system clock, and `DateTime::timestamp`
/// gives the instant in whole seconds since the Unix epoch. Nothing is
/// claimed of the number. `Utc::now` panics while the clock stands before
/// the Unix epoch, so the library calls this only after it has read the
/// clock itself and found it at or after the epoch.
#[verifier::external_body]
pub(crate) fn utc_now_seconds() -> i64 {
    chrono::Utc::now().timestamp()
}

/// The present instant as RFC 3339 writes it, or nothing while the clock
/// stands before the Unix epoch.
pub fn now_rfc3339() -> Option<String> {
    match unix_millis() {
        Ok(_) => Some(utc_now_rfc3339()),
        Err(_) => None,
    }
}

/// The present instant in whole seconds since the Unix epoch, or zero while
/// the clock stands before the Unix epoch.
pub fn now_unix_seconds() -> i64 {
    match unix_millis() {
        Ok(_) => utc_now_seconds(),
        Err(_) => 0,
    }
}

} // verus!
