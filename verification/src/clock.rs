//! The time of day, in milliseconds since the epoch.
use std::time::{Duration, SystemTime, SystemTimeError};
use vstd::prelude::*;

verus! {

/// `std::time::SystemTime`, a point in time.
#[verifier::external_type_specification]
#[verifier::external_body]
pub struct ExSystemTime(SystemTime);

/// `std::time::SystemTimeError`, the error for a time that lies before another.
#[verifier::external_type_specification]
#[verifier::external_body]
pub struct ExSystemTimeError(SystemTimeError);

/// `SystemTime::now`; nothing is claimed of the time that it gives.
pub assume_specification[ SystemTime::now ]() -> (r: SystemTime)
;

/// `Duration::as_millis`; nothing is claimed of the number that it gives.
pub assume_specification[ Duration::as_millis ](d: &Duration) -> (r: u128)
;

/// Calls `SystemTime::duration_since` with the epoch; nothing is claimed of the result.
#[verifier::external_body]
fn since_epoch(time: &SystemTime) -> (r: Result<Duration, SystemTimeError>) {
    time.duration_since(std::time::UNIX_EPOCH)
}

/// A count of milliseconds as a timestamp: none counts as 0, and what does not fit is cut to
/// the low 64 bits.
pub fn timestamp(millis: Option<u128>) -> (r: i64)
    ensures
        match millis {
            Some(m) => r == (m as i64) && (m <= i64::MAX ==> r == m),
            None => r == 0,
        },
{
    match millis {
        Some(m) => {
            let cut: i64 = #[verifier::truncate]
            (m as i64);
            cut
        },
        None => 0,
    }
}

/// The current time in milliseconds since the epoch, 0 if the clock stands before it.
pub fn now_ms() -> (r: i64) {
    let now = SystemTime::now();
    match since_epoch(&now) {
        Ok(elapsed) => timestamp(Some(elapsed.as_millis())),
        Err(_) => timestamp(None),
    }
}

} // verus!
