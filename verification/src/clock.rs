//! Readings of the system clocks.
use vstd::prelude::*;

verus! {

#[verifier::external_type_specification]
#[verifier::external_body]
pub struct ExInstant(std::time::Instant);

#[verifier::external_type_specification]
#[verifier::external_body]
pub struct ExSystemTime(std::time::SystemTime);

#[verifier::external_type_specification]
#[verifier::external_body]
pub struct ExSystemTimeError(std::time::SystemTimeError);

/// `Instant::now`: a reading of the monotonic clock.
pub assume_specification[ std::time::Instant::now ]() -> std::time::Instant;

/// `Instant::elapsed`: the time since the reading.
pub assume_specification[ std::time::Instant::elapsed ](instant: &std::time::Instant) -> core::time::Duration;

/// `Duration::as_nanos`: the duration in whole nanoseconds.
pub assume_specification[ core::time::Duration::as_nanos ](duration: &core::time::Duration) -> u128;

/// `Duration::as_secs`: the whole seconds of the duration.
pub assume_specification[ core::time::Duration::as_secs ](duration: &core::time::Duration) -> u64;

/// `SystemTime::now`: a reading of the wall clock.
pub assume_specification[ std::time::SystemTime::now ]() -> std::time::SystemTime;

/// `SystemTime::duration_since` the Unix epoch: an error where the reading lies before it.
#[verifier::external_body]
fn since_unix_epoch(time: &std::time::SystemTime) -> std::result::Result<core::time::Duration, std::time::SystemTimeError> {
    time.duration_since(std::time::UNIX_EPOCH)
}

/// The seconds that `unix_seconds_now` answers for a wall-clock reading that lies
/// `since_epoch_secs` whole seconds after the Unix epoch, or before it (`None`).
pub open spec fn unix_seconds_of(since_epoch_secs: Option<u64>) -> i64 {
    match since_epoch_secs {
        Some(s) => s as i64,
        None => 0i64,
    }
}

/// The seconds answered for a wall-clock reading `since_epoch_secs` whole seconds after
/// the Unix epoch: that count, or 0 for a reading before the epoch (`None`).
pub fn unix_seconds_from(since_epoch_secs: Option<u64>) -> (secs: i64)
    ensures
        secs == unix_seconds_of(since_epoch_secs),
{
    match since_epoch_secs {
        Some(s) => s as i64,
        None => 0,
    }
}

/// The whole seconds since the Unix epoch on the wall clock; 0 when the clock reads
/// earlier than the epoch.
pub fn unix_seconds_now() -> (secs: i64)
    ensures
        exists|reading: Option<u64>| secs == unix_seconds_of(reading),
{
    let now = std::time::SystemTime::now();
    let since_epoch_secs = match since_unix_epoch(&now) {
        Ok(duration) => Some(duration.as_secs()),
        Err(_) => None,
    };
    unix_seconds_from(since_epoch_secs)
}

/// A monotonic clock started at some instant; it reads the nanoseconds since then.
pub struct MonotonicClock {
    origin: std::time::Instant,
}

impl MonotonicClock {
    /// A clock started now.
    pub fn start() -> (c: MonotonicClock) {
        MonotonicClock { origin: std::time::Instant::now() }
    }

    /// The nanoseconds since the clock was started.
    pub fn elapsed_nanos(&self) -> (n: u128) {
        self.origin.elapsed().as_nanos()
    }
}

} // verus!
