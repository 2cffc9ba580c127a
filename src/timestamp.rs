//! Wall-clock timestamps for telemetry records.
use vstd::prelude::*;

verus! {

#[verifier::external_type_specification]
#[verifier::external_body]
pub struct ExSystemTime(std::time::SystemTime);

#[verifier::external_type_specification]
#[verifier::external_body]
pub struct ExSystemTimeError(std::time::SystemTimeError);

/// Relies on std's SystemTime::now: a reading of the system clock, about
/// which nothing can be promised.
pub assume_specification[ std::time::SystemTime::now ]() -> std::time::SystemTime;

/// Relies on std's Duration::as_secs: the whole seconds of a duration.
pub assume_specification[ core::time::Duration::as_secs ](d: &core::time::Duration) -> u64;

/// Relies on std's SystemTime::duration_since, against UNIX_EPOCH: the time
/// elapsed since the epoch, or an error where `t` lies before it.
#[verifier::external_body]
fn since_unix_epoch(t: &std::time::SystemTime) -> (r: Result<
    core::time::Duration,
    std::time::SystemTimeError,
>) {
    t.duration_since(std::time::UNIX_EPOCH)
}

/// Whole seconds since the UNIX epoch by the system clock; `None` where the
/// clock reads a time before the epoch.
pub fn current_timestamp() -> (r: Option<u64>) {
    let now = std::time::SystemTime::now();
    match since_unix_epoch(&now) {
        Ok(d) => Some(d.as_secs()),
        Err(_) => None,
    }
}

} // verus!
