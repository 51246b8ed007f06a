//! Wall-clock time in microseconds, the seed of the random saver choice.

use std::time::{Duration, SystemTime};

use vstd::prelude::*;

verus! {

/// `std::time::SystemTime`, carried through opaquely.
#[verifier::external_type_specification]
#[verifier::external_body]
pub struct ExSystemTime(SystemTime);

/// `SystemTime::now`: the current wall-clock time. Nothing is claimed of it.
#[verifier::external_body]
fn system_now() -> SystemTime {
    SystemTime::now()
}

/// `SystemTime::duration_since(UNIX_EPOCH)`, `None` for a time before the epoch.
/// Nothing is claimed of the result, which depends on the clock.
#[verifier::external_body]
fn since_unix_epoch(t: SystemTime) -> Option<Duration> {
    t.duration_since(std::time::UNIX_EPOCH).ok()
}

/// `Duration::as_micros`. Nothing is claimed of the result.
#[verifier::external_body]
fn duration_micros(d: Duration) -> u128 {
    d.as_micros()
}

/// Microseconds since the epoch, truncated to 64 bits; 0 before the epoch.
pub fn micros_or_zero(micros: Option<u128>) -> (r: u64)
    ensures
        r == match micros {
            Some(m) => m as u64,
            None => 0,
        },
{
    match micros {
        Some(m) => m as u64,
        None => 0,
    }
}

/// Microseconds since the Unix epoch now (0 if the clock is before the epoch).
pub fn current_time_micros() -> u64 {
    let micros = match since_unix_epoch(system_now()) {
        Some(d) => Some(duration_micros(d)),
        None => None,
    };
    micros_or_zero(micros)
}

} // verus!
