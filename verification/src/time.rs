//! Reading the wall clock: seconds and days since the Unix epoch.

use vstd::prelude::*;

use std::time::{Duration, SystemTime, SystemTimeError};

use crate::mailbox::epoch_at;
use vstd::arithmetic::div_mod::lemma_div_is_ordered;

verus! {

#[verifier::external_type_specification]
#[verifier::external_body]
pub struct ExSystemTime(std::time::SystemTime);

#[verifier::external_type_specification]
#[verifier::external_body]
pub struct ExSystemTimeError(std::time::SystemTimeError);

/// Seconds in a day.
pub const SECONDS_PER_DAY: u64 = 86400;

/// `SystemTime::now()`: the system clock's current reading. It depends on the moment of the call
/// alone, so nothing is claimed of it.
#[verifier::external_body]
fn clock_now() -> SystemTime {
    SystemTime::now()
}

/// `t.duration_since(UNIX_EPOCH)`: the time elapsed from 1970-01-01 00:00 UTC to `t`, or an
/// error when `t` lies before it. The reading is opaque here, so nothing is claimed of the result.
#[verifier::external_body]
fn since_unix_epoch(t: &SystemTime) -> Result<Duration, SystemTimeError> {
    t.duration_since(std::time::UNIX_EPOCH)
}

/// `Duration::as_secs`: the whole seconds of a duration. The duration is opaque here, so nothing
/// is claimed of the number.
#[verifier::external_body]
fn whole_secs(d: &Duration) -> u64 {
    d.as_secs()
}

/// The clock of native targets.
pub struct NormalTime;

impl NormalTime {
    /// Whole seconds since the Unix epoch by the system clock. A clock set before 1970 reads as 0.
    pub fn epoch_secs() -> u64 {
        match since_unix_epoch(&clock_now()) {
            Ok(d) => whole_secs(&d),
            Err(_) => 0,
        }
    }
}

/// The number of seconds since the Unix epoch (January 1, 1970) UTC.
pub fn seconds_since_epoch() -> u64 {
    NormalTime::epoch_secs()
}

/// The day that the Unix time `secs` falls in, counted from the Unix epoch.
pub fn day_of(secs: u64) -> (day: u64)
    ensures
        day == secs / SECONDS_PER_DAY,
{
    epoch_at(secs, SECONDS_PER_DAY)
}

/// The number of days since the Unix epoch (January 1, 1970) UTC: the day the clock's reading
/// falls in.
pub fn days_since_epoch() -> (day: u64)
    ensures
        day <= u64::MAX / SECONDS_PER_DAY,
{
    let secs = seconds_since_epoch();
    proof {
        lemma_div_is_ordered(secs as int, u64::MAX as int, SECONDS_PER_DAY as int);
    }
    day_of(secs)
}

} // verus!
