//! Timestamps of improvement trajectories.

use vstd::prelude::*;
use std::time::{Duration, SystemTime, SystemTimeError, UNIX_EPOCH};
use crate::text::{decimal, decimal_string};

verus! {

#[verifier::external_type_specification]
#[verifier::external_body]
pub struct ExSystemTime(SystemTime);

#[verifier::external_type_specification]
#[verifier::external_body]
pub struct ExSystemTimeError(SystemTimeError);

/// Reads the system clock with `std::time::SystemTime::now`. Nothing is
/// claimed of the reading: it depends on the time of the call.
#[verifier::external_body]
fn clock_now() -> (t: SystemTime) {
    SystemTime::now()
}

/// `SystemTime::duration_since(UNIX_EPOCH)`: the time elapsed since the Unix
/// epoch, or an error where the reading lies before the epoch. Nothing is
/// claimed of which outcome comes, nor of the duration.
#[verifier::external_body]
fn elapsed_since_epoch(t: &SystemTime) -> (r: Result<Duration, SystemTimeError>) {
    t.duration_since(UNIX_EPOCH)
}

/// `Duration::as_secs`: the whole seconds of a duration. The library has no
/// model of a `Duration`'s contents, so nothing is claimed of the number.
#[verifier::external_body]
fn whole_seconds(d: &Duration) -> (secs: u64) {
    d.as_secs()
}

/// The timestamp of `elapsed` whole seconds since the Unix epoch: its
/// decimal writing, and `"0"` where the clock read before the epoch (`None`).
pub fn stamp_of(elapsed: Option<u64>) -> (stamp: String)
    ensures
        stamp@ == decimal(
            match elapsed {
                Some(secs) => secs as nat,
                None => 0nat,
            },
        ),
{
    match elapsed {
        Some(secs) => decimal_string(secs),
        None => decimal_string(0),
    }
}

/// The current time as the decimal number of whole seconds since the Unix
/// epoch; `"0"` where the clock reads before the epoch.
pub fn chrono_now() -> (stamp: String)
    ensures
        exists|secs: u64| stamp@ == decimal(secs as nat),
{
    let now = clock_now();
    let elapsed: Option<u64> = match elapsed_since_epoch(&now) {
        Ok(d) => Some(whole_seconds(&d)),
        Err(_) => None,
    };
    let stamp = stamp_of(elapsed);
    proof {
        let secs: u64 = match elapsed {
            Some(s) => s,
            None => 0u64,
        };
        assert(stamp@ == decimal(secs as nat));
    }
    stamp
}

} // verus!
