//! The current time, as the services stamp new and changed records: whole
//! microseconds since the Unix epoch, or nothing when the system clock
//! cannot give that.
use vstd::prelude::*;
use std::time::{Duration, SystemTime, UNIX_EPOCH};

verus! {

#[verifier::external_type_specification]
#[verifier::external_body]
pub struct ExSystemTime(std::time::SystemTime);

/// `std::time::SystemTime::now`: a reading of the system clock.  Nothing is
/// promised of it; it is the time of the call.
#[verifier::external_body]
fn system_clock() -> SystemTime {
    SystemTime::now()
}

/// `SystemTime::duration_since(UNIX_EPOCH)`: the time elapsed from the Unix
/// epoch to `t`, or `None` where `t` lies before the epoch (the call's
/// error).  Which of the two comes back depends on the clock reading, so
/// nothing is promised of it.
#[verifier::external_body]
fn elapsed_since_epoch(t: &SystemTime) -> Option<Duration> {
    match t.duration_since(UNIX_EPOCH) {
        Ok(d) => Some(d),
        Err(_) => None,
    }
}

/// `Duration::as_micros`: the whole microseconds in `d`.  The duration is
/// opaque here, so nothing is stated of the number.
#[verifier::external_body]
fn whole_micros(d: &Duration) -> u128 {
    d.as_micros()
}

/// The current time in microseconds since the Unix epoch; `None` when the
/// system clock reads before the epoch or further ahead than an `i64` of
/// microseconds reaches.
pub(crate) fn now_micros() -> (t: Option<i64>)
    ensures
        t matches Some(v) ==> v >= 0,
{
    let reading = system_clock();
    match elapsed_since_epoch(&reading) {
        Some(d) => {
            let micros: u128 = whole_micros(&d);
            if micros <= 0x7fff_ffff_ffff_ffffu128 {
                Some(micros as i64)
            } else {
                None
            }
        },
        None => None,
    }
}

} // verus!
