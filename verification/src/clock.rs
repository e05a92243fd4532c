//! Durations and the system clock.
//!
//! Everything in this module that is not proved is a call into the standard
//! library.

use std::time::{Duration, SystemTime, SystemTimeError};

use vstd::prelude::*;

verus! {

/// The duration that `Duration::from_secs` makes of a number of seconds.
pub uninterp spec fn duration_from_secs(secs: u64) -> Duration;

/// `Duration::from_secs`: its result is determined by the number of seconds.
pub assume_specification[ Duration::from_secs ](secs: u64) -> (d: Duration)
    ensures
        d == duration_from_secs(secs),
;

/// `Duration::as_secs` gives back the number of seconds that a duration of
/// whole seconds was made from.
pub assume_specification[ Duration::as_secs ](d: &Duration) -> (secs: u64)
    ensures
        forall|n: u64| *d == #[trigger] duration_from_secs(n) ==> secs == n,
;

/// `Duration::subsec_millis` is the fractional part of a duration in whole
/// milliseconds, and so below a thousand.
pub assume_specification[ Duration::subsec_millis ](d: &Duration) -> (millis: u32)
    ensures
        millis < 1000,
;

/// The standard library's point in time.
#[verifier::external_type_specification]
#[verifier::external_body]
pub struct ExSystemTime(SystemTime);

/// The standard library's error for a point in time before another.
#[verifier::external_type_specification]
#[verifier::external_body]
pub struct ExSystemTimeError(SystemTimeError);

/// `SystemTime::now`: nothing is known of what the clock says.
pub assume_specification[ SystemTime::now ]() -> SystemTime
;

/// `SystemTime::duration_since`: nothing is known of the distance of two
/// readings of the clock.
pub assume_specification[ SystemTime::duration_since ](
    t: &SystemTime,
    earlier: SystemTime,
) -> Result<Duration, SystemTimeError>
;

/// The constant `SystemTime::UNIX_EPOCH`; nothing is claimed of it.
#[verifier::external_body]
fn unix_epoch() -> SystemTime {
    SystemTime::UNIX_EPOCH
}

/// The moment that a reading of the clock stands for, in seconds and
/// milliseconds since 1970-01-01T00:00:00Z. A reading is the whole seconds and
/// the milliseconds that have gone by since then; there is none if the clock
/// stands before that, and the moment is zero.
pub fn moment(reading: Option<(u64, u32)>) -> (now: (i64, u32))
    ensures
        now == (match reading {
            Some((secs, millis)) => (secs as i64, millis),
            None => (0i64, 0u32),
        }),
{
    match reading {
        Some((secs, millis)) => (secs as i64, millis),
        None => (0, 0),
    }
}

/// Whether `t` is what `SystemTime::UNIX_EPOCH` stands for.
pub closed spec fn is_epoch(t: SystemTime) -> bool {
    call_ensures(unix_epoch, (), t)
}

/// Whether `elapsed` came of asking the clock for the present and taking the
/// distance of that from the epoch.
pub open spec fn clock_elapsed(elapsed: Result<Duration, SystemTimeError>) -> bool {
    exists|now: SystemTime, epoch: SystemTime|
        {
            &&& #[trigger] call_ensures(SystemTime::now, (), now)
            &&& #[trigger] is_epoch(epoch)
            &&& call_ensures(SystemTime::duration_since, (&now, epoch), elapsed)
        }
}

/// Whether `(secs, millis)` is what becomes of `elapsed`: its whole seconds and
/// the milliseconds of its fraction, or zero if the clock stood before the
/// epoch.
pub open spec fn is_reading(
    elapsed: Result<Duration, SystemTimeError>,
    secs: i64,
    millis: u32,
) -> bool {
    match elapsed {
        Ok(d) => {
            &&& exists|whole: u64| #[trigger]
                call_ensures(Duration::as_secs, (&d,), whole) && secs == whole as i64
            &&& call_ensures(Duration::subsec_millis, (&d,), millis)
        },
        Err(_) => secs == 0 && millis == 0,
    }
}

/// Whether `(secs, millis)` is what the clock said when it was asked.
pub open spec fn clock_read(secs: i64, millis: u32) -> bool {
    exists|elapsed: Result<Duration, SystemTimeError>| #[trigger]
        clock_elapsed(elapsed) && is_reading(elapsed, secs, millis)
}

/// The whole seconds and the milliseconds of the current second since
/// 1970-01-01T00:00:00Z; zero if the clock stands before that.
///
/// What the clock says is not known beforehand: the result is tied to the calls
/// that asked it, and of their outcome nothing is claimed. [`moment`] says what
/// becomes of each reading.
pub fn unix_now() -> (now: (i64, u32))
    ensures
        now.1 < 1000,
        clock_read(now.0, now.1),
{
    let present: SystemTime = SystemTime::now();
    let epoch: SystemTime = unix_epoch();
    let elapsed: Result<Duration, SystemTimeError> = present.duration_since(epoch);
    assert(is_epoch(epoch));
    assert(clock_elapsed(elapsed));
    match &elapsed {
        Ok(d) => {
            let secs: u64 = d.as_secs();
            let millis: u32 = d.subsec_millis();
            assert(is_reading(elapsed, secs as i64, millis));
            moment(Some((secs, millis)))
        },
        Err(_) => moment(None),
    }
}

/// What the clock said is what `SystemTime::now` and
/// `SystemTime::duration_since` gave: nothing is a reading unless they were
/// called.
pub proof fn law_reading_is_of_the_clock(now: (i64, u32))
    requires
        call_ensures(unix_now, (), now),
    ensures
        now.1 < 1000,
        exists|present: SystemTime, epoch: SystemTime, elapsed: Result<Duration, SystemTimeError>|
            {
                &&& #[trigger] call_ensures(SystemTime::now, (), present)
                &&& is_epoch(epoch)
                &&& #[trigger] call_ensures(
                    SystemTime::duration_since,
                    (&present, epoch),
                    elapsed,
                )
                &&& match elapsed {
                    Ok(d) => call_ensures(Duration::subsec_millis, (&d,), now.1) && exists|
                        whole: u64,
                    | #[trigger] call_ensures(Duration::as_secs, (&d,), whole) && now.0
                        == whole as i64,
                    Err(_) => now == (0i64, 0u32),
                }
            },
{
    let elapsed = choose|elapsed: Result<Duration, SystemTimeError>| #[trigger]
        clock_elapsed(elapsed) && is_reading(elapsed, now.0, now.1);
    let (present, epoch) = choose|present: SystemTime, epoch: SystemTime|
        {
            &&& #[trigger] call_ensures(SystemTime::now, (), present)
            &&& #[trigger] is_epoch(epoch)
            &&& call_ensures(SystemTime::duration_since, (&present, epoch), elapsed)
        };
    assert(call_ensures(SystemTime::now, (), present));
    assert(call_ensures(SystemTime::duration_since, (&present, epoch), elapsed));
}

/// A reading is the moment that it tells of, in whole seconds and milliseconds;
/// without one it is zero.
pub proof fn law_moment(reading: Option<(u64, u32)>, now: (i64, u32))
    requires
        call_ensures(moment, (reading,), now),
    ensures
        reading is Some ==> now.1 == (reading->0).1,
        reading is Some && (reading->0).0 <= i64::MAX ==> now.0 == (reading->0).0,
        reading is None ==> now.0 == 0 && now.1 == 0,
{
}

} // verus!
