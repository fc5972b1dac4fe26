//! Reading the clock.

use vstd::prelude::*;

use std::time::{Duration, Instant, SystemTime};

verus! {

/// An instant of the monotonic clock.
#[verifier::external_type_specification]
#[verifier::external_body]
pub struct ExInstant(std::time::Instant);

/// A time of the system clock.
#[verifier::external_type_specification]
#[verifier::external_body]
pub struct ExSystemTime(std::time::SystemTime);

/// What [`Instant::duration_since`] returns.
pub uninterp spec fn time_between(later: Instant, earlier: Instant) -> Duration;

/// What [`Duration::as_millis`] returns.
pub uninterp spec fn whole_millis(duration: Duration) -> u128;

/// What [`Duration::as_secs`] returns.
pub uninterp spec fn whole_seconds(duration: Duration) -> u64;

/// [`Instant::now`] reads the monotonic clock. Nothing is claimed of what it shows.
pub assume_specification[ std::time::Instant::now ]() -> (now: Instant)
;

/// [`Instant::duration_since`] depends on the two instants alone.
pub assume_specification[ std::time::Instant::duration_since ](
    later: &Instant,
    earlier: Instant,
) -> (duration: Duration)
    ensures
        duration == time_between(*later, earlier),
;

/// [`Duration::as_millis`] depends on the duration alone.
pub assume_specification[ std::time::Duration::as_millis ](duration: &Duration) -> (millis: u128)
    ensures
        millis == whole_millis(*duration),
;

/// [`Duration::as_secs`] depends on the duration alone.
pub assume_specification[ std::time::Duration::as_secs ](duration: &Duration) -> (secs: u64)
    ensures
        secs == whole_seconds(*duration),
;

/// [`SystemTime::now`] reads the system clock. Nothing is claimed of what it shows.
pub assume_specification[ std::time::SystemTime::now ]() -> (now: SystemTime)
;

/// What [`SystemTime::duration_since`] returns for the Unix epoch, without the error.
pub uninterp spec fn unix_time(time: SystemTime) -> Option<Duration>;

/// How long after the Unix epoch `time` is, by [`SystemTime::duration_since`], or `None` if it
/// lies before. It depends on the time alone.
#[verifier::external_body]
fn since_unix_epoch(time: &SystemTime) -> (duration: Option<Duration>)
    ensures
        duration == unix_time(*time),
{
    time.duration_since(std::time::UNIX_EPOCH).ok()
}

/// The number of seconds in `duration`, or zero where there is none.
pub open spec fn seconds_or_zero(duration: Option<Duration>) -> u64 {
    match duration {
        Some(duration) => whole_seconds(duration),
        None => 0,
    }
}

/// The number of whole seconds from the Unix epoch to `time`, or zero if it lies before.
pub open spec fn seconds_at(time: SystemTime) -> u64 {
    seconds_or_zero(unix_time(time))
}

/// The number of whole seconds since the Unix epoch, or zero if the system clock shows a time
/// before it.
pub fn unix_seconds() -> (secs: u64)
    ensures
        exists|now: SystemTime| secs == #[trigger] seconds_at(now),
{
    let now = SystemTime::now();
    let secs: u64 = match since_unix_epoch(&now) {
        Some(duration) => duration.as_secs(),
        None => 0,
    };
    assert(secs == seconds_at(now));
    secs
}

/// Whether at least `millis` milliseconds lie between `since` and `now`.
pub open spec fn millis_passed(since: Instant, now: Instant, millis: u128) -> bool {
    whole_millis(time_between(now, since)) >= millis
}

/// Whether `passed` is a possible answer to whether at least `millis` milliseconds have passed
/// since the last time something was queued: it was never queued, or some reading of the clock
/// gives this answer.
pub open spec fn may_have_passed(
    last_queued_time: Option<Instant>,
    millis: u128,
    passed: bool,
) -> bool {
    match last_queued_time {
        Some(since) => exists|now: Instant| passed == #[trigger] millis_passed(since, now, millis),
        None => passed,
    }
}

/// Whether enough time has passed, given how long ago the last time was, if there was one.
pub fn is_due(elapsed_millis: Option<u128>, millis: u128) -> (r: bool)
    ensures
        r == match elapsed_millis {
            Some(elapsed) => elapsed >= millis,
            None => true,
        },
{
    match elapsed_millis {
        Some(elapsed) => elapsed >= millis,
        None => true,
    }
}

/// Whether at least `millis` milliseconds have passed since the given instant, counted as true
/// where there is none.
pub fn at_least_millis_passed_since(last_queued_time: Option<Instant>, millis: u128) -> (r: bool)
    ensures
        may_have_passed(last_queued_time, millis, r),
        last_queued_time is None ==> r,
        millis == 0 ==> r,
{
    match last_queued_time {
        Some(since) => {
            let now = Instant::now();
            let passed = is_due(Some(now.duration_since(since).as_millis()), millis);
            assert(passed == millis_passed(since, now, millis));
            passed
        },
        None => is_due(None, millis),
    }
}

} // verus!
