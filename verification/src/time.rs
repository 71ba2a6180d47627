//! Timestamps as libsmbclient hands them out.

use chrono::{DateTime, NaiveDateTime, Utc};
use vstd::prelude::*;

verus! {

/// Seconds and microseconds since the epoch.
#[derive(Debug, Clone, Copy, PartialEq, Eq, Structural)]
pub struct TimeVal {
    pub tv_sec: i64,
    pub tv_usec: i64,
}

/// Seconds and nanoseconds since the epoch.
#[derive(Debug, Clone, Copy, PartialEq, Eq, Structural)]
pub struct TimeSpec {
    pub tv_sec: i64,
    pub tv_nsec: i64,
}

/// Division that rounds towards zero.
pub open spec fn truncated(a: int, b: int) -> int {
    if a >= 0 {
        a / b
    } else {
        -((-a) / b)
    }
}

/// The whole seconds of a time: before the epoch, a positive fraction counts towards zero.
pub open spec fn whole_seconds(sec: int, fraction: int) -> int {
    if sec < 0 && fraction > 0 {
        sec + 1
    } else {
        sec
    }
}

/// A million units for each second, and the fraction on top.
pub open spec fn micros(sec: int, fraction: int) -> int {
    sec * 1_000_000 + fraction
}

/// The time in units of a millionth of a second fits in 64 bits, and so do its whole seconds.
pub open spec fn micros_fit(sec: int, fraction: int) -> bool {
    &&& i64::MIN <= whole_seconds(sec, fraction) * 1_000_000 <= i64::MAX
    &&& i64::MIN <= micros(sec, fraction) <= i64::MAX
}

/// The time in whole hours.
pub fn num_hours(timestamp: TimeVal) -> (r: i64)
    ensures
        r == truncated(whole_seconds(timestamp.tv_sec as int, timestamp.tv_usec as int), 3600),
{
    num_seconds(timestamp) / 3600
}

/// The time in whole minutes.
pub fn num_minutes(timestamp: TimeVal) -> (r: i64)
    ensures
        r == truncated(whole_seconds(timestamp.tv_sec as int, timestamp.tv_usec as int), 60),
{
    num_seconds(timestamp) / 60
}

/// The time in whole seconds.
pub fn num_seconds(timestamp: TimeVal) -> (r: i64)
    ensures
        r == whole_seconds(timestamp.tv_sec as int, timestamp.tv_usec as int),
{
    if timestamp.tv_sec < 0 && timestamp.tv_usec > 0 {
        timestamp.tv_sec + 1
    } else {
        timestamp.tv_sec
    }
}

/// The time in whole milliseconds.
pub fn num_milliseconds(timestamp: TimeVal) -> (r: i64)
    requires
        micros_fit(timestamp.tv_sec as int, timestamp.tv_usec as int),
    ensures
        r == truncated(micros(timestamp.tv_sec as int, timestamp.tv_usec as int), 1000),
{
    num_microseconds(timestamp) / 1000
}

/// The time in microseconds.
pub fn num_microseconds(timestamp: TimeVal) -> (r: i64)
    requires
        micros_fit(timestamp.tv_sec as int, timestamp.tv_usec as int),
    ensures
        r == micros(timestamp.tv_sec as int, timestamp.tv_usec as int),
{
    let secs: i64 = num_seconds(timestamp) * 1_000_000;
    let usecs: i64 = micros_mod_sec(timestamp);
    secs + usecs
}

/// What is left of the time beyond its whole seconds, in microseconds.
pub fn micros_mod_sec(timestamp: TimeVal) -> (r: i64)
    ensures
        r == micros(timestamp.tv_sec as int, timestamp.tv_usec as int) - whole_seconds(
            timestamp.tv_sec as int,
            timestamp.tv_usec as int,
        ) * 1_000_000,
{
    if timestamp.tv_sec < 0 && timestamp.tv_usec > 0 {
        timestamp.tv_usec - 1_000_000
    } else {
        timestamp.tv_usec
    }
}

/// The time in whole hours.
pub fn stat_hours(timestamp: TimeSpec) -> (r: i64)
    ensures
        r == truncated(whole_seconds(timestamp.tv_sec as int, timestamp.tv_nsec as int), 3600),
{
    stat_seconds(timestamp) / 3600
}

/// The time in whole minutes.
pub fn stat_minutes(timestamp: TimeSpec) -> (r: i64)
    ensures
        r == truncated(whole_seconds(timestamp.tv_sec as int, timestamp.tv_nsec as int), 60),
{
    stat_seconds(timestamp) / 60
}

/// The time in whole seconds.
pub fn stat_seconds(timestamp: TimeSpec) -> (r: i64)
    ensures
        r == whole_seconds(timestamp.tv_sec as int, timestamp.tv_nsec as int),
{
    if timestamp.tv_sec < 0 && timestamp.tv_nsec > 0 {
        timestamp.tv_sec + 1
    } else {
        timestamp.tv_sec
    }
}

/// A thousandth of [`stat_microseconds`], rounded towards zero.
pub fn stat_milliseconds(timestamp: TimeSpec) -> (r: i64)
    requires
        micros_fit(timestamp.tv_sec as int, timestamp.tv_nsec as int),
    ensures
        r == truncated(micros(timestamp.tv_sec as int, timestamp.tv_nsec as int), 1000),
{
    stat_microseconds(timestamp) / 1000
}

/// A million for each second, and the fraction field on top as it stands: it is taken for a number
/// of microseconds.
pub fn stat_microseconds(timestamp: TimeSpec) -> (r: i64)
    requires
        micros_fit(timestamp.tv_sec as int, timestamp.tv_nsec as int),
    ensures
        r == micros(timestamp.tv_sec as int, timestamp.tv_nsec as int),
{
    let secs: i64 = stat_seconds(timestamp) * 1_000_000;
    let usecs: i64 = stat_micros_mod_sec(timestamp);
    secs + usecs
}

/// What [`stat_microseconds`] adds to the whole seconds.
pub fn stat_micros_mod_sec(timestamp: TimeSpec) -> (r: i64)
    ensures
        r == micros(timestamp.tv_sec as int, timestamp.tv_nsec as int) - whole_seconds(
            timestamp.tv_sec as int,
            timestamp.tv_nsec as int,
        ) * 1_000_000,
{
    if timestamp.tv_sec < 0 && timestamp.tv_nsec > 0 {
        timestamp.tv_nsec - 1_000_000
    } else {
        timestamp.tv_nsec
    }
}

/// The first second of the calendar of `chrono`, which is the first of the year -262143.
pub const CALENDAR_START: i64 = -8_334_601_228_800;

/// The last second of the calendar of `chrono`, which is the last of the year 262142.
pub const CALENDAR_END: i64 = 8_210_266_876_799;

/// The number of seconds since the epoch lies in the calendar of `chrono`.
pub open spec fn in_calendar(secs: int) -> bool {
    CALENDAR_START <= secs <= CALENDAR_END
}

/// How `chrono` writes the moment that lies so many seconds after the epoch, in UTC.
pub uninterp spec fn utc_text(secs: int) -> Seq<char>;

/// The text that `chrono` gives for a number of seconds since the epoch: the date and time that
/// `NaiveDateTime::from_timestamp` makes of it, taken as UTC by `DateTime::from_utc`, in the form
/// that formatting with `{:?}` gives. It is claimed that the text depends on the number alone.
/// `from_timestamp` panics outside of [`in_calendar`].
#[allow(deprecated)]
#[verifier::external_body]
fn utc_debug(secs: i64) -> (s: String)
    requires
        in_calendar(secs as int),
    ensures
        s@ == utc_text(secs as int),
{
    let naive_datetime = NaiveDateTime::from_timestamp(secs, 0);
    let datetime: DateTime<Utc> = DateTime::from_utc(naive_datetime, Utc);
    format!("{:?}", datetime)
}

/// The line that shows the whole seconds of a time as a date, in UTC.
pub fn timeval_secs_text(timestamp: TimeVal) -> (s: String)
    requires
        in_calendar(whole_seconds(timestamp.tv_sec as int, timestamp.tv_usec as int)),
    ensures
        s@ == utc_text(whole_seconds(timestamp.tv_sec as int, timestamp.tv_usec as int)),
{
    utc_debug(num_seconds(timestamp))
}

/// The line that shows the whole seconds of a time as a date, in UTC.
pub fn timespec_secs_text(timestamp: TimeSpec) -> (s: String)
    requires
        in_calendar(whole_seconds(timestamp.tv_sec as int, timestamp.tv_nsec as int)),
    ensures
        s@ == utc_text(whole_seconds(timestamp.tv_sec as int, timestamp.tv_nsec as int)),
{
    utc_debug(stat_seconds(timestamp))
}

/// Where the fraction is less than a second, every coarser unit is the time in microseconds,
/// rounded towards zero.
pub proof fn law_units_round_towards_zero(sec: int, fraction: int)
    requires
        0 <= fraction < 1_000_000,
    ensures
        whole_seconds(sec, fraction) == truncated(micros(sec, fraction), 1_000_000),
        truncated(whole_seconds(sec, fraction), 60) == truncated(
            micros(sec, fraction),
            60_000_000,
        ),
        truncated(whole_seconds(sec, fraction), 3600) == truncated(
            micros(sec, fraction),
            3_600_000_000,
        ),
{
}

/// Rounding towards zero keeps the sign, and gives the largest multiple that is not farther from
/// zero.
pub proof fn law_rounding_towards_zero(a: int, b: int)
    requires
        b > 0,
    ensures
        a >= 0 ==> 0 <= truncated(a, b) * b <= a < (truncated(a, b) + 1) * b,
        a <= 0 ==> (truncated(a, b) - 1) * b < a <= truncated(a, b) * b <= 0,
{
    let q = if a >= 0 {
        a / b
    } else {
        (-a) / b
    };
    if a >= 0 {
        assert(0 <= q * b <= a < (q + 1) * b) by (nonlinear_arith)
            requires
                b > 0,
                a >= 0,
                q == a / b,
        ;
        assert(a == 0 ==> (q - 1) * b < a <= q * b <= 0) by (nonlinear_arith)
            requires
                b > 0,
                a >= 0,
                q == a / b,
        ;
    } else {
        assert((-q - 1) * b < a <= (-q) * b <= 0) by (nonlinear_arith)
            requires
                b > 0,
                a < 0,
                q == (-a) / b,
        ;
    }
}

/// A second has a million microseconds, a microsecond of the fraction is one, and the epoch is at
/// none.
pub proof fn law_microseconds_add_up(sec: int, fraction: int, more: int)
    ensures
        micros(0, 0) == 0,
        micros(sec + more, fraction) == micros(sec, fraction) + more * 1_000_000,
        micros(sec, fraction + more) == micros(sec, fraction) + more,
{
}

/// The whole seconds of a time are the time rounded towards zero, for a fraction in nanoseconds as
/// for one in microseconds; a time without a fraction has the seconds that it has.
pub proof fn law_whole_seconds_round_towards_zero(sec: int, nanos: int, micro: int, none: int)
    requires
        0 <= nanos < 1_000_000_000,
        0 <= micro < 1_000_000,
        none <= 0,
    ensures
        whole_seconds(sec, nanos) == truncated(sec * 1_000_000_000 + nanos, 1_000_000_000),
        whole_seconds(sec, micro) == truncated(sec * 1_000_000 + micro, 1_000_000),
        whole_seconds(sec, none) == sec,
{
}

/// A time fits if it and its whole seconds, in microseconds, do.
pub proof fn law_times_that_fit(sec: int, fraction: int)
    ensures
        micros_fit(sec, fraction) <==> -0x8000_0000_0000_0000 <= sec * 1_000_000 + fraction
            <= 0x7fff_ffff_ffff_ffff && -0x8000_0000_0000_0000 <= whole_seconds(sec, fraction)
            * 1_000_000 <= 0x7fff_ffff_ffff_ffff,
        in_calendar(sec) <==> -8_334_601_228_800 <= sec <= 8_210_266_876_799,
{
}

} // verus!
