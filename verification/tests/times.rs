use smbc::time::{
    micros_mod_sec, stat_micros_mod_sec, timespec_secs_text, timeval_secs_text,
};
use smbc::{
    num_hours, num_microseconds, num_milliseconds, num_minutes, num_seconds, stat_hours,
    stat_microseconds, stat_milliseconds, stat_minutes, stat_seconds, TimeSpec, TimeVal,
};

fn val(tv_sec: i64, tv_usec: i64) -> TimeVal {
    TimeVal { tv_sec, tv_usec }
}

fn spec(tv_sec: i64, tv_nsec: i64) -> TimeSpec {
    TimeSpec { tv_sec, tv_nsec }
}

#[test]
fn units_after_the_epoch() {
    let t = val(7325, 999_999);
    assert_eq!(num_hours(t), 2);
    assert_eq!(num_minutes(t), 122);
    assert_eq!(num_seconds(t), 7325);
    assert_eq!(num_milliseconds(t), 7_325_999);
    assert_eq!(num_microseconds(t), 7_325_999_999);
    assert_eq!(micros_mod_sec(t), 999_999);
}

#[test]
fn units_before_the_epoch_round_towards_zero() {
    let t = val(-3601, 500_000);
    assert_eq!(num_seconds(t), -3600);
    assert_eq!(num_minutes(t), -60);
    assert_eq!(num_hours(t), -1);
    assert_eq!(num_microseconds(t), -3_600_500_000);
    assert_eq!(num_milliseconds(t), -3_600_500);
    assert_eq!(micros_mod_sec(t), -500_000);
    assert_eq!(num_seconds(val(-3601, 0)), -3601);
    assert_eq!(num_hours(val(-3599, 0)), 0);
}

#[test]
fn units_agree_with_the_rounded_microseconds() {
    for sec in -7300..7300 {
        for usec in [0, 1, 999_999] {
            let t = val(sec, usec);
            let micros = num_microseconds(t);
            assert_eq!(num_seconds(t), micros / 1_000_000);
            assert_eq!(num_minutes(t), micros / 60_000_000);
            assert_eq!(num_hours(t), micros / 3_600_000_000);
            assert_eq!(num_milliseconds(t), micros / 1000);
        }
    }
}

#[test]
fn stat_units() {
    let t = spec(7325, 999_999);
    assert_eq!(stat_hours(t), 2);
    assert_eq!(stat_minutes(t), 122);
    assert_eq!(stat_seconds(t), 7325);
    assert_eq!(stat_microseconds(t), 7_325_999_999);
    assert_eq!(stat_milliseconds(t), 7_325_999);
    assert_eq!(stat_micros_mod_sec(t), 999_999);
}

#[test]
fn stat_units_before_the_epoch() {
    let t = spec(-3601, 500_000);
    assert_eq!(stat_seconds(t), -3600);
    assert_eq!(stat_minutes(t), -60);
    assert_eq!(stat_hours(t), -1);
    assert_eq!(stat_microseconds(t), -3_600_500_000);
    assert_eq!(stat_milliseconds(t), -3_600_500);
    assert_eq!(stat_micros_mod_sec(t), -500_000);
}

#[test]
fn stat_fraction_counts_as_microseconds() {
    assert_eq!(stat_microseconds(spec(1, 2_500_000)), 3_500_000);
}

#[test]
fn seconds_as_a_date() {
    assert_eq!(timeval_secs_text(val(0, 0)), "1970-01-01T00:00:00Z");
    assert_eq!(timeval_secs_text(val(-1, 1)), "1970-01-01T00:00:00Z");
    assert_eq!(timeval_secs_text(val(1_500_000_000, 7)), "2017-07-14T02:40:00Z");
    assert_eq!(timespec_secs_text(spec(951_782_400, 0)), "2000-02-29T00:00:00Z");
    assert_eq!(timespec_secs_text(spec(-1, 0)), "1969-12-31T23:59:59Z");
}

#[test]
fn ends_of_the_calendar_have_a_date() {
    assert_eq!(
        timeval_secs_text(val(-8_334_601_228_800, 0)),
        "-262143-01-01T00:00:00Z"
    );
    assert_eq!(
        timespec_secs_text(spec(8_210_266_876_799, 0)),
        "+262142-12-31T23:59:59Z"
    );
}
