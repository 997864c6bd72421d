//! Tests of the pure conversion layers: BCD encoding and the periodic
//! countdown timer tick and frequency selection.

use rv3028::bcd::{bcd_to_bin, bin_to_bcd};
use rv3028::pct::{
    pct_ticks_and_rate_for_duration, MAX_PCT_COUNT, MAX_PCT_MICROS, MAX_PCT_MILLIS, MAX_PCT_TICKS,
    PCT_MICROS_PERIOD, PCT_MILLIS_PERIOD,
};
use rv3028::{Duration, TimerClockFreq};

/// The duration requested should exactly match the duration the device
/// can deliver with pct_ticks_and_rate_for_duration.
fn verify_whole_time_estimate(duration: &Duration, known_freq: TimerClockFreq, known_ticks: u16) {
    let (ticks, freq, estimated) = pct_ticks_and_rate_for_duration(duration);
    assert_eq!(freq, known_freq);
    assert_eq!(ticks, known_ticks);
    assert_eq!(*duration, estimated);
}

/// We know that the device can't precisely match the requested duration
/// with pct_ticks_and_rate_for_duration, so just match ticks and freq.
fn verify_ticks_and_freq(duration: &Duration, known_freq: TimerClockFreq, known_ticks: u16) {
    let (ticks, freq, _estimated) = pct_ticks_and_rate_for_duration(duration);
    assert_eq!(freq, known_freq);
    assert_eq!(ticks, known_ticks);
}

#[test]
fn test_countdown_timer_conversion_minutes() {
    // should be fulfilled as minutes
    let minutes_clock_freq = TimerClockFreq::HertzSixtieth;

    // request a longer countdown than the device can fulfill
    verify_ticks_and_freq(
        &Duration::minutes(MAX_PCT_COUNT + 32),
        minutes_clock_freq,
        MAX_PCT_TICKS,
    );

    verify_whole_time_estimate(
        &Duration::minutes(MAX_PCT_COUNT),
        minutes_clock_freq,
        MAX_PCT_TICKS,
    );

    // exceed the seconds counter just slightly to invoke the minutes counter
    const MAX_SECONDS_IN_MINUTES: i64 = (MAX_PCT_COUNT / 60) + 1;
    verify_whole_time_estimate(
        &Duration::minutes(MAX_SECONDS_IN_MINUTES),
        minutes_clock_freq,
        MAX_SECONDS_IN_MINUTES as u16,
    );

    verify_whole_time_estimate(&Duration::minutes(2047), minutes_clock_freq, 2047);
}

#[test]
fn test_countdown_timer_conversion_seconds() {
    // should be fulfilled as seconds
    let seconds_clock_freq = TimerClockFreq::Hertz1;

    // maximum seconds ticks
    verify_whole_time_estimate(
        &Duration::seconds(MAX_PCT_COUNT),
        seconds_clock_freq,
        MAX_PCT_TICKS,
    );

    verify_whole_time_estimate(&Duration::seconds(2047), seconds_clock_freq, 2047);

    verify_whole_time_estimate(&Duration::seconds(61), seconds_clock_freq, 61);

    // we serve whole minutes (under max seconds) with a seconds countdown
    verify_whole_time_estimate(&Duration::seconds(60), seconds_clock_freq, 60);

    verify_whole_time_estimate(&Duration::minutes(1), seconds_clock_freq, 60);

    verify_whole_time_estimate(&Duration::minutes(45), seconds_clock_freq, 45 * 60);

    // minimum seconds ticks
    verify_whole_time_estimate(&Duration::seconds(1), seconds_clock_freq, 1);
}

#[test]
fn test_countdown_timer_conversion_micros() {
    // should be fulfilled as microseconds
    let micros_clock_freq = TimerClockFreq::Hertz4096;

    verify_whole_time_estimate(
        &Duration::microseconds(MAX_PCT_MICROS),
        micros_clock_freq,
        MAX_PCT_TICKS,
    );

    verify_ticks_and_freq(
        &Duration::microseconds(2048),
        micros_clock_freq,
        (2048 / PCT_MICROS_PERIOD) as u16,
    );

    verify_ticks_and_freq(
        &Duration::microseconds(655),
        micros_clock_freq,
        (655 / PCT_MICROS_PERIOD) as u16,
    );

    verify_ticks_and_freq(
        &Duration::microseconds(1024),
        micros_clock_freq,
        (1024 / PCT_MICROS_PERIOD) as u16,
    );

    // some exact micros values

    verify_whole_time_estimate(
        &Duration::microseconds(999 * PCT_MICROS_PERIOD),
        micros_clock_freq,
        999,
    );

    verify_whole_time_estimate(
        &Duration::microseconds(100 * PCT_MICROS_PERIOD),
        micros_clock_freq,
        100,
    );

    verify_whole_time_estimate(
        &Duration::microseconds(17 * PCT_MICROS_PERIOD),
        micros_clock_freq,
        17,
    );

    // minimum microseconds tick
    verify_whole_time_estimate(&Duration::microseconds(PCT_MICROS_PERIOD), micros_clock_freq, 1);
}

#[test]
fn test_countdown_timer_conversion_millis() {
    // should be fulfilled as milliseconds
    let millis_clock_freq = TimerClockFreq::Hertz64;

    // a bit more than max micros counter, but less than max millis counter
    verify_ticks_and_freq(
        &Duration::microseconds(MAX_PCT_MICROS + 1),
        millis_clock_freq,
        ((MAX_PCT_MICROS + 1) / (PCT_MILLIS_PERIOD * 1_000)) as u16,
    );

    // maximum millis counter
    verify_whole_time_estimate(
        &Duration::milliseconds(MAX_PCT_MILLIS),
        millis_clock_freq,
        MAX_PCT_TICKS,
    );

    // mid-value millis
    verify_ticks_and_freq(
        &Duration::milliseconds(2047),
        millis_clock_freq,
        (2047 / PCT_MILLIS_PERIOD) as u16,
    );

    // exactly on the seconds clock
    verify_whole_time_estimate(
        &Duration::milliseconds(1000 * PCT_MILLIS_PERIOD),
        TimerClockFreq::Hertz1,
        PCT_MILLIS_PERIOD as u16,
    );

    // exactly on the millis period

    verify_whole_time_estimate(
        &Duration::milliseconds(999 * PCT_MILLIS_PERIOD),
        millis_clock_freq,
        999,
    );

    verify_whole_time_estimate(
        &Duration::milliseconds(100 * PCT_MILLIS_PERIOD),
        millis_clock_freq,
        100,
    );

    // minimum millis ticks
    verify_whole_time_estimate(&Duration::milliseconds(PCT_MILLIS_PERIOD), millis_clock_freq, 1);
}

#[test]
fn test_bcd_round_trip_all_two_digit_values() {
    for v in 0..100u8 {
        assert_eq!(bcd_to_bin(bin_to_bcd(v)), v);
    }
}

#[test]
fn test_bcd_exact_encodings() {
    assert_eq!(bin_to_bcd(0), 0x00);
    assert_eq!(bin_to_bcd(9), 0x09);
    assert_eq!(bin_to_bcd(10), 0x10);
    assert_eq!(bin_to_bcd(59), 0x59);
    assert_eq!(bin_to_bcd(99), 0x99);
    assert_eq!(bcd_to_bin(0x59), 59);
    assert_eq!(bcd_to_bin(0x99), 99);
    assert_eq!(bcd_to_bin(0x00), 0);
}

#[test]
fn test_duration_accessors() {
    let d = Duration::minutes(2);
    assert_eq!(d.num_minutes(), 2);
    assert_eq!(d.num_seconds(), 120);
    assert_eq!(d.num_milliseconds(), 120_000);
    assert_eq!(d.num_microseconds(), 120_000_000);
    assert_eq!(Duration::seconds(90).num_minutes(), 1);
    assert_eq!(Duration::milliseconds(1999).num_seconds(), 1);
    assert_eq!(Duration::microseconds(999).num_milliseconds(), 0);
}

#[test]
fn test_achievable_never_overshoots() {
    for &us in &[1i64, 243, 999, 15_128, 16_000, 999_181, 61_425_000, 500_000_000] {
        let d = Duration::microseconds(us);
        let (_ticks, _freq, ach) = pct_ticks_and_rate_for_duration(&d);
        assert!(ach.num_microseconds() <= us);
    }
    // A request on a whole millisecond period but off the microsecond
    // grid is shortened to the period.
    let (_ticks, _freq, ach) = pct_ticks_and_rate_for_duration(&Duration::microseconds(15_373));
    assert_eq!(ach, Duration::milliseconds(15));
}

#[test]
fn test_saturation_beyond_max_minutes() {
    let (ticks, freq, estimated) =
        pct_ticks_and_rate_for_duration(&Duration::minutes(MAX_PCT_COUNT + 1));
    assert_eq!(ticks, MAX_PCT_TICKS);
    assert_eq!(freq, TimerClockFreq::HertzSixtieth);
    assert_eq!(estimated, Duration::minutes(MAX_PCT_COUNT));
}
