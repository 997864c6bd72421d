//! Periodic countdown timer tick and frequency selection.
//!
//! The hardware offers four tick frequencies and a single 12-bit countdown
//! register, so a requested duration is approximated by the coarsest
//! granularity that represents it without truncation surprises.  The
//! selection cascade below is checked in sequence and the first match
//! wins; the achievable duration it returns equals the request only at
//! exact multiples of the chosen period.

use vstd::arithmetic::div_mod::{
    lemma_div_denominator, lemma_div_pos_is_pos, lemma_fundamental_div_mod, lemma_mod_bound,
};
use vstd::prelude::*;

verus! {

/// Highest tick count the 12-bit countdown register can hold.
pub const MAX_PCT_TICKS: u16 = 0x0FFF;

/// Highest tick count, as a signed count for duration arithmetic.
pub const MAX_PCT_COUNT: i64 = 0x0FFF;

/// Whole milliseconds per tick at 64 Hz (the true period is 15.625 ms).
pub const PCT_MILLIS_PERIOD: i64 = 15;

/// Whole microseconds per tick at 4096 Hz (the true period is 244.14 us).
pub const PCT_MICROS_PERIOD: i64 = 244;

/// Longest countdown representable in whole milliseconds resolution.
pub const MAX_PCT_MILLIS: i64 = MAX_PCT_COUNT * PCT_MILLIS_PERIOD;

/// Longest countdown representable in whole microseconds resolution.
pub const MAX_PCT_MICROS: i64 = MAX_PCT_COUNT * PCT_MICROS_PERIOD;

/// Whole milliseconds just under one second of 64 Hz ticks: one whole
/// millisecond period times the 66 whole periods that fit in a second.
pub const PCT_MILLIS_SECOND_BARRIER: i64 = PCT_MILLIS_PERIOD * 66;

/// Countdown timer clock frequency selector.
#[derive(Clone, Copy, Debug, PartialEq, Eq, Structural)]
pub enum TimerClockFreq {
    /// 4096 Hz, 244.14 us period.
    Hertz4096,
    /// 64 Hz, 15.625 ms period.
    Hertz64,
    /// 1 Hz, one second period.
    Hertz1,
    /// 1/60 Hz, one minute period.
    HertzSixtieth,
}

/// The two frequency-select bits of the control register for each clock
/// frequency.
pub open spec fn spec_freq_bits(f: TimerClockFreq) -> u8 {
    match f {
        TimerClockFreq::Hertz4096 => 0b00,
        TimerClockFreq::Hertz64 => 0b01,
        TimerClockFreq::Hertz1 => 0b10,
        TimerClockFreq::HertzSixtieth => 0b11,
    }
}

/// Frequency-select bits of `f`, as written to the control register.
pub fn freq_bits(f: TimerClockFreq) -> (r: u8)
    ensures
        r == spec_freq_bits(f),
{
    match f {
        TimerClockFreq::Hertz4096 => 0b00,
        TimerClockFreq::Hertz64 => 0b01,
        TimerClockFreq::Hertz1 => 0b10,
        TimerClockFreq::HertzSixtieth => 0b11,
    }
}

/// A span of time, stored as a whole number of microseconds.
///
/// The driver deals only in non-negative spans; every constructor
/// establishes `wf`.
#[derive(Clone, Copy, Debug, PartialEq, Eq, Structural)]
pub struct Duration {
    micros: i64,
}

impl Duration {
    /// The whole number of microseconds this span holds.
    pub closed spec fn spec_micros(&self) -> i64 {
        self.micros
    }

    /// A span is well formed when it is non-negative.
    pub open spec fn wf(&self) -> bool {
        0 <= self.spec_micros()
    }

    /// A span of `m` whole minutes.
    pub fn minutes(m: i64) -> (r: Duration)
        requires
            0 <= m <= 0x7FFF_FFFF_FFFF_FFFFi64 / 60_000_000,
        ensures
            r.spec_micros() == m * 60_000_000,
            r.wf(),
    {
        Duration { micros: m * 60_000_000 }
    }

    /// A span of `s` whole seconds.
    pub fn seconds(s: i64) -> (r: Duration)
        requires
            0 <= s <= 0x7FFF_FFFF_FFFF_FFFFi64 / 1_000_000,
        ensures
            r.spec_micros() == s * 1_000_000,
            r.wf(),
    {
        Duration { micros: s * 1_000_000 }
    }

    /// A span of `ms` whole milliseconds.
    pub fn milliseconds(ms: i64) -> (r: Duration)
        requires
            0 <= ms <= 0x7FFF_FFFF_FFFF_FFFFi64 / 1000,
        ensures
            r.spec_micros() == ms * 1000,
            r.wf(),
    {
        Duration { micros: ms * 1000 }
    }

    /// A span of `us` whole microseconds.
    pub fn microseconds(us: i64) -> (r: Duration)
        requires
            0 <= us,
        ensures
            r.spec_micros() == us,
            r.wf(),
    {
        Duration { micros: us }
    }

    /// The number of whole minutes in the span.
    pub fn num_minutes(&self) -> (r: i64)
        requires
            self.wf(),
        ensures
            r == self.spec_micros() / 60_000_000,
    {
        ((self.micros as u64) / 60_000_000u64) as i64
    }

    /// The number of whole seconds in the span.
    pub fn num_seconds(&self) -> (r: i64)
        requires
            self.wf(),
        ensures
            r == self.spec_micros() / 1_000_000,
    {
        ((self.micros as u64) / 1_000_000u64) as i64
    }

    /// The number of whole milliseconds in the span.
    pub fn num_milliseconds(&self) -> (r: i64)
        requires
            self.wf(),
        ensures
            r == self.spec_micros() / 1000,
    {
        ((self.micros as u64) / 1000u64) as i64
    }

    /// The number of whole microseconds in the span.
    pub fn num_microseconds(&self) -> (r: i64)
        ensures
            r == self.spec_micros(),
    {
        self.micros
    }
}

/// The tick count, clock frequency and achievable duration (in
/// microseconds) that the selection cascade chooses for a request of `us`
/// microseconds:
/// 1. at or beyond 4095 whole minutes, saturate to 4095 minute ticks;
/// 2. beyond 4095 whole seconds, count whole minutes;
/// 3. beyond the millisecond-resolution maximum, or at a whole number of
///    seconds above the barrier, count whole seconds;
/// 4. beyond the microsecond-resolution maximum, or at a whole number of
///    millisecond periods at or above one period, count 15 ms units;
/// 5. otherwise count 244 us units.
pub open spec fn spec_pct_selection(us: i64) -> (u16, TimerClockFreq, i64)
    recommends
        0 <= us,
{
    let mins = us as int / 60_000_000;
    let secs = us as int / 1_000_000;
    let ms = us as int / 1000;
    let frac_ms = ms % 1000;
    let infrac_ms = ms % (PCT_MILLIS_PERIOD as int);
    if mins >= MAX_PCT_COUNT {
        (MAX_PCT_TICKS, TimerClockFreq::HertzSixtieth, (MAX_PCT_COUNT * 60_000_000) as i64)
    } else if secs > MAX_PCT_COUNT {
        (mins as u16, TimerClockFreq::HertzSixtieth, (mins * 60_000_000) as i64)
    } else if ms > MAX_PCT_MILLIS || (frac_ms == 0 && ms > PCT_MILLIS_SECOND_BARRIER) {
        (secs as u16, TimerClockFreq::Hertz1, (secs * 1_000_000) as i64)
    } else if us > MAX_PCT_MICROS || (infrac_ms == 0 && ms >= PCT_MILLIS_PERIOD) {
        (
            (ms / (PCT_MILLIS_PERIOD as int)) as u16,
            TimerClockFreq::Hertz64,
            ((ms / (PCT_MILLIS_PERIOD as int)) * (PCT_MILLIS_PERIOD * 1000)) as i64,
        )
    } else {
        (
            (us as int / (PCT_MICROS_PERIOD as int)) as u16,
            TimerClockFreq::Hertz4096,
            ((us as int / (PCT_MICROS_PERIOD as int)) * (PCT_MICROS_PERIOD as int)) as i64,
        )
    }
}

/// Calculate the closest clock frequency and number of ticks to match the
/// requested duration using the periodic countdown timer, together with
/// the achievable duration those ticks deliver.
pub fn pct_ticks_and_rate_for_duration(duration: &Duration) -> (r: (u16, TimerClockFreq, Duration))
    requires
        duration.wf(),
    ensures
        r.0 == spec_pct_selection(duration.spec_micros()).0,
        r.1 == spec_pct_selection(duration.spec_micros()).1,
        r.2.spec_micros() == spec_pct_selection(duration.spec_micros()).2,
        r.2.wf(),
{
    let whole_minutes = duration.num_minutes();
    let whole_seconds = duration.num_seconds();
    let whole_milliseconds = duration.num_milliseconds();
    let frac_milliseconds = ((whole_milliseconds as u64) % 1000u64) as i64;
    let infrac_milliseconds = ((whole_milliseconds as u64) % 15u64) as i64;
    let whole_microseconds = duration.num_microseconds();

    if whole_minutes >= MAX_PCT_COUNT {
        (MAX_PCT_TICKS, TimerClockFreq::HertzSixtieth, Duration::minutes(MAX_PCT_COUNT))
    } else if whole_seconds > MAX_PCT_COUNT {
        let ticks = whole_minutes;
        (ticks as u16, TimerClockFreq::HertzSixtieth, Duration::minutes(ticks))
    } else if whole_milliseconds > MAX_PCT_MILLIS || (0 == frac_milliseconds && whole_milliseconds
        > PCT_MILLIS_SECOND_BARRIER) {
        let ticks = whole_seconds;
        (ticks as u16, TimerClockFreq::Hertz1, Duration::seconds(ticks))
    } else if whole_microseconds > MAX_PCT_MICROS || (0 == infrac_milliseconds
        && whole_milliseconds >= PCT_MILLIS_PERIOD) {
        let ticks = ((whole_milliseconds as u64) / 15u64) as i64;
        proof {
            lemma_fundamental_div_mod(whole_milliseconds as int, 15);
            lemma_mod_bound(whole_milliseconds as int, 15);
            lemma_div_pos_is_pos(whole_milliseconds as int, 15);
        }
        (ticks as u16, TimerClockFreq::Hertz64, Duration::milliseconds(ticks * PCT_MILLIS_PERIOD))
    } else {
        let ticks = ((whole_microseconds as u64) / 244u64) as i64;
        proof {
            lemma_fundamental_div_mod(whole_microseconds as int, 244);
            lemma_mod_bound(whole_microseconds as int, 244);
            lemma_div_pos_is_pos(whole_microseconds as int, 244);
        }
        (
            ticks as u16,
            TimerClockFreq::Hertz4096,
            Duration::microseconds(ticks * PCT_MICROS_PERIOD),
        )
    }
}

/// One tick period of each clock, in the driver's whole-microsecond
/// arithmetic (the true hardware periods are 244.14 us and 15.625 ms).
pub open spec fn spec_freq_period_micros(f: TimerClockFreq) -> i64 {
    match f {
        TimerClockFreq::Hertz4096 => 244,
        TimerClockFreq::Hertz64 => 15_000,
        TimerClockFreq::Hertz1 => 1_000_000,
        TimerClockFreq::HertzSixtieth => 60_000_000,
    }
}

/// Below the saturation threshold the selection never overshoots: the
/// achievable duration is at most the request, and falls short of it by
/// less than one tick period of the chosen clock.  Callers comparing
/// requested and achievable durations therefore see a discretization
/// error of less than one period per one-shot.
pub proof fn lemma_pct_discretization_error(us: i64)
    requires
        0 <= us,
        us / 60_000_000 < MAX_PCT_COUNT,
    ensures
        spec_pct_selection(us).2 <= us,
        us - spec_pct_selection(us).2 < spec_freq_period_micros(spec_pct_selection(us).1),
{
    let x = us as int;
    lemma_fundamental_div_mod(x, 60_000_000);
    lemma_mod_bound(x, 60_000_000);
    assert((x / 60_000_000) * 60_000_000 == x - x % 60_000_000);
    lemma_fundamental_div_mod(x, 1_000_000);
    lemma_mod_bound(x, 1_000_000);
    assert((x / 1_000_000) * 1_000_000 == x - x % 1_000_000);
    lemma_fundamental_div_mod(x, 15_000);
    lemma_mod_bound(x, 15_000);
    assert((x / 15_000) * 15_000 == x - x % 15_000);
    lemma_fundamental_div_mod(x, 244);
    lemma_mod_bound(x, 244);
    assert((x / 244) * 244 == x - x % 244);
    // The milliseconds branch counts 15 ms units of the whole-millisecond
    // value: (x / 1000) / 15 == x / 15000.
    lemma_div_denominator(x, 1000, 15);
    assert(((x / 1000) / 15) * (15 * 1000) == x - x % 15_000);
}

/// Requesting exactly `n` whole seconds, for any `n` from 1 to 4095,
/// selects `n` ticks of the one-second clock with zero discretization
/// error: the achievable duration equals the request.
pub proof fn lemma_pct_exact_seconds(n: i64)
    requires
        1 <= n <= 4095,
    ensures
        spec_pct_selection((n * 1_000_000) as i64) == (
            (n as u16),
            TimerClockFreq::Hertz1,
            (n * 1_000_000) as i64,
        ),
{
    let us = (n * 1_000_000) as i64;
    assert(us / 60_000_000 < 4095);
    assert(us / 1_000_000 == n);
    assert(us / 1000 == n * 1000);
    assert((n * 1000) % 1000 == 0) by (nonlinear_arith);
    assert(n * 1000 > 990);
}

/// Requesting exactly 4095 periods of 244 microseconds selects 4095 ticks
/// of the 4096 Hz clock with zero discretization error.
pub proof fn lemma_pct_exact_max_micros()
    ensures
        spec_pct_selection(MAX_PCT_MICROS) == (
            MAX_PCT_TICKS,
            TimerClockFreq::Hertz4096,
            MAX_PCT_MICROS,
        ),
{
    assert(999180i64 / 60_000_000 == 0);
    assert(999180i64 / 1_000_000 == 0);
    assert(999180i64 / 1000 == 999);
    assert(999i64 % 1000 == 999);
    assert(999i64 % 15 == 9);
    assert(999180i64 / 244 == 4095);
}

/// Requesting 4095 whole minutes or more saturates the countdown to 4095
/// ticks of the one-minute clock.
pub proof fn lemma_pct_saturates(us: i64)
    requires
        4095 * 60_000_000 <= us,
    ensures
        spec_pct_selection(us) == (
            MAX_PCT_TICKS,
            TimerClockFreq::HertzSixtieth,
            (MAX_PCT_COUNT * 60_000_000) as i64,
        ),
{
    assert(us / 60_000_000 >= 4095);
}

} // verus!
