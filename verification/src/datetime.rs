//! The civil datetime value used at the API boundary, and its conversion
//! to and from the device's 32-bit Unix time counter.
//!
//! The device supports years 2000 to 2099 in its BCD calendar registers
//! and 1970 to 2106 in its Unix counter; the civil-calendar arithmetic
//! itself (leap years, weekday computation) is consumed from a standard
//! date and time library through the trusted conversions below.

use chrono::{Datelike, Timelike};
use vstd::prelude::*;

verus! {

/// A civil datetime: year, month, day of the month, weekday (0 is
/// Monday), and time of day.  A plain value type; nothing is validated at
/// construction, and `wf` says when the value is a real calendar datetime
/// the device supports.
#[derive(Clone, Copy, Debug, PartialEq, Eq, Structural)]
pub struct DateTime {
    pub year: u16,
    pub month: u8,
    pub day: u8,
    /// Day of the week, 0 for Monday through 6 for Sunday.
    pub weekday: u8,
    pub hour: u8,
    pub minute: u8,
    pub second: u8,
}

/// Whether `year` is a Gregorian leap year.
pub open spec fn spec_is_leap_year(year: int) -> bool {
    (year % 4 == 0 && year % 100 != 0) || year % 400 == 0
}

/// Days in `month` of `year`.
pub open spec fn spec_days_in_month(year: int, month: int) -> int
    recommends
        1 <= month <= 12,
{
    if month == 2 {
        if spec_is_leap_year(year) {
            29
        } else {
            28
        }
    } else if month == 4 || month == 6 || month == 9 || month == 11 {
        30
    } else {
        31
    }
}

impl DateTime {
    /// The datetime is a real calendar datetime within the year window
    /// the device's BCD calendar supports, with a consistent weekday
    /// counter value.
    pub open spec fn wf(&self) -> bool {
        &&& 2000 <= self.year <= 2099
        &&& 1 <= self.month <= 12
        &&& 1 <= self.day <= spec_days_in_month(self.year as int, self.month as int)
        &&& self.weekday < 7
        &&& self.hour < 24
        &&& self.minute < 60
        &&& self.second < 60
    }
}


/// The civil datetime (in UTC) of a 32-bit Unix timestamp, as chrono's
/// calendar arithmetic computes it.
pub uninterp spec fn civil_of(u: u32) -> DateTime;

/// The Unix timestamp of a civil datetime, as chrono's calendar
/// arithmetic computes it, if the fields form a real calendar datetime
/// whose timestamp fits the unsigned 32-bit counter.
pub uninterp spec fn unix_of(
    year: u16,
    month: u8,
    day: u8,
    hour: u8,
    minute: u8,
    second: u8,
) -> Option<u32>;

/// Relies on chrono's `DateTime::from_timestamp` and the `Datelike` and
/// `Timelike` accessors: the civil datetime of a Unix timestamp depends
/// on the timestamp alone, and every unsigned 32-bit timestamp (they end
/// in the year 2106) is within chrono's representable range.
#[verifier::external_body]
pub fn unix_to_civil(u: u32) -> (r: DateTime)
    ensures
        r == civil_of(u),
{
    let n = chrono::DateTime::from_timestamp(u as i64, 0)
        .expect("every unsigned 32-bit timestamp is within chrono's range")
        .naive_utc();
    DateTime {
        year: n.year() as u16, month: n.month() as u8, day: n.day() as u8,
        weekday: n.weekday().num_days_from_monday() as u8,
        hour: n.hour() as u8, minute: n.minute() as u8, second: n.second() as u8,
    }
}

/// Relies on chrono's `NaiveDate::from_ymd_opt`, `NaiveDate::and_hms_opt`
/// and `DateTime::timestamp`: the Unix timestamp of a civil datetime
/// depends on its fields alone; the two constructors return `Some`
/// exactly for real calendar dates and times of day; the timestamp of
/// any datetime in the years 2000 to 2099 lies between 946684800 and
/// 4102444799, within the unsigned 32-bit range `try_from` accepts; and
/// `DateTime::from_timestamp` inverts `timestamp` exactly for
/// whole-second datetimes, so converting the timestamp back gives a
/// civil datetime with the same fields (the counter carries no weekday).
#[verifier::external_body]
pub fn civil_to_unix(year: u16, month: u8, day: u8, hour: u8, minute: u8, second: u8) -> (r: Option<
    u32,
>)
    ensures
        r == unix_of(year, month, day, hour, minute, second),
        (2000 <= year <= 2099 && 1 <= month <= 12 && 1 <= day <= spec_days_in_month(
            year as int,
            month as int,
        ) && hour < 24 && minute < 60 && second < 60) ==> r is Some,
        (r matches Some(u) ==> {
            let back = civil_of(u);
            back.year == year && back.month == month && back.day == day && back.hour == hour
                && back.minute == minute && back.second == second
        }),
{
    let date = match chrono::NaiveDate::from_ymd_opt(year as i32, month as u32, day as u32) {
        Some(d) => d,
        None => return None,
    };
    match date.and_hms_opt(hour as u32, minute as u32, second as u32) {
        Some(ndt) => u32::try_from(ndt.and_utc().timestamp()).ok(),
        None => None,
    }
}

} // verus!
