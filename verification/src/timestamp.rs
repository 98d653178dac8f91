//! Civil date and time as the chip stores it.
//!
//! The chip keeps a two-digit year, so the calendar runs from 2000 to 2099.
//! A timestamp is well formed when its date exists in that range and its
//! time of day is real. The weekday is not part of the value: it is derived
//! from the date whenever the chip needs it.

use vstd::prelude::*;

verus! {

/// A civil date with a time of day, as read from or written to the chip.
#[derive(Clone, Copy, Debug, PartialEq, Eq, Structural)]
pub struct Timestamp {
    pub year: u16,
    pub month: u8,
    pub day: u8,
    pub hour: u8,
    pub minute: u8,
    pub second: u8,
}

/// Whether `y` is a leap year in the Gregorian calendar.
pub open spec fn spec_is_leap_year(y: int) -> bool {
    (y % 4 == 0 && y % 100 != 0) || y % 400 == 0
}

/// The number of days in month `m` of year `y`.
pub open spec fn spec_days_in_month(y: int, m: int) -> int
    recommends
        1 <= m <= 12,
{
    if m == 2 {
        if spec_is_leap_year(y) {
            29
        } else {
            28
        }
    } else if m == 4 || m == 6 || m == 9 || m == 11 {
        30
    } else {
        31
    }
}

/// Whether (`y`, `m`, `d`) is a date the chip can hold: a real Gregorian
/// calendar date between 2000 and 2099.
pub open spec fn spec_is_valid_date(y: int, m: int, d: int) -> bool {
    2000 <= y <= 2099 && 1 <= m <= 12 && 1 <= d <= spec_days_in_month(y, m)
}

/// Whether (`h`, `mi`, `s`) is a real time of day.
pub open spec fn spec_is_valid_time(h: int, mi: int, s: int) -> bool {
    0 <= h < 24 && 0 <= mi < 60 && 0 <= s < 60
}

impl Timestamp {
    /// A well-formed timestamp: its date exists in the chip's century and
    /// its time of day is real.
    pub open spec fn wf(self) -> bool {
        spec_is_valid_date(self.year as int, self.month as int, self.day as int)
            && spec_is_valid_time(self.hour as int, self.minute as int, self.second as int)
    }
}

/// Whether `y` is a leap year.
pub fn is_leap_year(y: u16) -> (r: bool)
    ensures
        r == spec_is_leap_year(y as int),
{
    (y % 4 == 0 && y % 100 != 0) || y % 400 == 0
}

/// The number of days in month `m` of year `y`.
pub fn days_in_month(y: u16, m: u8) -> (r: u8)
    requires
        1 <= m <= 12,
    ensures
        r == spec_days_in_month(y as int, m as int),
{
    if m == 2 {
        if is_leap_year(y) {
            29
        } else {
            28
        }
    } else if m == 4 || m == 6 || m == 9 || m == 11 {
        30
    } else {
        31
    }
}

/// Whether (`y`, `m`, `d`) is a date the chip can hold.
pub fn is_valid_date(y: u16, m: u8, d: u8) -> (r: bool)
    ensures
        r == spec_is_valid_date(y as int, m as int, d as int),
{
    2000 <= y && y <= 2099 && 1 <= m && m <= 12 && 1 <= d && d <= days_in_month(y, m)
}

/// Whether (`h`, `mi`, `s`) is a real time of day.
pub fn is_valid_time(h: u8, mi: u8, s: u8) -> (r: bool)
    ensures
        r == spec_is_valid_time(h as int, mi as int, s as int),
{
    h < 24 && mi < 60 && s < 60
}

/// The weekday of a valid date, numbered 0 (Sunday) through 6 (Saturday).
pub uninterp spec fn spec_weekday_number_of_date(y: int, m: int, d: int) -> int;

/// Relies on chrono::NaiveDate::from_ymd_opt, which accepts every valid
/// calendar date, and on chrono::Datelike::weekday with
/// chrono::Weekday::num_days_from_sunday, which together number the date's
/// day of the week from 0 (Sunday) through 6 (Saturday); the result depends
/// on the date alone.
#[verifier::external_body]
pub fn weekday_number_of_date(y: u16, m: u8, d: u8) -> (r: u8)
    requires
        spec_is_valid_date(y as int, m as int, d as int),
    ensures
        r as int == spec_weekday_number_of_date(y as int, m as int, d as int),
        r < 7,
{
    let date = chrono::NaiveDate::from_ymd_opt(y as i32, m as u32, d as u32).unwrap();
    chrono::Datelike::weekday(&date).num_days_from_sunday() as u8
}

} // verus!
