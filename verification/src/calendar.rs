//! The calendar: which days exist, and on which day of the week they fall.

use vstd::prelude::*;
use chrono::{Datelike, NaiveDate};

verus! {

/// The first year that the calendar holds.
pub const MIN_YEAR: i32 = -262143;

/// The last year that the calendar holds.
pub const MAX_YEAR: i32 = 262142;

/// Leap years of the proleptic Gregorian calendar, in which year 0 is 1 BCE.
pub open spec fn is_leap_year(year: int) -> bool {
    year % 4 == 0 && (year % 100 != 0 || year % 400 == 0)
}

/// The length of a month; `month` is 1 for January.
pub open spec fn days_in_month(year: int, month: int) -> int {
    if month == 2 {
        if is_leap_year(year) { 29 } else { 28 }
    } else if month == 4 || month == 6 || month == 9 || month == 11 {
        30
    } else {
        31
    }
}

/// The day exists: a year that the calendar holds, a month of that year, and
/// a day of that month.
pub open spec fn is_calendar_date(year: int, month: int, day: int) -> bool {
    &&& MIN_YEAR <= year <= MAX_YEAR
    &&& 1 <= month <= 12
    &&& 1 <= day <= days_in_month(year, month)
}

/// The day of the week of an existing day, counted from Sunday as 0 to
/// Saturday as 6, as chrono computes it.
pub uninterp spec fn weekday_from_sunday(year: int, month: int, day: int) -> u8;

/// Looks a day up in chrono's calendar: `NaiveDate::from_ymd_opt`, and on the
/// date found `Datelike::weekday` and `Weekday::num_days_from_sunday`.
///
/// Trusted, not proved: chrono finds a date exactly for the days that exist
/// in the proleptic Gregorian calendar within its range of years, and the day
/// of the week that it reports, a number below 7, depends on the day alone.
#[verifier::external_body]
pub(crate) fn weekday_of(year: i32, month: u8, day: u8) -> (found: Option<u8>)
    ensures
        found is Some <==> is_calendar_date(year as int, month as int, day as int),
        found matches Some(w) ==> w < 7 && w == weekday_from_sunday(
            year as int,
            month as int,
            day as int,
        ),
{
    match NaiveDate::from_ymd_opt(year, month as u32, day as u32) {
        Some(date) => Some(date.weekday().num_days_from_sunday() as u8),
        None => None,
    }
}

} // verus!
