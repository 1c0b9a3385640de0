//! Terrestrial dates and local clock times read from the feed with `chrono`.

use vstd::prelude::*;
use chrono::{Datelike, NaiveDate, NaiveTime, Timelike};

verus! {

/// A day of the proleptic Gregorian calendar.
#[derive(Clone, Copy, Debug, PartialEq, Eq, Structural)]
pub struct CalendarDate {
    pub year: i32,
    pub month: u32,
    pub day: u32,
}

/// A time of day, with nanoseconds past the second (a leap second counts from
/// one billion).
#[derive(Clone, Copy, Debug, PartialEq, Eq, Structural)]
pub struct ClockTime {
    pub hour: u32,
    pub minute: u32,
    pub second: u32,
    pub nanosecond: u32,
}

/// Whether `year` is a leap year of the Gregorian calendar.
pub open spec fn is_leap_year(year: int) -> bool {
    (year % 4 == 0 && year % 100 != 0) || year % 400 == 0
}

/// The number of days of a month of a year.
pub open spec fn days_in_month(year: int, month: int) -> int {
    if month == 2 {
        if is_leap_year(year) { 29 } else { 28 }
    } else if month == 4 || month == 6 || month == 9 || month == 11 {
        30
    } else {
        31
    }
}

/// A real calendar day: a month of the year and a day of that month.
pub open spec fn is_calendar_day(year: int, month: int, day: int) -> bool {
    1 <= month <= 12 && 1 <= day <= days_in_month(year, month)
}

/// What `chrono::NaiveDate::parse_from_str(text, format)` gives, as year, month and day.
pub uninterp spec fn chrono_date_from_str(text: Seq<char>, format: Seq<char>) -> Option<(i32, u32, u32)>;

/// What `chrono::NaiveTime::parse_from_str(text, format)` gives, as hour, minute,
/// second and nanosecond.
pub uninterp spec fn chrono_time_from_str(text: Seq<char>, format: Seq<char>) -> Option<(u32, u32, u32, u32)>;

/// `chrono::NaiveDate::parse_from_str`: `Some` of the parsed day's year, month
/// and day when it succeeds, `None` when it fails. The result is named, as a
/// function of the text and the format; the one fact stated of it is that a
/// `NaiveDate` is always a real calendar day.
#[verifier::external_body]
fn chrono_parse_date(text: &str, format: &str) -> (r: Option<(i32, u32, u32)>)
    ensures
        r == chrono_date_from_str(text@, format@),
        r matches Some((y, m, d)) ==> is_calendar_day(y as int, m as int, d as int),
{
    match NaiveDate::parse_from_str(text, format) {
        Ok(date) => Some((date.year(), date.month(), date.day())),
        Err(_) => None,
    }
}

/// `chrono::NaiveTime::parse_from_str`: `Some` of the parsed time's hour,
/// minute, second and nanosecond when it succeeds, `None` when it fails. The
/// result is named; the facts stated of it are the ranges that `chrono`
/// documents for a `NaiveTime`.
#[verifier::external_body]
fn chrono_parse_time(text: &str, format: &str) -> (r: Option<(u32, u32, u32, u32)>)
    ensures
        r == chrono_time_from_str(text@, format@),
        r matches Some((h, m, s, n)) ==> h < 24 && m < 60 && s < 60 && n < 2_000_000_000,
{
    match NaiveTime::parse_from_str(text, format) {
        Ok(time) => Some((time.hour(), time.minute(), time.second(), time.nanosecond())),
        Err(_) => None,
    }
}

/// The terrestrial date that the feed's text names, read as `%Y-%m-%d`.
pub open spec fn terrestrial_date_of(text: Seq<char>) -> Option<CalendarDate> {
    match chrono_date_from_str(text, "%Y-%m-%d"@) {
        Some((y, m, d)) => Some(CalendarDate { year: y, month: m, day: d }),
        None => None,
    }
}

/// The clock time that the feed's text names, read as `%H:%M`.
pub open spec fn clock_time_of(text: Seq<char>) -> Option<ClockTime> {
    match chrono_time_from_str(text, "%H:%M"@) {
        Some((h, m, s, n)) => Some(ClockTime { hour: h, minute: m, second: s, nanosecond: n }),
        None => None,
    }
}

/// A terrestrial date is exactly the day that `chrono` reads with `%Y-%m-%d`:
/// its year, month and day are chrono's, in that order; there is none when
/// chrono reads none.
pub proof fn lemma_terrestrial_date_is_chrono_day(text: Seq<char>)
    ensures
        forall|y: i32, m: u32, d: u32|
            chrono_date_from_str(text, "%Y-%m-%d"@) == Some((y, m, d)) ==> #[trigger] terrestrial_date_of(text)
                == Some(CalendarDate { year: y, month: m, day: d })
                && terrestrial_date_of(text).unwrap().year == y
                && terrestrial_date_of(text).unwrap().month == m
                && terrestrial_date_of(text).unwrap().day == d,
        chrono_date_from_str(text, "%Y-%m-%d"@) is None <==> terrestrial_date_of(text) is None,
{
}

/// A clock time is exactly the time that `chrono` reads with `%H:%M`: its hour,
/// minute, second and nanosecond are chrono's; there is none when chrono reads none.
pub proof fn lemma_clock_time_is_chrono_time(text: Seq<char>)
    ensures
        forall|h: u32, m: u32, s: u32, n: u32|
            chrono_time_from_str(text, "%H:%M"@) == Some((h, m, s, n)) ==> #[trigger] clock_time_of(text)
                == Some(ClockTime { hour: h, minute: m, second: s, nanosecond: n })
                && clock_time_of(text).unwrap().hour == h
                && clock_time_of(text).unwrap().minute == m
                && clock_time_of(text).unwrap().second == s
                && clock_time_of(text).unwrap().nanosecond == n,
        chrono_time_from_str(text, "%H:%M"@) is None <==> clock_time_of(text) is None,
{
}

impl CalendarDate {
    /// Reads a terrestrial date written `%Y-%m-%d` (as `2025-09-10`); `None` when
    /// `chrono` does not read it as a day.
    pub fn parse(text: &str) -> (r: Option<CalendarDate>)
        ensures
            r == terrestrial_date_of(text@),
            chrono_date_from_str(text@, "%Y-%m-%d"@) matches Some((y, m, d)) ==> r == Some(
                CalendarDate { year: y, month: m, day: d },
            ),
            chrono_date_from_str(text@, "%Y-%m-%d"@) is None ==> r is None,
            r matches Some(d) ==> is_calendar_day(d.year as int, d.month as int, d.day as int),
    {
        match chrono_parse_date(text, "%Y-%m-%d") {
            Some((y, m, d)) => Some(CalendarDate { year: y, month: m, day: d }),
            None => None,
        }
    }
}

impl ClockTime {
    /// Reads a local clock time written `%H:%M` (as `06:00`); `None` when `chrono`
    /// does not read it as a time of day.
    pub fn parse(text: &str) -> (r: Option<ClockTime>)
        ensures
            r == clock_time_of(text@),
            chrono_time_from_str(text@, "%H:%M"@) matches Some((h, m, s, n)) ==> r == Some(
                ClockTime { hour: h, minute: m, second: s, nanosecond: n },
            ),
            chrono_time_from_str(text@, "%H:%M"@) is None ==> r is None,
            r matches Some(t) ==> t.hour < 24 && t.minute < 60 && t.second < 60,
    {
        match chrono_parse_time(text, "%H:%M") {
            Some((h, m, s, n)) => Some(ClockTime { hour: h, minute: m, second: s, nanosecond: n }),
            None => None,
        }
    }
}

} // verus!
