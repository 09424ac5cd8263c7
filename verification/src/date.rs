//! Calendar dates, read out of text by chrono.

use chrono::Datelike;
use chrono::NaiveDate;
use vstd::prelude::*;

verus! {

/// Whether the year has a 29 February, by the rule of the Gregorian calendar
/// carried back before its introduction, with a year zero.
pub open spec fn is_leap_year(year: int) -> bool {
    year % 4 == 0 && (year % 100 != 0 || year % 400 == 0)
}

/// The number of days of a month.
pub open spec fn days_in_month(year: int, month: int) -> int {
    if month == 2 {
        if is_leap_year(year) {
            29
        } else {
            28
        }
    } else if month == 4 || month == 6 || month == 9 || month == 11 {
        30
    } else {
        31
    }
}

/// The numbers name a day that the calendar has.
pub open spec fn is_calendar_day(year: int, month: int, day: int) -> bool {
    1 <= month <= 12 && 1 <= day <= days_in_month(year, month)
}

/// A day of the calendar with a time of day, as plain numbers.
#[derive(Clone, Copy, Debug, PartialEq, Eq, Structural)]
pub struct DateTime {
    pub year: i32,
    pub month: u32,
    pub day: u32,
    pub hour: u32,
    pub minute: u32,
    pub second: u32,
}

impl DateTime {
    /// The date is a day that the calendar has, and the time of day lies in
    /// its ranges.
    pub open spec fn well_formed(self) -> bool {
        &&& is_calendar_day(self.year as int, self.month as int, self.day as int)
        &&& self.hour < 24
        &&& self.minute < 60
        &&& self.second < 60
    }

    /// Whether the date is a day that the calendar has, with a time of day in
    /// its ranges.
    pub fn is_well_formed(&self) -> (r: bool)
        ensures
            r == self.well_formed(),
    {
        let leap = self.year % 4 == 0 && (self.year % 100 != 0 || self.year % 400 == 0);
        let days: u32 = if self.month == 2 {
            if leap {
                29
            } else {
                28
            }
        } else if self.month == 4 || self.month == 6 || self.month == 9 || self.month == 11 {
            30
        } else {
            31
        };
        1 <= self.month && self.month <= 12 && 1 <= self.day && self.day <= days && self.hour < 24
            && self.minute < 60 && self.second < 60
    }

    /// The first instant of the given day.
    pub open spec fn spec_midnight(year: i32, month: u32, day: u32) -> DateTime {
        DateTime { year, month, day, hour: 0, minute: 0, second: 0 }
    }

    pub open spec fn is_midnight(self) -> bool {
        self.hour == 0 && self.minute == 0 && self.second == 0
    }

    /// The first instant of the given day.
    pub fn midnight(year: i32, month: u32, day: u32) -> (r: DateTime)
        ensures
            r == Self::spec_midnight(year, month, day),
    {
        DateTime { year, month, day, hour: 0, minute: 0, second: 0 }
    }

    pub fn year(&self) -> (r: i32)
        ensures
            r == self.year,
    {
        self.year
    }

    pub fn month(&self) -> (r: u32)
        ensures
            r == self.month,
    {
        self.month
    }

    pub fn day(&self) -> (r: u32)
        ensures
            r == self.day,
    {
        self.day
    }

    pub fn hour(&self) -> (r: u32)
        ensures
            r == self.hour,
    {
        self.hour
    }

    pub fn minute(&self) -> (r: u32)
        ensures
            r == self.minute,
    {
        self.minute
    }

    pub fn second(&self) -> (r: u32)
        ensures
            r == self.second,
    {
        self.second
    }
}

impl Default for DateTime {
    /// Midnight of 1 January 1970.
    fn default() -> (r: DateTime)
        ensures
            r == DateTime::spec_midnight(1970, 1, 1),
    {
        DateTime { year: 1970, month: 1, day: 1, hour: 0, minute: 0, second: 0 }
    }
}

/// The day that chrono's `NaiveDate::parse_from_str` reads out of `text` under
/// the pattern `format`, as year, month and day; `None` where it reports an
/// error.
pub uninterp spec fn date_reading(text: Seq<char>, format: Seq<char>) -> Option<(i32, u32, u32)>;

/// Calls `NaiveDate::parse_from_str` and takes the date apart with `year`,
/// `month` and `day`. Which day comes out of which text is not stated, only
/// named. What is claimed of the day is what chrono says of every
/// `NaiveDate`: it is a day of the proleptic Gregorian calendar, so that no
/// 30 February comes out.
#[verifier::external_body]
pub(crate) fn read_date(text: &str, format: &str) -> (r: Option<(i32, u32, u32)>)
    ensures
        r == date_reading(text@, format@),
        r matches Some(d) ==> is_calendar_day(d.0 as int, d.1 as int, d.2 as int),
{
    match NaiveDate::parse_from_str(text, format) {
        Ok(date) => Some((date.year(), date.month(), date.day())),
        Err(_) => None,
    }
}

} // verus!
