//! Calendar dates and the texts under which they are recorded. The calendar
//! is that of `chrono`: the proleptic Gregorian calendar, within the years
//! that a `chrono::NaiveDate` can hold.

use chrono::NaiveDate;
use vstd::prelude::*;

verus! {

/// The first year that a date can lie in.
pub const MIN_YEAR: i32 = -262143;

/// The last year that a date can lie in.
pub const MAX_YEAR: i32 = 262142;

/// Whether `year` has a 29th of February.
pub open spec fn is_leap_year(year: int) -> bool {
    year % 4 == 0 && (year % 100 != 0 || year % 400 == 0)
}

/// The number of days of `month` in `year`, for a month from 1 to 12.
pub open spec fn days_in_month(year: int, month: int) -> int {
    if month == 2 {
        if is_leap_year(year) {
            29
        } else {
            28
        }
    } else if month == 4 || month == 6 || month == 9 || month == 11 {
        30
    } else {
        31
    }
}

/// Whether the calendar has the day `day` of `month` in `year`.
pub open spec fn is_calendar_date(year: int, month: int, day: int) -> bool {
    &&& MIN_YEAR <= year <= MAX_YEAR
    &&& 1 <= month <= 12
    &&& 1 <= day <= days_in_month(year, month)
}

/// The pattern of the text under which a date is recorded: day, month
/// name, year, weekday name.
pub const FULL_PATTERN: &'static str = "%d %b %Y, %a";

/// The pattern of the text of a date alone: day, month name, year.
pub const SHORT_PATTERN: &'static str = "%d %b %Y";

/// The pattern of the short name of the weekday of a date.
pub const WEEKDAY_PATTERN: &'static str = "%a";

/// Whether `pattern` is one of the patterns that dates are written in.
pub open spec fn is_date_pattern(pattern: Seq<char>) -> bool {
    pattern == FULL_PATTERN@ || pattern == SHORT_PATTERN@ || pattern == WEEKDAY_PATTERN@
}

/// The text that `chrono` writes for the given day of the calendar under a
/// `strftime` pattern.
pub uninterp spec fn date_text(year: int, month: int, day: int, pattern: Seq<char>) -> Seq<char>;

/// Calls `chrono::NaiveDate::format` on the date that
/// `chrono::NaiveDate::from_ymd_opt` makes of the three numbers, and turns
/// what it gives into a string. The contract claims that `from_ymd_opt` has a
/// date for every day of the calendar as `is_calendar_date` defines it, that
/// writing a date under one of the three patterns fails for none of them, and
/// that the text depends on the day and the pattern alone.
#[verifier::external_body]
fn format_date(year: i32, month: u32, day: u32, pattern: &str) -> (text: String)
    requires
        is_calendar_date(year as int, month as int, day as int),
        is_date_pattern(pattern@),
    ensures
        text@ == date_text(year as int, month as int, day as int, pattern@),
{
    NaiveDate::from_ymd_opt(year, month, day).unwrap().format(pattern).to_string()
}

/// A day of the calendar.
#[derive(Debug, Clone, Copy)]
pub struct Date {
    year: i32,
    month: u32,
    day: u32,
}

impl Date {
    #[verifier::type_invariant]
    spec fn in_calendar(&self) -> bool {
        is_calendar_date(self.year as int, self.month as int, self.day as int)
    }

    /// The year of the date.
    pub closed spec fn spec_year(&self) -> int {
        self.year as int
    }

    /// The month of the date, from 1.
    pub closed spec fn spec_month(&self) -> int {
        self.month as int
    }

    /// The day of the month, from 1.
    pub closed spec fn spec_day(&self) -> int {
        self.day as int
    }

    /// The date with the given year, month and day, if the calendar has it.
    pub fn from_ymd(year: i32, month: u32, day: u32) -> (date: Option<Date>)
        ensures
            date is Some <==> is_calendar_date(year as int, month as int, day as int),
            date matches Some(d) ==> d.spec_year() == year && d.spec_month() == month
                && d.spec_day() == day,
    {
        if year < MIN_YEAR || year > MAX_YEAR || month < 1 || month > 12 || day < 1 {
            return None;
        }
        let leap: bool = year % 4 == 0 && (year % 100 != 0 || year % 400 == 0);
        let days: u32 = if month == 2 {
            if leap {
                29
            } else {
                28
            }
        } else if month == 4 || month == 6 || month == 9 || month == 11 {
            30
        } else {
            31
        };
        if day > days {
            return None;
        }
        Some(Date { year, month, day })
    }

    /// The year of the date.
    pub fn year(&self) -> (year: i32)
        ensures
            year == self.spec_year(),
    {
        self.year
    }

    /// The month of the date, from 1.
    pub fn month(&self) -> (month: u32)
        ensures
            month == self.spec_month(),
    {
        self.month
    }

    /// The day of the month, from 1.
    pub fn day(&self) -> (day: u32)
        ensures
            day == self.spec_day(),
    {
        self.day
    }

    /// The text of the date under `pattern`.
    pub open spec fn spec_text(&self, pattern: Seq<char>) -> Seq<char> {
        date_text(self.spec_year(), self.spec_month(), self.spec_day(), pattern)
    }

    /// The text under which the date is recorded, such as `05 Jan 2024, Fri`.
    pub fn label(&self) -> (text: String)
        ensures
            text@ == self.spec_text(FULL_PATTERN@),
    {
        proof {
            use_type_invariant(self);
        }
        format_date(self.year, self.month, self.day, FULL_PATTERN)
    }

    /// The text of the date alone, such as `05 Jan 2024`.
    pub fn short_label(&self) -> (text: String)
        ensures
            text@ == self.spec_text(SHORT_PATTERN@),
    {
        proof {
            use_type_invariant(self);
        }
        format_date(self.year, self.month, self.day, SHORT_PATTERN)
    }

    /// The short name of the weekday of the date, such as `Fri`.
    pub fn weekday_name(&self) -> (text: String)
        ensures
            text@ == self.spec_text(WEEKDAY_PATTERN@),
    {
        proof {
            use_type_invariant(self);
        }
        format_date(self.year, self.month, self.day, WEEKDAY_PATTERN)
    }
}

} // verus!
