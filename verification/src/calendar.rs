//! Calendar dates written as `YYYYMMDD` integers.
//!
//! A [`Date`] is a day of the proleptic Gregorian calendar. Whether a
//! year, month and day name a real day, and how many days lie between two
//! dates, is asked of `chrono`; the answers are stated over
//! [`is_calendar_date`] and [`day_number`].

use crate::text::{decimal, decimal_text, joined};
use vstd::prelude::*;

verus! {

/// The earliest year a date can have.
pub const MIN_YEAR: i32 = -262143;

/// The latest year a date can have.
pub const MAX_YEAR: i32 = 262142;

/// Gregorian leap years: every fourth year, but of the centuries only
/// every fourth.
pub open spec fn is_leap_year(year: int) -> bool {
    year % 4 == 0 && (year % 100 != 0 || year % 400 == 0)
}

/// Number of days of `month` (1 to 12) in `year`.
pub open spec fn days_in_month(year: int, month: int) -> int {
    if month == 2 {
        if is_leap_year(year) {
            29
        } else {
            28
        }
    } else if month == 4 || month == 6 || month == 9 || month == 11 {
        30
    } else {
        31
    }
}

/// Whether `year`, `month`, `day` name a day that exists and that a
/// [`Date`] can hold.
pub open spec fn is_calendar_date(year: int, month: int, day: int) -> bool {
    &&& MIN_YEAR <= year <= MAX_YEAR
    &&& 1 <= month <= 12
    &&& 1 <= day <= days_in_month(year, month)
}

/// Days in all the years before `year`, counted from year 1.
pub open spec fn days_before_year(year: int) -> int {
    let y = year - 1;
    365 * y + y / 4 - y / 100 + y / 400
}

/// Days of `year` that lie before the first of `month`.
pub open spec fn days_before_month(year: int, month: int) -> int {
    let common = if month <= 1 {
        0int
    } else if month == 2 {
        31
    } else if month == 3 {
        59
    } else if month == 4 {
        90
    } else if month == 5 {
        120
    } else if month == 6 {
        151
    } else if month == 7 {
        181
    } else if month == 8 {
        212
    } else if month == 9 {
        243
    } else if month == 10 {
        273
    } else if month == 11 {
        304
    } else {
        334
    };
    if month > 2 && is_leap_year(year) {
        common + 1
    } else {
        common
    }
}

/// The position of a day on the line of all days: 1 for the first of
/// January of year 1, and one more for each following day.
pub open spec fn day_number(year: int, month: int, day: int) -> int {
    days_before_year(year) + days_before_month(year, month) + day
}

/// Year part of a `YYYYMMDD` integer.
pub open spec fn yyyymmdd_year(date: u32) -> int {
    date as int / 10000
}

/// Month part of a `YYYYMMDD` integer.
pub open spec fn yyyymmdd_month(date: u32) -> int {
    (date as int % 10000) / 100
}

/// Day part of a `YYYYMMDD` integer.
pub open spec fn yyyymmdd_day(date: u32) -> int {
    date as int % 100
}

/// Whether a `YYYYMMDD` integer names a real day.
pub open spec fn is_yyyymmdd(date: u32) -> bool {
    is_calendar_date(yyyymmdd_year(date), yyyymmdd_month(date), yyyymmdd_day(date))
}

/// Where the day that a `YYYYMMDD` integer names lies on the line of all
/// days.
pub open spec fn yyyymmdd_day_number(date: u32) -> int {
    day_number(yyyymmdd_year(date), yyyymmdd_month(date), yyyymmdd_day(date))
}

/// Whether the month part of a `YYYYMMDD` integer is 1 to 12 and its day
/// part 1 to 31.
pub open spec fn has_date_format(date: u32) -> bool {
    1 <= yyyymmdd_month(date) <= 12 && 1 <= yyyymmdd_day(date) <= 31
}

/// A day of the calendar. Every value names a day that exists.
#[derive(Clone, Copy, Debug)]
pub struct Date {
    year: i32,
    month: u32,
    day: u32,
}

/// Why an as-of date was refused.
#[derive(Clone, Copy, Debug, PartialEq, Eq, Structural)]
pub enum DateError {
    /// The month is not 1 to 12, or the day is not 1 to 31.
    InvalidFormat(u32),
    /// Month and day are in range, but the month has no such day, or the
    /// year is beyond what a date can hold.
    InvalidDate(u32),
}

/// `chrono::NaiveDate::from_ymd_opt`, asked only whether it returns a
/// date. It does so exactly for the days that exist in the proleptic
/// Gregorian calendar and whose year `chrono` can hold.
#[verifier::external_body]
fn chrono_date_exists(year: i32, month: u32, day: u32) -> (exists: bool)
    ensures
        exists == is_calendar_date(year as int, month as int, day as int),
{
    chrono::NaiveDate::from_ymd_opt(year, month, day).is_some()
}

/// `chrono::NaiveDate::signed_duration_since` between two days built with
/// `from_ymd_opt`, in whole days: the number of days from `earlier` to
/// `later`, negative when `later` comes first.
#[verifier::external_body]
fn chrono_days_between(later: &Date, earlier: &Date) -> (days: i64)
    requires
        later.is_valid(),
        earlier.is_valid(),
    ensures
        days == later.day_number() - earlier.day_number(),
{
    let end = chrono::NaiveDate::from_ymd_opt(later.year, later.month, later.day).unwrap();
    let start = chrono::NaiveDate::from_ymd_opt(earlier.year, earlier.month, earlier.day).unwrap();
    end.signed_duration_since(start).num_days()
}

impl Date {
    /// The invariant of the type: the three fields name a real day.
    #[verifier::type_invariant]
    pub closed spec fn is_valid(self) -> bool {
        is_calendar_date(self.year as int, self.month as int, self.day as int)
    }

    pub closed spec fn spec_year(&self) -> i32 {
        self.year
    }

    pub closed spec fn spec_month(&self) -> u32 {
        self.month
    }

    pub closed spec fn spec_day(&self) -> u32 {
        self.day
    }

    /// Where this day lies on the line of all days.
    pub open spec fn day_number(self) -> int {
        day_number(self.spec_year() as int, self.spec_month() as int, self.spec_day() as int)
    }

    /// The date of the given year, month and day, if there is such a day.
    pub fn from_ymd_opt(year: i32, month: u32, day: u32) -> (date: Option<Date>)
        ensures
            date is Some <==> is_calendar_date(year as int, month as int, day as int),
            date matches Some(d) ==> d.is_valid() && d.spec_year() == year && d.spec_month()
                == month && d.spec_day() == day,
    {
        if chrono_date_exists(year, month, day) {
            Some(Date { year, month, day })
        } else {
            None
        }
    }

    #[verifier::when_used_as_spec(spec_year)]
    pub fn year(&self) -> (year: i32)
        ensures
            year == self.spec_year(),
    {
        self.year
    }

    #[verifier::when_used_as_spec(spec_month)]
    pub fn month(&self) -> (month: u32)
        ensures
            month == self.spec_month(),
    {
        self.month
    }

    #[verifier::when_used_as_spec(spec_day)]
    pub fn day(&self) -> (day: u32)
        ensures
            day == self.spec_day(),
    {
        self.day
    }

    /// Whole days from `earlier` to `self`; negative when `self` comes
    /// first.
    pub fn days_since(&self, earlier: &Date) -> (days: i64)
        ensures
            days == self.day_number() - earlier.day_number(),
    {
        proof {
            use_type_invariant(self);
            use_type_invariant(earlier);
        }
        chrono_days_between(self, earlier)
    }
}

/// The date that a `YYYYMMDD` integer names, if it names a real day. Month
/// and day are first held to 1 to 12 and 1 to 31 by one unsigned
/// comparison each, so that most malformed values never reach the
/// calendar.
pub fn parse_yyyymmdd_branchless(date: u32) -> (parsed: Option<Date>)
    ensures
        parsed is Some <==> is_yyyymmdd(date),
        parsed matches Some(d) ==> d.spec_year() == yyyymmdd_year(date) && d.spec_month()
            == yyyymmdd_month(date) && d.spec_day() == yyyymmdd_day(date) && d.day_number()
            == yyyymmdd_day_number(date),
{
    let year: u32 = date / 10000;
    let month: u32 = (date % 10000) / 100;
    let day: u32 = date % 100;
    let month_valid: bool = month.wrapping_sub(1) < 12;
    let day_valid: bool = day.wrapping_sub(1) < 31;
    if month_valid && day_valid {
        Date::from_ymd_opt(year as i32, month, day)
    } else {
        None
    }
}

/// The as-of date that a `YYYYMMDD` integer names.
pub fn parse_current_date_fast(date: u32) -> (parsed: Result<Date, DateError>)
    ensures
        match parsed {
            Ok(d) => is_yyyymmdd(date) && d.spec_year() == yyyymmdd_year(date) && d.spec_month()
                == yyyymmdd_month(date) && d.spec_day() == yyyymmdd_day(date) && d.day_number()
                == yyyymmdd_day_number(date),
            Err(DateError::InvalidFormat(n)) => n == date && !has_date_format(date),
            Err(DateError::InvalidDate(n)) => n == date && has_date_format(date) && !is_yyyymmdd(
                date,
            ),
        },
{
    let year: u32 = date / 10000;
    let month: u32 = (date % 10000) / 100;
    let day: u32 = date % 100;
    if month == 0 || month > 12 || day == 0 || day > 31 {
        return Err(DateError::InvalidFormat(date));
    }
    match Date::from_ymd_opt(year as i32, month, day) {
        Some(d) => Ok(d),
        None => Err(DateError::InvalidDate(date)),
    }
}

impl DateError {
    /// What [`DateError::message`] returns.
    pub open spec fn message_text(self) -> Seq<char> {
        match self {
            DateError::InvalidFormat(date) => "Invalid date format: "@ + decimal_text(date as nat),
            DateError::InvalidDate(date) => "Invalid date: "@ + decimal_text(date as nat),
        }
    }

    /// The error in words, with the integer that was refused.
    pub fn message(&self) -> (text: String)
        ensures
            text@ == self.message_text(),
    {
        match self {
            DateError::InvalidFormat(date) => joined(
                "Invalid date format: ",
                decimal(*date).as_str(),
            ),
            DateError::InvalidDate(date) => joined("Invalid date: ", decimal(*date).as_str()),
        }
    }
}

} // verus!
