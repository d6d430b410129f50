//! Calendar dates as year, month and day, checked against chrono's calendar.
use vstd::prelude::*;

verus! {

/// First year that chrono's `NaiveDate` can represent.
pub const MIN_YEAR: i32 = -262143;

/// Last year that chrono's `NaiveDate` can represent.
pub const MAX_YEAR: i32 = 262142;

/// Leap years of the proleptic Gregorian calendar.
pub open spec fn is_leap_year(y: int) -> bool {
    y % 4 == 0 && (y % 100 != 0 || y % 400 == 0)
}

pub open spec fn days_in_month(y: int, m: int) -> int {
    if m == 2 {
        if is_leap_year(y) { 29 } else { 28 }
    } else if m == 4 || m == 6 || m == 9 || m == 11 {
        30
    } else {
        31
    }
}

/// A day of the proleptic Gregorian calendar within chrono's range.
pub open spec fn is_calendar_date(y: int, m: int, d: int) -> bool {
    &&& MIN_YEAR <= y <= MAX_YEAR
    &&& 1 <= m <= 12
    &&& 1 <= d <= days_in_month(y, m)
}

/// Relies on chrono::NaiveDate::from_ymd_opt, which returns `None` exactly
/// when the day does not exist, month or day is invalid, or the year is out
/// of `NaiveDate`'s range.
#[verifier::external_body]
fn chrono_accepts(year: i32, month: u32, day: u32) -> (r: bool)
    ensures
        r == is_calendar_date(year as int, month as int, day as int),
{
    chrono::NaiveDate::from_ymd_opt(year, month, day).is_some()
}

/// A calendar date. Dates order by year, then month, then day.
#[derive(Clone, Copy, Debug, PartialEq, Eq, Hash)]
pub struct Date {
    year: i32,
    month: u32,
    day: u32,
}

impl Date {
    pub closed spec fn spec_year(self) -> int {
        self.year as int
    }

    pub closed spec fn spec_month(self) -> int {
        self.month as int
    }

    pub closed spec fn spec_day(self) -> int {
        self.day as int
    }

    pub closed spec fn wf(self) -> bool {
        is_calendar_date(self.year as int, self.month as int, self.day as int)
    }

    /// The date `year-month-day`, or `None` where no such day exists.
    pub fn from_ymd(year: i32, month: u32, day: u32) -> (r: Option<Date>)
        ensures
            r.is_some() <==> is_calendar_date(year as int, month as int, day as int),
            r matches Some(dt) ==> dt.wf() && dt.spec_year() == year && dt.spec_month() == month
                && dt.spec_day() == day,
    {
        if chrono_accepts(year, month, day) {
            Some(Date { year, month, day })
        } else {
            None
        }
    }

    pub fn year(&self) -> (r: i32)
        ensures
            r == self.spec_year(),
    {
        self.year
    }

    pub fn month(&self) -> (r: u32)
        ensures
            r == self.spec_month(),
    {
        self.month
    }

    pub fn day(&self) -> (r: u32)
        ensures
            r == self.spec_day(),
    {
        self.day
    }

    /// `self` falls on or before `other`.
    pub open spec fn spec_le(self, other: Date) -> bool {
        self.spec_year() < other.spec_year() || (self.spec_year() == other.spec_year() && (
        self.spec_month() < other.spec_month() || (self.spec_month() == other.spec_month()
            && self.spec_day() <= other.spec_day())))
    }

    pub fn is_on_or_before(&self, other: &Date) -> (r: bool)
        ensures
            r == self.spec_le(*other),
    {
        self.year < other.year || (self.year == other.year && (self.month < other.month || (
        self.month == other.month && self.day <= other.day)))
    }
}

} // verus!
