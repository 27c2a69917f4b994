//! Calendar days, as they stand at the front of a migration file's name.

use crate::digits::{zero_padded, zero_padded_text};
use vstd::prelude::*;

verus! {

/// A year, a month and a day of the month.
///
/// Any three numbers make a `Date`; `is_valid` tells those that name a day of
/// the calendar and fit the eight digits of a file name.
#[derive(Clone, Copy, Debug, PartialEq, Eq, Structural)]
pub struct Date {
    pub year: u32,
    pub month: u32,
    pub day: u32,
}

/// Leap years of the Gregorian calendar.
pub open spec fn is_leap_year(year: int) -> bool {
    year % 4 == 0 && (year % 100 != 0 || year % 400 == 0)
}

/// The number of days of a month, for `month` from 1 to 12.
pub open spec fn days_in_month(year: int, month: int) -> int {
    if month == 2 {
        if is_leap_year(year) {
            29
        } else {
            28
        }
    } else if month == 4 || month == 6 || month == 9 || month == 11 {
        30
    } else {
        31
    }
}

/// Whether the calendar has the day `day` of month `month` in year `year`.
pub open spec fn is_calendar_day(year: int, month: int, day: int) -> bool {
    1 <= month <= 12 && 1 <= day <= days_in_month(year, month)
}

/// Asks `chrono::NaiveDate::from_ymd_opt` whether it can make a date of the
/// three numbers. For years from 0 to 9999, which chrono's range holds, it can
/// exactly when the calendar has that day.
#[verifier::external_body]
fn chrono_has_date(year: i32, month: u32, day: u32) -> (r: bool)
    requires
        0 <= year <= 9999,
    ensures
        r == is_calendar_day(year as int, month as int, day as int),
{
    chrono::NaiveDate::from_ymd_opt(year, month, day).is_some()
}

impl Date {
    /// The date is a day of the calendar in a year of at most four digits.
    pub open spec fn is_valid(self) -> bool {
        self.year <= 9999 && is_calendar_day(self.year as int, self.month as int, self.day as int)
    }

    /// `self` is an earlier day than `other`.
    pub open spec fn is_before(self, other: Date) -> bool {
        self.year < other.year || (self.year == other.year && (self.month < other.month || (
        self.month == other.month && self.day < other.day)))
    }

    /// The eight digits `YYYYMMDD` of a valid date. A number too large for
    /// its place keeps all its digits.
    pub open spec fn compact(self) -> Seq<char> {
        zero_padded(self.year as nat, 4) + zero_padded(self.month as nat, 2) + zero_padded(
            self.day as nat,
            2,
        )
    }

    /// The date as it is shown to a reader: `YYYY-MM-DD`.
    pub open spec fn dashed(self) -> Seq<char> {
        zero_padded(self.year as nat, 4) + "-"@ + zero_padded(self.month as nat, 2) + "-"@
            + zero_padded(self.day as nat, 2)
    }

    /// The date of the three numbers, where they make a valid one.
    pub fn new(year: u32, month: u32, day: u32) -> (r: Option<Date>)
        ensures
            r == if (Date { year, month, day }).is_valid() {
                Some(Date { year, month, day })
            } else {
                None
            },
    {
        if year <= 9999 && chrono_has_date(year as i32, month, day) {
            Some(Date { year, month, day })
        } else {
            None
        }
    }

    /// Decides `is_before`.
    pub fn before(&self, other: &Date) -> (b: bool)
        ensures
            b == self.is_before(*other),
    {
        self.year < other.year || (self.year == other.year && (self.month < other.month || (
        self.month == other.month && self.day < other.day)))
    }

    /// Writes the date as `YYYY-MM-DD`.
    pub fn to_dashed(&self) -> (r: String)
        ensures
            r@ == self.dashed(),
    {
        let mut s = zero_padded_text(self.year, 4);
        let month = zero_padded_text(self.month, 2);
        let day = zero_padded_text(self.day, 2);
        s.append("-");
        s.append(month.as_str());
        s.append("-");
        s.append(day.as_str());
        s
    }

    /// Writes the date as `YYYYMMDD`.
    pub fn to_compact(&self) -> (r: String)
        ensures
            r@ == self.compact(),
    {
        let mut s = zero_padded_text(self.year, 4);
        let month = zero_padded_text(self.month, 2);
        let day = zero_padded_text(self.day, 2);
        s.append(month.as_str());
        s.append(day.as_str());
        s
    }
}

} // verus!
