use vstd::prelude::*;
use crate::capability::{chrono_format_ymd, chrono_formatted};

verus! {

/// Whether `y` is a leap year in the proleptic Gregorian calendar.
pub open spec fn is_leap_year(y: int) -> bool {
    (y % 4 == 0 && y % 100 != 0) || y % 400 == 0
}

/// The number of days in month `m` of year `y`.
pub open spec fn days_in_month(y: int, m: int) -> int {
    if m == 2 {
        if is_leap_year(y) {
            29
        } else {
            28
        }
    } else if m == 4 || m == 6 || m == 9 || m == 11 {
        30
    } else {
        31
    }
}

/// A calendar day that exists, within the four-digit years.
pub open spec fn valid_ymd(y: int, m: int, d: int) -> bool {
    1 <= y <= 9999 && 1 <= m <= 12 && 1 <= d <= days_in_month(y, m)
}

/// A calendar date as plain year, month and day values. The current date is
/// read by the caller; rendering it for the prompt goes through chrono.
pub struct CalendarDate {
    pub year: i32,
    pub month: u32,
    pub day: u32,
}

impl CalendarDate {
    /// The date names an existing day.
    pub open spec fn wf(&self) -> bool {
        valid_ymd(self.year as int, self.month as int, self.day as int)
    }

    /// Builds a date after checking that the day exists.
    pub fn new(year: i32, month: u32, day: u32) -> (r: Option<CalendarDate>)
        ensures
            r is Some <==> valid_ymd(year as int, month as int, day as int),
            r matches Some(d) ==> d == (CalendarDate { year, month, day }) && d.wf(),
    {
        if year < 1 || year > 9999 || month < 1 || month > 12 {
            return None;
        }
        let max_day: u32 = days_in_month_count(year, month);
        if day < 1 || day > max_day {
            return None;
        }
        Some(CalendarDate { year, month, day })
    }
}

/// The number of days in month `m` of year `y`.
pub fn days_in_month_count(y: i32, m: u32) -> (r: u32)
    requires
        1 <= y,
        1 <= m <= 12,
    ensures
        r == days_in_month(y as int, m as int),
{
    if m == 2 {
        if (y % 4 == 0 && y % 100 != 0) || y % 400 == 0 {
            29
        } else {
            28
        }
    } else if m == 4 || m == 6 || m == 9 || m == 11 {
        30
    } else {
        31
    }
}

/// The format under which the date enters the prompt: day of week, month
/// name, space-padded day, year.
pub open spec fn long_date_format() -> Seq<char> {
    "%A, %B %e, %Y"@
}

/// `date` rendered long-form through chrono. A well-formed date names an
/// existing day, and the fixed format renders every such day, so this never
/// fails.
pub fn format_date(date: &CalendarDate) -> (r: String)
    requires
        date.wf(),
    ensures
        r@ == chrono_formatted(
            date.year as int,
            date.month as int,
            date.day as int,
            long_date_format(),
        ),
{
    match chrono_format_ymd(date.year, date.month, date.day, "%A, %B %e, %Y") {
        Some(text) => text,
        None => {
            proof {
                assert(false);
            }
            String::new()
        },
    }
}

} // verus!
