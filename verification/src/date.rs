//! Calendar dates and second-precision local timestamps, held as plain
//! integers so that every computation over them is verified.  A date's day
//! number (days since January 1st of year 1, proleptic Gregorian) is the
//! basis for streak arithmetic: two dates are consecutive exactly when
//! their day numbers differ by one.

use vstd::prelude::*;
use crate::text::{spec_four_digits, spec_two_digits, four_digit_string, two_digit_string};

verus! {

/// A calendar date in the proleptic Gregorian calendar, years 1 through
/// 9999.
#[derive(Clone, Copy, Debug, PartialEq, Eq, Structural)]
pub struct Date {
    pub year: i32,
    pub month: u8,
    pub day: u8,
}

/// A date plus a second-of-day, giving local calendar time at second
/// precision.
#[derive(Clone, Copy, Debug, PartialEq, Eq, Structural)]
pub struct Timestamp {
    pub date: Date,
    pub second_of_day: u32,
}

/// Whether `year` has a February 29th.
pub open spec fn spec_is_leap_year(year: int) -> bool {
    (year % 4 == 0 && year % 100 != 0) || year % 400 == 0
}

/// The number of days in `month` of `year`.
pub open spec fn spec_days_in_month(year: int, month: int) -> int {
    if month == 2 {
        if spec_is_leap_year(year) {
            29
        } else {
            28
        }
    } else if month == 4 || month == 6 || month == 9 || month == 11 {
        30
    } else {
        31
    }
}

impl Date {
    /// A well-formed date: year within the supported range, month and day
    /// within the calendar's bounds for that month.
    pub open spec fn wf(self) -> bool {
        1 <= self.year <= 9999 && 1 <= self.month <= 12 && 1 <= self.day
            && self.day <= spec_days_in_month(self.year as int, self.month as int)
    }

    /// Days elapsed since January 1st of year 1 (which itself maps to 0).
    pub open spec fn spec_day_number(self) -> int {
        let y = if self.month <= 2 {
            self.year - 1
        } else {
            self.year as int
        };
        let era = y / 400;
        let yoe = y % 400;
        let mp = (self.month + 9) % 12;
        let doy = (153 * mp + 2) / 5 + self.day - 1;
        let doe = yoe * 365 + yoe / 4 - yoe / 100 + doy;
        era * 146097 + doe - 306
    }

    /// Whether this date is well formed.
    pub fn is_valid(&self) -> (r: bool)
        ensures
            r == self.wf(),
    {
        1 <= self.year && self.year <= 9999 && 1 <= self.month && self.month <= 12 && 1 <= self.day
            && (self.day as i32) <= days_in_month(self.year, self.month)
    }

    /// Days elapsed since January 1st of year 1.
    pub fn day_number(&self) -> (r: i64)
        requires
            self.wf(),
        ensures
            r == self.spec_day_number(),
            0 <= r < 3652060,
    {
        let y: i64 = if self.month <= 2 {
            self.year as i64 - 1
        } else {
            self.year as i64
        };
        let era: i64 = y / 400;
        let yoe: i64 = y % 400;
        let mp: i64 = ((self.month as i64) + 9) % 12;
        let doy: i64 = (153 * mp + 2) / 5 + (self.day as i64) - 1;
        let doe: i64 = yoe * 365 + yoe / 4 - yoe / 100 + doy;
        era * 146097 + doe - 306
    }

    /// The day of the week as days since Monday (0 = Monday through
    /// 6 = Sunday); January 1st of year 1 was a Monday in the proleptic
    /// Gregorian calendar.
    pub open spec fn spec_weekday_from_monday(self) -> int {
        self.spec_day_number() % 7
    }

    /// The day of the week as days since Monday (0 = Monday through
    /// 6 = Sunday).
    pub fn weekday_from_monday(&self) -> (r: u32)
        requires
            self.wf(),
        ensures
            r == self.spec_weekday_from_monday(),
            r < 7,
    {
        (self.day_number() % 7) as u32
    }

    /// The date rendered as `YYYY-MM-DD`, zero-padded.
    pub open spec fn spec_render(self) -> Seq<char> {
        spec_four_digits(self.year as int) + seq!['-'] + spec_two_digits(self.month as int)
            + seq!['-'] + spec_two_digits(self.day as int)
    }

    /// Renders the date as `YYYY-MM-DD`.
    pub fn render(&self) -> (r: String)
        requires
            self.wf(),
        ensures
            r@ == self.spec_render(),
    {
        let mut s = four_digit_string(self.year as u64);
        s.append("-");
        let m = two_digit_string(self.month as u64);
        s.append(m.as_str());
        s.append("-");
        let d = two_digit_string(self.day as u64);
        s.append(d.as_str());
        proof {
            reveal_strlit("-");
            assert(s@ =~= self.spec_render());
        }
        s
    }
}

/// The number of days in `month` of `year`.
pub fn days_in_month(year: i32, month: u8) -> (r: i32)
    ensures
        r == spec_days_in_month(year as int, month as int),
{
    if month == 2 {
        let leap = (year % 4 == 0 && year % 100 != 0) || year % 400 == 0;
        if leap {
            29
        } else {
            28
        }
    } else if month == 4 || month == 6 || month == 9 || month == 11 {
        30
    } else {
        31
    }
}

impl Timestamp {
    /// A well-formed timestamp: a valid date and a second of day below
    /// 86400.
    pub open spec fn wf(self) -> bool {
        self.date.wf() && self.second_of_day < 86400
    }

    /// Seconds elapsed since midnight of January 1st of year 1.
    pub open spec fn spec_seconds(self) -> int {
        self.date.spec_day_number() * 86400 + self.second_of_day
    }

    /// Seconds elapsed since midnight of January 1st of year 1.
    pub fn seconds(&self) -> (r: i64)
        requires
            self.wf(),
        ensures
            r == self.spec_seconds(),
            0 <= r,
    {
        self.date.day_number() * 86400 + self.second_of_day as i64
    }

    /// The timestamp rendered as `YYYY-MM-DD HH:MM:SS`, zero-padded.
    pub open spec fn spec_render(self) -> Seq<char> {
        self.date.spec_render() + seq![' '] + spec_two_digits(self.second_of_day as int / 3600)
            + seq![':'] + spec_two_digits((self.second_of_day as int / 60) % 60) + seq![':']
            + spec_two_digits(self.second_of_day as int % 60)
    }

    /// Renders the timestamp as `YYYY-MM-DD HH:MM:SS`.
    pub fn render(&self) -> (r: String)
        requires
            self.wf(),
        ensures
            r@ == self.spec_render(),
    {
        let mut s = self.date.render();
        s.append(" ");
        let h = two_digit_string((self.second_of_day / 3600) as u64);
        s.append(h.as_str());
        s.append(":");
        let m = two_digit_string(((self.second_of_day / 60) % 60) as u64);
        s.append(m.as_str());
        s.append(":");
        let sec = two_digit_string((self.second_of_day % 60) as u64);
        s.append(sec.as_str());
        proof {
            reveal_strlit(" ");
            reveal_strlit(":");
            assert(s@ =~= self.spec_render());
        }
        s
    }
}

} // verus!
