//! The date of a game.

use vstd::prelude::*;

verus! {

/// A day of the calendar.
#[derive(Debug, Copy, Clone, Eq, PartialEq, Structural)]
pub struct Date {
    pub year: u16,
    pub month: u8,
    pub day: u8,
}

impl Date {
    /// Whether the month is one of the twelve.
    pub open spec fn spec_is_month_valid(month: u8) -> bool {
        1 <= month <= 12
    }

    /// Whether the day is one that a month can have.
    pub open spec fn spec_is_day_valid(day: u8) -> bool {
        1 <= day <= 31
    }

    /// Whether the year is a leap year: a multiple of 4 that is no multiple
    /// of 100, or a multiple of 400.
    pub open spec fn spec_is_year_leap(year: u16) -> bool {
        (year % 4 == 0 && year % 100 != 0) || year % 400 == 0
    }

    /// The number of days of the month in the year.
    pub open spec fn days_in_month(month: u8, year: u16) -> int {
        if month == 2 {
            if Self::spec_is_year_leap(year) {
                29
            } else {
                28
            }
        } else if month == 4 || month == 6 || month == 9 || month == 11 {
            30
        } else {
            31
        }
    }

    /// Whether the month of the year has the day, for a day up to 31.
    pub open spec fn spec_date_exists(day: u8, month: u8, year: u16) -> bool {
        day <= Self::days_in_month(month, year) || (day > 31 && month != 2 && month != 4 && month
            != 6 && month != 9 && month != 11)
    }

    /// Whether the three numbers name a day of the calendar.
    pub open spec fn is_date(year: u16, month: u8, day: u8) -> bool {
        1 <= month <= 12 && 1 <= day <= Self::days_in_month(month, year)
    }

    /// Whether the date is a day of the calendar.
    pub open spec fn is_valid(&self) -> bool {
        Self::is_date(self.year, self.month, self.day)
    }

    /// The date of the three numbers, which have to name a day of the
    /// calendar.
    pub fn new(year: u16, month: u8, day: u8) -> (date: Date)
        requires
            Self::is_date(year, month, day),
        ensures
            date == (Date { year, month, day }),
            date.is_valid(),
    {
        Date { year, month, day }
    }

    /// The year.
    pub fn year(&self) -> (year: u16)
        ensures
            year == self.year,
    {
        self.year
    }

    /// The month, January being 1.
    pub fn month(&self) -> (month: u8)
        ensures
            month == self.month,
    {
        self.month
    }

    /// The day of the month.
    pub fn day(&self) -> (day: u8)
        ensures
            day == self.day,
    {
        self.day
    }

    /// The date of the three numbers if they name a day of the calendar,
    /// and else what is wrong with them: the month, looked at first, the
    /// day, or the two together.
    pub fn validate(year: u16, month: u8, day: u8) -> (result: Result<Date, &'static str>)
        ensures
            Self::is_date(year, month, day) <==> result is Ok,
            result matches Ok(date) ==> date == (Date { year, month, day }),
            result matches Err(message) ==> message@ == (if !(1 <= month <= 12) {
                "month must be in range [1-12]"@
            } else if !(1 <= day <= 31) {
                "day must be in range [1-31]"@
            } else {
                "date doesn't exist"@
            }),
    {
        if !Self::is_month_valid(month) {
            return Err("month must be in range [1-12]");
        }
        if !Self::is_day_valid(day) {
            return Err("day must be in range [1-31]");
        }
        if !Self::date_exists(day, month, year) {
            return Err("date doesn't exist");
        }
        Ok(Date { year, month, day })
    }

    /// Whether the month is one of the twelve.
    #[verifier::when_used_as_spec(spec_is_month_valid)]
    pub fn is_month_valid(month: u8) -> (valid: bool)
        ensures
            valid == Self::spec_is_month_valid(month),
    {
        1 <= month && month <= 12
    }

    /// Whether the day is one that a month can have.
    #[verifier::when_used_as_spec(spec_is_day_valid)]
    pub fn is_day_valid(day: u8) -> (valid: bool)
        ensures
            valid == Self::spec_is_day_valid(day),
    {
        1 <= day && day <= 31
    }

    /// Whether the month of the year has the day. Of a month of 31 days any
    /// day counts: ask `is_day_valid` first.
    #[verifier::when_used_as_spec(spec_date_exists)]
    pub fn date_exists(day: u8, month: u8, year: u16) -> (exists: bool)
        ensures
            exists == Self::spec_date_exists(day, month, year),
    {
        if month == 2 {
            let february_ceil: u8 = if Self::is_year_leap(year) {
                29
            } else {
                28
            };
            day <= february_ceil
        } else if month == 4 || month == 6 || month == 9 || month == 11 {
            day <= 30
        } else {
            true
        }
    }

    /// Whether the year is a leap year.
    #[verifier::when_used_as_spec(spec_is_year_leap)]
    pub fn is_year_leap(year: u16) -> (leap: bool)
        ensures
            leap == Self::spec_is_year_leap(year),
    {
        (year % 4 == 0 && year % 100 != 0) || year % 400 == 0
    }
}

} // verus!
