//! Calendar arithmetic on the proleptic Gregorian calendar, and the
//! broken-down UTC timestamp that the rest of the crate works with.

use vstd::prelude::*;

verus! {

/// Whether `year` has a 29th of February.
pub open spec fn is_leap_year(year: int) -> bool {
    year % 4 == 0 && (year % 100 != 0 || year % 400 == 0)
}

/// The number of days of a month; 0 for a month outside 1 to 12.
pub open spec fn days_in_month(year: int, month: int) -> int {
    if month == 1 || month == 3 || month == 5 || month == 7 || month == 8 || month == 10 || month
        == 12 {
        31
    } else if month == 4 || month == 6 || month == 9 || month == 11 {
        30
    } else if month == 2 {
        if is_leap_year(year) {
            29
        } else {
            28
        }
    } else {
        0
    }
}

/// Whether year, month and day name a day of the calendar.
pub open spec fn is_valid_date(year: int, month: int, day: int) -> bool {
    1 <= month <= 12 && 1 <= day <= days_in_month(year, month)
}

/// Tells whether `year` is a leap year.
pub fn leap_year(year: i32) -> (leap: bool)
    ensures
        leap == is_leap_year(year as int),
{
    year % 4 == 0 && (year % 100 != 0 || year % 400 == 0)
}

/// The number of days of a month; 0 for a month outside 1 to 12.
pub fn month_length(year: i32, month: u32) -> (days: u32)
    ensures
        days == days_in_month(year as int, month as int),
{
    if month == 1 || month == 3 || month == 5 || month == 7 || month == 8 || month == 10 || month
        == 12 {
        31
    } else if month == 4 || month == 6 || month == 9 || month == 11 {
        30
    } else if month == 2 {
        if leap_year(year) {
            29
        } else {
            28
        }
    } else {
        0
    }
}

/// A point in time in UTC, broken down into calendar fields.
#[derive(Debug, Clone, Copy, PartialEq, Eq, Structural)]
pub struct Timestamp {
    pub year: i32,
    pub month: u32,
    pub day: u32,
    pub hour: u32,
    pub minute: u32,
    pub second: u32,
}

impl Timestamp {
    /// The fields name a real day and a real time of day.
    pub open spec fn wf(self) -> bool {
        &&& is_valid_date(self.year as int, self.month as int, self.day as int)
        &&& self.hour < 24
        &&& self.minute < 60
        &&& self.second < 60
    }

    /// The same day at 00:00:00.
    pub open spec fn at_midnight(self) -> Timestamp {
        Timestamp { hour: 0, minute: 0, second: 0, ..self }
    }

    /// The same time of day on the following day.
    pub open spec fn following_day(self) -> Timestamp {
        if (self.day as int) < days_in_month(self.year as int, self.month as int) {
            Timestamp { day: (self.day + 1) as u32, ..self }
        } else if self.month < 12 {
            Timestamp { month: (self.month + 1) as u32, day: 1, ..self }
        } else {
            Timestamp { year: (self.year + 1) as i32, month: 1, day: 1, ..self }
        }
    }

    /// Builds a timestamp from its fields, or nothing where they name no
    /// real day or time of day.
    pub fn new(year: i32, month: u32, day: u32, hour: u32, minute: u32, second: u32) -> (made:
        Option<Timestamp>)
        ensures
            made == if (Timestamp { year, month, day, hour, minute, second }).wf() {
                Some(Timestamp { year, month, day, hour, minute, second })
            } else {
                None
            },
    {
        if 1 <= month && month <= 12 && 1 <= day && day <= month_length(year, month) && hour < 24
            && minute < 60 && second < 60 {
            Some(Timestamp { year, month, day, hour, minute, second })
        } else {
            None
        }
    }

    /// Midnight at the start of a day, or nothing where the fields name no
    /// real day.
    pub fn midnight(year: i32, month: u32, day: u32) -> (made: Option<Timestamp>)
        ensures
            made == if is_valid_date(year as int, month as int, day as int) {
                Some(Timestamp { year, month, day, hour: 0, minute: 0, second: 0 })
            } else {
                None
            },
    {
        Timestamp::new(year, month, day, 0, 0, 0)
    }

    /// Tells whether the fields name a real day and time of day.
    pub fn is_valid(&self) -> (valid: bool)
        ensures
            valid == self.wf(),
    {
        1 <= self.month && self.month <= 12 && 1 <= self.day && self.day <= month_length(
            self.year,
            self.month,
        ) && self.hour < 24 && self.minute < 60 && self.second < 60
    }

    /// The same time of day on the following day.
    pub fn next_day(self) -> (next: Timestamp)
        requires
            self.wf(),
            self.year < i32::MAX,
        ensures
            next == self.following_day(),
            next.wf(),
    {
        if self.day < month_length(self.year, self.month) {
            Timestamp { day: self.day + 1, ..self }
        } else if self.month < 12 {
            Timestamp { month: self.month + 1, day: 1, ..self }
        } else {
            Timestamp { year: self.year + 1, month: 1, day: 1, ..self }
        }
    }
}

} // verus!
