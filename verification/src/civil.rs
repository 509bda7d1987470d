//! Calendar dates, times of day and absolute timestamps.
//!
//! A `Date` is a proleptic-Gregorian calendar date between year 1 and year
//! 9999, the range that the `YYYY-MM-DD` configuration grammar can write.
//! Every date maps to its day number: the count of days since 0001-01-01
//! (day 0). An absolute `Timestamp` is a count of minutes since that same
//! origin, so comparing timestamps and adding whole days to them is plain
//! integer arithmetic.

use vstd::prelude::*;

verus! {

/// Minutes in one civil day.
pub const MINUTES_PER_DAY: u64 = 1440;

/// Day number of 9999-12-31, the last representable date.
pub const MAX_DAY_NUMBER: u64 = 3652058;

/// A wall-clock time of day on a 24-hour clock.
#[derive(Clone, Copy, Debug, PartialEq, Eq, Structural)]
pub struct TimeOfDay {
    pub hour: u8,
    pub minute: u8,
}

impl TimeOfDay {
    /// A valid 24-hour time.
    pub open spec fn valid(self) -> bool {
        self.hour < 24 && self.minute < 60
    }

    /// The time as minutes past midnight.
    pub open spec fn spec_minutes(self) -> int {
        self.hour * 60 + self.minute
    }

    pub fn minutes(&self) -> (m: u16)
        requires
            self.valid(),
        ensures
            m == self.spec_minutes(),
            m < MINUTES_PER_DAY,
    {
        self.hour as u16 * 60 + self.minute as u16
    }
}

pub open spec fn leap_year(y: int) -> bool {
    (y % 4 == 0 && y % 100 != 0) || y % 400 == 0
}

pub open spec fn days_in_month(y: int, m: int) -> int {
    if m == 2 {
        if leap_year(y) {
            29
        } else {
            28
        }
    } else if m == 4 || m == 6 || m == 9 || m == 11 {
        30
    } else {
        31
    }
}

/// Days in all years before year `y`: 365 per year plus the leap days.
pub open spec fn days_before_year(y: int) -> int {
    365 * (y - 1) + (y - 1) / 4 - (y - 1) / 100 + (y - 1) / 400
}

/// Days in the months of year `y` that precede month `m`.
pub open spec fn days_before_month(y: int, m: int) -> int {
    (if m <= 1 {
        0int
    } else if m == 2 {
        31
    } else if m == 3 {
        59
    } else if m == 4 {
        90
    } else if m == 5 {
        120
    } else if m == 6 {
        151
    } else if m == 7 {
        181
    } else if m == 8 {
        212
    } else if m == 9 {
        243
    } else if m == 10 {
        273
    } else if m == 11 {
        304
    } else {
        334
    }) + if m > 2 && leap_year(y) {
        1int
    } else {
        0int
    }
}

/// A calendar date, year 1 to 9999.
#[derive(Clone, Copy, Debug, PartialEq, Eq, Structural)]
pub struct Date {
    pub year: u16,
    pub month: u8,
    pub day: u8,
}

impl Date {
    /// A real calendar date: month and day exist in that year.
    pub open spec fn valid(self) -> bool {
        &&& 1 <= self.year <= 9999
        &&& 1 <= self.month <= 12
        &&& 1 <= self.day <= days_in_month(self.year as int, self.month as int)
    }

    /// Days since 0001-01-01 (which is day 0).
    pub open spec fn spec_day_number(self) -> int {
        days_before_year(self.year as int) + days_before_month(self.year as int, self.month as int)
            + (self.day - 1)
    }

    /// Whether this is a real calendar date.
    pub fn is_valid(&self) -> (b: bool)
        ensures
            b == self.valid(),
    {
        1 <= self.year && self.year <= 9999 && 1 <= self.month && self.month <= 12 && 1 <= self.day
            && self.day <= days_in_month_exec(self.year, self.month)
    }

    pub fn day_number(&self) -> (n: u64)
        requires
            self.valid(),
        ensures
            n == self.spec_day_number(),
            n <= MAX_DAY_NUMBER,
    {
        proof {
            lemma_day_number_bounds(*self);
        }
        let y: u64 = self.year as u64 - 1;
        let before_year: u64 = 365 * y + y / 4 - y / 100 + y / 400;
        let leap: bool = (self.year % 4 == 0 && self.year % 100 != 0) || self.year % 400 == 0;
        let m: u8 = self.month;
        let before_month: u64 = (if m <= 1 {
            0u64
        } else if m == 2 {
            31
        } else if m == 3 {
            59
        } else if m == 4 {
            90
        } else if m == 5 {
            120
        } else if m == 6 {
            151
        } else if m == 7 {
            181
        } else if m == 8 {
            212
        } else if m == 9 {
            243
        } else if m == 10 {
            273
        } else if m == 11 {
            304
        } else {
            334
        }) + if m > 2 && leap {
            1u64
        } else {
            0u64
        };
        before_year + before_month + (self.day as u64 - 1)
    }
}

/// The number of days in month `m` of year `y`.
pub fn days_in_month_exec(y: u16, m: u8) -> (n: u8)
    requires
        1 <= m <= 12,
    ensures
        n == days_in_month(y as int, m as int),
{
    if m == 2 {
        if (y % 4 == 0 && y % 100 != 0) || y % 400 == 0 {
            29
        } else {
            28
        }
    } else if m == 4 || m == 6 || m == 9 || m == 11 {
        30
    } else {
        31
    }
}

/// The day number of a valid date never exceeds that of 9999-12-31, and the
/// yearly part never underflows.
pub proof fn lemma_day_number_bounds(d: Date)
    requires
        d.valid(),
    ensures
        0 <= d.spec_day_number() <= MAX_DAY_NUMBER,
        (d.year - 1) / 100 <= 365 * (d.year - 1) + (d.year - 1) / 4,
{
    let y = d.year as int - 1;
    assert(y / 4 <= y && y / 100 <= y && y / 400 <= y && 0 <= y / 4 && 0 <= y / 100 && 0 <= y
        / 400) by (nonlinear_arith)
        requires
            0 <= y,
    ;
    assert(y / 4 <= 2499int && y / 100 >= 0 && y / 400 <= 24int) by (nonlinear_arith)
        requires
            0 <= y <= 9998,
    ;
}

/// An instant placed at a time of day falls on that day: taking the day of
/// `at_time(day, t)` gives `day` back.
pub proof fn lemma_at_time_day(day: int, t: TimeOfDay)
    requires
        t.valid(),
        0 <= day,
    ensures
        at_time(day, t) / (MINUTES_PER_DAY as int) == day,
{
    let m = t.spec_minutes();
    assert((day * 1440 + m) / 1440 == day) by (nonlinear_arith)
        requires
            0 <= m < 1440,
            0 <= day,
    ;
}

/// An absolute time: minutes since 0001-01-01 00:00.
#[derive(Clone, Copy, Debug, PartialEq, Eq, Structural)]
pub struct Timestamp {
    pub minutes: u64,
}

/// The minute count of day number `day` at time of day `t`.
pub open spec fn at_time(day: int, t: TimeOfDay) -> int {
    day * MINUTES_PER_DAY + t.spec_minutes()
}

impl Timestamp {
    /// The calendar day this instant falls on, as a day number.
    pub open spec fn spec_day(self) -> int {
        self.minutes as int / MINUTES_PER_DAY as int
    }

    pub fn from_date_time(date: &Date, t: &TimeOfDay) -> (ts: Timestamp)
        requires
            date.valid(),
            t.valid(),
        ensures
            ts.minutes == at_time(date.spec_day_number(), *t),
    {
        let n: u64 = date.day_number();
        Timestamp { minutes: n * MINUTES_PER_DAY + t.minutes() as u64 }
    }

    pub fn day(&self) -> (n: u64)
        ensures
            n == self.spec_day(),
    {
        self.minutes / MINUTES_PER_DAY
    }
}

} // verus!
