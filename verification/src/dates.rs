//! Calendar dates as plain year/month/day values, with validity,
//! ordering and fixed-width text rendering.

use vstd::prelude::*;
use crate::text::{digit_str, spec_digit};

verus! {

/// A calendar date. The orchestration only compares dates and finds
/// year boundaries, so plain fields are the whole model.
#[derive(Clone, Copy, PartialEq, Eq, Structural, Debug, Hash)]
pub struct Date {
    pub year: u32,
    pub month: u32,
    pub day: u32,
}

pub open spec fn spec_is_leap_year(y: int) -> bool {
    y % 4 == 0 && (y % 100 != 0 || y % 400 == 0)
}

pub open spec fn spec_days_in_month(y: int, m: int) -> int {
    if m == 2 {
        if spec_is_leap_year(y) {
            29
        } else {
            28
        }
    } else if m == 4 || m == 6 || m == 9 || m == 11 {
        30
    } else {
        31
    }
}

/// Zero-padded four digits, for years.
pub open spec fn spec_pad4(n: int) -> Seq<char> {
    seq![
        spec_digit(n / 1000 % 10),
        spec_digit(n / 100 % 10),
        spec_digit(n / 10 % 10),
        spec_digit(n % 10),
    ]
}

/// Zero-padded two digits, for months and days.
pub open spec fn spec_pad2(n: int) -> Seq<char> {
    seq![spec_digit(n / 10 % 10), spec_digit(n % 10)]
}

/// The `YYYY-MM-DD` rendering of a date.
pub open spec fn spec_date_text(d: Date) -> Seq<char> {
    spec_pad4(d.year as int) + "-"@ + spec_pad2(d.month as int) + "-"@ + spec_pad2(d.day as int)
}

impl Date {
    /// A well-formed calendar date; years stay within four digits so the
    /// textual form keeps its fixed width.
    pub open spec fn spec_valid(self) -> bool {
        1 <= self.year <= 9999 && 1 <= self.month <= 12 && 1 <= self.day
            <= spec_days_in_month(self.year as int, self.month as int)
    }

    /// Strict ordering: by year, then month, then day.
    pub open spec fn spec_lt(self, other: Date) -> bool {
        self.year < other.year || (self.year == other.year && (self.month < other.month || (
        self.month == other.month && self.day < other.day)))
    }

    pub fn is_valid(&self) -> (r: bool)
        ensures
            r == self.spec_valid(),
    {
        if !(1 <= self.year && self.year <= 9999) {
            return false;
        }
        if !(1 <= self.month && self.month <= 12) {
            return false;
        }
        let leap: bool = self.year % 4 == 0 && (self.year % 100 != 0 || self.year % 400 == 0);
        let dim: u32 = if self.month == 2 {
            if leap {
                29
            } else {
                28
            }
        } else if self.month == 4 || self.month == 6 || self.month == 9 || self.month == 11 {
            30
        } else {
            31
        };
        1 <= self.day && self.day <= dim
    }

    pub fn lt(&self, other: &Date) -> (r: bool)
        ensures
            r == self.spec_lt(*other),
    {
        self.year < other.year || (self.year == other.year && (self.month < other.month || (
        self.month == other.month && self.day < other.day)))
    }

    /// Render as `YYYY-MM-DD`.
    pub fn render(&self) -> (r: String)
        ensures
            r@ == spec_date_text(*self),
    {
        let mut s = String::new();
        s.append(digit_str(self.year / 1000 % 10));
        s.append(digit_str(self.year / 100 % 10));
        s.append(digit_str(self.year / 10 % 10));
        s.append(digit_str(self.year % 10));
        s.append("-");
        s.append(digit_str(self.month / 10 % 10));
        s.append(digit_str(self.month % 10));
        s.append("-");
        s.append(digit_str(self.day / 10 % 10));
        s.append(digit_str(self.day % 10));
        proof {
            assert(s@ =~= spec_date_text(*self));
        }
        s
    }
}

} // verus!
