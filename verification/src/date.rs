use vstd::prelude::*;

use crate::error::Error;

verus! {

/// A calendar date in the proleptic Gregorian calendar, held as plain
/// year, month and day numbers.  Only dates in the years 1 through 9999
/// are considered valid, which covers every date a release table can
/// express in its `YYYY-MM-DD` cells.
#[derive(Clone, Copy, PartialEq, Eq, Structural, Debug)]
pub struct Date {
    pub year: u16,
    pub month: u8,
    pub day: u8,
}

pub open spec fn spec_is_leap_year(y: int) -> bool {
    y % 4 == 0 && (y % 100 != 0 || y % 400 == 0)
}

pub open spec fn spec_days_in_month(y: int, m: int) -> int {
    if m == 2 {
        if spec_is_leap_year(y) {
            29
        } else {
            28
        }
    } else if m == 4 || m == 6 || m == 9 || m == 11 {
        30
    } else {
        31
    }
}

impl Date {
    /// The date names an existing day of the calendar.
    pub open spec fn valid(self) -> bool {
        &&& 1 <= self.year <= 9999
        &&& 1 <= self.month <= 12
        &&& 1 <= self.day <= spec_days_in_month(self.year as int, self.month as int)
    }

    /// Chronological order, i.e. lexicographic on (year, month, day).
    pub open spec fn spec_le(self, other: Date) -> bool {
        ||| self.year < other.year
        ||| (self.year == other.year && self.month < other.month)
        ||| (self.year == other.year && self.month == other.month && self.day <= other.day)
    }

    pub open spec fn spec_lt(self, other: Date) -> bool {
        self.spec_le(other) && self != other
    }

    /// True when `self` is on or before `other`.
    pub fn le(&self, other: &Date) -> (r: bool)
        ensures
            r == self.spec_le(*other),
    {
        if self.year != other.year {
            self.year < other.year
        } else if self.month != other.month {
            self.month < other.month
        } else {
            self.day <= other.day
        }
    }

    /// True when `self` is strictly before `other`.
    pub fn lt(&self, other: &Date) -> (r: bool)
        ensures
            r == self.spec_lt(*other),
    {
        if self.year != other.year {
            self.year < other.year
        } else if self.month != other.month {
            self.month < other.month
        } else {
            self.day < other.day
        }
    }

    /// True when the date names an existing day of the calendar.
    pub fn is_valid(&self) -> (r: bool)
        ensures
            r == self.valid(),
    {
        1 <= self.year && self.year <= 9999 && 1 <= self.month && self.month <= 12 && 1 <= self.day
            && self.day <= days_in_month(self.year, self.month)
    }

    /// Builds a date from its components, or `None` when they do not name
    /// an existing day.
    pub fn from_ymd(year: u16, month: u8, day: u8) -> (r: Option<Date>)
        ensures
            r == (if (Date { year, month, day }).valid() {
                Some(Date { year, month, day })
            } else {
                None::<Date>
            }),
    {
        if 1 <= year && year <= 9999 && 1 <= month && month <= 12 && 1 <= day && day
            <= days_in_month(year, month) {
            Some(Date { year, month, day })
        } else {
            None
        }
    }
}

/// The later of two dates.
pub open spec fn spec_max_date(a: Date, b: Date) -> Date {
    if a.spec_le(b) {
        b
    } else {
        a
    }
}

pub fn max_date(a: Date, b: Date) -> (r: Date)
    ensures
        r == spec_max_date(a, b),
{
    if a.le(&b) {
        b
    } else {
        a
    }
}

fn is_leap_year(y: u16) -> (r: bool)
    ensures
        r == spec_is_leap_year(y as int),
{
    y % 4 == 0 && (y % 100 != 0 || y % 400 == 0)
}

fn days_in_month(y: u16, m: u8) -> (r: u8)
    ensures
        r == spec_days_in_month(y as int, m as int),
{
    if m == 2 {
        if is_leap_year(y) {
            29
        } else {
            28
        }
    } else if m == 4 || m == 6 || m == 9 || m == 11 {
        30
    } else {
        31
    }
}

/// The number of days from 0000-03-01 to the given date, following the
/// standard civil-calendar day-count formula.  Only differences of two
/// such counts are ever used.
pub open spec fn spec_day_number(d: Date) -> int {
    let y: int = if d.month <= 2 {
        d.year - 1
    } else {
        d.year as int
    };
    let era: int = y / 400;
    let yoe: int = y - era * 400;
    let mp: int = (d.month + 9) % 12;
    let doy: int = (153 * mp + 2) / 5 + d.day - 1;
    let doe: int = yoe * 365 + yoe / 4 - yoe / 100 + doy;
    era * 146097 + doe
}

pub fn day_number(d: &Date) -> (r: u32)
    requires
        d.valid(),
    ensures
        r == spec_day_number(*d),
{
    let y: u32 = if d.month <= 2 {
        d.year as u32 - 1
    } else {
        d.year as u32
    };
    let era: u32 = y / 400;
    let yoe: u32 = y - era * 400;
    let mp: u32 = (d.month as u32 + 9) % 12;
    let doy: u32 = (153 * mp + 2) / 5 + d.day as u32 - 1;
    let doe: u32 = yoe * 365 + yoe / 4 - yoe / 100 + doy;
    era * 146097 + doe
}

/// The signed number of whole days from `current_date` to `target_date`;
/// negative when the target lies in the past.
pub fn determine_day_delta(current_date: Date, target_date: Date) -> (r: i64)
    requires
        current_date.valid(),
        target_date.valid(),
    ensures
        r == spec_day_number(target_date) - spec_day_number(current_date),
{
    let t = day_number(&target_date);
    let c = day_number(&current_date);
    t as i64 - c as i64
}

pub open spec fn spec_is_digit(c: char) -> bool {
    48 <= c as int && c as int <= 57
}

pub open spec fn spec_digit_val(c: char) -> int {
    c as int - 48
}

/// The text has the exact shape `YYYY-MM-DD`.
pub open spec fn spec_date_str_wf(s: Seq<char>) -> bool {
    &&& s.len() == 10
    &&& spec_is_digit(s[0]) && spec_is_digit(s[1]) && spec_is_digit(s[2]) && spec_is_digit(s[3])
    &&& s[4] == '-'
    &&& spec_is_digit(s[5]) && spec_is_digit(s[6])
    &&& s[7] == '-'
    &&& spec_is_digit(s[8]) && spec_is_digit(s[9])
}

/// The date a well-formed `YYYY-MM-DD` text denotes, or `None` when the
/// shape is wrong or the components name no existing day.
pub open spec fn spec_parse_date(s: Seq<char>) -> Option<Date> {
    if spec_date_str_wf(s) {
        let y: int = spec_digit_val(s[0]) * 1000 + spec_digit_val(s[1]) * 100 + spec_digit_val(
            s[2],
        ) * 10 + spec_digit_val(s[3]);
        let m: int = spec_digit_val(s[5]) * 10 + spec_digit_val(s[6]);
        let d: int = spec_digit_val(s[8]) * 10 + spec_digit_val(s[9]);
        let date = Date { year: y as u16, month: m as u8, day: d as u8 };
        if date.valid() {
            Some(date)
        } else {
            None
        }
    } else {
        None
    }
}

fn digit_val(c: char) -> (r: Option<u32>)
    ensures
        r == (if spec_is_digit(c) {
            Some(spec_digit_val(c) as u32)
        } else {
            None::<u32>
        }),
{
    let v = c as u32;
    if 48 <= v && v <= 57 {
        Some(v - 48)
    } else {
        None
    }
}

/// Parses a `YYYY-MM-DD` date text, rejecting anything of another shape
/// and any component triple that names no existing day.
pub fn parse_date(field: &str) -> (r: Result<Date, Error>)
    ensures
        r == (match spec_parse_date(field@) {
            Some(d) => Ok::<Date, Error>(d),
            None => Err::<Date, Error>(Error::InvalidDate),
        }),
{
    if field.unicode_len() != 10 {
        return Err(Error::InvalidDate);
    }
    let c4 = field.get_char(4);
    let c7 = field.get_char(7);
    if c4 != '-' || c7 != '-' {
        return Err(Error::InvalidDate);
    }
    let y = match parse_year(field) {
        Some(y) => y,
        None => {
            return Err(Error::InvalidDate);
        },
    };
    let m = match two_digits(field, 5) {
        Some(m) => m,
        None => {
            return Err(Error::InvalidDate);
        },
    };
    let d = match two_digits(field, 8) {
        Some(d) => d,
        None => {
            return Err(Error::InvalidDate);
        },
    };
    match Date::from_ymd(y, m as u8, d as u8) {
        Some(date) => Ok(date),
        None => Err(Error::InvalidDate),
    }
}

fn parse_year(field: &str) -> (r: Option<u16>)
    requires
        field@.len() == 10,
    ensures
        r matches Some(y) ==> {
            &&& spec_is_digit(field@[0]) && spec_is_digit(field@[1]) && spec_is_digit(field@[2])
                && spec_is_digit(field@[3])
            &&& y == spec_digit_val(field@[0]) * 1000 + spec_digit_val(field@[1]) * 100
                + spec_digit_val(field@[2]) * 10 + spec_digit_val(field@[3])
        },
        r is None ==> !(spec_is_digit(field@[0]) && spec_is_digit(field@[1]) && spec_is_digit(
            field@[2],
        ) && spec_is_digit(field@[3])),
{
    let v0 = digit_val(field.get_char(0));
    let v1 = digit_val(field.get_char(1));
    let v2 = digit_val(field.get_char(2));
    let v3 = digit_val(field.get_char(3));
    match (v0, v1, v2, v3) {
        (Some(a), Some(b), Some(c), Some(d)) => Some((a * 1000 + b * 100 + c * 10 + d) as u16),
        _ => None,
    }
}

fn two_digits(field: &str, at: usize) -> (r: Option<u32>)
    requires
        field@.len() == 10,
        at + 1 < 10,
    ensures
        r matches Some(v) ==> {
            &&& spec_is_digit(field@[at as int]) && spec_is_digit(field@[at + 1])
            &&& v == spec_digit_val(field@[at as int]) * 10 + spec_digit_val(field@[at + 1])
        },
        r is None ==> !(spec_is_digit(field@[at as int]) && spec_is_digit(field@[at + 1])),
{
    let hi = digit_val(field.get_char(at));
    let lo = digit_val(field.get_char(at + 1));
    match (hi, lo) {
        (Some(h), Some(l)) => Some(h * 10 + l),
        _ => None,
    }
}

} // verus!
