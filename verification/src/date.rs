//! A calendar date as plain year, month and day values, with validation,
//! an ISO `YYYY-MM-DD` rendering and a parser for the same shape.

use vstd::prelude::*;
use crate::text::{append_pad2, append_pad4, digit_val, is_digit_char, pad2, pad4};

verus! {

/// Whether a year is a leap year in the Gregorian calendar.
pub open spec fn is_leap_year(y: int) -> bool {
    (y % 4 == 0 && y % 100 != 0) || y % 400 == 0
}

/// The number of days of a month in a year.
pub open spec fn days_in_month(y: int, m: int) -> int {
    if m == 2 {
        if is_leap_year(y) {
            29
        } else {
            28
        }
    } else if m == 4 || m == 6 || m == 9 || m == 11 {
        30
    } else {
        31
    }
}

/// Whether year, month and day form a real calendar date that the
/// four-digit ISO rendering can carry.
pub open spec fn valid_date(y: int, m: int, d: int) -> bool {
    0 <= y <= 9999 && 1 <= m <= 12 && 1 <= d <= days_in_month(y, m)
}

/// The `YYYY-MM-DD` rendering of a date.
pub open spec fn iso_chars(y: int, m: int, d: int) -> Seq<char> {
    pad4(y) + seq!['-'] + pad2(m) + seq!['-'] + pad2(d)
}

/// Whether ten characters have the shape `YYYY-MM-DD` with decimal digits.
pub open spec fn iso_shaped(t: Seq<char>) -> bool {
    t.len() == 10 && is_digit_char(t[0]) && is_digit_char(t[1]) && is_digit_char(t[2])
        && is_digit_char(t[3]) && t[4] == '-' && is_digit_char(t[5]) && is_digit_char(t[6])
        && t[7] == '-' && is_digit_char(t[8]) && is_digit_char(t[9])
}

/// The year read from `YYYY-MM-DD` shaped characters.
pub open spec fn iso_year(t: Seq<char>) -> int {
    digit_val(t[0]) * 1000 + digit_val(t[1]) * 100 + digit_val(t[2]) * 10 + digit_val(t[3])
}

/// The month read from `YYYY-MM-DD` shaped characters.
pub open spec fn iso_month(t: Seq<char>) -> int {
    digit_val(t[5]) * 10 + digit_val(t[6])
}

/// The day read from `YYYY-MM-DD` shaped characters.
pub open spec fn iso_day(t: Seq<char>) -> int {
    digit_val(t[8]) * 10 + digit_val(t[9])
}

/// A valid calendar date.
#[derive(Clone, Copy, PartialEq, Eq, Structural, Debug)]
pub struct CalendarDate {
    year: u16,
    month: u8,
    day: u8,
}

impl CalendarDate {
    /// The year of the date.
    pub closed spec fn y(&self) -> int {
        self.year as int
    }

    /// The month of the date.
    pub closed spec fn m(&self) -> int {
        self.month as int
    }

    /// The day of the date.
    pub closed spec fn d(&self) -> int {
        self.day as int
    }

    /// Every constructed date is a real calendar date.
    pub open spec fn wf(&self) -> bool {
        valid_date(self.y(), self.m(), self.d())
    }

    /// Builds a date after checking year, month and day against the calendar.
    pub fn new(year: u16, month: u8, day: u8) -> (r: Option<CalendarDate>)
        ensures
            r is Some <==> valid_date(year as int, month as int, day as int),
            r is Some ==> {
                let date = r->0;
                &&& date.wf()
                &&& date.y() == year as int
                &&& date.m() == month as int
                &&& date.d() == day as int
            },
    {
        if year > 9999 || month < 1 || month > 12 {
            return None;
        }
        let max_day: u8 = if month == 2 {
            let leap = (year % 4 == 0 && year % 100 != 0) || year % 400 == 0;
            if leap {
                29
            } else {
                28
            }
        } else if month == 4 || month == 6 || month == 9 || month == 11 {
            30
        } else {
            31
        };
        if day < 1 || day > max_day {
            return None;
        }
        Some(CalendarDate { year, month, day })
    }

    /// Renders the date as `YYYY-MM-DD`, zero padded.
    pub fn format_iso(&self) -> (r: String)
        ensures
            r@ == iso_chars(self.y(), self.m(), self.d()),
    {
        let mut s = String::new();
        append_pad4(&mut s, self.year);
        s.append("-");
        append_pad2(&mut s, self.month);
        s.append("-");
        append_pad2(&mut s, self.day);
        proof {
            reveal_strlit("-");
            assert(s@ =~= iso_chars(self.y(), self.m(), self.d()));
        }
        s
    }

    /// Parses `YYYY-MM-DD`; rejects anything of another shape and any
    /// year, month, day combination that is not a real calendar date.
    pub fn parse(s: &str) -> (r: Option<CalendarDate>)
        ensures
            r is Some <==> iso_shaped(s@) && valid_date(iso_year(s@), iso_month(s@), iso_day(s@)),
            r is Some ==> {
                let date = r->0;
                &&& date.wf()
                &&& date.y() == iso_year(s@)
                &&& date.m() == iso_month(s@)
                &&& date.d() == iso_day(s@)
            },
    {
        if s.unicode_len() != 10 {
            return None;
        }
        let c4 = s.get_char(4);
        let c7 = s.get_char(7);
        if c4 != '-' || c7 != '-' {
            return None;
        }
        let y3 = digit_of(s.get_char(0));
        let y2 = digit_of(s.get_char(1));
        let y1 = digit_of(s.get_char(2));
        let y0 = digit_of(s.get_char(3));
        let m1 = digit_of(s.get_char(5));
        let m0 = digit_of(s.get_char(6));
        let d1 = digit_of(s.get_char(8));
        let d0 = digit_of(s.get_char(9));
        match (y3, y2, y1, y0, m1, m0, d1, d0) {
            (
                Some(y3),
                Some(y2),
                Some(y1),
                Some(y0),
                Some(m1),
                Some(m0),
                Some(d1),
                Some(d0),
            ) => {
                let year: u16 = y3 as u16 * 1000 + y2 as u16 * 100 + y1 as u16 * 10 + y0 as u16;
                let month: u8 = m1 * 10 + m0;
                let day: u8 = d1 * 10 + d0;
                CalendarDate::new(year, month, day)
            },
            _ => None,
        }
    }

    /// The year as a plain value.
    pub fn year(&self) -> (r: u16)
        ensures
            r as int == self.y(),
    {
        self.year
    }

    /// The month as a plain value.
    pub fn month(&self) -> (r: u8)
        ensures
            r as int == self.m(),
    {
        self.month
    }

    /// The day as a plain value.
    pub fn day(&self) -> (r: u8)
        ensures
            r as int == self.d(),
    {
        self.day
    }
}

/// The value of one decimal digit character, or nothing on any other
/// character.
fn digit_of(c: char) -> (r: Option<u8>)
    ensures
        r is Some <==> is_digit_char(c),
        r is Some ==> r->0 < 10 && r->0 as int == digit_val(c),
{
    match c {
        '0' => Some(0),
        '1' => Some(1),
        '2' => Some(2),
        '3' => Some(3),
        '4' => Some(4),
        '5' => Some(5),
        '6' => Some(6),
        '7' => Some(7),
        '8' => Some(8),
        '9' => Some(9),
        _ => None,
    }
}

} // verus!
