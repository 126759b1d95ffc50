//! The weather report value types: a tagged temperature, kept in tenths
//! of a degree so further units can be added later, and the report with
//! its human-readable rendering.

use vstd::prelude::*;
use crate::text::{dec_str, digit_char, digit_to_str, u32_to_string};

verus! {

/// A temperature measurement. The single variant holds Celsius in tenths
/// of a degree (205 stands for 20.5 degrees); the tag leaves room for
/// further units without breaking stored data.
#[derive(Clone, Copy, PartialEq, Eq, Structural, Debug)]
pub enum Temperature {
    C(i32),
}

/// The tenths-of-a-degree value carried by a temperature.
pub open spec fn temp_deci(t: Temperature) -> int {
    match t {
        Temperature::C(v) => v as int,
    }
}

/// The rendering of a Celsius temperature given in tenths of a degree:
/// an optional sign, the whole degrees, the tenths digit only when it is
/// not zero, and the unit letter.
pub open spec fn temp_chars(deci: int) -> Seq<char> {
    let a = if deci < 0 {
        -deci
    } else {
        deci
    };
    let sign: Seq<char> = if deci < 0 {
        seq!['-']
    } else {
        Seq::empty()
    };
    let frac: Seq<char> = if a % 10 == 0 {
        Seq::empty()
    } else {
        seq!['.', digit_char(a % 10)]
    };
    sign + dec_str((a / 10) as nat) + frac + seq!['C']
}

impl Temperature {
    /// Renders the temperature, for example `20.5C`, `7C` or `-0.5C`.
    pub fn render(&self) -> (r: String)
        ensures
            r@ == temp_chars(temp_deci(*self)),
    {
        let Temperature::C(v) = *self;
        let a: u32 = if v < 0 {
            (-(v as i64)) as u32
        } else {
            v as u32
        };
        let mut s = String::new();
        if v < 0 {
            s.append("-");
        }
        let whole = u32_to_string(a / 10);
        s.append(whole.as_str());
        if a % 10 != 0 {
            s.append(".");
            s.append(digit_to_str((a % 10) as u8));
        }
        s.append("C");
        proof {
            reveal_strlit("-");
            reveal_strlit(".");
            reveal_strlit("C");
            assert(s@ =~= temp_chars(temp_deci(*self)));
        }
        s
    }
}

/// A weather report: a temperature and a condition text.
#[derive(Debug)]
pub struct WeatherReport {
    pub temperature: Temperature,
    pub condition: String,
}

/// The rendering of a report: the temperature, a comma, the condition.
pub open spec fn report_chars(deci: int, condition: Seq<char>) -> Seq<char> {
    temp_chars(deci) + seq![',', ' '] + condition
}

impl WeatherReport {
    /// Renders the report, for example `20.5C, Sunny`.
    pub fn render(&self) -> (r: String)
        ensures
            r@ == report_chars(temp_deci(self.temperature), self.condition@),
    {
        let mut s = self.temperature.render();
        s.append(", ");
        s.append(self.condition.as_str());
        proof {
            reveal_strlit(", ");
            assert(s@ =~= report_chars(temp_deci(self.temperature), self.condition@));
        }
        s
    }
}

} // verus!
