//! Civil calendar dates, the unit the Tempo calendar is keyed by.
//!
//! A date is held as plain year, month and day fields with the Gregorian
//! validity rules as its well-formedness condition. Besides the successor
//! function (which the engine needs to find "tomorrow"), the module gives the
//! canonical `YYYY-MM-DD` text form: parsing for dates arriving from outside,
//! and formatting for the text keys handed back out.

use vstd::prelude::*;
use vstd::string::StringExecFns;
use vstd::utf8::{encode_utf8, is_ascii_chars, is_ascii_chars_encode_utf8};

verus! {

/// True for leap years of the proleptic Gregorian calendar.
pub open spec fn is_leap_year(year: int) -> bool {
    (year % 4 == 0 && year % 100 != 0) || year % 400 == 0
}

/// Number of days in `month` of `year` (Gregorian rules; meaningful for
/// months 1 through 12).
pub open spec fn spec_days_in_month(year: int, month: int) -> int {
    if month == 2 {
        if is_leap_year(year) {
            29
        } else {
            28
        }
    } else if month == 4 || month == 6 || month == 9 || month == 11 {
        30
    } else {
        31
    }
}

/// A civil calendar date (local day, no time component).
#[derive(Clone, Copy, Debug, PartialEq, Eq, Structural)]
pub struct Date {
    pub year: u16,
    pub month: u8,
    pub day: u8,
}

impl Date {
    /// A well-formed date: a real day of the Gregorian calendar, with the
    /// year bounded so that it always has four digits.
    pub open spec fn wf(self) -> bool {
        &&& 1 <= self.year <= 9999
        &&& 1 <= self.month <= 12
        &&& 1 <= self.day <= spec_days_in_month(self.year as int, self.month as int)
    }

    /// The numeric cache key of a date: its digits read as one number.
    pub open spec fn spec_key(self) -> u64 {
        ((self.year as int) * 10000 + (self.month as int) * 100 + (self.day as int)) as u64
    }

    /// The day after `self`.
    pub open spec fn spec_next(self) -> Date {
        if self.day < spec_days_in_month(self.year as int, self.month as int) {
            Date { year: self.year, month: self.month, day: (self.day + 1) as u8 }
        } else if self.month < 12 {
            Date { year: self.year, month: (self.month + 1) as u8, day: 1 }
        } else {
            Date { year: (self.year + 1) as u16, month: 1, day: 1 }
        }
    }

    /// A well-formed date whose successor stays within the supported years.
    pub open spec fn has_next(self) -> bool {
        self.wf() && !(self.year == 9999 && self.month == 12 && self.day == 31)
    }

    /// Builds a date after checking the calendar rules; `None` exactly on
    /// combinations that name no real day.
    pub fn new(year: u16, month: u8, day: u8) -> (r: Option<Date>)
        ensures
            match r {
                Some(d) => d == (Date { year, month, day }) && d.wf(),
                None => !(Date { year, month, day }).wf(),
            },
    {
        if 1 <= year && year <= 9999 && 1 <= month && month <= 12 && 1 <= day && day
            <= days_in_month(year, month) {
            Some(Date { year, month, day })
        } else {
            None
        }
    }

    /// The numeric cache key; distinct well-formed dates get distinct keys.
    pub fn key(&self) -> (k: u64)
        ensures
            k == self.spec_key(),
    {
        (self.year as u64) * 10000 + (self.month as u64) * 100 + (self.day as u64)
    }

    /// The day after `self`.
    pub fn next_day(&self) -> (r: Date)
        requires
            self.has_next(),
        ensures
            r == self.spec_next(),
            r.wf(),
    {
        if self.day < days_in_month(self.year, self.month) {
            Date { year: self.year, month: self.month, day: self.day + 1 }
        } else if self.month < 12 {
            Date { year: self.year, month: self.month + 1, day: 1 }
        } else {
            Date { year: self.year + 1, month: 1, day: 1 }
        }
    }
}

/// Number of days in `month` of `year`.
pub fn days_in_month(year: u16, month: u8) -> (r: u8)
    requires
        1 <= month <= 12,
    ensures
        r == spec_days_in_month(year as int, month as int),
{
    if month == 2 {
        if (year % 4 == 0 && year % 100 != 0) || year % 400 == 0 {
            29
        } else {
            28
        }
    } else if month == 4 || month == 6 || month == 9 || month == 11 {
        30
    } else {
        31
    }
}

/// True when `b` is the code of an ASCII decimal digit.
pub open spec fn is_digit_byte(b: u8) -> bool {
    48 <= b <= 57
}

/// The value of an ASCII decimal digit byte.
pub open spec fn digit_byte_val(b: u8) -> int {
    b - 48
}

/// True when `s` has the shape `YYYY-MM-DD`: ten bytes, digits in the date
/// positions and `-` (code 45) as the two separators.
pub open spec fn spec_date_shape(s: Seq<u8>) -> bool {
    &&& s.len() == 10
    &&& is_digit_byte(s[0]) && is_digit_byte(s[1]) && is_digit_byte(s[2]) && is_digit_byte(s[3])
    &&& s[4] == 45
    &&& is_digit_byte(s[5]) && is_digit_byte(s[6])
    &&& s[7] == 45
    &&& is_digit_byte(s[8]) && is_digit_byte(s[9])
}

/// The date read from a well-shaped `YYYY-MM-DD` byte sequence, before the
/// calendar rules are checked.
pub open spec fn spec_date_of_shape(s: Seq<u8>) -> Date {
    Date {
        year: (digit_byte_val(s[0]) * 1000 + digit_byte_val(s[1]) * 100 + digit_byte_val(s[2]) * 10
            + digit_byte_val(s[3])) as u16,
        month: (digit_byte_val(s[5]) * 10 + digit_byte_val(s[6])) as u8,
        day: (digit_byte_val(s[8]) * 10 + digit_byte_val(s[9])) as u8,
    }
}

/// What parsing a date out of the UTF-8 bytes of a string yields: the date
/// written as `YYYY-MM-DD`, provided it names a real calendar day.
pub open spec fn spec_parse_date(s: Seq<u8>) -> Option<Date> {
    if spec_date_shape(s) && spec_date_of_shape(s).wf() {
        Some(spec_date_of_shape(s))
    } else {
        None
    }
}

/// The digit character with value `v` (meaningful for 0 through 9).
pub open spec fn digit_char(v: int) -> char {
    if v == 0 {
        '0'
    } else if v == 1 {
        '1'
    } else if v == 2 {
        '2'
    } else if v == 3 {
        '3'
    } else if v == 4 {
        '4'
    } else if v == 5 {
        '5'
    } else if v == 6 {
        '6'
    } else if v == 7 {
        '7'
    } else if v == 8 {
        '8'
    } else {
        '9'
    }
}

/// A one-character string slice holding the digit `d`.
fn digit_str(d: u16) -> (r: &'static str)
    requires
        d < 10,
    ensures
        r@ =~= seq![digit_char(d as int)],
{
    proof {
        reveal_strlit("0");
        reveal_strlit("1");
        reveal_strlit("2");
        reveal_strlit("3");
        reveal_strlit("4");
        reveal_strlit("5");
        reveal_strlit("6");
        reveal_strlit("7");
        reveal_strlit("8");
        reveal_strlit("9");
    }
    match d {
        0 => "0",
        1 => "1",
        2 => "2",
        3 => "3",
        4 => "4",
        5 => "5",
        6 => "6",
        7 => "7",
        8 => "8",
        _ => "9",
    }
}

impl Date {
    /// The characters of the date in its canonical `YYYY-MM-DD` form.
    pub open spec fn spec_format(self) -> Seq<char> {
        seq![
            digit_char(self.year as int / 1000),
            digit_char((self.year as int / 100) % 10),
            digit_char((self.year as int / 10) % 10),
            digit_char(self.year as int % 10),
            '-',
            digit_char(self.month as int / 10),
            digit_char(self.month as int % 10),
            '-',
            digit_char(self.day as int / 10),
            digit_char(self.day as int % 10),
        ]
    }

    /// Renders the date as its canonical `YYYY-MM-DD` key.
    pub fn format(&self) -> (r: String)
        requires
            self.wf(),
        ensures
            r@ == self.spec_format(),
    {
        proof {
            reveal_strlit("-");
        }
        let mut out = String::new();
        out.append(digit_str(self.year / 1000));
        out.append(digit_str((self.year / 100) % 10));
        out.append(digit_str((self.year / 10) % 10));
        out.append(digit_str(self.year % 10));
        out.append("-");
        out.append(digit_str((self.month as u16) / 10));
        out.append(digit_str((self.month as u16) % 10));
        out.append("-");
        out.append(digit_str((self.day as u16) / 10));
        out.append(digit_str((self.day as u16) % 10));
        proof {
            assert(out@ =~= self.spec_format());
        }
        out
    }

    /// Parses a `YYYY-MM-DD` string; `None` exactly on text of another shape
    /// or on a combination that names no real day.
    pub fn parse(s: &str) -> (r: Option<Date>)
        ensures
            r == spec_parse_date(encode_utf8(s@)),
    {
        let b = s.as_bytes();
        if b.len() != 10 {
            return None;
        }
        if !(is_digit(b[0]) && is_digit(b[1]) && is_digit(b[2]) && is_digit(b[3]) && b[4] == 45
            && is_digit(b[5]) && is_digit(b[6]) && b[7] == 45 && is_digit(b[8]) && is_digit(
            b[9],
        )) {
            return None;
        }
        let year: u16 = (b[0] - 48) as u16 * 1000 + (b[1] - 48) as u16 * 100 + (b[2] - 48) as u16
            * 10 + (b[3] - 48) as u16;
        let month: u8 = (b[5] - 48) * 10 + (b[6] - 48);
        let day: u8 = (b[8] - 48) * 10 + (b[9] - 48);
        Date::new(year, month, day)
    }
}

/// True when `b` is an ASCII decimal digit.
fn is_digit(b: u8) -> (r: bool)
    ensures
        r == is_digit_byte(b),
{
    48 <= b && b <= 57
}

/// The digit characters carry the ASCII codes of their values.
proof fn lemma_digit_char_code(v: int)
    requires
        0 <= v <= 9,
    ensures
        digit_char(v) as u8 == 48 + v,
        is_digit_byte(digit_char(v) as u8),
        digit_byte_val(digit_char(v) as u8) == v,
{
}

/// Formatting then parsing is the identity on well-formed dates: the
/// canonical `YYYY-MM-DD` text of a date names that date and no other.
pub proof fn lemma_format_parse_round_trip(d: Date)
    requires
        d.wf(),
    ensures
        spec_parse_date(encode_utf8(d.spec_format())) == Some(d),
{
    let cs = d.spec_format();
    let y = d.year as int;
    let m = d.month as int;
    let dd = d.day as int;
    lemma_digit_char_code(y / 1000);
    lemma_digit_char_code((y / 100) % 10);
    lemma_digit_char_code((y / 10) % 10);
    lemma_digit_char_code(y % 10);
    lemma_digit_char_code(m / 10);
    lemma_digit_char_code(m % 10);
    lemma_digit_char_code(dd / 10);
    lemma_digit_char_code(dd % 10);
    assert(is_ascii_chars(cs)) by {
        assert(forall|i: int| 0 <= i < 10 ==> '\0' <= #[trigger] cs[i] <= '\u{7f}');
    }
    is_ascii_chars_encode_utf8(cs);
    let bs = encode_utf8(cs);
    assert(bs[4] == '-' as u8 && bs[7] == '-' as u8);
    assert(spec_date_shape(bs));
    assert((y / 1000) * 1000 + ((y / 100) % 10) * 100 + ((y / 10) % 10) * 10 + y % 10 == y) by {
        assert(y == (y / 10) * 10 + y % 10);
        assert(y / 10 == (y / 100) * 10 + (y / 10) % 10);
        assert(y / 100 == (y / 1000) * 10 + (y / 100) % 10);
    }
    assert((m / 10) * 10 + m % 10 == m);
    assert((dd / 10) * 10 + dd % 10 == dd);
    assert(spec_date_of_shape(bs) == d);
}

/// Distinct well-formed dates never share a cache key.
pub proof fn lemma_key_injective(a: Date, b: Date)
    requires
        a.wf(),
        b.wf(),
        a.spec_key() == b.spec_key(),
    ensures
        a == b,
{
}

} // verus!
