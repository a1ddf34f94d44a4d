//! Calendar dates in the canonical `YYYY-MM-DD` form, with exact calendar
//! arithmetic for the previous and next day.
//!
//! Parsing is strict: a date text must match the ten-character grammar
//! (four year digits, dash, two month digits, dash, two day digits) and
//! encode a real calendar date, leap years included.

use vstd::prelude::*;

verus! {

/// A calendar date. A value is meaningful only when `valid()` holds:
/// the year fits the four-digit canonical form, the month is 1..=12 and
/// the day fits the month (leap years included).
#[derive(Clone, Copy, Debug, PartialEq, Eq, Structural)]
pub struct Date {
    pub year: u16,
    pub month: u8,
    pub day: u8,
}

/// Whether `y` is a leap year of the (proleptic) Gregorian calendar.
pub open spec fn spec_is_leap_year(y: int) -> bool {
    y % 4 == 0 && (y % 100 != 0 || y % 400 == 0)
}

/// How many days the month `m` of year `y` has.
pub open spec fn spec_days_in_month(y: int, m: int) -> int {
    if m == 2 {
        if spec_is_leap_year(y) { 29 } else { 28 }
    } else if m == 4 || m == 6 || m == 9 || m == 11 {
        30
    } else {
        31
    }
}

/// A valid calendar date in the range the canonical form can write.
pub open spec fn spec_valid_date(y: int, m: int, d: int) -> bool {
    0 <= y <= 9999 && 1 <= m <= 12 && 1 <= d <= spec_days_in_month(y, m)
}

/// The day after `(y, m, d)`, rolling over month and year boundaries.
pub open spec fn spec_next(y: int, m: int, d: int) -> (int, int, int) {
    if d < spec_days_in_month(y, m) {
        (y, m, d + 1)
    } else if m < 12 {
        (y, m + 1, 1)
    } else {
        (y + 1, 1, 1)
    }
}

/// The day before `(y, m, d)`, rolling over month and year boundaries.
pub open spec fn spec_previous(y: int, m: int, d: int) -> (int, int, int) {
    if d > 1 {
        (y, m, d - 1)
    } else if m > 1 {
        (y, m - 1, spec_days_in_month(y, m - 1))
    } else {
        (y - 1, 12, 31)
    }
}

/// The decimal digit character for `v` (meaningful for 0..=9).
pub open spec fn spec_digit_char(v: int) -> char {
    if v == 0 { '0' }
    else if v == 1 { '1' }
    else if v == 2 { '2' }
    else if v == 3 { '3' }
    else if v == 4 { '4' }
    else if v == 5 { '5' }
    else if v == 6 { '6' }
    else if v == 7 { '7' }
    else if v == 8 { '8' }
    else { '9' }
}

/// Whether `c` is a decimal digit character.
pub open spec fn is_digit(c: char) -> bool {
    48 <= c as int <= 57
}

/// The value of the digit character `c` (meaningful when `is_digit(c)`).
pub open spec fn digit_val(c: char) -> int {
    c as int - 48
}

/// The canonical ten-character text of the date `(y, m, d)`.
pub open spec fn date_str(y: int, m: int, d: int) -> Seq<char> {
    seq![
        spec_digit_char(y / 1000),
        spec_digit_char((y / 100) % 10),
        spec_digit_char((y / 10) % 10),
        spec_digit_char(y % 10),
        '-',
        spec_digit_char(m / 10),
        spec_digit_char(m % 10),
        '-',
        spec_digit_char(d / 10),
        spec_digit_char(d % 10),
    ]
}

/// Whether `s` matches the `YYYY-MM-DD` grammar (shape only, not calendar
/// validity).
pub open spec fn date_text_shape(s: Seq<char>) -> bool {
    &&& s.len() == 10
    &&& is_digit(s[0])
    &&& is_digit(s[1])
    &&& is_digit(s[2])
    &&& is_digit(s[3])
    &&& s[4] == '-'
    &&& is_digit(s[5])
    &&& is_digit(s[6])
    &&& s[7] == '-'
    &&& is_digit(s[8])
    &&& is_digit(s[9])
}

/// The year a shaped date text encodes.
pub open spec fn year_of(s: Seq<char>) -> int {
    digit_val(s[0]) * 1000 + digit_val(s[1]) * 100 + digit_val(s[2]) * 10 + digit_val(s[3])
}

/// The month a shaped date text encodes.
pub open spec fn month_of(s: Seq<char>) -> int {
    digit_val(s[5]) * 10 + digit_val(s[6])
}

/// The day a shaped date text encodes.
pub open spec fn day_of(s: Seq<char>) -> int {
    digit_val(s[8]) * 10 + digit_val(s[9])
}

/// Strict parsing of a date text: the year, month and day it encodes,
/// or nothing where the text is out of grammar or no real calendar date.
pub open spec fn spec_parse(s: Seq<char>) -> Option<(int, int, int)> {
    if date_text_shape(s) && spec_valid_date(year_of(s), month_of(s), day_of(s)) {
        Some((year_of(s), month_of(s), day_of(s)))
    } else {
        None
    }
}

/// Why a date text was rejected: out of the `YYYY-MM-DD` grammar, or
/// shaped right but no real calendar date (month 13, Feb 30, ...).
/// Either way the fault is the client's.
#[derive(Clone, Copy, Debug, PartialEq, Eq, Structural)]
pub enum DateParseError {
    BadShape,
    BadCalendar,
}

impl Date {
    pub open spec fn valid(self) -> bool {
        spec_valid_date(self.year as int, self.month as int, self.day as int)
    }

    /// The triple of plain values this date stands for.
    pub open spec fn ymd(self) -> (int, int, int) {
        (self.year as int, self.month as int, self.day as int)
    }

    pub fn new(year: u16, month: u8, day: u8) -> (r: Date)
        ensures
            r.year == year,
            r.month == month,
            r.day == day,
    {
        Date { year, month, day }
    }

    /// Decides `valid()`, so that unverified callers can test it.
    pub fn check_valid(&self) -> (r: bool)
        ensures
            r == self.valid(),
    {
        self.year <= 9999 && 1 <= self.month && self.month <= 12 && 1 <= self.day
            && self.day <= days_in_month(self.year, self.month)
    }

    /// Formats a date in its canonical `YYYY-MM-DD` text.
    pub fn format(&self) -> (r: String)
        requires
            self.valid(),
        ensures
            r@ == date_str(self.year as int, self.month as int, self.day as int),
    {
        let mut s = String::new();
        s.append(digit_str((self.year / 1000) as u8));
        s.append(digit_str(((self.year / 100) % 10) as u8));
        s.append(digit_str(((self.year / 10) % 10) as u8));
        s.append(digit_str((self.year % 10) as u8));
        proof { reveal_strlit("-"); }
        s.append("-");
        s.append(digit_str(self.month / 10));
        s.append(digit_str(self.month % 10));
        s.append("-");
        s.append(digit_str(self.day / 10));
        s.append(digit_str(self.day % 10));
        proof {
            assert(s@ =~= date_str(self.year as int, self.month as int, self.day as int));
        }
        s
    }

    /// Strictly parses a date from its canonical `YYYY-MM-DD` text.
    /// Succeeds exactly on the texts that write a valid calendar date.
    pub fn parse(s: &str) -> (r: Result<Date, DateParseError>)
        ensures
            match r {
                Ok(d) => d.valid() && spec_parse(s@) == Some(d.ymd()),
                Err(DateParseError::BadShape) => !date_text_shape(s@),
                Err(DateParseError::BadCalendar) => date_text_shape(s@)
                    && !spec_valid_date(year_of(s@), month_of(s@), day_of(s@)),
            },
            r is Err <==> spec_parse(s@) is None,
    {
        if s.unicode_len() != 10 {
            return Err(DateParseError::BadShape);
        }
        if s.get_char(4) != '-' || s.get_char(7) != '-' {
            return Err(DateParseError::BadShape);
        }
        let y0 = match digit_of(s.get_char(0)) {
            Some(v) => v,
            None => { return Err(DateParseError::BadShape); },
        };
        let y1 = match digit_of(s.get_char(1)) {
            Some(v) => v,
            None => { return Err(DateParseError::BadShape); },
        };
        let y2 = match digit_of(s.get_char(2)) {
            Some(v) => v,
            None => { return Err(DateParseError::BadShape); },
        };
        let y3 = match digit_of(s.get_char(3)) {
            Some(v) => v,
            None => { return Err(DateParseError::BadShape); },
        };
        let m0 = match digit_of(s.get_char(5)) {
            Some(v) => v,
            None => { return Err(DateParseError::BadShape); },
        };
        let m1 = match digit_of(s.get_char(6)) {
            Some(v) => v,
            None => { return Err(DateParseError::BadShape); },
        };
        let d0 = match digit_of(s.get_char(8)) {
            Some(v) => v,
            None => { return Err(DateParseError::BadShape); },
        };
        let d1 = match digit_of(s.get_char(9)) {
            Some(v) => v,
            None => { return Err(DateParseError::BadShape); },
        };
        let year: u16 = (y0 as u16) * 1000 + (y1 as u16) * 100 + (y2 as u16) * 10 + (y3 as u16);
        let month: u8 = m0 * 10 + m1;
        let day: u8 = d0 * 10 + d1;
        if month < 1 || month > 12 {
            return Err(DateParseError::BadCalendar);
        }
        if day < 1 || day > days_in_month(year, month) {
            return Err(DateParseError::BadCalendar);
        }
        Ok(Date { year, month, day })
    }

    /// Whether navigation from `d` stays inside the canonical form.
    pub fn has_neighbors(&self) -> (r: bool)
        ensures
            r == spec_has_neighbors(*self),
    {
        !(self.year == 9999 && self.month == 12 && self.day == 31)
            && !(self.year == 0 && self.month == 1 && self.day == 1)
    }

    /// The day after `d`, with exact calendar arithmetic across month and
    /// year boundaries.
    pub fn next(&self) -> (r: Date)
        requires
            self.valid(),
            !(self.year == 9999 && self.month == 12 && self.day == 31),
        ensures
            r.valid(),
            r.ymd() == spec_next(self.year as int, self.month as int, self.day as int),
    {
        if self.day < days_in_month(self.year, self.month) {
            Date { year: self.year, month: self.month, day: self.day + 1 }
        } else if self.month < 12 {
            Date { year: self.year, month: self.month + 1, day: 1 }
        } else {
            Date { year: self.year + 1, month: 1, day: 1 }
        }
    }

    /// The day before `d`, with exact calendar arithmetic across month and
    /// year boundaries.
    pub fn previous(&self) -> (r: Date)
        requires
            self.valid(),
            !(self.year == 0 && self.month == 1 && self.day == 1),
        ensures
            r.valid(),
            r.ymd() == spec_previous(self.year as int, self.month as int, self.day as int),
    {
        if self.day > 1 {
            Date { year: self.year, month: self.month, day: self.day - 1 }
        } else if self.month > 1 {
            Date { year: self.year, month: self.month - 1, day: days_in_month(self.year, self.month - 1) }
        } else {
            Date { year: self.year - 1, month: 12, day: 31 }
        }
    }
}

pub fn is_leap_year(y: u16) -> (r: bool)
    ensures
        r == spec_is_leap_year(y as int),
{
    y % 4 == 0 && (y % 100 != 0 || y % 400 == 0)
}

pub fn days_in_month(y: u16, m: u8) -> (r: u8)
    ensures
        r as int == spec_days_in_month(y as int, m as int),
{
    if m == 2 {
        if is_leap_year(y) { 29 } else { 28 }
    } else if m == 4 || m == 6 || m == 9 || m == 11 {
        30
    } else {
        31
    }
}

/// The one-character text of the digit `v`.
pub(crate) fn digit_str(v: u8) -> (r: &'static str)
    requires
        v < 10,
    ensures
        r@ =~= seq![spec_digit_char(v as int)],
{
    proof {
        reveal_strlit("0");
        reveal_strlit("1");
        reveal_strlit("2");
        reveal_strlit("3");
        reveal_strlit("4");
        reveal_strlit("5");
        reveal_strlit("6");
        reveal_strlit("7");
        reveal_strlit("8");
        reveal_strlit("9");
    }
    if v == 0 { "0" }
    else if v == 1 { "1" }
    else if v == 2 { "2" }
    else if v == 3 { "3" }
    else if v == 4 { "4" }
    else if v == 5 { "5" }
    else if v == 6 { "6" }
    else if v == 7 { "7" }
    else if v == 8 { "8" }
    else { "9" }
}


/// The value of a digit character, or nothing for any other character.
fn digit_of(c: char) -> (r: Option<u8>)
    ensures
        r is Some <==> is_digit(c),
        r is Some ==> r->0 as int == digit_val(c),
{
    let v = c as u32;
    if 48 <= v && v <= 57 {
        Some((v - 48) as u8)
    } else {
        None
    }
}


/// Whether both the previous and the next day of `d` still fit the
/// four-digit canonical form (false only at its two extreme dates).
pub open spec fn spec_has_neighbors(d: Date) -> bool {
    &&& !(d.year == 9999 && d.month == 12 && d.day == 31)
    &&& !(d.year == 0 && d.month == 1 && d.day == 1)
}




/// A digit character decodes back to its digit.
proof fn lemma_digit_round_trip(v: int)
    requires
        0 <= v <= 9,
    ensures
        is_digit(spec_digit_char(v)),
        digit_val(spec_digit_char(v)) == v,
{
}

/// Law: formatting is injective and parsing inverts it. For every valid
/// calendar date, strictly parsing its canonical text gives that date back.
pub proof fn lemma_parse_format_round_trip(y: int, m: int, d: int)
    requires
        spec_valid_date(y, m, d),
    ensures
        spec_parse(date_str(y, m, d)) == Some((y, m, d)),
{
    let s = date_str(y, m, d);
    lemma_digit_round_trip(y / 1000);
    lemma_digit_round_trip((y / 100) % 10);
    lemma_digit_round_trip((y / 10) % 10);
    lemma_digit_round_trip(y % 10);
    lemma_digit_round_trip(m / 10);
    lemma_digit_round_trip(m % 10);
    lemma_digit_round_trip(d / 10);
    lemma_digit_round_trip(d % 10);
    assert(date_text_shape(s));
    assert(year_of(s) == (y / 1000) * 1000 + ((y / 100) % 10) * 100 + ((y / 10) % 10) * 10
        + y % 10);
    lemma_four_digit_decompose(y);
    lemma_two_digit_decompose(m);
    lemma_two_digit_decompose(d);
    assert(year_of(s) == y);
    assert(month_of(s) == m);
    assert(day_of(s) == d);
}

/// A number below 10000 is rebuilt from its four decimal digits.
proof fn lemma_four_digit_decompose(y: int)
    requires
        0 <= y <= 9999,
    ensures
        (y / 1000) * 1000 + ((y / 100) % 10) * 100 + ((y / 10) % 10) * 10 + y % 10 == y,
{
    assert((y / 1000) * 1000 + ((y / 100) % 10) * 100 + ((y / 10) % 10) * 10 + y % 10 == y)
        by (nonlinear_arith)
        requires 0 <= y <= 9999;
}

/// A number below 100 is rebuilt from its two decimal digits.
proof fn lemma_two_digit_decompose(m: int)
    requires
        0 <= m <= 99,
    ensures
        (m / 10) * 10 + m % 10 == m,
{
    assert((m / 10) * 10 + m % 10 == m) by (nonlinear_arith)
        requires 0 <= m <= 99;
}

/// Law: stepping a day forward and back returns to the same date,
/// across month and year boundaries too. The one date left out is the
/// last one the canonical form can write, whose next day it cannot.
pub proof fn lemma_previous_next_round_trip(y: int, m: int, d: int)
    requires
        spec_valid_date(y, m, d),
        !(y == 9999 && m == 12 && d == 31),
    ensures
        spec_valid_date(spec_next(y, m, d).0, spec_next(y, m, d).1, spec_next(y, m, d).2),
        spec_previous(spec_next(y, m, d).0, spec_next(y, m, d).1, spec_next(y, m, d).2)
            == (y, m, d),
{
}

/// Law: stepping a day back and forward returns to the same date,
/// across month and year boundaries too. The one date left out is the
/// first one the canonical form can write, whose previous day it cannot.
pub proof fn lemma_next_previous_round_trip(y: int, m: int, d: int)
    requires
        spec_valid_date(y, m, d),
        !(y == 0 && m == 1 && d == 1),
    ensures
        spec_valid_date(
            spec_previous(y, m, d).0,
            spec_previous(y, m, d).1,
            spec_previous(y, m, d).2,
        ),
        spec_next(spec_previous(y, m, d).0, spec_previous(y, m, d).1, spec_previous(y, m, d).2)
            == (y, m, d),
{
}

} // verus!
