use vstd::prelude::*;

use crate::text::{
    dec2_seq, dec4_seq, digit_char, digit_of_char, digit_str, digit_val, is_digit,
    lemma_digit_char_val,
};
use vstd::arithmetic::div_mod::{lemma_div_denominator, lemma_fundamental_div_mod};

verus! {

/// A calendar date in the proleptic Gregorian calendar, years 1 through 9999.
#[derive(Clone, Copy, PartialEq, Eq, Structural, Debug)]
pub struct Date {
    pub year: u16,
    pub month: u8,
    pub day: u8,
}

/// Gregorian leap-year rule.
pub open spec fn is_leap_year(y: int) -> bool {
    (y % 4 == 0 && y % 100 != 0) || y % 400 == 0
}

/// The number of days in month `m` of year `y`, for `m` in 1..=12.
pub open spec fn days_in_month(y: int, m: int) -> int {
    if m == 2 {
        if is_leap_year(y) {
            29
        } else {
            28
        }
    } else if m == 4 || m == 6 || m == 9 || m == 11 {
        30
    } else {
        31
    }
}

/// The number of days in year `y`.
pub open spec fn days_in_year(y: int) -> int {
    if is_leap_year(y) {
        366
    } else {
        365
    }
}

/// The number of days in the months of year `y` before month `m`,
/// for `m` in 1..=13.
pub open spec fn days_before_month(y: int, m: int) -> int {
    let leap: int = if is_leap_year(y) {
        1
    } else {
        0
    };
    if m <= 1 {
        0
    } else if m == 2 {
        31
    } else if m == 3 {
        59 + leap
    } else if m == 4 {
        90 + leap
    } else if m == 5 {
        120 + leap
    } else if m == 6 {
        151 + leap
    } else if m == 7 {
        181 + leap
    } else if m == 8 {
        212 + leap
    } else if m == 9 {
        243 + leap
    } else if m == 10 {
        273 + leap
    } else if m == 11 {
        304 + leap
    } else {
        334 + leap
    }
}

/// The number of days in all years from year 1 up to, excluding, year `y`.
pub open spec fn days_before_year(y: int) -> int
    decreases y,
{
    if y <= 1 {
        0
    } else {
        days_before_year(y - 1) + days_in_year(y - 1)
    }
}

/// The rank of a date: the number of days from the first of January
/// of year 1 to the date.
pub open spec fn spec_day_number(d: Date) -> int {
    days_before_year(d.year as int) + days_before_month(d.year as int, d.month as int) + (
    d.day - 1)
}

/// Strict calendar order: `a` is an earlier date than `b`.
pub open spec fn date_lt(a: Date, b: Date) -> bool {
    a.year < b.year || (a.year == b.year && a.month < b.month) || (a.year == b.year && a.month
        == b.month && a.day < b.day)
}

/// Calendar order, allowing equality.
pub open spec fn date_le(a: Date, b: Date) -> bool {
    date_lt(a, b) || a == b
}

impl Date {
    /// A well-formed date: every field within its calendar range.
    pub open spec fn wf(self) -> bool {
        1 <= self.year <= 9999 && 1 <= self.month <= 12 && 1 <= self.day <= days_in_month(
            self.year as int,
            self.month as int,
        )
    }

    /// Builds a date after checking the calendar ranges.
    pub fn new(year: u16, month: u8, day: u8) -> (r: Option<Date>)
        ensures
            match r {
                Some(d) => d.wf() && d == (Date { year, month, day }),
                None => !(Date { year, month, day }).wf(),
            },
    {
        if 1 <= year && year <= 9999 && 1 <= month && month <= 12 && 1 <= day && day
            <= month_length(year, month) {
            Some(Date { year, month, day })
        } else {
            None
        }
    }

    /// True if every field of the date lies within its calendar range.
    pub fn is_well_formed(&self) -> (r: bool)
        ensures
            r == self.wf(),
    {
        1 <= self.year && self.year <= 9999 && 1 <= self.month && self.month <= 12 && 1 <= self.day
            && self.day <= month_length(self.year, self.month)
    }

    /// The rank of the date: days elapsed since the first of January of year 1.
    pub fn day_number(&self) -> (n: u32)
        requires
            self.wf(),
        ensures
            n == spec_day_number(*self),
    {
        let mut acc: u32 = 0;
        let mut y: u16 = 1;
        while y < self.year
            invariant
                1 <= y <= self.year,
                self.year <= 9999,
                acc == days_before_year(y as int),
                acc <= 366 * (y - 1),
            decreases self.year - y,
        {
            acc = acc + year_length(y) as u32;
            y = y + 1;
        }
        let before_months: u16 = months_length_before(self.year, self.month);
        acc + before_months as u32 + (self.day - 1) as u32
    }

    /// True if `self` is an earlier date than `other`.
    pub fn is_before(&self, other: &Date) -> (r: bool)
        ensures
            r == date_lt(*self, *other),
    {
        self.year < other.year || (self.year == other.year && self.month < other.month) || (
        self.year == other.year && self.month == other.month && self.day < other.day)
    }
}

/// True if `y` is a leap year.
pub fn is_leap(y: u16) -> (r: bool)
    ensures
        r == is_leap_year(y as int),
{
    (y % 4 == 0 && y % 100 != 0) || y % 400 == 0
}

/// The number of days in month `m` of year `y`.
pub fn month_length(y: u16, m: u8) -> (r: u8)
    requires
        1 <= m <= 12,
    ensures
        r == days_in_month(y as int, m as int),
{
    if m == 2 {
        if is_leap(y) {
            29
        } else {
            28
        }
    } else if m == 4 || m == 6 || m == 9 || m == 11 {
        30
    } else {
        31
    }
}

/// The number of days in year `y`.
pub fn year_length(y: u16) -> (r: u16)
    ensures
        r == days_in_year(y as int),
{
    if is_leap(y) {
        366
    } else {
        365
    }
}

/// The number of days in the months of year `y` before month `m`.
pub fn months_length_before(y: u16, m: u8) -> (r: u16)
    requires
        1 <= m <= 12,
    ensures
        r == days_before_month(y as int, m as int),
{
    let leap: u16 = if is_leap(y) {
        1
    } else {
        0
    };
    if m == 1 {
        0
    } else if m == 2 {
        31
    } else if m == 3 {
        59 + leap
    } else if m == 4 {
        90 + leap
    } else if m == 5 {
        120 + leap
    } else if m == 6 {
        151 + leap
    } else if m == 7 {
        181 + leap
    } else if m == 8 {
        212 + leap
    } else if m == 9 {
        243 + leap
    } else if m == 10 {
        273 + leap
    } else if m == 11 {
        304 + leap
    } else {
        334 + leap
    }
}

/// The ISO text of a date: four year digits, two month digits and two
/// day digits, zero-padded, separated by dashes.
pub open spec fn iso_date_seq(d: Date) -> Seq<char> {
    dec4_seq(d.year as nat) + seq!['-'] + dec2_seq(d.month as nat) + seq!['-'] + dec2_seq(
        d.day as nat,
    )
}

/// The date that a piece of ISO text denotes: exactly ten characters,
/// digits and dashes in place, and the fields within their calendar ranges.
pub open spec fn spec_parse_iso_date(s: Seq<char>) -> Option<Date> {
    if s.len() == 10 && is_digit(s[0]) && is_digit(s[1]) && is_digit(s[2]) && is_digit(s[3]) && s[4]
        == '-' && is_digit(s[5]) && is_digit(s[6]) && s[7] == '-' && is_digit(s[8]) && is_digit(
        s[9],
    ) {
        let y = 1000 * digit_val(s[0]) + 100 * digit_val(s[1]) + 10 * digit_val(s[2]) + digit_val(
            s[3],
        );
        let m = 10 * digit_val(s[5]) + digit_val(s[6]);
        let d = 10 * digit_val(s[8]) + digit_val(s[9]);
        let date = Date { year: y as u16, month: m as u8, day: d as u8 };
        if date.wf() {
            Some(date)
        } else {
            None
        }
    } else {
        None
    }
}

impl Date {
    /// Renders the date as ISO text.
    pub fn iso_string(&self) -> (r: String)
        requires
            self.wf(),
        ensures
            r@ == iso_date_seq(*self),
    {
        proof {
            reveal_strlit("-");
        }
        let y = self.year;
        let mut s = String::new();
        s.append(digit_str((y / 1000) as u64));
        s.append(digit_str(((y / 100) % 10) as u64));
        s.append(digit_str(((y / 10) % 10) as u64));
        s.append(digit_str((y % 10) as u64));
        s.append("-");
        s.append(digit_str((self.month / 10) as u64));
        s.append(digit_str((self.month % 10) as u64));
        s.append("-");
        s.append(digit_str((self.day / 10) as u64));
        s.append(digit_str((self.day % 10) as u64));
        proof {
            assert(s@ =~= iso_date_seq(*self));
        }
        s
    }
}

/// Reads a date from ISO text; nothing for any other text.
pub fn parse_iso_date(s: &str) -> (r: Option<Date>)
    ensures
        r == spec_parse_iso_date(s@),
{
    let n = s.unicode_len();
    if n != 10 {
        return None;
    }
    let d0 = match digit_of_char(s.get_char(0)) {
        Some(v) => v,
        None => { return None },
    };
    let d1 = match digit_of_char(s.get_char(1)) {
        Some(v) => v,
        None => { return None },
    };
    let d2 = match digit_of_char(s.get_char(2)) {
        Some(v) => v,
        None => { return None },
    };
    let d3 = match digit_of_char(s.get_char(3)) {
        Some(v) => v,
        None => { return None },
    };
    if s.get_char(4) != '-' {
        return None;
    }
    let d5 = match digit_of_char(s.get_char(5)) {
        Some(v) => v,
        None => { return None },
    };
    let d6 = match digit_of_char(s.get_char(6)) {
        Some(v) => v,
        None => { return None },
    };
    if s.get_char(7) != '-' {
        return None;
    }
    let d8 = match digit_of_char(s.get_char(8)) {
        Some(v) => v,
        None => { return None },
    };
    let d9 = match digit_of_char(s.get_char(9)) {
        Some(v) => v,
        None => { return None },
    };
    let year: u16 = 1000 * (d0 as u16) + 100 * (d1 as u16) + 10 * (d2 as u16) + (d3 as u16);
    let month: u8 = 10 * d5 + d6;
    let day: u8 = 10 * d8 + d9;
    Date::new(year, month, day)
}

/// The date that console text in the form `DD-MM-YY` denotes: two digits
/// each for day, month and year, zero-padded, separated by dashes. Years
/// 00 through 68 fall in the 2000s, years 69 through 99 in the 1900s.
pub open spec fn spec_parse_console_date(s: Seq<char>) -> Option<Date> {
    if s.len() == 8 && is_digit(s[0]) && is_digit(s[1]) && s[2] == '-' && is_digit(s[3]) && is_digit(
        s[4],
    ) && s[5] == '-' && is_digit(s[6]) && is_digit(s[7]) {
        let d = 10 * digit_val(s[0]) + digit_val(s[1]);
        let m = 10 * digit_val(s[3]) + digit_val(s[4]);
        let yy = 10 * digit_val(s[6]) + digit_val(s[7]);
        let y = if yy <= 68 {
            2000 + yy
        } else {
            1900 + yy
        };
        let date = Date { year: y as u16, month: m as u8, day: d as u8 };
        if date.wf() {
            Some(date)
        } else {
            None
        }
    } else {
        None
    }
}

/// Reads a date given as console text in the form `DD-MM-YY`, or reports
/// a parse failure for any other text.
pub fn parse_date(s: &str) -> (r: Result<Date, &'static str>)
    ensures
        match r {
            Ok(d) => spec_parse_console_date(s@) == Some(d),
            Err(m) => spec_parse_console_date(s@) is None && m@ == "Failed to parse date"@,
        },
{
    match parse_console_date_inner(s) {
        Some(d) => Ok(d),
        None => Err("Failed to parse date"),
    }
}

fn parse_console_date_inner(s: &str) -> (r: Option<Date>)
    ensures
        r == spec_parse_console_date(s@),
{
    let n = s.unicode_len();
    if n != 8 {
        return None;
    }
    let d0 = match digit_of_char(s.get_char(0)) {
        Some(v) => v,
        None => { return None },
    };
    let d1 = match digit_of_char(s.get_char(1)) {
        Some(v) => v,
        None => { return None },
    };
    if s.get_char(2) != '-' {
        return None;
    }
    let d3 = match digit_of_char(s.get_char(3)) {
        Some(v) => v,
        None => { return None },
    };
    let d4 = match digit_of_char(s.get_char(4)) {
        Some(v) => v,
        None => { return None },
    };
    if s.get_char(5) != '-' {
        return None;
    }
    let d6 = match digit_of_char(s.get_char(6)) {
        Some(v) => v,
        None => { return None },
    };
    let d7 = match digit_of_char(s.get_char(7)) {
        Some(v) => v,
        None => { return None },
    };
    let day: u8 = 10 * d0 + d1;
    let month: u8 = 10 * d3 + d4;
    let yy: u16 = 10 * (d6 as u16) + (d7 as u16);
    let year: u16 = if yy <= 68 {
        2000 + yy
    } else {
        1900 + yy
    };
    Date::new(year, month, day)
}

/// Splitting a value below ten thousand into its four decimal digits and
/// reassembling them gives the value back.
proof fn lemma_four_digits(y: int)
    requires
        0 <= y <= 9999,
    ensures
        1000 * (y / 1000) + 100 * ((y / 100) % 10) + 10 * ((y / 10) % 10) + y % 10 == y,
{
    lemma_fundamental_div_mod(y, 10);
    lemma_fundamental_div_mod(y / 10, 10);
    lemma_fundamental_div_mod(y / 100, 10);
    lemma_div_denominator(y, 10, 10);
    lemma_div_denominator(y, 100, 10);
}

/// Splitting a value below one hundred into its two decimal digits and
/// reassembling them gives the value back.
proof fn lemma_two_digits(m: int)
    requires
        0 <= m <= 99,
    ensures
        10 * (m / 10) + m % 10 == m,
{
    lemma_fundamental_div_mod(m, 10);
}

/// Rendering a well-formed date as ISO text and reading it back yields
/// the same date.
pub proof fn lemma_iso_round_trip(d: Date)
    requires
        d.wf(),
    ensures
        spec_parse_iso_date(iso_date_seq(d)) == Some(d),
{
    let s = iso_date_seq(d);
    let y = d.year as int;
    let m = d.month as int;
    let dd = d.day as int;
    assert(s.len() == 10);
    assert(s[0] == digit_char(y / 1000));
    assert(s[1] == digit_char((y / 100) % 10));
    assert(s[2] == digit_char((y / 10) % 10));
    assert(s[3] == digit_char(y % 10));
    assert(s[4] == '-');
    assert(s[5] == digit_char(m / 10));
    assert(s[6] == digit_char(m % 10));
    assert(s[7] == '-');
    assert(s[8] == digit_char(dd / 10));
    assert(s[9] == digit_char(dd % 10));
    lemma_digit_char_val(y / 1000);
    lemma_digit_char_val((y / 100) % 10);
    lemma_digit_char_val((y / 10) % 10);
    lemma_digit_char_val(y % 10);
    lemma_digit_char_val(m / 10);
    lemma_digit_char_val(m % 10);
    lemma_digit_char_val(dd / 10);
    lemma_digit_char_val(dd % 10);
    lemma_four_digits(y);
    lemma_two_digits(m);
    lemma_two_digits(dd);
}

/// For a well-formed date, the offset of the date within its year lies
/// strictly below the length of the year.
pub proof fn lemma_offset_in_year(d: Date)
    requires
        d.wf(),
    ensures
        0 <= days_before_month(d.year as int, d.month as int) + (d.day - 1) < days_in_year(
            d.year as int,
        ),
{
}

/// Whole earlier years contribute strictly fewer days: the days up to the
/// end of year `y1` never pass the days before a later year `y2`.
pub proof fn lemma_days_before_year_step(y1: int, y2: int)
    requires
        1 <= y1 < y2,
    ensures
        days_before_year(y1) + days_in_year(y1) <= days_before_year(y2),
    decreases y2,
{
    if y2 == y1 + 1 {
    } else {
        lemma_days_before_year_step(y1, y2 - 1);
    }
}

/// The rank respects calendar order, and is injective on well-formed dates.
pub proof fn lemma_day_number_order(a: Date, b: Date)
    requires
        a.wf(),
        b.wf(),
    ensures
        date_lt(a, b) <==> spec_day_number(a) < spec_day_number(b),
        a == b <==> spec_day_number(a) == spec_day_number(b),
{
    lemma_offset_in_year(a);
    lemma_offset_in_year(b);
    if a.year < b.year {
        lemma_days_before_year_step(a.year as int, b.year as int);
    }
    if b.year < a.year {
        lemma_days_before_year_step(b.year as int, a.year as int);
    }
}

} // verus!
