use vstd::prelude::*;

use crate::readings::{abs_int, MAX_READING_MILLIKWH};

verus! {

/// The decimal digit character for a value in 0..=9.
pub open spec fn digit_char(d: int) -> char {
    if d == 0 {
        '0'
    } else if d == 1 {
        '1'
    } else if d == 2 {
        '2'
    } else if d == 3 {
        '3'
    } else if d == 4 {
        '4'
    } else if d == 5 {
        '5'
    } else if d == 6 {
        '6'
    } else if d == 7 {
        '7'
    } else if d == 8 {
        '8'
    } else {
        '9'
    }
}

/// True for the ten decimal digit characters.
pub open spec fn is_digit(c: char) -> bool {
    c == '0' || c == '1' || c == '2' || c == '3' || c == '4' || c == '5' || c == '6' || c == '7'
        || c == '8' || c == '9'
}

/// The value of a decimal digit character; meaningful only when `is_digit(c)`.
pub open spec fn digit_val(c: char) -> int {
    if c == '0' {
        0
    } else if c == '1' {
        1
    } else if c == '2' {
        2
    } else if c == '3' {
        3
    } else if c == '4' {
        4
    } else if c == '5' {
        5
    } else if c == '6' {
        6
    } else if c == '7' {
        7
    } else if c == '8' {
        8
    } else {
        9
    }
}

/// Reading back the character of a digit yields the digit.
pub proof fn lemma_digit_char_val(d: int)
    requires
        0 <= d <= 9,
    ensures
        is_digit(digit_char(d)),
        digit_val(digit_char(d)) == d,
{
}

/// The unpadded decimal numeral of a natural number.
pub open spec fn dec_seq(n: nat) -> Seq<char>
    decreases n,
{
    if n < 10 {
        seq![digit_char(n as int)]
    } else {
        dec_seq(n / 10) + seq![digit_char((n % 10) as int)]
    }
}

/// The two-digit, zero-padded numeral of a value in 0..=99.
pub open spec fn dec2_seq(n: nat) -> Seq<char> {
    seq![digit_char(n as int / 10), digit_char(n as int % 10)]
}

/// The four-digit, zero-padded numeral of a value in 0..=9999.
pub open spec fn dec4_seq(n: nat) -> Seq<char> {
    seq![
        digit_char(n as int / 1000),
        digit_char((n as int / 100) % 10),
        digit_char((n as int / 10) % 10),
        digit_char(n as int % 10),
    ]
}

/// The one-character string for a digit in 0..=9.
pub fn digit_str(d: u64) -> (r: &'static str)
    requires
        d < 10,
    ensures
        r@ == seq![digit_char(d as int)],
{
    proof {
        reveal_strlit("0");
        reveal_strlit("1");
        reveal_strlit("2");
        reveal_strlit("3");
        reveal_strlit("4");
        reveal_strlit("5");
        reveal_strlit("6");
        reveal_strlit("7");
        reveal_strlit("8");
        reveal_strlit("9");
    }
    let r = if d == 0 {
        "0"
    } else if d == 1 {
        "1"
    } else if d == 2 {
        "2"
    } else if d == 3 {
        "3"
    } else if d == 4 {
        "4"
    } else if d == 5 {
        "5"
    } else if d == 6 {
        "6"
    } else if d == 7 {
        "7"
    } else if d == 8 {
        "8"
    } else {
        "9"
    };
    proof {
        assert(r@ =~= seq![digit_char(d as int)]);
    }
    r
}

/// The value of a decimal digit character, or nothing for any other character.
pub fn digit_of_char(c: char) -> (r: Option<u8>)
    ensures
        match r {
            Some(v) => is_digit(c) && v as int == digit_val(c) && v <= 9,
            None => !is_digit(c),
        },
{
    match c {
        '0' => Some(0),
        '1' => Some(1),
        '2' => Some(2),
        '3' => Some(3),
        '4' => Some(4),
        '5' => Some(5),
        '6' => Some(6),
        '7' => Some(7),
        '8' => Some(8),
        '9' => Some(9),
        _ => None,
    }
}

/// True when every character of `s` is a decimal digit.
pub open spec fn all_digits(s: Seq<char>) -> bool {
    forall|i: int| 0 <= i < s.len() ==> is_digit(#[trigger] s[i])
}

/// The value of a string of decimal digits; meaningful only when
/// `all_digits(s)`.
pub open spec fn dec_val(s: Seq<char>) -> int
    decreases s.len(),
{
    if s.len() == 0 {
        0
    } else {
        10 * dec_val(s.drop_last()) + digit_val(s.last())
    }
}

/// Ten to the power `n`.
pub open spec fn pow10(n: nat) -> int
    decreases n,
{
    if n == 0 {
        1
    } else {
        10 * pow10((n - 1) as nat)
    }
}

/// Ten to a power is positive and grows with the exponent.
pub proof fn lemma_pow10_le(a: nat, b: nat)
    requires
        a <= b,
    ensures
        1 <= pow10(a) <= pow10(b),
    decreases b,
{
    if a == b {
        if a > 0 {
            lemma_pow10_le((a - 1) as nat, (a - 1) as nat);
        }
    } else {
        lemma_pow10_le(a, (b - 1) as nat);
    }
}

/// A string of digits denotes a value below ten to its length.
pub proof fn lemma_dec_val_bound(s: Seq<char>)
    requires
        all_digits(s),
    ensures
        0 <= dec_val(s) < pow10(s.len()),
    decreases s.len(),
{
    if s.len() > 0 {
        lemma_dec_val_bound(s.drop_last());
    }
}

/// The index of the first `.` in `s`, or the length of `s` if there is
/// none.
pub open spec fn first_dot_index(s: Seq<char>) -> int
    decreases s.len(),
{
    if s.len() == 0 {
        0
    } else if s[0] == '.' {
        0
    } else {
        1 + first_dot_index(s.skip(1))
    }
}

/// An index with no dot before it, and a dot or the end at it, is the
/// first dot index.
proof fn lemma_first_dot_characterization(s: Seq<char>, j: int)
    requires
        0 <= j <= s.len(),
        forall|i: int| 0 <= i < j ==> s[i] != '.',
        j == s.len() || s[j] == '.',
    ensures
        first_dot_index(s) == j,
    decreases s.len(),
{
    if s.len() == 0 {
    } else if s[0] == '.' {
        assert(j == 0);
    } else {
        assert(j >= 1);
        lemma_first_dot_characterization(s.skip(1), j - 1);
    }
}

/// The energy value, in thousandths of a kilowatt-hour, that console
/// text denotes: an optional minus sign, one to six whole digits, and
/// optionally a dot followed by one to three fractional digits.
pub open spec fn spec_parse_kwh(s: Seq<char>) -> Option<int> {
    let neg = s.len() > 0 && s[0] == '-';
    let b = if neg {
        s.skip(1)
    } else {
        s
    };
    let k = first_dot_index(b);
    let whole = b.subrange(0, k);
    let frac = if k < b.len() {
        b.subrange(k + 1, b.len() as int)
    } else {
        Seq::<char>::empty()
    };
    if 1 <= whole.len() <= 6 && all_digits(whole) && frac.len() <= 3 && all_digits(frac) && (k
        == b.len() || frac.len() >= 1) {
        let milli = dec_val(whole) * 1000 + dec_val(frac) * pow10((3 - frac.len()) as nat);
        if neg {
            Some(-milli)
        } else {
            Some(milli)
        }
    } else {
        None
    }
}

/// The index of the first `.` in `s` at or after `start`, or the length
/// of `s` if there is none.
fn find_dot(s: &str, start: usize) -> (j: usize)
    requires
        start <= s@.len(),
    ensures
        start <= j <= s@.len(),
        forall|i: int| start <= i < j ==> s@[i] != '.',
        j < s@.len() ==> s@[j as int] == '.',
{
    let n = s.unicode_len();
    let mut j = start;
    while j < n
        invariant
            start <= j <= n,
            n == s@.len(),
            forall|i: int| start <= i < j ==> s@[i] != '.',
        decreases n - j,
    {
        if s.get_char(j) == '.' {
            return j;
        }
        j = j + 1;
    }
    j
}

/// The value of the digits of `s` between `from` and `to`, or nothing if
/// a character there is not a digit. The range may span at most six
/// characters.
fn parse_digit_run(s: &str, from: usize, to: usize) -> (r: Option<u64>)
    requires
        from <= to <= s@.len(),
        to - from <= 6,
    ensures
        match r {
            Some(v) => all_digits(s@.subrange(from as int, to as int)) && v == dec_val(
                s@.subrange(from as int, to as int),
            ) && v < pow10((to - from) as nat),
            None => !all_digits(s@.subrange(from as int, to as int)),
        },
{
    let mut acc: u64 = 0;
    let mut i = from;
    while i < to
        invariant
            from <= i <= to,
            to <= s@.len(),
            to - from <= 6,
            all_digits(s@.subrange(from as int, i as int)),
            acc == dec_val(s@.subrange(from as int, i as int)),
            acc <= 999_999,
        decreases to - i,
    {
        let d = match digit_of_char(s.get_char(i)) {
            Some(v) => v,
            None => {
                assert(s@.subrange(from as int, to as int)[i - from] == s@[i as int]);
                return None;
            },
        };
        proof {
            assert(s@.subrange(from as int, (i + 1) as int).drop_last() =~= s@.subrange(
                from as int,
                i as int,
            ));
            lemma_dec_val_bound(s@.subrange(from as int, (i + 1) as int));
            lemma_pow10_le((i + 1 - from) as nat, 6);
            reveal_with_fuel(pow10, 7);
            assert(pow10(6) == 1_000_000);
        }
        acc = 10 * acc + (d as u64);
        i = i + 1;
    }
    assert(s@.subrange(from as int, to as int) =~= s@.subrange(from as int, i as int));
    proof {
        lemma_dec_val_bound(s@.subrange(from as int, to as int));
    }
    Some(acc)
}

/// Reads an energy in kilowatt-hours from console text: an optional
/// minus sign, up to six whole digits, and up to three decimal places.
/// The result is in thousandths of a kilowatt-hour and always lies
/// within the accepted magnitude for a reading.
pub fn parse_kwh(s: &str) -> (r: Option<i64>)
    ensures
        match r {
            Some(v) => spec_parse_kwh(s@) == Some(v as int) && -MAX_READING_MILLIKWH <= v
                <= MAX_READING_MILLIKWH,
            None => spec_parse_kwh(s@) is None,
        },
{
    let n = s.unicode_len();
    let neg = n > 0 && s.get_char(0) == '-';
    let start: usize = if neg {
        1
    } else {
        0
    };
    let ghost b = if neg {
        s@.skip(1)
    } else {
        s@
    };
    assert(b.len() == n - start);
    assert(forall|i: int| 0 <= i < b.len() ==> b[i] == s@[i + start]);
    let j = find_dot(s, start);
    let ghost k = j - start;
    proof {
        lemma_first_dot_characterization(b, k);
    }
    let whole_len = j - start;
    if whole_len < 1 || whole_len > 6 {
        assert(b.subrange(0, k).len() == k);
        return None;
    }
    let ghost whole = b.subrange(0, k);
    assert(whole =~= s@.subrange(start as int, j as int));
    let acc = match parse_digit_run(s, start, j) {
        Some(v) => v,
        None => { return None },
    };
    proof {
        reveal_with_fuel(pow10, 7);
        assert(pow10(6) == 1_000_000);
        assert(pow10(3) == 1000 && pow10(2) == 100 && pow10(1) == 10 && pow10(0) == 1);
    }
    let milli: u64 = if j == n {
        // No fractional part.
        assert(k == b.len());
        acc * 1000
    } else {
        let frac_len = n - j - 1;
        if frac_len < 1 || frac_len > 3 {
            assert(b.subrange(k + 1, b.len() as int).len() == frac_len);
            return None;
        }
        let ghost frac = b.subrange(k + 1, b.len() as int);
        assert(frac =~= s@.subrange((j + 1) as int, n as int));
        let acc2 = match parse_digit_run(s, j + 1, n) {
            Some(v) => v,
            None => { return None },
        };
        let scale: u64 = if frac_len == 1 {
            100
        } else if frac_len == 2 {
            10
        } else {
            1
        };
        assert(scale == pow10((3 - frac.len()) as nat));
        acc * 1000 + acc2 * scale
    };
    assert(milli <= 1_000_000_000);
    if neg {
        Some(-(milli as i64))
    } else {
        Some(milli as i64)
    }
}

/// A fixed-point value rendered with two decimal places, rounding half
/// up on the magnitude. `v` counts units of the value's scale and `upc`
/// is the number of such units in one hundredth; a leading minus sign
/// appears only when something nonzero is shown.
pub open spec fn fixed2_seq(v: int, upc: int) -> Seq<char> {
    let h = (abs_int(v) + upc / 2) / upc;
    let sign: Seq<char> = if v < 0 && h > 0 {
        seq!['-']
    } else {
        seq![]
    };
    sign + dec_seq((h / 100) as nat) + seq!['.'] + dec2_seq((h % 100) as nat)
}

/// Renders a fixed-point value with two decimal places, rounding half up
/// on the magnitude.
pub fn fixed2_string(v: i64, upc: i64) -> (r: String)
    requires
        -i64::MAX <= v,
        0 < upc <= 100_000_000,
    ensures
        r@ == fixed2_seq(v as int, upc as int),
{
    proof {
        reveal_strlit("-");
        reveal_strlit(".");
    }
    let av: u64 = if v < 0 {
        (-v) as u64
    } else {
        v as u64
    };
    let upcu: u64 = upc as u64;
    let h: u64 = (av + upcu / 2) / upcu;
    let mut s = String::new();
    if v < 0 && h > 0 {
        s.append("-");
    }
    let whole = u64_to_string(h / 100);
    s.append(whole.as_str());
    s.append(".");
    s.append(digit_str((h % 100) / 10));
    s.append(digit_str((h % 100) % 10));
    proof {
        assert(s@ =~= fixed2_seq(v as int, upc as int));
    }
    s
}

/// The unpadded decimal numeral of `n`, as a string.
pub fn u64_to_string(n: u64) -> (r: String)
    ensures
        r@ == dec_seq(n as nat),
    decreases n,
{
    if n < 10 {
        String::from_str(digit_str(n))
    } else {
        let mut s = u64_to_string(n / 10);
        s.append(digit_str(n % 10));
        s
    }
}

} // verus!
