use nrgaccounts::dates::Date;
use nrgaccounts::readings::{find_change, ChangeError, Reading, ReadingPair};

fn date(year: u16, month: u8, day: u8) -> Date {
    Date::new(year, month, day).expect("a valid date")
}

#[test]
fn test_find_change() {
    let first = Reading {
        date: date(2001, 1, 1),
        generation: 10_000,
        exports: 7_000,
        imports: 2_000,
    };

    let second = Reading {
        date: date(2001, 1, 5),
        generation: 30_000,
        exports: 19_000,
        imports: 6_000,
    };

    let pair = ReadingPair { first, second };

    let change = find_change(&pair).expect("a positive day span");
    assert_eq!(change.generation, 5_000);
    assert_eq!(change.exports, 3_000);
    assert_eq!(change.imports, 1_000);
}

#[test]
fn days_spanned_across_years() {
    let first = Reading { date: date(2019, 12, 30), generation: 0, exports: 0, imports: 0 };
    let second = Reading { date: date(2020, 1, 2), generation: 0, exports: 0, imports: 0 };
    let pair = ReadingPair { first, second };
    assert_eq!(pair.days_spanned(), 3);
}

#[test]
fn days_spanned_leap_february() {
    let first = Reading { date: date(2020, 2, 28), generation: 0, exports: 0, imports: 0 };
    let second = Reading { date: date(2020, 3, 1), generation: 0, exports: 0, imports: 0 };
    let pair = ReadingPair { first, second };
    assert_eq!(pair.days_spanned(), 2);

    let first = Reading { date: date(1900, 2, 28), generation: 0, exports: 0, imports: 0 };
    let second = Reading { date: date(1900, 3, 1), generation: 0, exports: 0, imports: 0 };
    let pair = ReadingPair { first, second };
    assert_eq!(pair.days_spanned(), 1);
}

#[test]
fn zero_day_span_is_degenerate() {
    let first = Reading {
        date: date(2019, 10, 4),
        generation: 10_000,
        exports: 7_000,
        imports: 2_000,
    };
    let second = Reading {
        date: date(2019, 10, 4),
        generation: 30_000,
        exports: 19_000,
        imports: 6_000,
    };
    let pair = ReadingPair { first, second };
    assert_eq!(find_change(&pair), Err(ChangeError::DegenerateRange));
}

#[test]
fn negative_day_span_is_degenerate() {
    let first = Reading {
        date: date(2019, 10, 5),
        generation: 10_000,
        exports: 7_000,
        imports: 2_000,
    };
    let second = Reading {
        date: date(2019, 10, 4),
        generation: 30_000,
        exports: 19_000,
        imports: 6_000,
    };
    let pair = ReadingPair { first, second };
    assert_eq!(find_change(&pair), Err(ChangeError::DegenerateRange));
}

#[test]
fn find_change_rounds_toward_zero() {
    let first = Reading { date: date(2021, 6, 1), generation: 0, exports: 500, imports: 0 };
    let second = Reading { date: date(2021, 6, 4), generation: 1_000, exports: 0, imports: 0 };
    let pair = ReadingPair { first, second };
    let change = find_change(&pair).expect("a positive day span");
    // 1000 / 3 truncated, and -500 / 3 truncated toward zero.
    assert_eq!(change.generation, 333);
    assert_eq!(change.exports, -166);
}
