use nrgaccounts::dates::{parse_date, parse_iso_date, Date};

fn date(year: u16, month: u8, day: u8) -> Date {
    Date::new(year, month, day).expect("a valid date")
}

#[test]
fn good_date_input() {
    let actual_result = parse_date("31-12-99");
    let expected_result = Ok(date(1999, 12, 31));
    assert_eq!(actual_result, expected_result);
}

#[test]
fn bad_date_input() {
    let actual_result = parse_date("*31-12-99");
    let expected_result = Err("Failed to parse date");
    assert_eq!(actual_result, expected_result);
}

#[test]
fn console_years_split_between_centuries() {
    assert_eq!(parse_date("01-01-68"), Ok(date(2068, 1, 1)));
    assert_eq!(parse_date("01-01-69"), Ok(date(1969, 1, 1)));
    assert_eq!(parse_date("01-01-00"), Ok(date(2000, 1, 1)));
}

#[test]
fn console_date_respects_month_lengths() {
    assert_eq!(parse_date("29-02-00"), Ok(date(2000, 2, 29)));
    assert_eq!(parse_date("29-02-99"), Err("Failed to parse date"));
    assert_eq!(parse_date("31-04-19"), Err("Failed to parse date"));
    assert_eq!(parse_date("00-01-19"), Err("Failed to parse date"));
    assert_eq!(parse_date("01-13-19"), Err("Failed to parse date"));
}

#[test]
fn iso_text_round_trips() {
    let d = date(2019, 10, 4);
    let text = d.iso_string();
    assert_eq!(text, "2019-10-04");
    assert_eq!(parse_iso_date(&text), Some(d));
}

#[test]
fn iso_text_rejects_malformed_input() {
    assert_eq!(parse_iso_date("2019-10-4"), None);
    assert_eq!(parse_iso_date("2019/10/04"), None);
    assert_eq!(parse_iso_date("2019-13-01"), None);
    assert_eq!(parse_iso_date("2019-02-29"), None);
    assert_eq!(parse_iso_date("0000-01-01"), None);
    assert_eq!(parse_iso_date(""), None);
    assert_eq!(parse_iso_date("2019-10-04x"), None);
}

#[test]
fn day_numbers_count_from_year_one() {
    assert_eq!(date(1, 1, 1).day_number(), 0);
    assert_eq!(date(1, 1, 2).day_number(), 1);
    assert_eq!(date(1, 2, 1).day_number(), 31);
    assert_eq!(date(2, 1, 1).day_number(), 365);
}

#[test]
fn day_numbers_order_dates() {
    let a = date(2019, 10, 10).day_number();
    let b = date(2019, 10, 12).day_number();
    let c = date(2019, 10, 11).day_number();
    assert_eq!(b - a, 2);
    assert_eq!(c - a, 1);
    assert!(a < c && c < b);
}
