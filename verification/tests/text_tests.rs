use nrgaccounts::text::{fixed2_string, parse_kwh, u64_to_string};

#[test]
fn numerals_render_unpadded() {
    assert_eq!(u64_to_string(0), "0");
    assert_eq!(u64_to_string(7), "7");
    assert_eq!(u64_to_string(10), "10");
    assert_eq!(u64_to_string(1234567890), "1234567890");
}

#[test]
fn fixed_point_rendering_rounds_half_up() {
    assert_eq!(fixed2_string(2_344, 10), "2.34");
    assert_eq!(fixed2_string(2_345, 10), "2.35");
    assert_eq!(fixed2_string(2_346, 10), "2.35");
    assert_eq!(fixed2_string(-2_345, 10), "-2.35");
    assert_eq!(fixed2_string(0, 10), "0.00");
    assert_eq!(fixed2_string(5, 10), "0.01");
    assert_eq!(fixed2_string(1_000_000_000, 10), "1000000.00");
}

#[test]
fn tiny_negative_amounts_show_without_a_sign() {
    // Rounds to 0.00, so no minus sign is shown.
    assert_eq!(fixed2_string(-4, 10), "0.00");
}

#[test]
fn kwh_text_parses_to_thousandths() {
    assert_eq!(parse_kwh("12.5"), Some(12_500));
    assert_eq!(parse_kwh("0.001"), Some(1));
    assert_eq!(parse_kwh("3"), Some(3_000));
    assert_eq!(parse_kwh("-3"), Some(-3_000));
    assert_eq!(parse_kwh("-0.5"), Some(-500));
    assert_eq!(parse_kwh("007"), Some(7_000));
    assert_eq!(parse_kwh("123456.789"), Some(123_456_789));
}

#[test]
fn kwh_text_rejects_malformed_input() {
    assert_eq!(parse_kwh(""), None);
    assert_eq!(parse_kwh("-"), None);
    assert_eq!(parse_kwh("1."), None);
    assert_eq!(parse_kwh(".5"), None);
    assert_eq!(parse_kwh("12.3456"), None);
    assert_eq!(parse_kwh("1e3"), None);
    assert_eq!(parse_kwh("+2"), None);
    assert_eq!(parse_kwh("1234567"), None);
    assert_eq!(parse_kwh("--1"), None);
    assert_eq!(parse_kwh("1.2.3"), None);
}
