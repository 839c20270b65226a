use std::num::IntErrorKind;
use widget_state::numeric::{parse_numeric, Boundary, NumericInput, ParseFailure};

fn failure_of(kind: &IntErrorKind) -> Option<ParseFailure> {
    match kind {
        IntErrorKind::Empty => Some(ParseFailure::Empty),
        IntErrorKind::InvalidDigit => Some(ParseFailure::InvalidDigit),
        IntErrorKind::PosOverflow => Some(ParseFailure::TooLarge),
        _ => None,
    }
}

#[test]
fn parsing_42_succeeds() {
    assert_eq!(parse_numeric("42"), Ok(42));
}

#[test]
fn parsing_abc_fails_and_shows_in_the_boundary() {
    assert_eq!(parse_numeric("abc"), Err(ParseFailure::InvalidDigit));
    let mut field = NumericInput::new();
    field.on_input("abc");
    assert_eq!(field.result(), Err(ParseFailure::InvalidDigit));
    assert_eq!(field.raw_value(), None);
    assert_eq!(
        field.boundary(),
        Boundary::Fallback(vec!["invalid digit found in string"])
    );
}

#[test]
fn field_starts_at_zero() {
    let field = NumericInput::new();
    assert_eq!(field.result(), Ok(0));
    assert_eq!(field.raw_value(), Some(0));
    assert_eq!(field.boundary(), Boundary::Content(0));
}

#[test]
fn field_reflects_the_latest_text_only() {
    let mut field = NumericInput::new();
    field.on_input("1");
    assert_eq!(field.boundary(), Boundary::Content(1));
    field.on_input("1x");
    assert_eq!(field.result(), Err(ParseFailure::InvalidDigit));
    field.on_input("17");
    assert_eq!(field.result(), Ok(17));
    assert_eq!(field.raw_value(), Some(17));
    assert_eq!(field.boundary(), Boundary::Content(17));
    field.on_input("");
    assert_eq!(
        field.boundary(),
        Boundary::Fallback(vec!["cannot parse integer from empty string"])
    );
}

#[test]
fn empty_text_is_its_own_failure() {
    assert_eq!(parse_numeric(""), Err(ParseFailure::Empty));
}

#[test]
fn plus_sign_is_accepted_once_before_digits() {
    assert_eq!(parse_numeric("+7"), Ok(7));
    assert_eq!(parse_numeric("+0"), Ok(0));
    assert_eq!(parse_numeric("+"), Err(ParseFailure::InvalidDigit));
    assert_eq!(parse_numeric("++7"), Err(ParseFailure::InvalidDigit));
    assert_eq!(parse_numeric("7+"), Err(ParseFailure::InvalidDigit));
}

#[test]
fn minus_sign_is_no_digit() {
    assert_eq!(parse_numeric("-"), Err(ParseFailure::InvalidDigit));
    assert_eq!(parse_numeric("-1"), Err(ParseFailure::InvalidDigit));
    assert_eq!(parse_numeric("-0"), Err(ParseFailure::InvalidDigit));
}

#[test]
fn leading_zeros_do_not_count() {
    assert_eq!(parse_numeric("0"), Ok(0));
    assert_eq!(parse_numeric("0042"), Ok(42));
    assert_eq!(parse_numeric("00000000004294967295"), Ok(u32::MAX));
}

#[test]
fn largest_number_parses_and_the_next_is_too_large() {
    assert_eq!(parse_numeric("4294967295"), Ok(4294967295));
    assert_eq!(parse_numeric("4294967296"), Err(ParseFailure::TooLarge));
    assert_eq!(parse_numeric("4294967300"), Err(ParseFailure::TooLarge));
    assert_eq!(parse_numeric("99999999999999999999999"), Err(ParseFailure::TooLarge));
}

#[test]
fn first_thing_to_go_wrong_is_reported() {
    assert_eq!(parse_numeric("99999999999x"), Err(ParseFailure::TooLarge));
    assert_eq!(parse_numeric("9999x99999999"), Err(ParseFailure::InvalidDigit));
    assert_eq!(parse_numeric("429496729x"), Err(ParseFailure::InvalidDigit));
    assert_eq!(parse_numeric("4294967296x"), Err(ParseFailure::TooLarge));
}

#[test]
fn blanks_letters_and_other_scripts_are_no_digits() {
    assert_eq!(parse_numeric(" 1"), Err(ParseFailure::InvalidDigit));
    assert_eq!(parse_numeric("1 "), Err(ParseFailure::InvalidDigit));
    assert_eq!(parse_numeric("1_000"), Err(ParseFailure::InvalidDigit));
    assert_eq!(parse_numeric("0x10"), Err(ParseFailure::InvalidDigit));
    assert_eq!(parse_numeric("1.5"), Err(ParseFailure::InvalidDigit));
    assert_eq!(parse_numeric("\u{ff14}\u{ff12}"), Err(ParseFailure::InvalidDigit));
    assert_eq!(parse_numeric("4\u{e9}"), Err(ParseFailure::InvalidDigit));
}

#[test]
fn descriptions_of_the_failures() {
    assert_eq!(
        ParseFailure::Empty.description(),
        "cannot parse integer from empty string"
    );
    assert_eq!(
        ParseFailure::InvalidDigit.description(),
        "invalid digit found in string"
    );
    assert_eq!(
        ParseFailure::TooLarge.description(),
        "number too large to fit in target type"
    );
}

#[test]
fn boundary_lists_the_description_of_each_failure() {
    for (text, failure) in [
        ("", ParseFailure::Empty),
        ("abc", ParseFailure::InvalidDigit),
        ("4294967296", ParseFailure::TooLarge),
    ] {
        let mut field = NumericInput::new();
        field.on_input(text);
        assert_eq!(field.result(), Err(failure));
        assert_eq!(field.boundary(), Boundary::Fallback(vec![failure.description()]));
    }
}

#[test]
fn agrees_with_the_standard_parser() {
    let texts = [
        "", "0", "1", "42", "+42", "-42", "+", "-", "++1", "+-1", "abc", "12a", "a12", " 12",
        "12 ", "007", "4294967295", "4294967296", "42949672950", "+4294967295", "+4294967296",
        "99999999999x", "x99999999999", "9999x99999999", "1e3", "1_0", "\u{ff11}", "12345678",
        "123456789", "1234567890", "0000000000000000000001", "4294967295x", "429496729\u{e9}",
    ];
    for text in texts {
        let ours = parse_numeric(text);
        match text.parse::<u32>() {
            Ok(number) => assert_eq!(ours, Ok(number), "text {text:?}"),
            Err(error) => {
                let failure = failure_of(error.kind()).unwrap();
                assert_eq!(ours, Err(failure), "text {text:?}");
                assert_eq!(failure.description(), error.to_string(), "text {text:?}");
            }
        }
    }
}

#[test]
fn every_number_parses_back_from_its_decimal_form() {
    for number in [0u32, 1, 9, 10, 99, 100, 65535, 65536, 1_000_000, u32::MAX - 1, u32::MAX] {
        assert_eq!(parse_numeric(&number.to_string()), Ok(number));
        assert_eq!(parse_numeric(&format!("+{number}")), Ok(number));
    }
}
