use loregui::db_col_view::number::{append_number, number_text, parse_number, NumberFault};

#[test]
fn digits_are_read_as_a_number() {
    assert_eq!(parse_number("0"), Ok(0));
    assert_eq!(parse_number("7"), Ok(7));
    assert_eq!(parse_number("1984"), Ok(1984));
    assert_eq!(parse_number("007"), Ok(7));
}

#[test]
fn a_sign_may_stand_in_front() {
    assert_eq!(parse_number("+12"), Ok(12));
    assert_eq!(parse_number("-12"), Ok(-12));
    assert_eq!(parse_number("-0"), Ok(0));
}

#[test]
fn the_bounds_of_the_type_are_read() {
    assert_eq!(parse_number("2147483647"), Ok(i32::MAX));
    assert_eq!(parse_number("-2147483648"), Ok(i32::MIN));
    assert_eq!(parse_number("+2147483647"), Ok(i32::MAX));
}

#[test]
fn beyond_the_bounds_is_a_fault() {
    assert_eq!(parse_number("2147483648"), Err(NumberFault::TooLarge));
    assert_eq!(parse_number("-2147483649"), Err(NumberFault::TooSmall));
    assert_eq!(parse_number("99999999999999999999999"), Err(NumberFault::TooLarge));
    assert_eq!(parse_number("-99999999999999999999999"), Err(NumberFault::TooSmall));
}

#[test]
fn the_empty_text_is_a_fault_of_its_own() {
    assert_eq!(parse_number(""), Err(NumberFault::Empty));
}

#[test]
fn a_sign_alone_is_no_number() {
    assert_eq!(parse_number("-"), Err(NumberFault::InvalidDigit));
    assert_eq!(parse_number("+"), Err(NumberFault::InvalidDigit));
    assert_eq!(parse_number("+-1"), Err(NumberFault::InvalidDigit));
}

#[test]
fn anything_but_digits_is_a_fault() {
    assert_eq!(parse_number("12a"), Err(NumberFault::InvalidDigit));
    assert_eq!(parse_number("a12"), Err(NumberFault::InvalidDigit));
    assert_eq!(parse_number(" 12"), Err(NumberFault::InvalidDigit));
    assert_eq!(parse_number("12 "), Err(NumberFault::InvalidDigit));
    assert_eq!(parse_number("1.5"), Err(NumberFault::InvalidDigit));
    assert_eq!(parse_number("١٢"), Err(NumberFault::InvalidDigit));
}

#[test]
fn the_first_fault_from_the_left_decides() {
    assert_eq!(parse_number("99999999999x"), Err(NumberFault::TooLarge));
    assert_eq!(parse_number("9x9999999999"), Err(NumberFault::InvalidDigit));
}

#[test]
fn reading_agrees_with_the_standard_library() {
    let texts = [
        "", "0", "-0", "+0", "5", "-5", "+5", "00012", "2147483647", "2147483648", "-2147483648",
        "-2147483649", "12a", "--1", "+", "-", " 1", "1 ", "1_000", "0x10", "4294967296", "é",
    ];
    for text in texts {
        assert_eq!(parse_number(text).ok(), text.parse::<i32>().ok(), "{text:?}");
    }
}

#[test]
fn the_words_of_a_fault_are_the_standard_ones() {
    for text in ["", "x", "2147483648", "-2147483649"] {
        let fault = parse_number(text).unwrap_err();
        let standard = text.parse::<i32>().unwrap_err();
        assert_eq!(fault.message(), standard.to_string());
    }
    assert_eq!(NumberFault::Empty.message(), "cannot parse integer from empty string");
    assert_eq!(NumberFault::InvalidDigit.message(), "invalid digit found in string");
    assert_eq!(NumberFault::TooLarge.message(), "number too large to fit in target type");
    assert_eq!(NumberFault::TooSmall.message(), "number too small to fit in target type");
}

#[test]
fn a_number_is_written_in_digits() {
    assert_eq!(number_text(0), "0");
    assert_eq!(number_text(7), "7");
    assert_eq!(number_text(10), "10");
    assert_eq!(number_text(1984), "1984");
    assert_eq!(number_text(-1), "-1");
    assert_eq!(number_text(-120), "-120");
    assert_eq!(number_text(i64::MAX), "9223372036854775807");
    assert_eq!(number_text(i64::MIN), "-9223372036854775808");
}

#[test]
fn a_number_is_written_behind_a_text() {
    let mut text = String::from("year ");
    append_number(&mut text, 2024);
    assert_eq!(text, "year 2024");
    append_number(&mut text, -3);
    assert_eq!(text, "year 2024-3");
}

#[test]
fn what_is_written_is_read_back() {
    for number in [0, 1, -1, 9, 10, 99, 100, 12345, -12345, i32::MAX, i32::MIN] {
        assert_eq!(parse_number(&number_text(number as i64)), Ok(number));
        assert_eq!(number_text(number as i64), number.to_string());
    }
}
