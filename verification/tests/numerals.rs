use chat_relay::decimal::{parse_u64, to_decimal, NumeralError};
use chat_relay::ids::{string_to_user_id, ParseUserIdError, UserId};
use std::num::{IntErrorKind, NonZeroU64};

fn std_kind(text: &str) -> Result<u64, NumeralError> {
    match text.parse::<u64>() {
        Ok(n) => Ok(n),
        Err(e) => match e.kind() {
            IntErrorKind::Empty => Err(NumeralError::Empty),
            IntErrorKind::InvalidDigit => Err(NumeralError::InvalidDigit),
            IntErrorKind::PosOverflow => Err(NumeralError::PosOverflow),
            other => panic!("unexpected kind {:?}", other),
        },
    }
}

#[test]
fn reads_a_plain_identity() {
    assert_eq!(string_to_user_id("123456789012345678"), Ok(UserId(123456789012345678)));
}

fn std_identity(text: &str) -> Result<UserId, ParseUserIdError> {
    match text.parse::<NonZeroU64>() {
        Ok(n) => Ok(UserId(n.get())),
        Err(e) => match e.kind() {
            IntErrorKind::Empty => Err(ParseUserIdError::Empty),
            IntErrorKind::InvalidDigit => Err(ParseUserIdError::InvalidDigit),
            IntErrorKind::PosOverflow => Err(ParseUserIdError::PosOverflow),
            IntErrorKind::Zero => Err(ParseUserIdError::Zero),
            other => panic!("unexpected kind {:?}", other),
        },
    }
}

#[test]
fn reads_leading_zeros() {
    assert_eq!(string_to_user_id("007"), Ok(UserId(7)));
    assert_eq!(parse_u64("0"), Ok(0));
    assert_eq!(parse_u64("000"), Ok(0));
}

#[test]
fn refuses_the_identity_zero_in_every_spelling() {
    for text in ["0", "+0", "000", "+0000000000000000000000000"] {
        assert_eq!(string_to_user_id(text), Err(ParseUserIdError::Zero), "on {:?}", text);
    }
    assert_eq!(string_to_user_id("1"), Ok(UserId(1)));
    assert_eq!(string_to_user_id("+01"), Ok(UserId(1)));
    assert_eq!(string_to_user_id("10"), Ok(UserId(10)));
}

#[test]
fn identity_errors_follow_the_numeral() {
    assert_eq!(string_to_user_id("12a"), Err(ParseUserIdError::InvalidDigit));
    assert_eq!(string_to_user_id("-0"), Err(ParseUserIdError::InvalidDigit));
    assert_eq!(string_to_user_id("+"), Err(ParseUserIdError::InvalidDigit));
    assert_eq!(string_to_user_id("18446744073709551616"), Err(ParseUserIdError::PosOverflow));
    assert_eq!(string_to_user_id("18446744073709551615"), Ok(UserId(u64::MAX)));
}

#[test]
fn identities_agree_with_the_standard_parser_for_non_zero_numbers() {
    let samples = [
        "", "0", "1", "+", "-", "+0", "-0", "00", "+12", "12+", "a", "1a", "0a", "a0",
        "18446744073709551615", "18446744073709551616", "+18446744073709551615", " 1", "42",
        "0000000000000000000000000", "00000000000000000000000001",
    ];
    for text in samples {
        assert_eq!(string_to_user_id(text), std_identity(text), "on {:?}", text);
    }
}

#[test]
fn accepts_one_leading_plus() {
    assert_eq!(parse_u64("+7"), Ok(7));
    assert_eq!(parse_u64("++7"), Err(NumeralError::InvalidDigit));
}

#[test]
fn refuses_empty_text() {
    assert_eq!(string_to_user_id(""), Err(ParseUserIdError::Empty));
    assert_eq!(parse_u64(""), Err(NumeralError::Empty));
}

#[test]
fn refuses_a_lone_sign() {
    assert_eq!(parse_u64("+"), Err(NumeralError::InvalidDigit));
    assert_eq!(parse_u64("-"), Err(NumeralError::InvalidDigit));
}

#[test]
fn refuses_what_is_no_digit() {
    assert_eq!(parse_u64("12a"), Err(NumeralError::InvalidDigit));
    assert_eq!(parse_u64(" 5"), Err(NumeralError::InvalidDigit));
    assert_eq!(parse_u64("5 "), Err(NumeralError::InvalidDigit));
    assert_eq!(parse_u64("-5"), Err(NumeralError::InvalidDigit));
    assert_eq!(parse_u64("1_000"), Err(NumeralError::InvalidDigit));
    assert_eq!(parse_u64("٣"), Err(NumeralError::InvalidDigit));
}

#[test]
fn reads_up_to_the_largest_u64() {
    assert_eq!(parse_u64("18446744073709551615"), Ok(u64::MAX));
    assert_eq!(parse_u64("18446744073709551616"), Err(NumeralError::PosOverflow));
    assert_eq!(parse_u64("99999999999999999999"), Err(NumeralError::PosOverflow));
}

#[test]
fn reports_the_first_failure() {
    assert_eq!(parse_u64("99999999999999999999999x"), Err(NumeralError::PosOverflow));
    assert_eq!(parse_u64("9x9999999999999999999999"), Err(NumeralError::InvalidDigit));
}

#[test]
fn agrees_with_the_standard_parser() {
    let samples = [
        "", "0", "1", "+", "-", "+0", "-0", "+12", "12+", "a", "1a", "a1", "0000000000000000000000001",
        "18446744073709551615", "18446744073709551616", "+18446744073709551615",
        "184467440737095516150", "18446744073709551615x", "x18446744073709551616", " 1", "1 ",
        "１", "1.0", "0x10", "42",
    ];
    for text in samples {
        assert_eq!(parse_u64(text), std_kind(text), "on {:?}", text);
    }
}

#[test]
fn writes_decimal_numerals() {
    assert_eq!(to_decimal(0), "0");
    assert_eq!(to_decimal(7), "7");
    assert_eq!(to_decimal(10), "10");
    assert_eq!(to_decimal(4096), "4096");
    assert_eq!(to_decimal(u64::MAX), "18446744073709551615");
}

#[test]
fn writing_then_reading_gives_the_number_back() {
    let samples = [0u64, 1, 9, 10, 99, 100, 12345, 1 << 32, u64::MAX - 1, u64::MAX];
    for n in samples {
        assert_eq!(to_decimal(n), n.to_string());
        assert_eq!(parse_u64(&to_decimal(n)), Ok(n));
        if n != 0 {
            assert_eq!(string_to_user_id(&to_decimal(n)), Ok(UserId(n)));
        }
    }
}

#[test]
fn error_words_name_the_cause() {
    assert_eq!(
        ParseUserIdError::Empty.describe(),
        "Failed to parse user ID: cannot parse integer from empty string"
    );
    assert_eq!(
        ParseUserIdError::InvalidDigit.describe(),
        "Failed to parse user ID: invalid digit found in string"
    );
    assert_eq!(
        ParseUserIdError::PosOverflow.describe(),
        "Failed to parse user ID: number too large to fit in target type"
    );
    assert_eq!(
        ParseUserIdError::Zero.describe(),
        "Failed to parse user ID: number would be zero for non-zero type"
    );
}

#[test]
fn error_words_agree_with_the_standard_parser() {
    for text in ["", "x", "18446744073709551616", "0"] {
        let ours = string_to_user_id(text).unwrap_err().describe();
        let std_error = text.parse::<NonZeroU64>().unwrap_err();
        assert_eq!(ours, format!("Failed to parse user ID: {}", std_error));
    }
}
