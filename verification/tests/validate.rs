use motus::validate::{
    parse_u32, validate_character_count, validate_pin_length, validate_word_count,
};

#[test]
fn test_validate_word_count() {
    assert!(validate_word_count("2").is_err());
    assert!(validate_word_count("3").is_ok());
    assert!(validate_word_count("15").is_ok());
    assert!(validate_word_count("16").is_err());
}

#[test]
fn test_validate_character_count() {
    assert!(validate_character_count("7").is_err());
    assert!(validate_character_count("8").is_ok());
    assert!(validate_character_count("100").is_ok());
    assert!(validate_character_count("101").is_err());
}

#[test]
fn test_validate_pin_length() {
    assert!(validate_pin_length("2").is_err());
    assert!(validate_pin_length("3").is_ok());
    assert!(validate_pin_length("12").is_ok());
    assert!(validate_pin_length("13").is_err());
}

#[test]
fn validators_hand_back_the_count() {
    assert_eq!(validate_word_count("3"), Ok(3));
    assert_eq!(validate_word_count("15"), Ok(15));
    assert_eq!(validate_character_count("8"), Ok(8));
    assert_eq!(validate_character_count("100"), Ok(100));
    assert_eq!(validate_pin_length("+7"), Ok(7));
    assert_eq!(validate_pin_length("007"), Ok(7));
}

#[test]
fn validators_say_what_is_wrong() {
    assert_eq!(
        validate_word_count("16"),
        Err("The number of words must be between 4 and 15".to_string())
    );
    assert_eq!(
        validate_word_count("three"),
        Err("The number of words must be an integer".to_string())
    );
    assert_eq!(
        validate_character_count("7"),
        Err("The number of words must be between 8 and 100".to_string())
    );
    assert_eq!(
        validate_character_count(""),
        Err("The number of words must be an integer".to_string())
    );
    assert_eq!(
        validate_pin_length("13"),
        Err("The number of words must be between 3 and 12".to_string())
    );
    assert_eq!(
        validate_pin_length("-3"),
        Err("The number of words must be an integer".to_string())
    );
    assert_eq!(
        validate_pin_length("4294967296"),
        Err("The number of words must be an integer".to_string())
    );
    assert_eq!(
        validate_pin_length(" 5"),
        Err("The number of words must be an integer".to_string())
    );
}

#[test]
fn parsing_reads_decimal_digits() {
    assert_eq!(parse_u32("0"), Some(0));
    assert_eq!(parse_u32("42"), Some(42));
    assert_eq!(parse_u32("+42"), Some(42));
    assert_eq!(parse_u32("0000000000042"), Some(42));
    assert_eq!(parse_u32("4294967295"), Some(u32::MAX));
    assert_eq!(parse_u32("4294967296"), None);
    assert_eq!(parse_u32("99999999999999999999999999"), None);
    assert_eq!(parse_u32(""), None);
    assert_eq!(parse_u32("+"), None);
    assert_eq!(parse_u32("-"), None);
    assert_eq!(parse_u32("-0"), None);
    assert_eq!(parse_u32("++1"), None);
    assert_eq!(parse_u32("1+"), None);
    assert_eq!(parse_u32("12a"), None);
    assert_eq!(parse_u32("1_000"), None);
    assert_eq!(parse_u32("１２"), None);
    assert_eq!(parse_u32("12 "), None);
}

#[test]
fn parsing_agrees_with_the_standard_parser() {
    let texts = [
        "", "0", "1", "+1", "-1", "+", "-", "+-1", "007", "+007", "4294967295", "4294967296",
        "42949672950", "12345678901234567890", " 1", "1 ", "1.0", "1e3", "0x10", "٣", "é1", "1é",
        "+4294967295", "+4294967296", "00000000004294967295",
    ];
    for text in texts {
        assert_eq!(parse_u32(text), text.parse::<u32>().ok(), "{text:?}");
    }
}
