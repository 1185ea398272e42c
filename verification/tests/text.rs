use transaction_processor::text::{decimal_string, is_text};

#[test]
fn decimal_string_renders_like_the_standard_library() {
    for value in [
        0i64,
        1,
        9,
        10,
        11,
        99,
        100,
        101,
        1000,
        123456789,
        -1,
        -9,
        -10,
        -100,
        -123456789,
        i64::MAX,
        i64::MAX - 1,
        i64::MIN,
        i64::MIN + 1,
    ] {
        assert_eq!(decimal_string(value), value.to_string());
    }
}

#[test]
fn decimal_string_exact_values() {
    assert_eq!(decimal_string(0), "0");
    assert_eq!(decimal_string(7), "7");
    assert_eq!(decimal_string(-300), "-300");
    assert_eq!(decimal_string(9007199254740993), "9007199254740993");
    assert_eq!(decimal_string(i64::MIN), "-9223372036854775808");
}

#[test]
fn is_text_compares_character_by_character() {
    assert!(is_text("DEBIT", "DEBIT"));
    assert!(is_text("", ""));
    assert!(!is_text("DEBIT", "debit"));
    assert!(!is_text("DEBIT", "DEBIT "));
    assert!(!is_text("", "DEBIT"));
}
