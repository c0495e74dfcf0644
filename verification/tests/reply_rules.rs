use ebina::digits::{decimal_string, parse_choice_number};
use ebina::reply::{classify_reply, is_cancel_reply, is_string_numeric, trim_reply, ReplyClass};

#[test]
fn numeric_strings_are_recognised() {
    assert!(is_string_numeric("123".to_string()));
    assert!(is_string_numeric("007".to_string()));
    // An empty string has no non-digit character, so it passes the
    // character test; it still parses to no choice.
    assert!(is_string_numeric(String::new()));
    assert!(!is_string_numeric("12a".to_string()));
    assert!(!is_string_numeric("-1".to_string()));
    assert!(!is_string_numeric("1 2".to_string()));
}

#[test]
fn parsing_accepts_only_listed_numbers() {
    assert_eq!(parse_choice_number("1", 3), Some(1));
    assert_eq!(parse_choice_number("3", 3), Some(3));
    assert_eq!(parse_choice_number("03", 3), Some(3));
    assert_eq!(parse_choice_number("0", 3), None);
    assert_eq!(parse_choice_number("4", 3), None);
    assert_eq!(parse_choice_number("", 3), None);
    assert_eq!(parse_choice_number("two", 3), None);
    assert_eq!(parse_choice_number("99999999999999999999999999", 3), None);
}

#[test]
fn decimal_rendering_is_exact() {
    assert_eq!(decimal_string(0), "0");
    assert_eq!(decimal_string(7), "7");
    assert_eq!(decimal_string(12), "12");
    assert_eq!(decimal_string(105), "105");
    assert_eq!(decimal_string(u64::MAX), "18446744073709551615");
}

#[test]
fn trimming_strips_surrounding_whitespace() {
    assert_eq!(trim_reply("  2  "), "2");
    assert_eq!(trim_reply("\tcancel\r\n"), "cancel");
    assert_eq!(trim_reply("a b"), "a b");
    assert_eq!(trim_reply("   "), "");
    assert_eq!(trim_reply(""), "");
}

#[test]
fn cancel_keyword_ignores_letter_case() {
    assert!(is_cancel_reply("cancel"));
    assert!(is_cancel_reply("CANCEL"));
    assert!(is_cancel_reply("CaNcEl"));
    assert!(!is_cancel_reply("cancel "));
    assert!(!is_cancel_reply("cancelled"));
    assert!(!is_cancel_reply("nope"));
}

#[test]
fn classification_covers_all_reply_shapes() {
    assert!(matches!(classify_reply("2", 3), ReplyClass::Choice { index: 1 }));
    assert!(matches!(classify_reply(" 2 ", 3), ReplyClass::Choice { index: 1 }));
    assert!(matches!(classify_reply("cancel", 3), ReplyClass::Cancel));
    assert!(matches!(classify_reply(" Cancel ", 3), ReplyClass::Cancel));
    assert!(matches!(classify_reply("0", 3), ReplyClass::NotQualifying));
    assert!(matches!(classify_reply("4", 3), ReplyClass::NotQualifying));
    assert!(matches!(classify_reply("hello", 3), ReplyClass::NotQualifying));
    assert!(matches!(classify_reply("", 3), ReplyClass::NotQualifying));
}
