//! Texts and log lines.

use hostcmd::logging::{format_log_failure, format_log_line, Level};
use hostcmd::text::{
    decimal_text, is_white_space, join_texts, same_text, signed_decimal_text, strip_prefix, trim,
    trim_end, trim_start,
};

#[test]
fn numbers_are_written_in_decimal() {
    assert_eq!(decimal_text(0), "0");
    assert_eq!(decimal_text(10), "10");
    assert_eq!(
        decimal_text(u128::MAX),
        "340282366920938463463374607431768211455"
    );
    assert_eq!(signed_decimal_text(-1), "-1");
    assert_eq!(signed_decimal_text(i64::MIN), "-9223372036854775808");
    assert_eq!(signed_decimal_text(7), "7");
}

#[test]
fn texts_are_joined() {
    let list = |words: &[&str]| words.iter().map(|word| word.to_string()).collect();
    assert_eq!(join_texts(&list(&[]), ","), "");
    assert_eq!(join_texts(&list(&["a"]), ","), "a");
    assert_eq!(join_texts(&list(&["a", "", "b"]), ", "), "a, , b");
}

#[test]
fn white_space_is_trimmed() {
    for c in '\u{0}'..='\u{ffff}' {
        assert_eq!(is_white_space(c), c.is_whitespace(), "{c:?}");
    }
    assert_eq!(trim("\u{2003} a b\r\n"), "a b");
    assert_eq!(trim_end(" a "), " a");
    assert_eq!(trim_start(" a "), "a ");
    assert_eq!(trim(" \t"), "");
}

#[test]
fn prefixes_are_stripped() {
    assert_eq!(strip_prefix("éa", "é"), Some("a"));
    assert_eq!(strip_prefix("a", "a"), Some(""));
    assert_eq!(strip_prefix("a", "ab"), None);
    assert_eq!(strip_prefix("ab", "b"), None);
    assert!(same_text("a", "a"));
    assert!(!same_text("a", "A"));
}

#[test]
fn log_lines_have_a_label() {
    assert_eq!(format_log_line(Level::Info, "up"), "INFO: up\n");
    assert_eq!(format_log_line(Level::Error, ""), "ERROR: \n");
    assert_eq!(Level::Info.label(), "INFO");
    assert_eq!(Level::Error.label(), "ERROR");
    assert_eq!(
        format_log_failure(b"/l", "disk full"),
        "ERROR: failed to write log file /l: disk full"
    );
}
