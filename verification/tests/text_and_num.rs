use sshp::num::{dec_render, parse_i32, parse_usize, NumError};
use sshp::text::{before_colon, contains_str, replace_colons, second_token, split_lines, trim_str};

#[test]
fn replace_colons_dashes_an_address() {
    assert_eq!(replace_colons("127.0.0.1:1080"), "127.0.0.1-1080");
    assert_eq!(replace_colons("no colons"), "no colons");
    assert_eq!(replace_colons("::"), "--");
    assert_eq!(replace_colons(""), "");
}

#[test]
fn trim_removes_blank_edges() {
    assert_eq!(trim_str("  hello \t\n"), "hello");
    assert_eq!(trim_str("hello"), "hello");
    assert_eq!(trim_str("   \t  "), "");
    assert_eq!(trim_str(""), "");
    assert_eq!(trim_str(" a b "), "a b");
}

#[test]
fn contains_finds_substrings() {
    assert!(contains_str("curl: (7) Failed to connect", "curl: ("));
    assert!(contains_str("abc", "abc"));
    assert!(contains_str("abc", ""));
    assert!(!contains_str("abc", "abcd"));
    assert!(!contains_str("Connection reset", "Connection refused"));
    assert!(contains_str("xx Address already in use yy", "Address already in use"));
}

#[test]
fn split_lines_keeps_every_line() {
    assert_eq!(split_lines("a\nb\nc"), vec!["a", "b", "c"]);
    assert_eq!(split_lines("a\n"), vec!["a", ""]);
    assert_eq!(split_lines(""), vec![""]);
    assert_eq!(split_lines("\n"), vec!["", ""]);
}

#[test]
fn second_token_is_the_pid_column() {
    assert_eq!(second_token("root 123 0.0 ssh"), Some("123"));
    assert_eq!(second_token("root\t 42"), Some("42"));
    assert_eq!(second_token("root"), None);
    assert_eq!(second_token(""), None);
}

#[test]
fn before_colon_is_the_host_part() {
    assert_eq!(before_colon("127.0.0.1:1080"), "127.0.0.1");
    assert_eq!(before_colon("nohost"), "nohost");
    assert_eq!(before_colon(":1080"), "");
}

#[test]
fn parse_usize_reads_decimals() {
    assert_eq!(parse_usize("0"), Ok(0));
    assert_eq!(parse_usize("12345"), Ok(12345));
    assert_eq!(parse_usize("18446744073709551615"), Ok(usize::MAX));
}

#[test]
fn parse_usize_rejects_non_decimals() {
    assert_eq!(parse_usize(""), Err(NumError::NotDecimal));
    assert_eq!(parse_usize("12a"), Err(NumError::NotDecimal));
    assert_eq!(parse_usize("-5"), Err(NumError::NotDecimal));
    assert_eq!(parse_usize(" 7"), Err(NumError::NotDecimal));
}

#[test]
fn parse_usize_rejects_overflow() {
    assert_eq!(parse_usize("18446744073709551616"), Err(NumError::TooLarge));
    assert_eq!(parse_usize("99999999999999999999999"), Err(NumError::TooLarge));
}

#[test]
fn parse_i32_fits_a_process_id() {
    assert_eq!(parse_i32("2147483647"), Ok(i32::MAX));
    assert_eq!(parse_i32("2147483648"), Err(NumError::TooLarge));
    assert_eq!(parse_i32("pid"), Err(NumError::NotDecimal));
}

#[test]
fn dec_render_writes_decimals() {
    assert_eq!(dec_render(0), "0");
    assert_eq!(dec_render(7), "7");
    assert_eq!(dec_render(1080), "1080");
    assert_eq!(dec_render(65535), "65535");
}

#[test]
fn dec_render_round_trips() {
    for n in [0usize, 1, 9, 10, 22, 60, 1024, 50003] {
        assert_eq!(parse_usize(&dec_render(n)), Ok(n));
    }
}
