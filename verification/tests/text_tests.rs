use metaagent::text::{
    as_deref, chars_of, clone_lines, clone_optional, i32_to_string, i64_to_string, is_whitespace,
    join, join_from, same_text, string_of, to_ascii_lowercase, to_lower_char, to_one_line, trim,
    u64_to_string, u8_to_string, usize_to_string,
};

#[test]
fn trim_takes_away_white_space_at_both_ends_only() {
    assert_eq!(trim("  a b \t\n"), "a b");
    assert_eq!(trim("\u{00A0}\u{2003}x\u{3000}\u{0085}"), "x");
    assert_eq!(trim(""), "");
    assert_eq!(trim(" \r\n\t "), "");
    assert_eq!(trim("x"), "x");
    assert_eq!(trim("\u{200B}x"), "\u{200B}x");
    for text in [" a ", "a", "", "  ", "\u{1680}é\u{2028}"] {
        assert_eq!(trim(text), text.trim());
        assert_eq!(trim(&trim(text)), trim(text));
    }
}

#[test]
fn white_space_is_what_the_standard_library_calls_white_space() {
    for code in 0u32..0x3100 {
        if let Some(c) = char::from_u32(code) {
            assert_eq!(is_whitespace(c), c.is_whitespace(), "U+{code:04X}");
        }
    }
    assert!(!is_whitespace('\u{FEFF}'));
}

#[test]
fn only_ascii_capitals_are_made_small() {
    assert_eq!(to_ascii_lowercase("Large-SMART é Ä Z"), "large-smart é Ä z");
    assert_eq!(to_lower_char('A'), 'a');
    assert_eq!(to_lower_char('Z'), 'z');
    assert_eq!(to_lower_char('['), '[');
    assert_eq!(to_lower_char('@'), '@');
    assert_eq!(to_lower_char('É'), 'É');
    assert_eq!(to_ascii_lowercase("MiXeD"), "MiXeD".to_ascii_lowercase());
}

#[test]
fn numbers_are_written_in_decimal() {
    assert_eq!(u64_to_string(0), "0");
    assert_eq!(u64_to_string(10), "10");
    assert_eq!(u64_to_string(u64::MAX), "18446744073709551615");
    assert_eq!(u8_to_string(255), "255");
    assert_eq!(usize_to_string(42), "42");
    assert_eq!(i32_to_string(0), "0");
    assert_eq!(i32_to_string(-1), "-1");
    assert_eq!(i32_to_string(i32::MIN), "-2147483648");
    assert_eq!(i32_to_string(i32::MAX), "2147483647");
    assert_eq!(i64_to_string(i64::MIN), "-9223372036854775808");
    assert_eq!(i64_to_string(-120), "-120");
}

#[test]
fn lines_are_joined_with_the_separator_between_them() {
    let lines = vec!["a".to_string(), String::new(), "c".to_string()];
    assert_eq!(join(&lines, "\n"), "a\n\nc");
    assert_eq!(join(&lines, ", "), "a, , c");
    assert_eq!(join(&[], "-"), "");
    assert_eq!(join(&lines[..1], "-"), "a");
    assert_eq!(join_from(&lines, 1, "|"), "|c");
    assert_eq!(join_from(&lines, 3, "|"), "");
    assert_eq!(clone_lines(&lines), lines);
}

#[test]
fn line_breaks_become_blanks_on_one_line() {
    assert_eq!(to_one_line("a\nb\r\nc d"), "a b  c d");
    assert_eq!(to_one_line(""), "");
}

#[test]
fn texts_are_compared_and_cut_by_characters() {
    assert!(same_text("é", "é"));
    assert!(!same_text("a", "A"));
    assert!(same_text("", ""));
    let chars = chars_of("héllo");
    assert_eq!(chars, vec!['h', 'é', 'l', 'l', 'o']);
    assert_eq!(string_of(&chars, 1, 3), "él");
    assert_eq!(string_of(&chars, 5, 5), "");
    assert_eq!(clone_optional(&Some("x".to_string())), Some("x".to_string()));
    assert_eq!(clone_optional(&None), None);
    assert_eq!(as_deref(&Some("x".to_string())), Some("x"));
    assert_eq!(as_deref(&None), None);
}
