use printer::text::{
    char_width, digit_char, join, measure, pad_with_spaces, push_decimal, push_repeated,
    repeat_char, signed_decimal, unsigned_decimal,
};

#[test]
fn repeat_char_builds_runs() {
    assert_eq!(repeat_char(' ', 0), "");
    assert_eq!(repeat_char(' ', 3), "   ");
    assert_eq!(repeat_char('#', 2), "##");
}

#[test]
fn push_repeated_appends_behind_the_text() {
    let mut text = String::from("ab");
    push_repeated(&mut text, '-', 3);
    assert_eq!(text, "ab---");
    push_repeated(&mut text, '+', 0);
    assert_eq!(text, "ab---");
}

#[test]
fn char_width_counts_utf8_bytes() {
    assert_eq!(char_width('a'), 1);
    assert_eq!(char_width('\u{7f}'), 1);
    assert_eq!(char_width('\u{80}'), 2);
    assert_eq!(char_width('é'), 2);
    assert_eq!(char_width('\u{7ff}'), 2);
    assert_eq!(char_width('\u{800}'), 3);
    assert_eq!(char_width('€'), 3);
    assert_eq!(char_width('\u{ffff}'), 3);
    assert_eq!(char_width('\u{10000}'), 4);
    assert_eq!(char_width('😀'), 4);
}

#[test]
fn measure_agrees_with_len() {
    for text in ["", "abc", "héllo", "€uro", "😀!", "\x1b[1mbold\x1b[0m"] {
        assert_eq!(measure(text), text.len());
    }
}

#[test]
fn pad_with_spaces_reaches_the_width_in_bytes() {
    let mut text = String::from("abc");
    pad_with_spaces(&mut text, 6);
    assert_eq!(text, "abc   ");

    let mut wide = String::from("é");
    pad_with_spaces(&mut wide, 4);
    assert_eq!(wide, "é  ");
    assert_eq!(wide.len(), 4);
}

#[test]
fn pad_with_spaces_leaves_a_wide_text_alone() {
    let mut text = String::from("abcdef");
    pad_with_spaces(&mut text, 6);
    assert_eq!(text, "abcdef");
    pad_with_spaces(&mut text, 2);
    assert_eq!(text, "abcdef");
    pad_with_spaces(&mut text, 0);
    assert_eq!(text, "abcdef");
}

#[test]
fn join_puts_the_separator_between_neighbours() {
    let none: Vec<String> = vec![];
    assert_eq!(join(&none, " "), "");
    assert_eq!(join(&vec!["a".to_string()], " "), "a");
    assert_eq!(join(&vec!["a".to_string(), "b".to_string(), "c".to_string()], " "), "a b c");
    assert_eq!(join(&vec!["a".to_string(), "".to_string(), "c".to_string()], ", "), "a, , c");
}

#[test]
fn join_agrees_with_the_standard_join() {
    let parts = vec!["-alt".to_string(), "--color".to_string(), "x y".to_string()];
    assert_eq!(join(&parts, " "), parts.join(" "));
}

#[test]
fn digit_char_gives_each_digit() {
    let digits: Vec<char> = (0u8..10).map(digit_char).collect();
    assert_eq!(digits, vec!['0', '1', '2', '3', '4', '5', '6', '7', '8', '9']);
}

#[test]
fn unsigned_decimal_writes_numerals() {
    assert_eq!(unsigned_decimal(0), "0");
    assert_eq!(unsigned_decimal(7), "7");
    assert_eq!(unsigned_decimal(10), "10");
    assert_eq!(unsigned_decimal(1234567890), "1234567890");
    assert_eq!(unsigned_decimal(u64::MAX), "18446744073709551615");
}

#[test]
fn signed_decimal_writes_the_sign() {
    assert_eq!(signed_decimal(0), "0");
    assert_eq!(signed_decimal(42), "42");
    assert_eq!(signed_decimal(-1), "-1");
    assert_eq!(signed_decimal(-250), "-250");
    assert_eq!(signed_decimal(i64::MAX), "9223372036854775807");
    assert_eq!(signed_decimal(i64::MIN), "-9223372036854775808");
}

#[test]
fn decimals_agree_with_the_standard_formatting() {
    for n in [0u64, 1, 9, 10, 99, 100, 101, 65535, 4294967296] {
        assert_eq!(unsigned_decimal(n), format!("{}", n));
    }
    for n in [-100i64, -11, -10, -9, -1, 0, 1, 2, 255] {
        assert_eq!(signed_decimal(n), format!("{}", n));
    }
}

#[test]
fn push_decimal_appends_behind_the_text() {
    let mut text = String::from("[");
    push_decimal(&mut text, 12);
    text.push(']');
    assert_eq!(text, "[12]");
}
