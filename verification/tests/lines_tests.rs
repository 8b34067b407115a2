use printer::lines::is_line_breaker;
use printer::{format_log, sanitize_output, Level};

#[test]
fn level_names_are_the_variant_names() {
    assert_eq!(Level::Trace.to_string(), "Trace");
    assert_eq!(Level::Debug.to_string(), "Debug");
    assert_eq!(Level::Message.to_string(), "Message");
    assert_eq!(Level::Info.to_string(), "Info");
    assert_eq!(Level::Warning.to_string(), "Warning");
    assert_eq!(Level::Error.to_string(), "Error");
    assert_eq!(Level::Silent.to_string(), "Silent");
}

#[test]
fn level_ranks_follow_the_severity_order() {
    let levels = [
        Level::Trace,
        Level::Debug,
        Level::Message,
        Level::Info,
        Level::Warning,
        Level::Error,
        Level::Silent,
    ];
    for (position, level) in levels.iter().enumerate() {
        assert_eq!(level.rank() as usize, position);
    }
    for lower in 0..levels.len() {
        for upper in 0..levels.len() {
            assert_eq!(levels[lower].admits(levels[upper]), lower <= upper);
            assert_eq!(levels[lower] <= levels[upper], lower <= upper);
        }
    }
}

#[test]
fn format_log_pads_to_the_width() {
    let line = format_log(2, 20, Level::Info, "hi");
    assert_eq!(line, "  \x1b[1mInfo\x1b[0m: hi  \n");
    assert_eq!(line.len(), 21);
}

#[test]
fn format_log_does_not_cut_a_long_line() {
    let line = format_log(0, 5, Level::Warning, "a long message");
    assert_eq!(line, "\x1b[1mWarning\x1b[0m: a long message\n");
}

#[test]
fn format_log_with_no_width_only_ends_the_line() {
    assert_eq!(format_log(1, 0, Level::Error, ""), " \x1b[1mError\x1b[0m: \n");
}

#[test]
fn is_line_breaker_names_three_characters() {
    assert!(is_line_breaker('\u{8}'));
    assert!(is_line_breaker('\r'));
    assert!(is_line_breaker('\n'));
    assert!(!is_line_breaker('\t'));
    assert!(!is_line_breaker(' '));
    assert!(!is_line_breaker('a'));
}

#[test]
fn sanitize_output_pads_a_short_message() {
    assert_eq!(sanitize_output("abc", 6), "abc   ");
    assert_eq!(sanitize_output("", 3), "   ");
}

#[test]
fn sanitize_output_cuts_a_long_message() {
    assert_eq!(sanitize_output("abcdefgh", 4), "abcd");
    assert_eq!(sanitize_output("abcdefgh", 0), "");
}

#[test]
fn sanitize_output_drops_what_breaks_the_line() {
    assert_eq!(sanitize_output("a\rb\nc\u{8}d", 10), "abcd      ");
    assert_eq!(sanitize_output("\n\n\n", 2), "  ");
}

#[test]
fn sanitize_output_counts_dropped_characters_when_it_cuts() {
    // The cut is made at four characters of the input; the line feed is one of them.
    assert_eq!(sanitize_output("ab\ncdef", 4), "abc ");
}

#[test]
fn sanitize_output_pads_by_bytes() {
    // Two characters of two bytes each fill four bytes: no padding.
    assert_eq!(sanitize_output("éé", 4), "éé");
    assert_eq!(sanitize_output("é", 4), "é  ");
    // Four characters are kept although they take eight bytes.
    assert_eq!(sanitize_output("éééééé", 4), "éééé");
}
