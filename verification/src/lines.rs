//! Single lines of output: the leveled log line and the one-line message of
//! a progress indicator.

use crate::level::Level;
use crate::style::{ansi_bold, bold};
use crate::text::{pad_with_spaces, padded, push_char, repeat_char, spaces};
use vstd::prelude::*;
use vstd::string::*;

verus! {

/// Characters that would break a line that is redrawn in place: backspace,
/// carriage return and line feed.
pub open spec fn breaks_line(c: char) -> bool {
    c == '\u{8}' || c == '\r' || c == '\n'
}

/// The first `max_length` characters of `input` without those that break a
/// line, padded with blanks to `max_length` bytes.
pub open spec fn sanitized(input: Seq<char>, max_length: nat) -> Seq<char> {
    let kept = if input.len() <= max_length {
        input
    } else {
        input.take(max_length as int)
    };
    padded(kept.filter(|c: char| !breaks_line(c)), max_length)
}

/// A log line: the indent, the level's name in bold, a colon and the
/// message, padded with blanks to `max_width` bytes and ended by a newline.
pub open spec fn log_line(indent: nat, max_width: nat, level: Level, message: Seq<char>) -> Seq<
    char,
> {
    padded(spaces(indent) + ansi_bold(level.spec_name()) + ": "@ + message, max_width).push('\n')
}

/// Whether `c` would break a line that is redrawn in place.
pub fn is_line_breaker(c: char) -> (breaks: bool)
    ensures
        breaks == breaks_line(c),
{
    c == '\u{8}' || c == '\r' || c == '\n'
}

/// Cuts `input` down to one line of `max_length` characters: drops
/// backspaces, carriage returns and line feeds, and pads with blanks to
/// `max_length` bytes.
pub fn sanitize_output(input: &str, max_length: usize) -> (result: String)
    ensures
        result@ == sanitized(input@, max_length as nat),
{
    let mut result = String::new();
    let mut offset: usize = 0;
    let ghost keep = |c: char| !breaks_line(c);
    proof {
        assert(Seq::<char>::empty().filter(keep) =~= Seq::<char>::empty()) by {
            reveal(Seq::filter);
        }
        assert(input@.take(0) =~= Seq::<char>::empty());
    }
    for c in it: input.chars()
        invariant
            it.seq() == input@,
            keep == |c: char| !breaks_line(c),
            offset == if it.index() < usize::MAX {
                it.index() as int
            } else {
                usize::MAX as int
            },
            result@ == input@.take(
                if it.index() <= max_length {
                    it.index() as int
                } else {
                    max_length as int
                },
            ).filter(keep),
    {
        proof {
            if it.index() < max_length {
                let before = input@.take(it.index() as int);
                assert(input@.take(it.index() + 1) =~= before.push(c));
                before.lemma_filter_push(c, keep);
            }
        }
        if offset < max_length && !is_line_breaker(c) {
            push_char(&mut result, c);
        }
        offset = offset.saturating_add(1);
    }
    proof {
        if input@.len() <= max_length {
            assert(input@.take(input@.len() as int) =~= input@);
        }
    }
    pad_with_spaces(&mut result, max_length);
    result
}

/// Formats one log line for a sink that is indented by `indent` blanks and
/// `max_width` bytes wide.
pub fn format_log(indent: usize, max_width: usize, level: Level, message: &str) -> (line: String)
    ensures
        line@ == log_line(indent as nat, max_width as nat, level, message@),
{
    let mut line = repeat_char(' ', indent);
    let name = level.to_string();
    let styled = bold(name.as_str());
    line.append(styled.as_str());
    line.append(": ");
    line.append(message);
    pad_with_spaces(&mut line, max_width);
    push_char(&mut line, '\n');
    line
}

} // verus!
