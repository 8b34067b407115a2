//! Terminal styling. The escape sequences are written by `owo_colors`; this
//! module states, character for character, what that crate emits.

use owo_colors::OwoColorize;
use vstd::prelude::*;

verus! {

/// The escape character that opens every ANSI sequence.
pub open spec fn escape() -> char {
    '\u{1b}'
}

/// The sequence that switches every attribute off.
pub open spec fn reset_all() -> Seq<char> {
    seq![escape(), '[', '0', 'm']
}

/// The sequence that returns to the default foreground colour.
pub open spec fn reset_foreground() -> Seq<char> {
    seq![escape(), '[', '3', '9', 'm']
}

/// `text` in bold.
pub open spec fn ansi_bold(text: Seq<char>) -> Seq<char> {
    seq![escape(), '[', '1', 'm'] + text + reset_all()
}

/// `text` in yellow.
pub open spec fn ansi_yellow(text: Seq<char>) -> Seq<char> {
    seq![escape(), '[', '3', '3', 'm'] + text + reset_foreground()
}

/// `text` in red.
pub open spec fn ansi_red(text: Seq<char>) -> Seq<char> {
    seq![escape(), '[', '3', '1', 'm'] + text + reset_foreground()
}

/// `text` in bold.
///
/// Wraps `OwoColorize::bold` of `owo_colors`. Its `Display` writes the
/// sequence `ESC [ 1 m`, then the text as it is, then `ESC [ 0 m`, whatever
/// the terminal supports; the contract states exactly that.
#[verifier::external_body]
pub(crate) fn bold(text: &str) -> (styled: String)
    ensures
        styled@ == ansi_bold(text@),
{
    text.bold().to_string()
}

/// `text` in yellow.
///
/// Wraps `OwoColorize::yellow` of `owo_colors`. Its `Display` writes the
/// sequence `ESC [ 3 3 m`, then the text as it is, then `ESC [ 3 9 m`; the
/// contract states exactly that.
#[verifier::external_body]
pub(crate) fn yellow(text: &str) -> (styled: String)
    ensures
        styled@ == ansi_yellow(text@),
{
    text.yellow().to_string()
}

/// `text` in red.
///
/// Wraps `OwoColorize::red` of `owo_colors`. Its `Display` writes the
/// sequence `ESC [ 3 1 m`, then the text as it is, then `ESC [ 3 9 m`; the
/// contract states exactly that.
#[verifier::external_body]
pub(crate) fn red(text: &str) -> (styled: String)
    ensures
        styled@ == ansi_red(text@),
{
    text.red().to_string()
}

} // verus!
