//! The one question this crate asks of the terminal: how large it is.

use vstd::prelude::*;

verus! {

/// The terminal's width and height in characters, if any of the standard
/// streams is a terminal.
///
/// Wraps `term_size::dimensions`, which asks the operating system. The
/// answer depends on where the process runs, so nothing is promised of it.
#[verifier::external_body]
pub(crate) fn terminal_dimensions() -> (dimensions: Option<(usize, usize)>) {
    term_size::dimensions()
}

} // verus!
