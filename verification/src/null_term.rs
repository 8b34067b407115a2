//! A terminal that swallows everything.

use vstd::prelude::*;

verus! {

/// Width and height that the null terminal reports.
pub const NULL_TERM_SIZE: u16 = 128;

/// A terminal that accepts every write and shows nothing.
#[derive(Default, Debug)]
pub struct NullTerm;

impl NullTerm {
    /// Accepts `buf` whole: returns the number of bytes taken, which is
    /// all of them.
    pub fn write(&mut self, buf: &[u8]) -> (taken: usize)
        ensures
            taken == buf@.len(),
    {
        buf.len()
    }

    /// The width that the terminal reports.
    pub fn width(&self) -> (width: u16)
        ensures
            width == NULL_TERM_SIZE,
    {
        NULL_TERM_SIZE
    }

    /// The height that the terminal reports.
    pub fn height(&self) -> (height: u16)
        ensures
            height == NULL_TERM_SIZE,
    {
        NULL_TERM_SIZE
    }
}

} // verus!
