//! A position in a document.

use vstd::prelude::*;

verus! {

/// A position: `y` is the index of a logical line, `x` a display column
/// within that line.
#[derive(Clone, Copy, Debug, PartialEq, Eq, Structural)]
pub struct Cursor {
    pub x: usize,
    pub y: usize,
}

impl Cursor {
    /// The position at the start of the first line.
    pub fn new() -> (c: Cursor)
        ensures
            c == (Cursor { x: 0, y: 0 }),
    {
        Cursor { x: 0, y: 0 }
    }
}

} // verus!
