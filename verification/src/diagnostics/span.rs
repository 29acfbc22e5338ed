//! Source positions.

use vstd::prelude::*;

verus! {

/// A stretch of source text, in bytes: `start` is in, `end` is out.
#[derive(Clone, Copy, Debug, PartialEq, Eq, Structural)]
pub struct Span {
    pub start: usize,
    pub end: usize,
}

impl Span {
    /// The place from `start` to `end`, in bytes.
    pub fn new(start: usize, end: usize) -> (r: Span)
        ensures
            r.start == start,
            r.end == end,
    {
        Span { start, end }
    }
}

} // verus!
