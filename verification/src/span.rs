use vstd::prelude::*;

verus! {

/// A region of source text: a source identifier together with the
/// half-open character range `[start, end)` inside that source.
#[derive(Clone, Copy, Debug, PartialEq, Eq, Hash, Structural)]
pub struct Span {
    pub src: u32,
    pub start: usize,
    pub end: usize,
}

impl Span {
    pub fn new(src: u32, start: usize, end: usize) -> (s: Span)
        ensures
            s == (Span { src, start, end }),
    {
        Span { src, start, end }
    }
}

impl Default for Span {
    /// The placeholder span: source 0, empty range at offset 0.
    fn default() -> (s: Span)
        ensures
            s == (Span { src: 0, start: 0, end: 0 }),
    {
        Span { src: 0, start: 0, end: 0 }
    }
}

} // verus!
