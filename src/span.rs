use vstd::prelude::*;

verus! {

/// A half-open byte range `[start, end)` into the concatenated source buffer.
#[derive(Debug, Clone, Copy, PartialEq, Eq, Structural)]
pub struct Span {
    pub start: usize,
    pub end: usize,
}

impl Span {
    pub fn new(start: usize, end: usize) -> (r: Self)
        ensures
            r.start == start,
            r.end == end,
    {
        Self { start, end }
    }
}

/// Any value paired with the span of source it came from.
#[derive(Debug, PartialEq)]
pub struct Spanned<T> {
    pub item: T,
    pub span: Span,
}

impl<T> Spanned<T> {
    pub fn new(item: T, span: Span) -> (r: Self)
        ensures
            r.item == item,
            r.span == span,
    {
        Spanned { item, span }
    }
}

} // verus!
