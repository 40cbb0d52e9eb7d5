//! Source spans: half-open byte ranges into the original source text,
//! carried by every token and AST node for diagnostics.

use vstd::prelude::*;

use vstd::std_specs::convert::IntoSpec;

verus! {

/// A half-open byte range `[start, end)` into the source text.
#[derive(Debug, Clone, Copy, PartialEq, Eq, Structural)]
pub struct Span {
    pub start: usize,
    pub end: usize,
}

impl Span {
    /// The span covering a single range.
    pub fn new(start: usize, end: usize) -> (s: Span)
        ensures
            s.start == start,
            s.end == end,
    {
        Span { start, end }
    }
}

/// The smallest span covering both arguments.
pub fn concat_span(s1: Span, s2: Span) -> (s: Span)
    ensures
        s.start == if s1.start <= s2.start {
            s1.start
        } else {
            s2.start
        },
        s.end == if s1.end >= s2.end {
            s1.end
        } else {
            s2.end
        },
{
    Span {
        start: if s1.start <= s2.start {
            s1.start
        } else {
            s2.start
        },
        end: if s1.end >= s2.end {
            s1.end
        } else {
            s2.end
        },
    }
}

/// A value together with the source span it was read from.
#[derive(Debug, Clone, Copy, PartialEq, Eq, Structural)]
pub struct Spanned<T>(pub T, pub Span);

impl<T> Spanned<T> {
    /// Apply `mapping` to the carried value, keeping the span.
    pub fn map_new<R, F: Fn(&T) -> R>(&self, mapping: F) -> (r: Spanned<R>)
        requires
            mapping.requires((&self.0,)),
        ensures
            mapping.ensures((&self.0,), r.0),
            r.1 == self.1,
    {
        Spanned(mapping(&self.0), self.1)
    }

    /// Apply `mapping` to the carried value by move, keeping the span.
    pub fn map_move<R, F: Fn(T) -> R>(self, mapping: F) -> (r: Spanned<R>)
        requires
            mapping.requires((self.0,)),
        ensures
            mapping.ensures((self.0,), r.0),
            r.1 == self.1,
    {
        let Spanned(v, sp) = self;
        Spanned(mapping(v), sp)
    }

    /// Convert the carried value into another type, keeping the span.
    pub fn map_into<R>(self) -> (r: Spanned<R>) where T: Into<R>
        ensures
            T::obeys_into_spec() ==> r.0 == self.0.into_spec(),
            r.1 == self.1,
    {
        let Spanned(v, sp) = self;
        Spanned(v.into(), sp)
    }

    /// The carried value.
    pub fn get_value(&self) -> (r: &T)
        ensures
            *r == self.0,
    {
        &self.0
    }
}

} // verus!
