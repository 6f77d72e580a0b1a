//! Source locations, spans and their combination algebra.

use vstd::prelude::*;

verus! {

/// A position within a source text: the index of a character.
pub type Location = usize;

/// An immutable source range: a closed interval of character positions.
/// A single-character span has `start == end`.
#[derive(Debug, Clone, Copy, PartialEq, Eq, Structural)]
pub struct Span {
    pub start: Location,
    pub end: Location,
}

impl Span {
    /// A span is well formed when it covers at least one character.
    pub open spec fn wf(self) -> bool {
        self.start <= self.end
    }

    /// The span of the single character at `loc`.
    pub fn single_char(loc: Location) -> (s: Span)
        ensures
            s == (Span { start: loc, end: loc }),
            s.wf(),
    {
        Span { start: loc, end: loc }
    }

    /// The span from `start` to `end`, both included; `None` when `end < start`.
    pub fn range(start: Location, end: Location) -> (r: Option<Span>)
        ensures
            start <= end ==> r == Some(Span { start, end }),
            start > end ==> r is None,
    {
        if start <= end {
            Some(Span { start, end })
        } else {
            None
        }
    }
}

/// Spans in source order: each one ends no later than the next ones begin.
pub open spec fn spans_ordered(spans: Seq<Span>) -> bool {
    forall|i: int, j: int|
        0 <= i < j < spans.len() ==> #[trigger] spans[i].end <= #[trigger] spans[j].start
}

/// The combination of an ordered, non-empty sequence of spans: it runs from
/// the first span's start to the last span's end, regardless of any gaps.
pub open spec fn spec_combine(spans: Seq<Span>) -> Span
    recommends
        spans.len() > 0,
{
    Span { start: spans[0].start, end: spans[spans.len() - 1].end }
}

/// Combining a single span yields that span unchanged.
pub proof fn lemma_combine_singleton(a: Span)
    ensures
        spec_combine(seq![a]) == a,
{
}

/// Span combination is associative: combining `[combine([a, b]), c]` equals
/// combining `[a, combine([b, c])]` equals combining `[a, b, c]`, a span from
/// `a`'s start to `c`'s end, for any three spans in source order.
pub proof fn lemma_combine_associative(a: Span, b: Span, c: Span)
    requires
        a.wf(),
        b.wf(),
        c.wf(),
        a.end <= b.start,
        b.end <= c.start,
    ensures
        spec_combine(seq![spec_combine(seq![a, b]), c]) == spec_combine(seq![a, b, c]),
        spec_combine(seq![a, spec_combine(seq![b, c])]) == spec_combine(seq![a, b, c]),
        spec_combine(seq![a, b, c]) == (Span { start: a.start, end: c.end }),
{
}

/// Combine an ordered, non-empty sequence of spans.
pub fn combine(spans: &Vec<Span>) -> (r: Span)
    requires
        spans@.len() > 0,
        forall|i: int| 0 <= i < spans@.len() ==> (#[trigger] spans@[i]).wf(),
        spans_ordered(spans@),
    ensures
        r == spec_combine(spans@),
        r.wf(),
{
    let first = spans[0];
    let last = spans[spans.len() - 1];
    Span { start: first.start, end: last.end }
}

/// The spanned capability: every lexical node exposes a deterministic span.
/// For a node made of ordered sub-fields it is the combination of the
/// sub-fields' spans in field order; for a terminal token it is the token's
/// own span verbatim; for a sum type it is the span of the present variant.
pub trait Spanned {
    /// The node's span, as a specification-level value.
    spec fn spec_span(&self) -> Span;

    /// The node's span.
    fn span(&self) -> (s: Span)
        ensures
            s == self.spec_span(),
    ;
}

} // verus!
