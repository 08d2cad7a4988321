//! Source spans: byte intervals over the original source text, joinable so
//! that one diagnostic can underline several annotation occurrences at once.

use vstd::prelude::*;

verus! {

/// A source-text range, as a half-open byte interval `[start, end)`.
#[derive(Clone, Copy, PartialEq, Eq, Structural, Debug)]
pub struct Span {
    pub start: usize,
    pub end: usize,
}

/// The minimal covering span of two spans.
pub open spec fn spec_join(a: Span, b: Span) -> Span {
    Span {
        start: if a.start <= b.start {
            a.start
        } else {
            b.start
        },
        end: if a.end >= b.end {
            a.end
        } else {
            b.end
        },
    }
}

/// The left fold of `spec_join` over a sequence of spans, in encounter order;
/// the empty fold is the zero-width span at offset zero.
pub open spec fn spec_join_all(spans: Seq<Span>) -> Span
    decreases spans.len(),
{
    if spans.len() == 0 {
        Span { start: 0, end: 0 }
    } else if spans.len() == 1 {
        spans[0]
    } else {
        spec_join(spec_join_all(spans.drop_last()), spans.last())
    }
}

/// Joining spans is associative, so a fold over any grouping of the same
/// occurrences underlines the same covering range.
pub proof fn lemma_join_associative(a: Span, b: Span, c: Span)
    ensures
        spec_join(spec_join(a, b), c) == spec_join(a, spec_join(b, c)),
{
}

/// The left fold of `spec_join` over `spans`, starting from `acc`.
pub open spec fn spec_join_from(acc: Span, spans: Seq<Span>) -> Span
    decreases spans.len(),
{
    if spans.len() == 0 {
        acc
    } else {
        spec_join(spec_join_from(acc, spans.drop_last()), spans.last())
    }
}

/// The fold of a non-empty sequence is the fold of its tail from its head.
pub proof fn lemma_join_all_from_first(s: Seq<Span>)
    requires
        s.len() >= 1,
    ensures
        spec_join_all(s) == spec_join_from(s[0], s.skip(1)),
    decreases s.len(),
{
    if s.len() == 1 {
        assert(s.skip(1).len() == 0);
    } else {
        lemma_join_all_from_first(s.drop_last());
        assert(s.drop_last().skip(1) =~= s.skip(1).drop_last());
        assert(s.skip(1).last() == s.last());
    }
}

/// Folding over a concatenation continues the fold of the first part.
pub proof fn lemma_join_all_concat(s: Seq<Span>, t: Seq<Span>)
    requires
        s.len() >= 1,
    ensures
        spec_join_all(s + t) == spec_join_from(spec_join_all(s), t),
    decreases t.len(),
{
    if t.len() == 0 {
        assert(s + t =~= s);
    } else {
        lemma_join_all_concat(s, t.drop_last());
        assert((s + t).drop_last() =~= s + t.drop_last());
        assert((s + t).last() == t.last());
    }
}

impl Span {
    /// The minimal covering span of `self` and `other`.
    pub fn join(self, other: Span) -> (r: Span)
        ensures
            r == spec_join(self, other),
    {
        Span {
            start: if self.start <= other.start {
                self.start
            } else {
                other.start
            },
            end: if self.end >= other.end {
                self.end
            } else {
                other.end
            },
        }
    }
}

/// A value paired with the span of the occurrence it came from.
#[derive(Copy, PartialEq, Eq, Structural, Debug)]
pub struct SpannedValue<T> {
    pub value: T,
    pub span: Span,
}

impl<T: Copy> Clone for SpannedValue<T> {
    fn clone(&self) -> (r: Self)
        ensures
            r == *self,
    {
        *self
    }
}

impl Default for SpannedValue<bool> {
    /// The unset flag: `false`, with a zero-width span at offset zero.
    fn default() -> (r: Self)
        ensures
            r.value == false,
            r.span == (Span { start: 0, end: 0 }),
    {
        SpannedValue { value: false, span: Span { start: 0, end: 0 } }
    }
}

} // verus!
