//! Exclusive `[start, end)` offset ranges over the source character sequence,
//! with coalescing of two spans into one span covering the union range.

use vstd::prelude::*;

verus! {

/// An exclusive range representing a part of source code.
///
/// Offsets are positions in the source character sequence. A span is pure
/// metadata: it is never mutated after creation; coalescing returns a new
/// span covering the union range of the two inputs.
#[derive(Debug, Clone, Copy, PartialEq, Eq, Structural)]
pub struct Span {
    pub start: usize,
    pub end: usize,
}

impl Span {
    /// Whether offset `p` lies inside this span.
    pub open spec fn spec_contains(self, p: int) -> bool {
        self.start <= p < self.end
    }

    /// The span from the least start to the greatest end of the two spans.
    pub open spec fn spec_coalesce(self, other: Self) -> Span {
        (Span {
            start: if self.start <= other.start {
                self.start
            } else {
                other.start
            },
            end: if self.end >= other.end {
                self.end
            } else {
                other.end
            },
        })
    }

    /// Create a new span given a length and a position at the end of the span.
    pub fn new(len: usize, pos: usize) -> (s: Span)
        requires
            len <= pos,
        ensures
            s == (Span { start: (pos - len) as usize, end: pos }),
    {
        Span { start: pos - len, end: pos }
    }

    /// Coalesce two spans: the result covers both, whether they are disjoint,
    /// adjacent, overlapping, or nested.
    pub fn coalesce_adjacent(self, other: Self) -> (s: Span)
        ensures
            s == self.spec_coalesce(other),
    {
        let start = if self.start <= other.start {
            self.start
        } else {
            other.start
        };
        let end = if self.end >= other.end {
            self.end
        } else {
            other.end
        };
        Span { start, end }
    }
}

/// Coalescing is commutative: the order of the two spans does not matter.
pub proof fn lemma_coalesce_commutative(a: Span, b: Span)
    ensures
        a.spec_coalesce(b) == b.spec_coalesce(a),
{
}

/// Coalescing is idempotent: coalescing a span with itself gives it back.
pub proof fn lemma_coalesce_idempotent(a: Span)
    ensures
        a.spec_coalesce(a) == a,
{
}

/// The coalesced span covers both inputs and excludes nothing in between:
/// it runs exactly from the least start to the greatest end, so for two
/// disjoint spans every offset of the gap between them is covered as well.
pub proof fn lemma_coalesce_covers(a: Span, b: Span)
    requires
        a.start <= a.end,
        b.start <= b.end,
    ensures
        a.spec_coalesce(b).start <= a.start && a.spec_coalesce(b).start <= b.start,
        a.spec_coalesce(b).end >= a.end && a.spec_coalesce(b).end >= b.end,
        a.spec_coalesce(b).start == a.start || a.spec_coalesce(b).start == b.start,
        a.spec_coalesce(b).end == a.end || a.spec_coalesce(b).end == b.end,
        forall|p: int|
            #[trigger] a.spec_coalesce(b).spec_contains(p) <==> (a.spec_contains(p)
                || b.spec_contains(p) || a.end <= p < b.start || b.end <= p < a.start),
{
}

} // verus!
