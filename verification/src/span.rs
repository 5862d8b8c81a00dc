//! Spans: where in the source text something stands.

use vstd::prelude::*;

verus! {

/// A range of positions in the source text.
#[derive(Clone, Copy, Debug, PartialEq, Eq, Structural)]
pub struct Span {
    /// The position at which the range starts.
    pub start: usize,
    /// The position before which the range ends.
    pub end: usize,
}

impl Span {
    /// The smallest span that covers two spans.
    pub open spec fn spec_join(self, other: Span) -> Span {
        Span {
            start: if self.start <= other.start {
                self.start
            } else {
                other.start
            },
            end: if self.end >= other.end {
                self.end
            } else {
                other.end
            },
        }
    }

    /// The span without `amount` positions at each end, as far as the ends
    /// can move.
    pub open spec fn spec_narrow(self, amount: usize) -> Span {
        Span {
            start: if self.start + amount <= usize::MAX {
                (self.start + amount) as usize
            } else {
                usize::MAX
            },
            end: if self.end >= amount {
                (self.end - amount) as usize
            } else {
                0
            },
        }
    }

    /// A span from `start` to `end`.
    pub fn new(start: usize, end: usize) -> (span: Span)
        ensures
            span == (Span { start, end }),
    {
        Span { start, end }
    }

    /// The number of positions in the span.
    pub fn len(self) -> (len: usize)
        ensures
            len == if self.end >= self.start {
                self.end - self.start
            } else {
                0
            },
    {
        if self.end >= self.start {
            self.end - self.start
        } else {
            0
        }
    }

    /// The smallest span that covers this span and another.
    pub fn join(self, other: Span) -> (span: Span)
        ensures
            span == self.spec_join(other),
    {
        Span {
            start: if self.start <= other.start {
                self.start
            } else {
                other.start
            },
            end: if self.end >= other.end {
                self.end
            } else {
                other.end
            },
        }
    }

    /// The span without `amount` positions at each end.
    pub fn narrow(self, amount: usize) -> (span: Span)
        ensures
            span == self.spec_narrow(amount),
    {
        Span {
            start: match self.start.checked_add(amount) {
                Some(start) => start,
                None => usize::MAX,
            },
            end: if self.end >= amount {
                self.end - amount
            } else {
                0
            },
        }
    }

    /// The span with another start.
    pub fn with_start(self, start: usize) -> (span: Span)
        ensures
            span == (Span { start, end: self.end }),
    {
        Span { start, end: self.end }
    }
}

} // verus!
