//! Source positions, spans, and the generic spanned wrapper.

use vstd::prelude::*;

verus! {

/// A position in the source text: line and column for display, `pos` the
/// absolute offset.
#[derive(Clone, Copy, PartialEq, Eq, Structural, Debug)]
pub struct Loc {
    pub line: usize,
    pub col: usize,
    pub pos: usize,
}

/// A half-open source range. Every token and every tree node carries one.
#[derive(Clone, Copy, PartialEq, Eq, Structural, Debug)]
pub struct Span {
    pub start: Loc,
    pub end: Loc,
}

impl Span {
    /// The smallest span covering both `self` and `other`: the lesser start
    /// and the greater end, compared by absolute offset.
    pub open spec fn spec_merge(self, other: Span) -> Span {
        Span {
            start: if other.start.pos < self.start.pos {
                other.start
            } else {
                self.start
            },
            end: if other.end.pos > self.end.pos {
                other.end
            } else {
                self.end
            },
        }
    }

    /// Merges two spans into the smallest span covering both.
    pub fn merge(self, other: Span) -> (r: Span)
        ensures
            r == self.spec_merge(other),
    {
        Span {
            start: if other.start.pos < self.start.pos {
                other.start
            } else {
                self.start
            },
            end: if other.end.pos > self.end.pos {
                other.end
            } else {
                self.end
            },
        }
    }

    /// Wraps a value with this span.
    pub fn sp<T>(self, value: T) -> (r: Sp<T>)
        ensures
            r == (Sp { value, span: self }),
    {
        Sp { value, span: self }
    }
}

/// A value together with the source span it was read from.
#[derive(Debug)]
pub struct Sp<T> {
    pub value: T,
    pub span: Span,
}

impl<T: DeepView> DeepView for Sp<T> {
    type V = Sp<T::V>;

    open spec fn deep_view(&self) -> Sp<T::V> {
        Sp { value: self.value.deep_view(), span: self.span }
    }
}

impl DeepView for Span {
    type V = Span;

    open spec fn deep_view(&self) -> Span {
        *self
    }
}

} // verus!
