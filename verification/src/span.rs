//! Byte ranges inside an identified source text.

use vstd::prelude::*;
use crate::sources::SourceId;

verus! {

/// A half-open byte range `[index, index + length)` of the source `source`.
#[derive(Clone, Copy, Debug, PartialEq, Eq, Structural)]
pub struct Span {
    pub index: usize,
    pub length: usize,
    pub source: SourceId,
}

/// The smaller of two integers.
pub open spec fn min_int(a: int, b: int) -> int {
    if a <= b {
        a
    } else {
        b
    }
}

/// The larger of two integers.
pub open spec fn max_int(a: int, b: int) -> int {
    if a >= b {
        a
    } else {
        b
    }
}

impl Span {
    /// The end of the range fits in a machine word.
    pub open spec fn wf(&self) -> bool {
        self.index + self.length <= usize::MAX
    }

    /// First byte offset past the range, as a mathematical integer.
    pub open spec fn end_spec(&self) -> int {
        self.index + self.length
    }

    /// The smallest range that covers both `self` and `other`, in the source of `self`.
    pub open spec fn with_spec(self, other: Span) -> Span {
        let index = min_int(self.index as int, other.index as int);
        let end = max_int(self.end_spec(), other.end_spec());
        Span { index: index as usize, length: (end - index) as usize, source: self.source }
    }

    /// The sentinel span: empty, at offset zero, in no source.
    pub open spec fn null_spec() -> Span {
        Span { index: 0, length: 0, source: SourceId { uuid: 0 } }
    }

    pub open spec fn is_null_spec(&self) -> bool {
        self.index == 0 && self.length == 0 && self.source.uuid == 0
    }

    pub fn new(index: usize, length: usize, source: SourceId) -> (span: Span)
        ensures
            span == (Span { index, length, source }),
    {
        Span { index, length, source }
    }

    /// The sentinel for a position that is absent or synthesized.
    pub fn null() -> (span: Span)
        ensures
            span == Span::null_spec(),
            span.is_null_spec(),
            span.wf(),
    {
        Span { index: 0, length: 0, source: SourceId::null() }
    }

    pub fn end(&self) -> (end: usize)
        requires
            self.wf(),
        ensures
            end == self.end_spec(),
    {
        self.index + self.length
    }

    pub fn with(self, other: Span) -> (merged: Span)
        requires
            self.wf(),
            other.wf(),
        ensures
            merged == self.with_spec(other),
            merged.wf(),
            merged.index == min_int(self.index as int, other.index as int),
            merged.end_spec() == max_int(self.end_spec(), other.end_spec()),
            merged.source == self.source,
    {
        let index: usize = if self.index <= other.index { self.index } else { other.index };
        let a: usize = self.end();
        let b: usize = other.end();
        let end: usize = if a >= b { a } else { b };
        Span { index, length: end - index, source: self.source }
    }

    pub fn is_null(&self) -> (null: bool)
        ensures
            null == self.is_null_spec(),
    {
        self.index == 0 && self.length == 0 && self.source.uuid == 0
    }
}

/// Merging is commutative between spans of one source.
pub proof fn lemma_with_commutes(a: Span, b: Span)
    requires
        a.wf(),
        b.wf(),
        a.source == b.source,
    ensures
        a.with_spec(b) == b.with_spec(a),
{
}

/// A merged span starts no later than either operand and ends no earlier,
/// so it contains every byte of both.
pub proof fn lemma_with_covers(a: Span, b: Span)
    requires
        a.wf(),
        b.wf(),
    ensures
        a.with_spec(b).wf(),
        a.with_spec(b).index <= a.index,
        a.with_spec(b).index <= b.index,
        a.with_spec(b).end_spec() >= a.end_spec(),
        a.with_spec(b).end_spec() >= b.end_spec(),
        a.with_spec(b).index == a.index || a.with_spec(b).index == b.index,
        a.with_spec(b).end_spec() == a.end_spec() || a.with_spec(b).end_spec() == b.end_spec(),
{
}

} // verus!
