use vstd::prelude::*;
use super::diagnostic::{Label, LabelStyle};
use super::source::SourceId;

verus! {

/// A half-open byte range `start..end` within one source.
#[derive(Clone, Copy, Debug, PartialEq, Eq, Hash, Structural)]
pub struct Span {
    pub source: SourceId,
    pub start: usize,
    pub end: usize,
}

impl Span {
    /// The sentinel span: no source, both offsets at the largest value.
    pub open spec fn null_spec() -> Span {
        Span { source: SourceId::null_spec(), start: usize::MAX, end: usize::MAX }
    }

    /// A span is well formed when it does not end before it starts.
    pub open spec fn well_formed(self) -> bool {
        self.start <= self.end
    }

    /// The smallest span of the same source that covers both operands.
    pub open spec fn join_spec(self, other: Span) -> Span {
        Span {
            source: self.source,
            start: if self.start <= other.start { self.start } else { other.start },
            end: if self.end >= other.end { self.end } else { other.end },
        }
    }

    pub fn null() -> (s: Span)
        ensures
            s == Span::null_spec(),
            s.well_formed(),
            s.source.is_null_spec(),
    {
        Span { source: SourceId::null(), start: usize::MAX, end: usize::MAX }
    }

    pub fn new(source: SourceId, start: usize, end: usize) -> (s: Span)
        ensures
            s == (Span { source, start, end }),
    {
        Span { source, start, end }
    }

    /// The same span with its start replaced.
    pub fn with_start(self, start: usize) -> (s: Span)
        ensures
            s == (Span { source: self.source, start, end: self.end }),
    {
        Span::new(self.source, start, self.end)
    }

    /// The same span with its end replaced.
    pub fn with_end(self, end: usize) -> (s: Span)
        ensures
            s == (Span { source: self.source, start: self.start, end }),
    {
        Span::new(self.source, self.start, end)
    }

    /// Merges two spans of one source. Joining spans of different sources is a
    /// caller's mistake, which the precondition rules out.
    pub fn join(self, other: Span) -> (s: Span)
        requires
            self.source == other.source,
        ensures
            s == self.join_spec(other),
            s.source == self.source,
            s.source == other.source,
            s.start == vstd::math::min(self.start as int, other.start as int),
            s.end == vstd::math::max(self.end as int, other.end as int),
            self.well_formed() || other.well_formed() ==> s.well_formed(),
    {
        let start = if self.start <= other.start { self.start } else { other.start };
        let end = if self.end >= other.end { self.end } else { other.end };
        Span::new(self.source, start, end)
    }

    /// A label of the given style over this span, with an empty message.
    pub fn to_label(&self, style: LabelStyle) -> (label: Label)
        ensures
            label.style == style,
            label.source == self.source,
            label.start == self.start,
            label.end == self.end,
            label.message@ == Seq::<char>::empty(),
    {
        Label::new(style, self.source, self.start, self.end)
    }

    /// A label that marks this span as the point of failure.
    pub fn to_label_primary(&self) -> (label: Label)
        ensures
            label.style == LabelStyle::Primary,
            label.source == self.source,
            label.start == self.start,
            label.end == self.end,
            label.message@ == Seq::<char>::empty(),
    {
        self.to_label(LabelStyle::Primary)
    }

    /// A label that marks this span as related context.
    pub fn to_label_secondary(&self) -> (label: Label)
        ensures
            label.style == LabelStyle::Secondary,
            label.source == self.source,
            label.start == self.start,
            label.end == self.end,
            label.message@ == Seq::<char>::empty(),
    {
        self.to_label(LabelStyle::Secondary)
    }
}

impl std::ops::BitOr for Span {
    type Output = Span;

    /// `a | b` is `a.join(b)`, and like it asks for spans of one source.
    fn bitor(self, rhs: Span) -> (joined: Span) {
        self.join(rhs)
    }
}

impl vstd::std_specs::ops::BitOrSpecImpl for Span {
    open spec fn obeys_bitor_spec() -> bool {
        true
    }

    open spec fn bitor_req(self, rhs: Span) -> bool {
        self.source == rhs.source
    }

    open spec fn bitor_spec(self, rhs: Span) -> Span {
        self.join_spec(rhs)
    }
}

/// Joining two spans of one source gives the same span in either order.
pub proof fn lemma_join_commutative(a: Span, b: Span)
    requires
        a.source == b.source,
    ensures
        a.join_spec(b) == b.join_spec(a),
{
}

/// Joining three spans of one source gives the same span however the joins
/// are grouped.
pub proof fn lemma_join_associative(a: Span, b: Span, c: Span)
    requires
        a.source == b.source,
        b.source == c.source,
    ensures
        a.join_spec(b).join_spec(c) == a.join_spec(b.join_spec(c)),
{
}

/// Joining a span with itself changes nothing.
pub proof fn lemma_join_idempotent(a: Span)
    ensures
        a.join_spec(a) == a,
{
}

} // verus!
