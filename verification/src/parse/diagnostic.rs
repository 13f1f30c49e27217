use vstd::prelude::*;
use super::source::SourceId;

verus! {

/// How serious a diagnostic is.
#[derive(Clone, Copy, Debug, PartialEq, Eq, Hash, Structural)]
pub enum Severity {
    Bug,
    Error,
    Warning,
    Note,
    Help,
}

/// Whether a label marks the point of failure or related context.
#[derive(Clone, Copy, Debug, PartialEq, Eq, Hash, Structural)]
pub enum LabelStyle {
    Primary,
    Secondary,
}

/// A byte range of one source, marked for a renderer, with an optional note.
#[derive(Clone, Debug, PartialEq, Eq)]
pub struct Label {
    pub style: LabelStyle,
    pub source: SourceId,
    pub start: usize,
    pub end: usize,
    pub message: String,
}

impl Label {
    /// A label over `start..end` of `source` with an empty message.
    pub fn new(style: LabelStyle, source: SourceId, start: usize, end: usize) -> (label: Label)
        ensures
            label.style == style,
            label.source == source,
            label.start == start,
            label.end == end,
            label.message@ == Seq::<char>::empty(),
    {
        Label { style, source, start, end, message: String::new() }
    }

    /// The same label with its message replaced.
    pub fn with_message(self, message: String) -> (label: Label)
        ensures
            label.style == self.style,
            label.source == self.source,
            label.start == self.start,
            label.end == self.end,
            label.message == message,
    {
        Label {
            style: self.style,
            source: self.source,
            start: self.start,
            end: self.end,
            message,
        }
    }
}

/// A renderable report: a severity, a message and the labels that anchor it.
#[derive(Clone, Debug, PartialEq, Eq)]
pub struct Diagnostic {
    pub severity: Severity,
    pub message: String,
    pub labels: Vec<Label>,
}

impl Diagnostic {
    /// Whether this is an error that says `message` and carries exactly one
    /// primary label over `start..end` of `source`, noted with `note`.
    pub open spec fn is_error_at(
        &self,
        message: Seq<char>,
        source: SourceId,
        start: usize,
        end: usize,
        note: Seq<char>,
    ) -> bool {
        &&& self.severity == Severity::Error
        &&& self.message@ == message
        &&& self.labels@.len() == 1
        &&& self.labels@[0].style == LabelStyle::Primary
        &&& self.labels@[0].source == source
        &&& self.labels@[0].start == start
        &&& self.labels@[0].end == end
        &&& self.labels@[0].message@ == note
    }

    /// An error diagnostic with an empty message and no labels.
    pub fn error() -> (d: Diagnostic)
        ensures
            d.severity == Severity::Error,
            d.message@ == Seq::<char>::empty(),
            d.labels@ == Seq::<Label>::empty(),
    {
        Diagnostic { severity: Severity::Error, message: String::new(), labels: Vec::new() }
    }

    /// The same diagnostic with its message replaced.
    pub fn with_message(self, message: String) -> (d: Diagnostic)
        ensures
            d.severity == self.severity,
            d.message == message,
            d.labels == self.labels,
    {
        Diagnostic { severity: self.severity, message, labels: self.labels }
    }

    /// The same diagnostic with `labels` appended to those it already has.
    pub fn with_labels(self, labels: Vec<Label>) -> (d: Diagnostic)
        ensures
            d.severity == self.severity,
            d.message == self.message,
            d.labels@ == self.labels@ + labels@,
    {
        let mut all = self.labels;
        let mut rest = labels;
        all.append(&mut rest);
        Diagnostic { severity: self.severity, message: self.message, labels: all }
    }
}

/// What a consumer of tokens reports when an expectation is not met.
pub type ParseError = Diagnostic;

} // verus!
