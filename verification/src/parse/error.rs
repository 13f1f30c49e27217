use vstd::prelude::*;
use super::diagnostic::Diagnostic;
use super::span::Span;

verus! {

/// Why scanning stopped.
#[derive(Clone, Copy, Debug, PartialEq, Eq, Structural)]
pub enum Error {
    /// The input ended where a token had to start.
    UnexpectedEof(Span),
    /// No token starts with this character.
    UnexpectedChar(Span, char),
}

/// The message of the diagnostic for an unexpected character.
pub open spec fn unexpected_char_message(c: char) -> Seq<char> {
    "Unexpected character: '"@.push(c).push('\'')
}

impl Error {
    /// The span at which scanning stopped.
    pub open spec fn span_spec(&self) -> Span {
        match *self {
            Error::UnexpectedEof(span) => span,
            Error::UnexpectedChar(span, _) => span,
        }
    }

    /// The message of this error's diagnostic.
    pub open spec fn message_spec(&self) -> Seq<char> {
        match *self {
            Error::UnexpectedEof(_) => "Unexpected end of file"@,
            Error::UnexpectedChar(_, c) => unexpected_char_message(c),
        }
    }

    /// The note on the label of this error's diagnostic.
    pub open spec fn note_spec(&self) -> Seq<char> {
        match *self {
            Error::UnexpectedEof(_) => "expected more input here"@,
            Error::UnexpectedChar(_, _) => "this character is not expected here"@,
        }
    }

    /// An error diagnostic with this error's message and one primary label
    /// at its span.
    pub fn to_diagnostic(&self) -> (d: Diagnostic)
        ensures
            d.is_error_at(
                self.message_spec(),
                self.span_spec().source,
                self.span_spec().start,
                self.span_spec().end,
                self.note_spec(),
            ),
    {
        match self {
            Error::UnexpectedEof(span) => {
                let label = span.to_label_primary().with_message(
                    "expected more input here".to_owned(),
                );
                Diagnostic::error().with_message("Unexpected end of file".to_owned()).with_labels(
                    vec![label],
                )
            },
            Error::UnexpectedChar(span, c) => {
                let mut message = "Unexpected character: '".to_owned();
                message.push(*c);
                message.push('\'');
                let label = span.to_label_primary().with_message(
                    "this character is not expected here".to_owned(),
                );
                Diagnostic::error().with_message(message).with_labels(vec![label])
            },
        }
    }
}

} // verus!
