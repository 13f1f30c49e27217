use vstd::prelude::*;
use super::diagnostic::{Diagnostic, ParseError};
use super::ident::Ident;
use super::stream::{TokenStream, TokenStreamView};
use super::token::{TokenKind, TokenKindView};

verus! {

/// A value that can be read from the front of a token stream. An
/// implementation takes the tokens it needs and returns the value, or
/// reports what it expected at the token it found.
pub trait Parse: Sized {
    fn parse(input: &mut TokenStream) -> Result<Self, ParseError>;
}

/// What reading an identifier gives on a stream that stood for `before`
/// and now stands for `after`.
///
/// An identifier at the cursor is returned and the cursor moves past it.
/// Any other token stays at the cursor and is reported, with one primary
/// label at its span. Past the end the report is that the input ran out.
pub open spec fn parses_ident(
    before: TokenStreamView,
    after: TokenStreamView,
    r: Result<Ident, ParseError>,
) -> bool {
    match before.nth(0) {
        None => after == before && r is Err && before.is_eof_report(r->Err_0),
        Some(token) => match token.kind {
            TokenKindView::Ident(name) => after == before.advanced() && r is Ok && r->Ok_0@
                == name,
            _ => after == before && r is Err && r->Err_0.is_error_at(
                "expected an identifier"@,
                token.span.source,
                token.span.start,
                token.span.end,
                Seq::empty(),
            ),
        },
    }
}

impl Parse for Ident {
    fn parse(input: &mut TokenStream) -> (r: Result<Ident, ParseError>)
        ensures
            parses_ident(old(input)@, final(input)@, r),
    {
        let found = match input.peek() {
            Ok(token) => match token.kind() {
                TokenKind::Ident(ident) => Ok(ident.clone()),
                _ => Err(
                    Diagnostic::error().with_message(
                        "expected an identifier".to_owned(),
                    ).with_labels(vec![token.span().to_label_primary()]),
                ),
            },
            Err(report) => Err(report),
        };
        if found.is_ok() {
            input.try_next();
        }
        found
    }
}

} // verus!
