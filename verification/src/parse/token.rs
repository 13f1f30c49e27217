use vstd::prelude::*;
use super::ident::Ident;
use super::span::Span;

verus! {

/// What a token is, with the value it carries.
#[derive(Clone, Debug, PartialEq)]
pub enum TokenKind {
    /// A name.
    Ident(Ident),
    /// A line comment: its text from the `;` through the newline.
    Comment(String),
    /// An integer literal's value.
    Integer(i64),
    Colon,
    Comma,
}

/// What a `TokenKind` stands for.
pub enum TokenKindView {
    Ident(Seq<char>),
    Comment(Seq<char>),
    Integer(i64),
    Colon,
    Comma,
}

impl View for TokenKind {
    type V = TokenKindView;

    open spec fn view(&self) -> TokenKindView {
        match *self {
            TokenKind::Ident(ident) => TokenKindView::Ident(ident@),
            TokenKind::Comment(text) => TokenKindView::Comment(text@),
            TokenKind::Integer(value) => TokenKindView::Integer(value),
            TokenKind::Colon => TokenKindView::Colon,
            TokenKind::Comma => TokenKindView::Comma,
        }
    }
}

/// A classified piece of the input and the bytes it covers.
#[derive(Clone, Debug, PartialEq)]
pub struct Token {
    kind: TokenKind,
    span: Span,
}

/// What a `Token` stands for.
pub struct TokenView {
    pub kind: TokenKindView,
    pub span: Span,
}

impl View for Token {
    type V = TokenView;

    closed spec fn view(&self) -> TokenView {
        TokenView { kind: self.kind@, span: self.span }
    }
}

impl Token {
    pub fn new(kind: TokenKind, span: Span) -> (token: Token)
        ensures
            token@ == (TokenView { kind: kind@, span }),
    {
        Token { kind, span }
    }

    pub fn kind(&self) -> (kind: &TokenKind)
        ensures
            kind@ == self@.kind,
    {
        &self.kind
    }

    pub fn span(&self) -> (span: Span)
        ensures
            span == self@.span,
    {
        self.span
    }
}

} // verus!
