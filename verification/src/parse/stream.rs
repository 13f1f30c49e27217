use vstd::prelude::*;
use vstd::string::StringSliceAdditionalSpecFns;
use std::sync::Arc;
use super::diagnostic::{Diagnostic, ParseError};
use super::error::Error;
use super::grammar::{
    lemma_token_len_bounds, lemma_tokens_ordered, ordered_within, token_at, token_len,
    token_start, tokens_from,
};
use super::lex::Lexer;
use super::source::SourceId;
use super::span::Span;
use super::text::{byte_offset, lemma_byte_offset_total};
use super::token::{Token, TokenView};

verus! {

/// The views of a sequence of tokens, in the same order.
pub open spec fn token_views(tokens: Seq<Token>) -> Seq<TokenView> {
    tokens.map_values(|token: Token| token@)
}

/// `front` followed by the tokens of `rest`, or the error of `rest`.
pub open spec fn prepend(front: Seq<TokenView>, rest: Result<Seq<TokenView>, Error>) -> Result<
    Seq<TokenView>,
    Error,
> {
    match rest {
        Ok(tokens) => Ok(front + tokens),
        Err(e) => Err(e),
    }
}

/// Where scanning fails at a token's start, the whole scan fails alike.
proof fn lemma_scan_stops(s: Seq<char>, source: SourceId, j: int, front: Seq<TokenView>, e: Error)
    requires
        0 <= j < s.len(),
        token_start(s, j) == j,
        token_at(s, source, j) == Err::<TokenView, Error>(e),
    ensures
        prepend(front, tokens_from(s, source, j)) == Err::<Seq<TokenView>, Error>(e),
{
}

/// Where scanning gives a token at its start `j` and the next token starts
/// at `p`, the tokens from `j` on are that token and those from `p` on.
proof fn lemma_scan_goes_on(
    s: Seq<char>,
    source: SourceId,
    j: int,
    p: int,
    front: Seq<TokenView>,
    token: TokenView,
)
    requires
        0 <= j < s.len(),
        token_start(s, j) == j,
        token_at(s, source, j) == Ok::<TokenView, Error>(token),
        p == token_start(s, j + token_len(s, j)),
        token_start(s, p) == p,
    ensures
        prepend(front, tokens_from(s, source, j)) == prepend(
            front.push(token),
            tokens_from(s, source, p),
        ),
{
    let q = j + token_len(s, j);
    let rest = tokens_from(s, source, q);
    assert(rest == tokens_from(s, source, p));
    match rest {
        Ok(more) => {
            assert(front + (seq![token] + more) =~= front.push(token) + more);
        },
        Err(_) => {},
    }
}

/// What a `TokenStream` stands for: the tokens of one scan, the span of the
/// whole scanned input, and the index of the next token to be read.
pub struct TokenStreamView {
    pub tokens: Seq<TokenView>,
    pub span: Span,
    pub index: nat,
}

impl TokenStreamView {
    /// The empty span at the end of the scanned input.
    pub open spec fn eof_span(self) -> Span {
        Span { source: self.span.source, start: self.span.end, end: self.span.end }
    }

    /// The token `n` places after the cursor, if there is one.
    pub open spec fn nth(self, n: nat) -> Option<TokenView> {
        if self.index + n < self.tokens.len() {
            Some(self.tokens[(self.index + n) as int])
        } else {
            None
        }
    }

    /// The same stream with its cursor one token further.
    pub open spec fn advanced(self) -> TokenStreamView {
        TokenStreamView { tokens: self.tokens, span: self.span, index: self.index + 1 }
    }

    /// Whether `d` is the report that the input ran out: an error with one
    /// primary label at the end of the scanned input.
    pub open spec fn is_eof_report(self, d: Diagnostic) -> bool {
        d.is_error_at(
            "Unexpected end of file"@,
            self.span.source,
            self.span.end,
            self.span.end,
            Seq::empty(),
        )
    }

    /// Whether `r` is what reading the token `n` places after the cursor
    /// gives: that token, or the report that the input ran out.
    pub open spec fn reads(self, n: nat, r: Result<&Token, ParseError>) -> bool {
        match r {
            Ok(token) => self.nth(n) == Some(token@),
            Err(d) => self.nth(n) is None && self.is_eof_report(d),
        }
    }

    /// Whether `r` is what a read that never fails gives for the token `n`
    /// places after the cursor.
    pub open spec fn tries(self, n: nat, r: Option<&Token>) -> bool {
        match r {
            Some(token) => self.nth(n) == Some(token@),
            None => self.nth(n) is None,
        }
    }
}

/// Calls `Arc::clone`: the result is another handle to the same, unchanged
/// tokens.
#[verifier::external_body]
fn share(tokens: &Arc<Vec<Token>>) -> (shared: Arc<Vec<Token>>)
    ensures
        shared == *tokens,
{
    Arc::clone(tokens)
}

/// The tokens of one scan with a read cursor. The tokens are shared between
/// a stream and its clones; each has a cursor of its own.
#[derive(Debug, PartialEq)]
pub struct TokenStream {
    tokens: Arc<Vec<Token>>,
    span: Span,
    index: usize,
}

impl View for TokenStream {
    type V = TokenStreamView;

    closed spec fn view(&self) -> TokenStreamView {
        TokenStreamView {
            tokens: token_views(self.tokens@),
            span: self.span,
            index: self.index as nat,
        }
    }
}

impl Clone for TokenStream {
    /// A stream over the same tokens with the cursor at the same place.
    /// The two cursors move independently from then on.
    fn clone(&self) -> (stream: TokenStream)
        ensures
            stream@ == self@,
    {
        TokenStream { tokens: share(&self.tokens), span: self.span, index: self.index }
    }
}

impl TokenStream {
    /// A stream over `tokens`, scanned from input that `span` covers, with
    /// the cursor at the first token.
    pub fn new(tokens: Vec<Token>, span: Span) -> (stream: TokenStream)
        ensures
            stream@ == (TokenStreamView { tokens: token_views(tokens@), span, index: 0 }),
    {
        TokenStream { tokens: Arc::new(tokens), span, index: 0 }
    }

    /// Scans all of `input`. The result holds every token in order, or is
    /// the first error met, in which case no token is returned.
    pub fn lex(input: &str, source: SourceId) -> (r: Result<TokenStream, Error>)
        ensures
            match r {
                Ok(stream) => {
                    &&& tokens_from(input@, source, 0) == Ok::<Seq<TokenView>, Error>(
                        stream@.tokens,
                    )
                    &&& stream@.index == 0
                    &&& stream@.span.source == source
                    &&& stream@.span.start == 0
                    &&& stream@.span.end == byte_offset(input@, input@.len() as int)
                    &&& stream@.span.end == input.spec_bytes().len()
                    &&& ordered_within(stream@.tokens, source, 0, stream@.span.end as int)
                },
                Err(e) => tokens_from(input@, source, 0) == Err::<Seq<TokenView>, Error>(e),
            },
    {
        let ghost s = input@;
        let mut lexer = Lexer::new(input, source);
        let mut tokens: Vec<Token> = Vec::new();
        lexer.skip_whitespace();
        assert(token_views(tokens@) =~= Seq::empty());
        assert(tokens_from(s, source, 0) == tokens_from(s, source, lexer.position()));
        proof {
            match tokens_from(s, source, 0) {
                Ok(all) => {
                    assert(Seq::<TokenView>::empty() + all =~= all);
                },
                Err(_) => {},
            }
        }
        while !lexer.is_empty()
            invariant
                s == input@,
                lexer.well_formed(),
                lexer.text() == s,
                lexer.source_id() == source,
                0 <= lexer.position() <= s.len(),
                token_start(s, lexer.position()) == lexer.position(),
                tokens_from(s, source, 0) == prepend(
                    token_views(tokens@),
                    tokens_from(s, source, lexer.position()),
                ),
            decreases s.len() - lexer.position(),
        {
            let ghost j = lexer.position();
            let ghost front = token_views(tokens@);
            proof {
                lemma_token_len_bounds(s, j);
            }
            match lexer.lex() {
                Err(e) => {
                    proof {
                        lemma_scan_stops(s, source, j, front, e);
                    }
                    return Err(e);
                },
                Ok(token) => {
                    tokens.push(token);
                    lexer.skip_whitespace();
                    proof {
                        assert(token_views(tokens@) =~= front.push(token@));
                        lemma_scan_goes_on(s, source, j, lexer.position(), front, token@);
                    }
                },
            }
        }
        proof {
            lemma_byte_offset_total(s);
            lexer.lemma_position_bounds();
            lemma_tokens_ordered(s, source, 0);
            assert(tokens_from(s, source, lexer.position()) == Ok::<Seq<TokenView>, Error>(
                Seq::empty(),
            ));
            assert(token_views(tokens@) + Seq::<TokenView>::empty() =~= token_views(tokens@));
        }
        let span = Span::new(source, 0, input.len());
        Ok(TokenStream::new(tokens, span))
    }

    /// Whether the cursor is past the last token.
    pub fn is_empty(&self) -> (b: bool)
        ensures
            b == (self@.index >= self@.tokens.len()),
    {
        self.index >= self.tokens.len()
    }

    /// The empty span at the end of the scanned input, where a report that
    /// the input ran out points.
    pub fn eof_span(&self) -> (span: Span)
        ensures
            span == self@.eof_span(),
    {
        self.span.with_start(self.span.end)
    }

    fn eof_report(&self) -> (d: ParseError)
        ensures
            self@.is_eof_report(d),
    {
        Diagnostic::error().with_message("Unexpected end of file".to_owned()).with_labels(
            vec![self.eof_span().to_label_primary()],
        )
    }

    /// The token at the cursor, or `None` past the end.
    pub fn try_peek(&self) -> (r: Option<&Token>)
        ensures
            self@.tries(0, r),
    {
        self.try_peek_nth(0)
    }

    /// The token `n` places after the cursor, or `None` past the end.
    pub fn try_peek_nth(&self, n: usize) -> (r: Option<&Token>)
        ensures
            self@.tries(n as nat, r),
    {
        let len = self.tokens.len();
        if self.index >= len || n >= len - self.index {
            None
        } else {
            Some(&self.tokens[self.index + n])
        }
    }

    /// The token at the cursor, or the report that the input ran out.
    pub fn peek(&self) -> (r: Result<&Token, ParseError>)
        ensures
            self@.reads(0, r),
    {
        match self.try_peek() {
            Some(token) => Ok(token),
            None => Err(self.eof_report()),
        }
    }

    /// The token `n` places after the cursor, or the report that the input
    /// ran out.
    pub fn peek_nth(&self, n: usize) -> (r: Result<&Token, ParseError>)
        ensures
            self@.reads(n as nat, r),
    {
        match self.try_peek_nth(n) {
            Some(token) => Ok(token),
            None => Err(self.eof_report()),
        }
    }

    /// The token at the cursor, which the cursor then moves past; or `None`
    /// past the end, where nothing changes.
    pub fn try_next(&mut self) -> (r: Option<&Token>)
        ensures
            old(self)@.tries(0, r),
            final(self)@ == if old(self)@.nth(0) is Some {
                old(self)@.advanced()
            } else {
                old(self)@
            },
    {
        if self.index < self.tokens.len() {
            let at = self.index;
            self.index = self.index + 1;
            Some(&self.tokens[at])
        } else {
            None
        }
    }

    /// The token at the cursor, which the cursor then moves past; or, past
    /// the end, the report that the input ran out, and nothing changes.
    pub fn next(&mut self) -> (r: Result<&Token, ParseError>)
        ensures
            old(self)@.reads(0, r),
            final(self)@ == if old(self)@.nth(0) is Some {
                old(self)@.advanced()
            } else {
                old(self)@
            },
    {
        if self.index >= self.tokens.len() {
            return Err(self.eof_report());
        }
        let at = self.index;
        self.index = self.index + 1;
        Ok(&self.tokens[at])
    }
}

} // verus!
