use vstd::prelude::*;
use vstd::std_specs::iter::IteratorSpec;
use super::error::Error;
use super::grammar::{
    accumulate, char_at, classify, comment_run, digit_run, digits_start, ident_run, integer_at,
    integer_len, integer_radix, integer_sign, is_ident_continue, is_ident_start, next_token,
    next_token_end, space_run, span_between, token_start, TokenStart,
};
use super::ident::Ident;
use super::source::SourceId;
use super::span::Span;
use super::text::{
    byte_offset, is_alphabetic, is_alphanumeric, is_whitespace, lemma_byte_offset_monotonic,
    lemma_byte_offset_total, len_utf8, to_digit,
};
use super::token::{Token, TokenKind, TokenKindView, TokenView};

verus! {

broadcast use vstd::string::group_string_axioms;

/// What a scanning step returned, with the token taken by its view.
pub open spec fn scanned(r: Result<Token, Error>) -> Result<TokenView, Error> {
    match r {
        Ok(token) => Ok(token@),
        Err(e) => Err(e),
    }
}

/// Scanner over one source text. It keeps the text decoded into characters,
/// the index of the next character and that character's byte offset.
pub struct Lexer<'a> {
    input: &'a str,
    chars: Vec<char>,
    source: SourceId,
    pos: usize,
    offset: usize,
}

impl<'a> Lexer<'a> {
    /// The text that is scanned.
    pub closed spec fn text(&self) -> Seq<char> {
        self.chars@
    }

    /// Index of the next character to be scanned.
    pub closed spec fn position(&self) -> int {
        self.pos as int
    }

    /// The source that the spans of this scanner name.
    pub closed spec fn source_id(&self) -> SourceId {
        self.source
    }

    /// The cursor lies inside the text or at its end, the byte offset kept
    /// with it is that of the cursor, and every byte offset fits in a `usize`.
    pub closed spec fn well_formed(&self) -> bool {
        &&& self.chars@ == self.input@
        &&& self.pos <= self.chars@.len()
        &&& self.offset == byte_offset(self.chars@, self.pos as int)
        &&& byte_offset(self.chars@, self.chars@.len() as int) <= usize::MAX
    }

    /// Whether `after` is this scanner at another place of the same text.
    pub open spec fn moved_to(&self, after: &Lexer<'a>, position: int) -> bool {
        &&& after.well_formed()
        &&& after.text() == self.text()
        &&& after.source_id() == self.source_id()
        &&& after.position() == position
    }

    /// The cursor of a well-formed scanner lies inside the text or at its end.
    pub proof fn lemma_position_bounds(&self)
        requires
            self.well_formed(),
        ensures
            0 <= self.position() <= self.text().len(),
            byte_offset(self.text(), self.text().len() as int) <= usize::MAX,
    {
    }

    /// A scanner at the start of `input`.
    pub fn new(input: &'a str, source: SourceId) -> (lexer: Lexer<'a>)
        ensures
            lexer.well_formed(),
            lexer.text() == input@,
            lexer.source_id() == source,
            lexer.position() == 0,
    {
        let mut chars: Vec<char> = Vec::new();
        let mut rest = input.chars();
        let mut done = false;
        while !done
            invariant
                chars@ + rest.remaining() == input@,
                done ==> rest.remaining().len() == 0,
                rest.obeys_prophetic_iter_laws(),
            decreases input@.len() - chars@.len() + (if done { 0nat } else { 1nat }),
        {
            let ghost before = rest.remaining();
            match rest.next() {
                Some(c) => {
                    chars.push(c);
                    assert(before == seq![c] + before.drop_first());
                },
                None => {
                    done = true;
                },
            }
        }
        assert(chars@ == input@);
        // The encoded text is a slice, so the offset of its end fits in a `usize`.
        let _ = input.as_bytes().len();
        proof {
            lemma_byte_offset_total(input@);
        }
        Lexer { input, chars, source, pos: 0, offset: 0 }
    }

    fn char_at_offset(&self, n: usize) -> (c: Option<char>)
        requires
            self.well_formed(),
        ensures
            c == char_at(self.text(), self.position() + n),
    {
        if n >= self.chars.len() - self.pos {
            None
        } else {
            Some(self.chars[self.pos + n])
        }
    }

    fn next_is(&self, n: usize, expected: char) -> (b: bool)
        requires
            self.well_formed(),
        ensures
            b == (char_at(self.text(), self.position() + n) == Some(expected)),
    {
        match self.char_at_offset(n) {
            Some(c) => c == expected,
            None => false,
        }
    }

    /// The empty span at the cursor.
    pub fn span(&self) -> (span: Span)
        requires
            self.well_formed(),
        ensures
            span == span_between(
                self.text(),
                self.source_id(),
                self.position(),
                self.position(),
            ),
    {
        Span::new(self.source, self.offset, self.offset)
    }

    /// Whether the cursor stands at the end of the text.
    pub fn is_empty(&self) -> (b: bool)
        requires
            self.well_formed(),
        ensures
            b == (self.position() == self.text().len()),
    {
        self.peek().is_none()
    }

    /// The character at the cursor, if any.
    pub fn peek(&self) -> (c: Option<char>)
        requires
            self.well_formed(),
        ensures
            c == char_at(self.text(), self.position()),
    {
        self.char_at_offset(0)
    }

    /// The character `n` characters after the cursor, if any.
    pub fn peek_nth(&self, n: usize) -> (c: Option<char>)
        requires
            self.well_formed(),
        ensures
            c == char_at(self.text(), self.position() + n),
    {
        self.char_at_offset(n)
    }

    /// Takes the character at the cursor, if any, and moves past it.
    pub fn consume(&mut self) -> (c: Option<char>)
        requires
            old(self).well_formed(),
        ensures
            c == char_at(old(self).text(), old(self).position()),
            old(self).moved_to(
                final(self),
                if c is Some {
                    old(self).position() + 1
                } else {
                    old(self).position()
                },
            ),
    {
        match self.peek() {
            Some(c) => {
                let len = self.chars.len();
                assert(self.pos < len);
                proof {
                    lemma_byte_offset_monotonic(
                        self.chars@,
                        self.pos + 1,
                        self.chars@.len() as int,
                    );
                }
                self.offset = self.offset + len_utf8(c);
                self.pos = self.pos + 1;
                Some(c)
            },
            None => None,
        }
    }

    /// Moves past `n` characters, or to the end of the text where fewer
    /// are left.
    pub fn consume_n(&mut self, n: usize)
        requires
            old(self).well_formed(),
        ensures
            old(self).moved_to(
                final(self),
                if old(self).position() + n <= old(self).text().len() {
                    old(self).position() + n
                } else {
                    old(self).text().len() as int
                },
            ),
    {
        let mut taken: usize = 0;
        let mut done = false;
        while taken < n && !done
            invariant
                taken <= n,
                old(self).moved_to(self, old(self).position() + taken),
                done ==> self.position() == self.text().len(),
            decreases n - taken + (if done { 0nat } else { 1nat }),
        {
            match self.consume() {
                Some(_) => {
                    taken = taken + 1;
                },
                None => {
                    done = true;
                },
            }
        }
    }

    fn is_ident_start(c: char) -> (b: bool)
        ensures
            b == is_ident_start(c),
    {
        is_alphabetic(c) || c == '_'
    }

    fn is_ident_continue(c: char) -> (b: bool)
        ensures
            b == is_ident_continue(c),
    {
        is_alphanumeric(c) || c == '_'
    }

    /// Takes an identifier: the character at the cursor, which starts one,
    /// and every character after it that continues one.
    fn lex_ident(&mut self, first: char) -> (ident: Ident)
        requires
            old(self).well_formed(),
            char_at(old(self).text(), old(self).position()) == Some(first),
        ensures
            old(self).moved_to(
                final(self),
                old(self).position() + 1 + ident_run(old(self).text(), old(self).position() + 1),
            ),
            ident@ == old(self).text().subrange(old(self).position(), final(self).position()),
    {
        let ghost s = self.chars@;
        let ghost start = self.pos as int;
        let mut name = String::new();
        name.push(first);
        self.consume();
        assert(name@ =~= s.subrange(start, start + 1));
        let mut done = false;
        while !done
            invariant
                old(self).moved_to(self, self.position()),
                s == self.text(),
                0 <= start,
                start + 1 <= self.position() <= s.len(),
                name@ == s.subrange(start, self.position()),
                ident_run(s, start + 1) == self.position() - (start + 1) + ident_run(
                    s,
                    self.position(),
                ),
                done ==> ident_run(s, self.position()) == 0,
            decreases s.len() - self.position() + (if done { 0nat } else { 1nat }),
        {
            let ghost at = self.position();
            match self.peek() {
                Some(c) => {
                    if Self::is_ident_continue(c) {
                        name.push(c);
                        self.consume();
                        assert(s.subrange(start, at + 1) =~= s.subrange(start, at).push(c));
                    } else {
                        done = true;
                    }
                },
                None => {
                    done = true;
                },
            }
        }
        Ident::new(name.as_str())
    }

    /// Moves past the whitespace at the cursor, to a character that is
    /// none or to the end of the text.
    pub fn skip_whitespace(&mut self)
        requires
            old(self).well_formed(),
        ensures
            old(self).moved_to(final(self), token_start(old(self).text(), old(self).position())),
            space_run(final(self).text(), final(self).position()) == 0,
            final(self).position() <= final(self).text().len(),
    {
        let ghost s = self.chars@;
        let ghost start = self.pos as int;
        let mut done = false;
        while !done
            invariant
                old(self).moved_to(self, self.position()),
                s == self.text(),
                0 <= start <= self.position() <= s.len(),
                space_run(s, start) == self.position() - start + space_run(s, self.position()),
                done ==> space_run(s, self.position()) == 0,
            decreases s.len() - self.position() + (if done { 0nat } else { 1nat }),
        {
            match self.peek() {
                Some(c) => {
                    if is_whitespace(c) {
                        self.consume();
                    } else {
                        done = true;
                    }
                },
                None => {
                    done = true;
                },
            }
        }
    }

    /// Takes the character at the cursor as punctuation, or reports it.
    fn lex_symbol(&mut self, c: char) -> (r: Result<Token, Error>)
        requires
            old(self).well_formed(),
            char_at(old(self).text(), old(self).position()) == Some(c),
        ensures
            old(self).moved_to(final(self), old(self).position() + 1),
            ({
                let s = old(self).text();
                let i = old(self).position();
                let span = span_between(s, old(self).source_id(), i, i + 1);
                scanned(r) == if s[i] == ':' {
                    Ok::<TokenView, Error>(TokenView { kind: TokenKindView::Colon, span })
                } else if s[i] == ',' {
                    Ok(TokenView { kind: TokenKindView::Comma, span })
                } else {
                    Err(Error::UnexpectedChar(span, s[i]))
                }
            }),
    {
        let start = self.offset;
        self.consume();
        let end = self.offset;
        let span = Span::new(self.source, start, end);
        if c == ':' {
            Ok(Token::new(TokenKind::Colon, span))
        } else if c == ',' {
            Ok(Token::new(TokenKind::Comma, span))
        } else {
            Err(Error::UnexpectedChar(span, c))
        }
    }

    /// Takes a line comment where one starts at the cursor: from the `;`
    /// through the next newline, or to the end of the text. Where no `;`
    /// stands at the cursor the result is `None` and nothing moves.
    fn lex_comment(&mut self) -> (r: Option<Token>)
        requires
            old(self).well_formed(),
        ensures
            ({
                let s = old(self).text();
                let i = old(self).position();
                let end = i + comment_run(s, i);
                if char_at(s, i) == Some(';') {
                    &&& old(self).moved_to(final(self), end)
                    &&& r is Some
                    &&& r->Some_0@ == (TokenView {
                        kind: TokenKindView::Comment(s.subrange(i, end)),
                        span: span_between(s, old(self).source_id(), i, end),
                    })
                } else {
                    &&& old(self).moved_to(final(self), i)
                    &&& r is None
                }
            }),
    {
        if !self.next_is(0, ';') {
            return None;
        }
        let ghost s = self.chars@;
        let ghost start = self.pos as int;
        let first_byte = self.offset;
        let mut comment = String::new();
        let mut done = false;
        assert(comment@ =~= s.subrange(start, start));
        while !done
            invariant
                old(self).moved_to(self, self.position()),
                s == self.text(),
                0 <= start <= self.position() <= s.len(),
                comment@ == s.subrange(start, self.position()),
                !done ==> comment_run(s, start) == self.position() - start + comment_run(
                    s,
                    self.position(),
                ),
                done ==> comment_run(s, start) == self.position() - start,
            decreases s.len() - self.position() + (if done { 0nat } else { 1nat }),
        {
            let ghost at = self.position();
            match self.consume() {
                Some(c) => {
                    comment.push(c);
                    assert(s.subrange(start, at + 1) =~= s.subrange(start, at).push(c));
                    if c == '\n' {
                        done = true;
                    }
                },
                None => {
                    done = true;
                },
            }
        }
        let end = self.offset;
        let span = Span::new(self.source, first_byte, end);
        Some(Token::new(TokenKind::Comment(comment), span))
    }

    /// Takes an integer literal: a sign and a radix prefix, each as far as
    /// it is there, and then at least one digit. Where no digit follows,
    /// the character found in its place is taken and reported, or the end of
    /// the text.
    fn lex_integer(&mut self) -> (r: Result<Token, Error>)
        requires
            old(self).well_formed(),
        ensures
            old(self).moved_to(
                final(self),
                old(self).position() + integer_len(old(self).text(), old(self).position()),
            ),
            scanned(r) == integer_at(old(self).text(), old(self).source_id(), old(self).position()),
    {
        let ghost s = self.chars@;
        let ghost i = self.pos as int;
        let start = self.offset;
        let mut value: i64 = 0;
        let mut sign: i64 = 1;
        if self.next_is(0, '-') {
            self.consume();
            sign = -1;
        }
        let radix: u32 = if self.next_is(0, '0') {
            if self.next_is(1, 'x') {
                16
            } else if self.next_is(1, 'b') {
                2
            } else if self.next_is(1, 'o') {
                8
            } else {
                10
            }
        } else {
            10
        };
        if radix != 10 {
            self.consume_n(2);
        }
        let first_digit = self.pos;
        let ghost first = self.pos as int;
        assert(first == digits_start(s, i));
        assert(radix == integer_radix(s, i));
        assert(sign == integer_sign(s, i));
        let mut done = false;
        while !done
            invariant
                old(self).moved_to(self, self.position()),
                s == self.text(),
                0 <= first <= self.position() <= s.len(),
                sign == 1 || sign == -1,
                2 <= radix <= 16,
                digit_run(s, first, radix) == self.position() - first + digit_run(
                    s,
                    self.position(),
                    radix,
                ),
                value == accumulate(s, first, (self.position() - first) as nat, radix, sign),
                done ==> digit_run(s, self.position(), radix) == 0,
            decreases s.len() - self.position() + (if done { 0nat } else { 1nat }),
        {
            match self.peek() {
                Some(c) => {
                    match to_digit(c, radix) {
                        Some(digit) => {
                            self.consume();
                            let step: i64 = digit as i64 * sign;
                            value = value.wrapping_mul(radix as i64).wrapping_add(step);
                        },
                        None => {
                            done = true;
                        },
                    }
                },
                None => {
                    done = true;
                },
            }
        }
        if self.pos == first_digit {
            let at = self.offset;
            return match self.consume() {
                Some(c) => Err(Error::UnexpectedChar(Span::new(self.source, at, self.offset), c)),
                None => Err(Error::UnexpectedEof(Span::new(self.source, at, at))),
            };
        }
        let end = self.offset;
        let span = Span::new(self.source, start, end);
        Ok(Token::new(TokenKind::Integer(value), span))
    }

    /// Produces the next token. Whitespace is skipped first. At the end of
    /// the text the result is an end-of-file error at the cursor. Otherwise
    /// a comment, an integer, an identifier and punctuation are tried in
    /// this order. A character that starts none of them is reported after
    /// the cursor has moved past it, and so is the character that stands
    /// where an integer needs its first digit.
    pub fn lex(&mut self) -> (r: Result<Token, Error>)
        requires
            old(self).well_formed(),
        ensures
            old(self).moved_to(
                final(self),
                next_token_end(old(self).text(), old(self).position()),
            ),
            scanned(r) == next_token(
                old(self).text(),
                old(self).source_id(),
                old(self).position(),
            ),
    {
        self.skip_whitespace();
        let ghost s = self.chars@;
        let ghost j = self.pos as int;
        let c = match self.peek() {
            Some(c) => c,
            None => {
                return Err(Error::UnexpectedEof(self.span()));
            },
        };
        match self.lex_comment() {
            Some(token) => {
                return Ok(token);
            },
            None => {},
        }
        match classify(c, Self::is_ident_start(c)) {
            TokenStart::Integer => self.lex_integer(),
            TokenStart::Ident => {
                let start = self.offset;
                let ident = self.lex_ident(c);
                let end = self.offset;
                let span = Span::new(self.source, start, end);
                Ok(Token::new(TokenKind::Ident(ident), span))
            },
            _ => self.lex_symbol(c),
        }
    }
}

} // verus!
