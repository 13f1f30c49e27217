use vstd::prelude::*;
use super::error::Error;
use super::source::SourceId;
use super::span::Span;
use super::text::{
    byte_offset, char_is_alphabetic, char_is_alphanumeric, char_is_whitespace, digit_value,
    lemma_byte_offset_monotonic, to_digit,
};
use super::token::{TokenKindView, TokenView};

verus! {

/// The character at index `i` of `s`, if there is one.
pub open spec fn char_at(s: Seq<char>, i: int) -> Option<char> {
    if 0 <= i < s.len() {
        Some(s[i])
    } else {
        None
    }
}

/// Whether an identifier may start with `c`.
pub open spec fn is_ident_start(c: char) -> bool {
    char_is_alphabetic(c) || c == '_'
}

/// Whether an identifier may go on with `c`.
pub open spec fn is_ident_continue(c: char) -> bool {
    char_is_alphanumeric(c) || c == '_'
}

/// Whether `c` sends the scanner into an integer literal: a decimal digit
/// or a minus sign.
pub open spec fn is_integer_start(c: char) -> bool {
    digit_value(c, 10) is Some || c == '-'
}

/// Number of whitespace characters that stand at index `i` and directly
/// after it.
pub open spec fn space_run(s: Seq<char>, i: int) -> nat
    decreases s.len() - i,
{
    if 0 <= i < s.len() && char_is_whitespace(s[i]) {
        1 + space_run(s, i + 1)
    } else {
        0
    }
}

/// Number of characters from index `i` through the next newline, or to the
/// end of the text where no newline follows.
pub open spec fn comment_run(s: Seq<char>, i: int) -> nat
    decreases s.len() - i,
{
    if !(0 <= i < s.len()) {
        0
    } else if s[i] == '\n' {
        1
    } else {
        1 + comment_run(s, i + 1)
    }
}

/// Number of characters from index `i` on that may continue an identifier.
pub open spec fn ident_run(s: Seq<char>, i: int) -> nat
    decreases s.len() - i,
{
    if 0 <= i < s.len() && is_ident_continue(s[i]) {
        1 + ident_run(s, i + 1)
    } else {
        0
    }
}

/// Number of characters from index `i` on that are digits in `radix`.
pub open spec fn digit_run(s: Seq<char>, i: int, radix: u32) -> nat
    decreases s.len() - i,
{
    if 0 <= i < s.len() && digit_value(s[i], radix) is Some {
        1 + digit_run(s, i + 1, radix)
    } else {
        0
    }
}

/// 1 where a minus sign stands at index `i`, else 0.
pub open spec fn sign_len(s: Seq<char>, i: int) -> nat {
    if char_at(s, i) == Some('-') {
        1
    } else {
        0
    }
}

/// The radix that the characters at index `j` announce: 16 for `0x`, 2 for
/// `0b`, 8 for `0o`, and 10 for anything else.
pub open spec fn radix_at(s: Seq<char>, j: int) -> u32 {
    if char_at(s, j) == Some('0') {
        if char_at(s, j + 1) == Some('x') {
            16
        } else if char_at(s, j + 1) == Some('b') {
            2
        } else if char_at(s, j + 1) == Some('o') {
            8
        } else {
            10
        }
    } else {
        10
    }
}

/// Length of the radix prefix at index `j`: 2 where there is one, else 0.
pub open spec fn prefix_len(s: Seq<char>, j: int) -> nat {
    if radix_at(s, j) == 10 {
        0
    } else {
        2
    }
}

/// The value gathered from the `count` digits that start at index `from`.
/// Each digit multiplies what was gathered by the radix and adds the
/// digit's value times the sign. Both steps wrap around in two's
/// complement, so a literal too large for 64 bits gives the low 64 bits of
/// its value.
pub open spec fn accumulate(s: Seq<char>, from: int, count: nat, radix: u32, sign: i64) -> i64
    decreases count,
{
    if count == 0 {
        0
    } else {
        let before = accumulate(s, from, (count - 1) as nat, radix, sign);
        let digit = digit_value(s[from + count - 1], radix).unwrap();
        before.wrapping_mul(radix as i64).wrapping_add((digit * sign) as i64)
    }
}

/// The same value without any wrapping, as a mathematical integer.
pub open spec fn exact_value(s: Seq<char>, from: int, count: nat, radix: u32, sign: i64) -> int
    decreases count,
{
    if count == 0 {
        0
    } else {
        let before = exact_value(s, from, (count - 1) as nat, radix, sign);
        let digit = digit_value(s[from + count - 1], radix).unwrap();
        before * radix + digit * sign
    }
}

/// Index of the first digit of the integer literal that starts at index `i`.
pub open spec fn digits_start(s: Seq<char>, i: int) -> int {
    i + sign_len(s, i) + prefix_len(s, i + sign_len(s, i))
}

/// Radix of the integer literal that starts at index `i`.
pub open spec fn integer_radix(s: Seq<char>, i: int) -> u32 {
    radix_at(s, i + sign_len(s, i))
}

/// Sign of the integer literal that starts at index `i`: -1 or 1.
pub open spec fn integer_sign(s: Seq<char>, i: int) -> i64 {
    if sign_len(s, i) == 1 {
        -1i64
    } else {
        1i64
    }
}

/// Number of digits of the integer literal that starts at index `i`. A
/// literal needs at least one.
pub open spec fn integer_digits(s: Seq<char>, i: int) -> nat {
    digit_run(s, digits_start(s, i), integer_radix(s, i))
}

/// Number of characters that scanning an integer literal takes at index
/// `i`: its sign, its radix prefix and its digits; or, where no digit
/// follows sign and prefix, these and the character found in place of a
/// digit, if there is one.
pub open spec fn integer_len(s: Seq<char>, i: int) -> nat {
    let first = digits_start(s, i);
    if integer_digits(s, i) > 0 {
        (first - i + integer_digits(s, i)) as nat
    } else if first < s.len() {
        (first - i + 1) as nat
    } else {
        (first - i) as nat
    }
}

/// Value of the integer literal that starts at index `i`.
pub open spec fn integer_value(s: Seq<char>, i: int) -> i64 {
    accumulate(
        s,
        digits_start(s, i),
        digit_run(s, digits_start(s, i), integer_radix(s, i)),
        integer_radix(s, i),
        integer_sign(s, i),
    )
}

/// The span of `source` that covers the characters from index `from` up to
/// index `to`, in bytes.
pub open spec fn span_between(s: Seq<char>, source: SourceId, from: int, to: int) -> Span {
    Span { source, start: byte_offset(s, from) as usize, end: byte_offset(s, to) as usize }
}

/// What scanning an integer literal gives at index `i`. With at least one
/// digit after sign and prefix it is the literal's token. Without one it is
/// an error at the place where the digit is missing: the character found
/// there is reported, or the end of the text.
pub open spec fn integer_at(s: Seq<char>, source: SourceId, i: int) -> Result<TokenView, Error> {
    let first = digits_start(s, i);
    if integer_digits(s, i) > 0 {
        Ok(
            TokenView {
                kind: TokenKindView::Integer(integer_value(s, i)),
                span: span_between(s, source, i, i + integer_len(s, i)),
            },
        )
    } else if first < s.len() {
        Err(Error::UnexpectedChar(span_between(s, source, first, first + 1), s[first]))
    } else {
        Err(Error::UnexpectedEof(span_between(s, source, first, first)))
    }
}

/// What the first character of a token announces.
#[derive(Clone, Copy, Debug, PartialEq, Eq, Structural)]
pub enum TokenStart {
    Comment,
    Integer,
    Ident,
    Colon,
    Comma,
    /// No token starts with the character.
    Unexpected,
}

/// What a token's first character `c` announces, given whether an
/// identifier may start with it. A comment is tried first, then an integer,
/// then an identifier, then punctuation.
pub open spec fn start_of(c: char, ident_start: bool) -> TokenStart {
    if c == ';' {
        TokenStart::Comment
    } else if is_integer_start(c) {
        TokenStart::Integer
    } else if ident_start {
        TokenStart::Ident
    } else if c == ':' {
        TokenStart::Colon
    } else if c == ',' {
        TokenStart::Comma
    } else {
        TokenStart::Unexpected
    }
}

/// Decides what a token's first character `c` announces, given whether an
/// identifier may start with it.
pub fn classify(c: char, ident_start: bool) -> (start: TokenStart)
    ensures
        start == start_of(c, ident_start),
{
    if c == ';' {
        TokenStart::Comment
    } else if to_digit(c, 10).is_some() || c == '-' {
        TokenStart::Integer
    } else if ident_start {
        TokenStart::Ident
    } else if c == ':' {
        TokenStart::Colon
    } else if c == ',' {
        TokenStart::Comma
    } else {
        TokenStart::Unexpected
    }
}

/// Number of characters that scanning takes at index `i`, where a
/// character that is no whitespace stands: those of the token, or the one
/// character that starts none.
pub open spec fn token_len(s: Seq<char>, i: int) -> nat {
    match start_of(s[i], is_ident_start(s[i])) {
        TokenStart::Comment => comment_run(s, i),
        TokenStart::Integer => integer_len(s, i),
        TokenStart::Ident => 1 + ident_run(s, i + 1),
        _ => 1,
    }
}

/// What scanning gives at index `i`, where a character that is no
/// whitespace stands: the token that the character announces, or the error
/// that it starts none or that an integer literal has no digit.
pub open spec fn token_at(s: Seq<char>, source: SourceId, i: int) -> Result<TokenView, Error> {
    let end = i + token_len(s, i);
    let span = span_between(s, source, i, end);
    match start_of(s[i], is_ident_start(s[i])) {
        TokenStart::Comment => Ok(
            TokenView { kind: TokenKindView::Comment(s.subrange(i, end)), span },
        ),
        TokenStart::Integer => integer_at(s, source, i),
        TokenStart::Ident => Ok(TokenView { kind: TokenKindView::Ident(s.subrange(i, end)), span }),
        TokenStart::Colon => Ok(TokenView { kind: TokenKindView::Colon, span }),
        TokenStart::Comma => Ok(TokenView { kind: TokenKindView::Comma, span }),
        TokenStart::Unexpected => Err(Error::UnexpectedChar(span, s[i])),
    }
}

/// Index of the first character at or after index `i` that is no whitespace.
pub open spec fn token_start(s: Seq<char>, i: int) -> int {
    i + space_run(s, i)
}

/// What producing the next token gives with the cursor at index `i`:
/// whitespace is skipped, then the end of the text is an error, and
/// anything else is scanned.
pub open spec fn next_token(s: Seq<char>, source: SourceId, i: int) -> Result<TokenView, Error> {
    let j = token_start(s, i);
    if j >= s.len() {
        Err(Error::UnexpectedEof(span_between(s, source, j, j)))
    } else {
        token_at(s, source, j)
    }
}

/// Index of the cursor after the next token was produced from index `i`.
pub open spec fn next_token_end(s: Seq<char>, i: int) -> int {
    let j = token_start(s, i);
    if j >= s.len() {
        j
    } else {
        j + token_len(s, j)
    }
}

/// All the tokens of the text from index `i` on, or the first error.
pub open spec fn tokens_from(s: Seq<char>, source: SourceId, i: int) -> Result<
    Seq<TokenView>,
    Error,
>
    decreases s.len() - i,
    via tokens_from_decreases
{
    let j = token_start(s, i);
    if j >= s.len() || i < 0 {
        Ok(Seq::empty())
    } else {
        match token_at(s, source, j) {
            Err(e) => Err(e),
            Ok(token) => match tokens_from(s, source, j + token_len(s, j)) {
                Err(e) => Err(e),
                Ok(rest) => Ok(seq![token] + rest),
            },
        }
    }
}

#[via_fn]
proof fn tokens_from_decreases(s: Seq<char>, source: SourceId, i: int) {
    let j = token_start(s, i);
    if 0 <= i && j < s.len() {
        lemma_token_len_bounds(s, j);
    }
}

/// Each run ends inside the text.
pub proof fn lemma_run_bounds(s: Seq<char>, i: int, radix: u32)
    requires
        0 <= i <= s.len(),
    ensures
        i + space_run(s, i) <= s.len(),
        i + comment_run(s, i) <= s.len(),
        i + ident_run(s, i) <= s.len(),
        i + digit_run(s, i, radix) <= s.len(),
    decreases s.len() - i,
{
    if i < s.len() {
        lemma_run_bounds(s, i + 1, radix);
    }
}

/// Scanning takes at least one character wherever it starts inside the
/// text, and never goes past the end.
pub proof fn lemma_token_len_bounds(s: Seq<char>, i: int)
    requires
        0 <= i < s.len(),
    ensures
        1 <= token_len(s, i) <= s.len() - i,
{
    lemma_run_bounds(s, i, 10);
    lemma_run_bounds(s, i + 1, 10);
    lemma_run_bounds(s, digits_start(s, i), integer_radix(s, i));
}

/// The span of a token scanned at index `i` starts at the byte offset of
/// that character, covers at least one byte, and ends where scanning ends.
/// The span of an error lies inside what scanning took.
pub proof fn lemma_token_span(s: Seq<char>, source: SourceId, i: int)
    requires
        0 <= i < s.len(),
        byte_offset(s, s.len() as int) <= usize::MAX,
    ensures
        match token_at(s, source, i) {
            Ok(token) => {
                &&& token.span.source == source
                &&& token.span.start == byte_offset(s, i)
                &&& token.span.end == byte_offset(s, i + token_len(s, i))
                &&& token.span.start < token.span.end <= byte_offset(s, s.len() as int)
            },
            Err(e) => {
                &&& e.span_spec().source == source
                &&& byte_offset(s, i) <= e.span_spec().start <= e.span_spec().end
                &&& e.span_spec().end == byte_offset(s, i + token_len(s, i))
                &&& e.span_spec().end <= byte_offset(s, s.len() as int)
            },
        },
{
    lemma_token_len_bounds(s, i);
    let end = i + token_len(s, i);
    lemma_byte_offset_monotonic(s, i, end - 1);
    lemma_byte_offset_monotonic(s, end, s.len() as int);
    let first = digits_start(s, i);
    lemma_run_bounds(s, first, integer_radix(s, i));
    lemma_byte_offset_monotonic(s, i, first);
    if first < s.len() {
        lemma_byte_offset_monotonic(s, first + 1, s.len() as int);
    }
}

/// Whether the tokens lie one after the other between the byte offsets
/// `low` and `high` of `source`: each covers at least one byte, and none
/// starts before the one ahead of it has ended.
pub open spec fn ordered_within(tokens: Seq<TokenView>, source: SourceId, low: int, high: int) -> bool
    decreases tokens.len(),
{
    tokens.len() == 0 || {
        &&& tokens[0].span.source == source
        &&& low <= tokens[0].span.start < tokens[0].span.end <= high
        &&& ordered_within(tokens.drop_first(), source, tokens[0].span.end as int, high)
    }
}

/// The tokens of a text come in the order of the text: their spans name
/// the source scanned, cover at least one byte each, do not overlap, and lie
/// inside the text.
pub proof fn lemma_tokens_ordered(s: Seq<char>, source: SourceId, i: int)
    requires
        0 <= i <= s.len(),
        byte_offset(s, s.len() as int) <= usize::MAX,
    ensures
        match tokens_from(s, source, i) {
            Ok(tokens) => ordered_within(
                tokens,
                source,
                byte_offset(s, i) as int,
                byte_offset(s, s.len() as int) as int,
            ),
            Err(_) => true,
        },
    decreases s.len() - i,
{
    let j = token_start(s, i);
    lemma_run_bounds(s, i, 10);
    if j < s.len() {
        let q = j + token_len(s, j);
        lemma_token_len_bounds(s, j);
        lemma_token_span(s, source, j);
        lemma_byte_offset_monotonic(s, i, j);
        lemma_tokens_ordered(s, source, q);
        match token_at(s, source, j) {
            Ok(token) => match tokens_from(s, source, q) {
                Ok(rest) => {
                    let all = seq![token] + rest;
                    assert(all.drop_first() =~= rest);
                    assert(all[0] == token);
                },
                Err(_) => {},
            },
            Err(_) => {},
        }
    }
}

/// The exact value has the sign of the literal, or is zero.
pub proof fn lemma_exact_value_sign(s: Seq<char>, from: int, count: nat, radix: u32, sign: i64)
    requires
        sign == 1 || sign == -1,
    ensures
        sign == 1 ==> exact_value(s, from, count, radix, sign) >= 0,
        sign == -1 ==> exact_value(s, from, count, radix, sign) <= 0,
    decreases count,
{
    if count > 0 {
        lemma_exact_value_sign(s, from, (count - 1) as nat, radix, sign);
        let before = exact_value(s, from, (count - 1) as nat, radix, sign);
        let r = radix as int;
        assert(before >= 0 ==> before * r >= 0) by (nonlinear_arith)
            requires
                r >= 0,
        ;
        assert(before <= 0 ==> before * r <= 0) by (nonlinear_arith)
            requires
                r >= 0,
        ;
    }
}

/// Where the exact value of a literal fits in 64 bits, the gathered value
/// is the exact one: nothing wraps on the way.
pub proof fn lemma_accumulate_exact(s: Seq<char>, from: int, count: nat, radix: u32, sign: i64)
    requires
        i64::MIN <= exact_value(s, from, count, radix, sign) <= i64::MAX,
        sign == 1 || sign == -1,
        2 <= radix <= 36,
        forall|k: int| from <= k < from + count ==> digit_value(#[trigger] s[k], radix) is Some,
    ensures
        accumulate(s, from, count, radix, sign) == exact_value(s, from, count, radix, sign),
    decreases count,
{
    if count > 0 {
        let before = exact_value(s, from, (count - 1) as nat, radix, sign);
        let digit = digit_value(s[from + count - 1], radix).unwrap();
        let r = radix as int;
        lemma_exact_value_sign(s, from, (count - 1) as nat, radix, sign);
        assert(before >= 0 ==> before * r >= before) by (nonlinear_arith)
            requires
                r >= 1,
        ;
        assert(before <= 0 ==> before * r <= before) by (nonlinear_arith)
            requires
                r >= 1,
        ;
        assert(i64::MIN <= before * r <= i64::MAX);
        assert(i64::MIN <= before <= i64::MAX);
        lemma_accumulate_exact(s, from, (count - 1) as nat, radix, sign);
    }
}

} // verus!
