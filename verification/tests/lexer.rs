use casm::parse::text::{len_utf8, to_digit};
use std::path::PathBuf;

use casm::parse::{
    classify, Error, File, Ident, Lexer, SourceId, SourceMap, Span, Token, TokenKind, TokenStart,
};

fn id(index: usize) -> SourceId {
    let mut map = SourceMap::new();
    let mut issued = map.insert(File { path: PathBuf::new(), contents: String::new() });
    for _ in 0..index {
        issued = map.insert(File { path: PathBuf::new(), contents: String::new() });
    }
    issued
}

fn lex_one(input: &str) -> Result<Token, Error> {
    Lexer::new(input, id(0)).lex()
}

#[test]
fn decimal_integer_with_span() {
    let token = lex_one("42").unwrap();
    assert_eq!(token.kind(), &TokenKind::Integer(42));
    assert_eq!(token.span(), Span::new(id(0), 0, 2));
}

#[test]
fn negative_hex_integer() {
    let token = lex_one("-0x1F").unwrap();
    assert_eq!(token.kind(), &TokenKind::Integer(-31));
    assert_eq!(token.span(), Span::new(id(0), 0, 5));
}

#[test]
fn binary_and_octal_integers() {
    assert_eq!(lex_one("0b101").unwrap().kind(), &TokenKind::Integer(5));
    assert_eq!(lex_one("0o17").unwrap().kind(), &TokenKind::Integer(15));
}

#[test]
fn comment_keeps_semicolon_and_newline() {
    let token = lex_one(";hello\n").unwrap();
    assert_eq!(token.kind(), &TokenKind::Comment(String::from(";hello\n")));
    assert_eq!(token.span(), Span::new(id(0), 0, 7));
}

#[test]
fn comment_runs_to_end_of_input_without_newline() {
    let mut lexer = Lexer::new("; no newline", id(3));
    let token = lexer.lex().unwrap();
    assert_eq!(token.kind(), &TokenKind::Comment(String::from("; no newline")));
    assert_eq!(token.span(), Span::new(id(3), 0, 12));
    assert!(lexer.is_empty());
}

#[test]
fn comment_stops_after_first_newline() {
    let mut lexer = Lexer::new(";a\n;b\n", id(0));
    assert_eq!(lexer.lex().unwrap().kind(), &TokenKind::Comment(String::from(";a\n")));
    let second = lexer.lex().unwrap();
    assert_eq!(second.kind(), &TokenKind::Comment(String::from(";b\n")));
    assert_eq!(second.span(), Span::new(id(0), 3, 6));
}

#[test]
fn unexpected_character_is_reported_with_its_span() {
    match lex_one("@") {
        Err(Error::UnexpectedChar(span, c)) => {
            assert_eq!(span, Span::new(id(0), 0, 1));
            assert_eq!(c, '@');
        }
        other => panic!("unexpected result: {:?}", other),
    }
}

#[test]
fn unexpected_multibyte_character_covers_all_its_bytes() {
    match lex_one("  \u{20ac}") {
        Err(Error::UnexpectedChar(span, c)) => {
            assert_eq!(span, Span::new(id(0), 2, 5));
            assert_eq!(c, '\u{20ac}');
        }
        other => panic!("unexpected result: {:?}", other),
    }
}

#[test]
fn empty_input_is_end_of_file_at_offset_zero() {
    match lex_one("") {
        Err(Error::UnexpectedEof(span)) => assert_eq!(span, Span::new(id(0), 0, 0)),
        other => panic!("unexpected result: {:?}", other),
    }
}

#[test]
fn only_whitespace_is_end_of_file_after_it() {
    match lex_one(" \t\n\u{a0}") {
        Err(Error::UnexpectedEof(span)) => assert_eq!(span, Span::new(id(0), 5, 5)),
        other => panic!("unexpected result: {:?}", other),
    }
}

#[test]
fn identifier_is_greedy() {
    let mut lexer = Lexer::new("_foo9_bar baz", id(1));
    let token = lexer.lex().unwrap();
    assert_eq!(token.kind(), &TokenKind::Ident(Ident::new("_foo9_bar")));
    assert_eq!(token.span(), Span::new(id(1), 0, 9));
    let next = lexer.lex().unwrap();
    assert_eq!(next.kind(), &TokenKind::Ident(Ident::new("baz")));
    assert_eq!(next.span(), Span::new(id(1), 10, 13));
}

#[test]
fn identifier_span_counts_bytes_not_characters() {
    let mut lexer = Lexer::new("h\u{e9}llo:", id(0));
    let token = lexer.lex().unwrap();
    assert_eq!(token.kind(), &TokenKind::Ident(Ident::new("h\u{e9}llo")));
    assert_eq!(token.span(), Span::new(id(0), 0, 6));
    let colon = lexer.lex().unwrap();
    assert_eq!(colon.kind(), &TokenKind::Colon);
    assert_eq!(colon.span(), Span::new(id(0), 6, 7));
}

#[test]
fn punctuation_tokens() {
    let mut lexer = Lexer::new(":,", id(0));
    assert_eq!(lexer.lex().unwrap(), Token::new(TokenKind::Colon, Span::new(id(0), 0, 1)));
    assert_eq!(lexer.lex().unwrap(), Token::new(TokenKind::Comma, Span::new(id(0), 1, 2)));
}

#[test]
fn integer_stops_at_first_character_that_is_no_digit() {
    let mut lexer = Lexer::new("0b102", id(0));
    let first = lexer.lex().unwrap();
    assert_eq!(first.kind(), &TokenKind::Integer(2));
    assert_eq!(first.span(), Span::new(id(0), 0, 4));
    assert_eq!(lexer.lex().unwrap().kind(), &TokenKind::Integer(2));
}

#[test]
fn hex_digits_in_both_cases() {
    assert_eq!(lex_one("0xfF").unwrap().kind(), &TokenKind::Integer(255));
    assert_eq!(lex_one("-0o777").unwrap().kind(), &TokenKind::Integer(-511));
}

#[test]
fn sign_without_digits_is_an_error() {
    match lex_one("-") {
        Err(Error::UnexpectedEof(span)) => assert_eq!(span, Span::new(id(0), 1, 1)),
        other => panic!("unexpected result: {:?}", other),
    }
    match lex_one("- 1") {
        Err(Error::UnexpectedChar(span, c)) => {
            assert_eq!(span, Span::new(id(0), 1, 2));
            assert_eq!(c, ' ');
        }
        other => panic!("unexpected result: {:?}", other),
    }
}

#[test]
fn prefix_without_digits_is_an_error() {
    match lex_one("0x") {
        Err(Error::UnexpectedEof(span)) => assert_eq!(span, Span::new(id(0), 2, 2)),
        other => panic!("unexpected result: {:?}", other),
    }
    match lex_one("-0o") {
        Err(Error::UnexpectedEof(span)) => assert_eq!(span, Span::new(id(0), 3, 3)),
        other => panic!("unexpected result: {:?}", other),
    }
    match lex_one("0b2") {
        Err(Error::UnexpectedChar(span, c)) => {
            assert_eq!(span, Span::new(id(0), 2, 3));
            assert_eq!(c, '2');
        }
        other => panic!("unexpected result: {:?}", other),
    }
    match lex_one("0x\u{20ac}") {
        Err(Error::UnexpectedChar(span, c)) => {
            assert_eq!(span, Span::new(id(0), 2, 5));
            assert_eq!(c, '\u{20ac}');
        }
        other => panic!("unexpected result: {:?}", other),
    }
}

#[test]
fn zero_alone_is_a_literal() {
    let mut lexer = Lexer::new("0 0,", id(0));
    assert_eq!(lexer.lex().unwrap(), Token::new(TokenKind::Integer(0), Span::new(id(0), 0, 1)));
    assert_eq!(lexer.lex().unwrap(), Token::new(TokenKind::Integer(0), Span::new(id(0), 2, 3)));
    assert_eq!(lexer.lex().unwrap().kind(), &TokenKind::Comma);
}

#[test]
fn integer_limits() {
    assert_eq!(lex_one("9223372036854775807").unwrap().kind(), &TokenKind::Integer(i64::MAX));
    assert_eq!(lex_one("-9223372036854775808").unwrap().kind(), &TokenKind::Integer(i64::MIN));
}

#[test]
fn integer_beyond_sixty_four_bits_wraps() {
    assert_eq!(lex_one("9223372036854775808").unwrap().kind(), &TokenKind::Integer(i64::MIN));
    assert_eq!(lex_one("0x10000000000000001").unwrap().kind(), &TokenKind::Integer(1));
}

#[test]
fn peek_and_consume_walk_characters() {
    let mut lexer = Lexer::new("a\u{e9}b", id(0));
    assert_eq!(lexer.peek(), Some('a'));
    assert_eq!(lexer.peek_nth(0), Some('a'));
    assert_eq!(lexer.peek_nth(1), Some('\u{e9}'));
    assert_eq!(lexer.peek_nth(2), Some('b'));
    assert_eq!(lexer.peek_nth(3), None);
    assert_eq!(lexer.peek_nth(usize::MAX), None);
    assert_eq!(lexer.consume(), Some('a'));
    assert_eq!(lexer.span(), Span::new(id(0), 1, 1));
    assert_eq!(lexer.consume(), Some('\u{e9}'));
    assert_eq!(lexer.span(), Span::new(id(0), 3, 3));
    assert_eq!(lexer.consume(), Some('b'));
    assert_eq!(lexer.consume(), None);
    assert_eq!(lexer.span(), Span::new(id(0), 4, 4));
    assert!(lexer.is_empty());
}

#[test]
fn consume_n_stops_at_the_end() {
    let mut lexer = Lexer::new("abc", id(0));
    lexer.consume_n(2);
    assert_eq!(lexer.peek(), Some('c'));
    lexer.consume_n(5);
    assert_eq!(lexer.peek(), None);
    assert_eq!(lexer.span(), Span::new(id(0), 3, 3));
}

#[test]
fn skip_whitespace_stops_at_a_token() {
    let mut lexer = Lexer::new(" \u{2003}\r\nx ", id(0));
    lexer.skip_whitespace();
    assert_eq!(lexer.peek(), Some('x'));
    assert_eq!(lexer.span(), Span::new(id(0), 6, 6));
    lexer.skip_whitespace();
    assert_eq!(lexer.span(), Span::new(id(0), 6, 6));
}

#[test]
fn character_after_error_is_still_scanned() {
    let mut lexer = Lexer::new("@a", id(0));
    assert!(lexer.lex().is_err());
    assert_eq!(lexer.lex().unwrap().kind(), &TokenKind::Ident(Ident::new("a")));
}

#[test]
fn utf8_widths() {
    assert_eq!(len_utf8('a'), 1);
    assert_eq!(len_utf8('\u{7f}'), 1);
    assert_eq!(len_utf8('\u{80}'), 2);
    assert_eq!(len_utf8('\u{7ff}'), 2);
    assert_eq!(len_utf8('\u{800}'), 3);
    assert_eq!(len_utf8('\u{ffff}'), 3);
    assert_eq!(len_utf8('\u{10000}'), 4);
    assert_eq!(len_utf8('\u{10ffff}'), 4);
    for c in ['a', '\u{e9}', '\u{20ac}', '\u{1f600}'] {
        assert_eq!(len_utf8(c), c.len_utf8());
    }
}

#[test]
fn digit_values_agree_with_std() {
    for radix in [2u32, 8, 10, 16, 36] {
        for c in ['0', '1', '7', '8', '9', 'a', 'f', 'g', 'z', 'A', 'F', 'Z', '/', ':', '@', '[', '`', '{', '\u{e9}', '\u{663}'] {
            assert_eq!(to_digit(c, radix), c.to_digit(radix));
        }
    }
    assert_eq!(to_digit('f', 16), Some(15));
    assert_eq!(to_digit('8', 8), None);
}

#[test]
fn first_character_decides_in_a_fixed_order() {
    assert_eq!(classify(';', false), TokenStart::Comment);
    assert_eq!(classify(';', true), TokenStart::Comment);
    assert_eq!(classify('0', false), TokenStart::Integer);
    assert_eq!(classify('9', true), TokenStart::Integer);
    assert_eq!(classify('-', false), TokenStart::Integer);
    assert_eq!(classify('a', true), TokenStart::Ident);
    assert_eq!(classify('_', true), TokenStart::Ident);
    assert_eq!(classify(':', true), TokenStart::Ident);
    assert_eq!(classify(':', false), TokenStart::Colon);
    assert_eq!(classify(',', false), TokenStart::Comma);
    assert_eq!(classify('@', false), TokenStart::Unexpected);
    assert_eq!(classify('a', false), TokenStart::Unexpected);
}

#[test]
fn letters_of_other_scripts_start_identifiers() {
    let mut lexer = Lexer::new("\u{3b1}\u{3b2}2 \u{4eac}", id(0));
    let first = lexer.lex().unwrap();
    assert_eq!(first.kind(), &TokenKind::Ident(Ident::new("\u{3b1}\u{3b2}2")));
    assert_eq!(first.span(), Span::new(id(0), 0, 5));
    let second = lexer.lex().unwrap();
    assert_eq!(second.kind(), &TokenKind::Ident(Ident::new("\u{4eac}")));
    assert_eq!(second.span(), Span::new(id(0), 6, 9));
}

#[test]
fn minus_before_a_name_is_an_error_at_the_name() {
    let mut lexer = Lexer::new("-x y", id(0));
    match lexer.lex() {
        Err(Error::UnexpectedChar(span, c)) => {
            assert_eq!(span, Span::new(id(0), 1, 2));
            assert_eq!(c, 'x');
        }
        other => panic!("unexpected result: {:?}", other),
    }
    assert_eq!(lexer.lex().unwrap().kind(), &TokenKind::Ident(Ident::new("y")));
}

#[test]
fn whitespace_is_the_unicode_property() {
    let spaces = |v: u32| {
        (0x09..=0x0d).contains(&v)
            || v == 0x20
            || v == 0x85
            || v == 0xa0
            || v == 0x1680
            || (0x2000..=0x200a).contains(&v)
            || v == 0x2028
            || v == 0x2029
            || v == 0x202f
            || v == 0x205f
            || v == 0x3000
    };
    let source = id(0);
    let mut v: u32 = 0;
    while v <= 0x10ffff {
        if let Some(c) = char::from_u32(v) {
            assert_eq!(c.is_whitespace(), spaces(v), "code point {:x}", v);
            let text = c.to_string();
            let mut lexer = Lexer::new(&text, source);
            lexer.skip_whitespace();
            assert_eq!(lexer.is_empty(), spaces(v), "code point {:x}", v);
        }
        v += if v < 0x3100 { 1 } else { 61 };
    }
}
