use text_lex::character::Character;
use text_lex::parser::{parse_all, ErrorKind, ParseError, Parser};
use text_lex::stream::Stream;
use text_lex::text::{digits, ident, integer, keyword, newline, whitespace, TextParser};

fn chars(s: &str) -> Vec<char> {
    s.chars().collect()
}

fn err(kind: ErrorKind, start: usize, end: usize) -> ParseError {
    ParseError { kind, start, end }
}

#[test]
fn whitespace_skips_leading_run() {
    let (r, n) = parse_all(&whitespace(), chars("  \t\nx y"));
    assert_eq!(r, Ok(()));
    assert_eq!(n, 4);
}

#[test]
fn whitespace_on_empty_input() {
    let (r, n) = parse_all(&whitespace(), chars(""));
    assert_eq!(r, Ok(()));
    assert_eq!(n, 0);
}

#[test]
fn whitespace_on_other_character() {
    let (r, n) = parse_all(&whitespace(), chars("x  "));
    assert_eq!(r, Ok(()));
    assert_eq!(n, 0);
}

#[test]
fn whitespace_all_of_input() {
    let (r, n) = parse_all(&whitespace(), chars(" \r\n\t "));
    assert_eq!(r, Ok(()));
    assert_eq!(n, 5);
}

#[test]
fn whitespace_unicode_codepoints() {
    let (_, n) = parse_all(&whitespace(), chars("\u{3000}\u{a0}\u{2009}a"));
    assert_eq!(n, 3);
}

#[test]
fn whitespace_vertical_tab_differs_by_representation() {
    let (_, n) = parse_all(&whitespace(), chars("\x0b"));
    assert_eq!(n, 1);
    let (_, n) = parse_all(&whitespace(), vec![0x0bu8]);
    assert_eq!(n, 0);
    let (_, n) = parse_all(&whitespace(), b"\x0c \t\n\rz".to_vec());
    assert_eq!(n, 5);
}

#[test]
fn whitespace_leaves_stream_after_run() {
    let mut s = Stream::new(chars("  ab"));
    let r = whitespace().parse(&mut s);
    assert_eq!(r, Ok(()));
    assert_eq!(s.position(), 2);
    assert_eq!(s.next(), Some('a'));
}

#[test]
fn padded_same_result_as_inner() {
    let (r, n) = parse_all(&digits(10).padded(), chars("  12 \t"));
    assert_eq!(r, Ok("12".to_string()));
    assert_eq!(n, 6);
    let (r0, n0) = parse_all(&digits(10), chars("12"));
    assert_eq!(r0, Ok("12".to_string()));
    assert_eq!(n0, 2);
}

#[test]
fn padded_without_whitespace() {
    let (r, n) = parse_all(&ident().padded(), chars("abc"));
    assert_eq!(r, Ok("abc".to_string()));
    assert_eq!(n, 3);
}

#[test]
fn padded_failure_after_leading_skip() {
    let (r, n) = parse_all(&digits(10).padded(), chars("  x"));
    assert_eq!(r, Err(err(ErrorKind::EmptyMatch, 2, 3)));
    assert_eq!(n, 2);
}

#[test]
fn keyword_exact() {
    let (r, n) = parse_all(&keyword("def".to_string()), chars("def"));
    assert_eq!(r, Ok(()));
    assert_eq!(n, 3);
}

#[test]
fn keyword_followed_by_punctuation() {
    let mut s = Stream::new(chars("def(foo, bar)"));
    let r = keyword("def".to_string()).parse(&mut s);
    assert_eq!(r, Ok(()));
    assert_eq!(s.position(), 3);
    assert_eq!(s.remaining(), chars("(foo, bar)"));
}

#[test]
fn keyword_longer_identifier_fails() {
    let (r, n) = parse_all(&keyword("def".to_string()), chars("define"));
    assert_eq!(r, Err(err(ErrorKind::Mismatch, 0, 6)));
    assert_eq!(n, 6);
}

#[test]
fn keyword_not_an_identifier() {
    let (r, n) = parse_all(&keyword("def".to_string()), chars("1def"));
    assert_eq!(r, Err(err(ErrorKind::EmptyMatch, 0, 1)));
    assert_eq!(n, 0);
}

#[test]
fn keyword_on_bytes() {
    let (r, n) = parse_all(&keyword(b"let".to_vec()), b"let x".to_vec());
    assert_eq!(r, Ok(()));
    assert_eq!(n, 3);
    let (r, _) = parse_all(&keyword(b"let".to_vec()), b"le".to_vec());
    assert_eq!(r, Err(err(ErrorKind::Mismatch, 0, 2)));
}

#[test]
fn digits_hex_stops_before_space() {
    let (r, n) = parse_all(&digits(16), chars("ff "));
    assert_eq!(r, Ok("ff".to_string()));
    assert_eq!(n, 2);
}

#[test]
fn digits_on_whitespace_fails() {
    let (r, n) = parse_all(&digits(10), chars("  "));
    assert_eq!(r, Err(err(ErrorKind::EmptyMatch, 0, 1)));
    assert_eq!(n, 0);
}

#[test]
fn digits_on_empty_input_fails() {
    let (r, n) = parse_all(&digits(10), chars(""));
    assert_eq!(r, Err(err(ErrorKind::EmptyMatch, 0, 0)));
    assert_eq!(n, 0);
}

#[test]
fn digits_respect_radix() {
    let (r, n) = parse_all(&digits(2), chars("1012"));
    assert_eq!(r, Ok("101".to_string()));
    assert_eq!(n, 3);
    let (r, _) = parse_all(&digits(36), chars("zZ9-"));
    assert_eq!(r, Ok("zZ9".to_string()));
    let (r, _) = parse_all(&digits(10), b"0042a".to_vec());
    assert_eq!(r, Ok(b"0042".to_vec()));
}

#[test]
fn integer_canonical_whole() {
    let (r, n) = parse_all(&integer(10), chars("120"));
    assert_eq!(r, Ok("120".to_string()));
    assert_eq!(n, 3);
}

#[test]
fn integer_zero() {
    let (r, n) = parse_all(&integer(10), chars("0"));
    assert_eq!(r, Ok("0".to_string()));
    assert_eq!(n, 1);
}

#[test]
fn integer_leading_zero_not_one_token() {
    let (r, n) = parse_all(&integer(10), chars("007"));
    assert_eq!(r, Ok("0".to_string()));
    assert_eq!(n, 1);
}

#[test]
fn integer_hex_and_bytes() {
    let (r, n) = parse_all(&integer(16), chars("fF0g"));
    assert_eq!(r, Ok("fF0".to_string()));
    assert_eq!(n, 3);
    let (r, _) = parse_all(&integer(10), b"42;".to_vec());
    assert_eq!(r, Ok(b"42".to_vec()));
}

#[test]
fn integer_no_branch() {
    let (r, n) = parse_all(&integer(10), chars("x1"));
    assert_eq!(r, Err(err(ErrorKind::NoBranch, 0, 1)));
    assert_eq!(n, 0);
    let (r, n) = parse_all(&integer(8), chars("9"));
    assert_eq!(r, Err(err(ErrorKind::NoBranch, 0, 1)));
    assert_eq!(n, 0);
    let (r, _) = parse_all(&integer(10), chars(""));
    assert_eq!(r, Err(err(ErrorKind::NoBranch, 0, 0)));
}

#[test]
fn ident_full_match() {
    let (r, n) = parse_all(&ident(), chars("_foo_Bar9 x"));
    assert_eq!(r, Ok("_foo_Bar9".to_string()));
    assert_eq!(n, 9);
}

#[test]
fn ident_rejects_digit_start() {
    let (r, n) = parse_all(&ident(), chars("9abc"));
    assert_eq!(r, Err(err(ErrorKind::EmptyMatch, 0, 1)));
    assert_eq!(n, 0);
}

#[test]
fn ident_rejects_empty() {
    let (r, n) = parse_all(&ident(), chars(""));
    assert_eq!(r, Err(err(ErrorKind::EmptyMatch, 0, 0)));
    assert_eq!(n, 0);
}

#[test]
fn ident_stops_at_non_ascii() {
    let (r, n) = parse_all(&ident(), chars("ab\u{e9}"));
    assert_eq!(r, Ok("ab".to_string()));
    assert_eq!(n, 2);
}

#[test]
fn newline_crlf_is_one_match() {
    let (r, n) = parse_all(&newline(), chars("\r\n"));
    assert_eq!(r, Ok(()));
    assert_eq!(n, 2);
}

#[test]
fn newline_line_feed() {
    let (r, n) = parse_all(&newline(), chars("\n\n"));
    assert_eq!(r, Ok(()));
    assert_eq!(n, 1);
}

#[test]
fn newline_line_separator() {
    let (r, n) = parse_all(&newline(), chars("\u{2028}"));
    assert_eq!(r, Ok(()));
    assert_eq!(n, 1);
}

#[test]
fn newline_other_terminators() {
    for s in ["\x0b", "\x0c", "\r", "\u{85}", "\u{2029}", "\rx", "\r\r"] {
        let (r, n) = parse_all(&newline(), chars(s));
        assert_eq!(r, Ok(()));
        assert_eq!(n, 1);
    }
}

#[test]
fn newline_rejects_other() {
    let (r, n) = parse_all(&newline(), chars(" \n"));
    assert_eq!(r, Err(err(ErrorKind::NoBranch, 0, 1)));
    assert_eq!(n, 0);
}

#[test]
fn character_model() {
    assert!('\u{2003}'.is_whitespace());
    assert!(!0xa0u8.is_whitespace());
    assert_eq!(<u8 as Character>::digit_zero(), b'0');
    assert_eq!(<char as Character>::digit_zero(), '0');
    assert!('b'.is_digit(12));
    assert!(!'c'.is_digit(12));
    assert!(b'7'.is_digit(8));
    assert!(!b'8'.is_digit(8));
    assert_eq!(b'A'.to_char(), 'A');
    assert!('x'.same(&'x'));
}

#[test]
fn stream_checkpoints() {
    let mut s = Stream::new(vec![1u8, 2, 3]);
    let cp = s.save();
    assert_eq!(s.next(), Some(1));
    assert_eq!(s.next(), Some(2));
    s.revert(cp);
    assert_eq!(s.position(), 0);
    assert_eq!(s.remaining(), vec![1u8, 2, 3]);
    assert_eq!(s.next(), Some(1));
    assert_eq!(s.next(), Some(2));
    assert_eq!(s.next(), Some(3));
    assert_eq!(s.next(), None);
    assert_eq!(s.position(), 3);
}
