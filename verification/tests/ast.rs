use runestick::ast::{
    Async, Comma, DeclFn, ExprBlock, FnArg, FnToken, Ident, LitNumber, LitStr, Number,
    Parenthesized, SelfValue, Underscore,
};
use runestick::span::Span;
use runestick::token::{Delimiter, Kind, LitNumber as Base, ParseError, Parser, Source, Token};

fn source(text: &str) -> Source {
    Source::new(text.chars().collect())
}

fn chars(text: &str) -> Vec<char> {
    text.chars().collect()
}

fn token(start: usize, end: usize, kind: Kind) -> Token {
    Token { span: Span::new(start, end), kind }
}

fn number(text: &str, negative: bool, fractional: bool, base: Base) -> Result<Number, ParseError> {
    let literal = LitNumber {
        is_negative: negative,
        is_fractional: fractional,
        number: base,
        token: token(
            2,
            2 + text.chars().count(),
            Kind::LitNumber { is_negative: negative, is_fractional: fractional, number: base },
        ),
    };
    literal.resolve(&source(&format!("= {};", text)))
}

fn decl(args: Vec<FnArg>) -> DeclFn {
    DeclFn {
        async_: Some(Async { token: token(0, 5, Kind::Async) }),
        fn_: FnToken { token: token(6, 8, Kind::Fn) },
        name: Ident { token: token(9, 12, Kind::Ident) },
        args: Parenthesized {
            open: token(12, 13, Kind::Open { delimiter: Delimiter::Parenthesis }),
            items: args
                .into_iter()
                .map(|arg| (arg, Some(Comma { token: token(0, 0, Kind::Comma) })))
                .collect(),
            close: token(20, 21, Kind::Close { delimiter: Delimiter::Parenthesis }),
        },
        body: ExprBlock {
            open: token(22, 23, Kind::Open { delimiter: Delimiter::Brace }),
            close: token(30, 31, Kind::Close { delimiter: Delimiter::Brace }),
        },
    }
}

#[test]
fn decl_fn_span_runs_from_fn_to_the_end_of_the_body() {
    assert_eq!(decl(vec![]).span(), Span::new(6, 31));
}

#[test]
fn decl_fn_is_instance_if_first_argument_is_self() {
    let this = FnArg::Self_(SelfValue { token: token(13, 17, Kind::Self_) });
    let named = FnArg::Ident(Ident { token: token(13, 14, Kind::Ident) });
    let ignored = FnArg::Ignore(Underscore { token: token(13, 14, Kind::Underscore) });
    assert!(!decl(vec![]).is_instance());
    assert!(decl(vec![this]).is_instance());
    assert!(decl(vec![this, named]).is_instance());
    assert!(!decl(vec![named, this]).is_instance());
    assert!(!decl(vec![ignored]).is_instance());
}

#[test]
fn decl_fn_peek_looks_for_fn() {
    assert!(DeclFn::peek(Some(token(0, 2, Kind::Fn)), None));
    assert!(!DeclFn::peek(Some(token(0, 5, Kind::Async)), Some(token(6, 8, Kind::Fn))));
    assert!(!DeclFn::peek(None, None));
}

#[test]
fn spans_join_and_narrow() {
    assert_eq!(Span::new(3, 5).join(Span::new(4, 9)), Span::new(3, 9));
    assert_eq!(Span::new(3, 5).join(Span::new(1, 4)), Span::new(1, 5));
    assert_eq!(Span::new(3, 9).narrow(1), Span::new(4, 8));
    assert_eq!(Span::new(0, 0).narrow(1), Span::new(1, 0));
    assert_eq!(Span::new(usize::MAX, 9).narrow(2), Span::new(usize::MAX, 7));
    assert_eq!(Span::new(3, 9).with_start(5), Span::new(5, 9));
    assert_eq!(Span::new(3, 9).len(), 6);
    assert_eq!(Span::new(9, 3).len(), 0);
}

#[test]
fn integer_literals_resolve_in_their_base() {
    assert_eq!(number("42", false, false, Base::Decimal), Ok(Number::Integer(42)));
    assert_eq!(number("0", false, false, Base::Decimal), Ok(Number::Integer(0)));
    assert_eq!(number("-42", true, false, Base::Decimal), Ok(Number::Integer(-42)));
    assert_eq!(number("0x1F", false, false, Base::Hex), Ok(Number::Integer(31)));
    assert_eq!(number("-0xff", true, false, Base::Hex), Ok(Number::Integer(-255)));
    assert_eq!(number("0b1010", false, false, Base::Binary), Ok(Number::Integer(10)));
    assert_eq!(number("0o17", false, false, Base::Octal), Ok(Number::Integer(15)));
    assert_eq!(number("1_000", false, false, Base::Decimal), Ok(Number::Integer(1000)));
}

#[test]
fn integer_literals_at_the_bounds() {
    assert_eq!(
        number("9223372036854775807", false, false, Base::Decimal),
        Ok(Number::Integer(i64::MAX))
    );
    assert_eq!(
        number("-9223372036854775808", true, false, Base::Decimal),
        Ok(Number::Integer(i64::MIN))
    );
    let out = Err(ParseError::BadNumberOutOfBounds { span: Span::new(2, 21) });
    assert_eq!(number("9223372036854775808", false, false, Base::Decimal), out);
    assert_eq!(
        number("-9223372036854775809", true, false, Base::Decimal),
        Err(ParseError::BadNumberOutOfBounds { span: Span::new(2, 22) })
    );
    assert_eq!(
        number("0xffffffffffffffffffffffffffffffffffff", false, false, Base::Hex),
        Err(ParseError::BadNumberOutOfBounds { span: Span::new(2, 40) })
    );
}

#[test]
fn bad_number_literals() {
    let bad = |len: usize| Err(ParseError::BadNumberLiteral { span: Span::new(2, 2 + len) });
    assert_eq!(number("12a", false, false, Base::Decimal), bad(3));
    assert_eq!(number("0b12", false, false, Base::Binary), bad(4));
    assert_eq!(number("0o8", false, false, Base::Octal), bad(3));
    assert_eq!(number("0x", false, false, Base::Hex), bad(2));
    assert_eq!(number("0", false, false, Base::Hex), bad(1));
    assert_eq!(number("", true, false, Base::Decimal), bad(0));
    assert_eq!(number("-", true, false, Base::Decimal), bad(1));
    let literal = LitNumber {
        is_negative: false,
        is_fractional: false,
        number: Base::Decimal,
        token: token(1, 9, Kind::Comma),
    };
    assert_eq!(
        literal.resolve(&source("12")),
        Err(ParseError::BadSlice { span: Span::new(1, 9) })
    );
    assert_eq!(literal.span(), Span::new(1, 9));
}

#[test]
fn fractional_literals_keep_their_digits() {
    assert_eq!(number("42.42", false, true, Base::Decimal), Ok(Number::Float(chars("42.42"))));
    assert_eq!(number("-0.42e10", true, true, Base::Decimal), Ok(Number::Float(chars("0.42e10"))));
}

#[test]
fn number_literal_parses_from_its_token() {
    let kind = Kind::LitNumber { is_negative: true, is_fractional: false, number: Base::Hex };
    let first = token(0, 4, kind);
    let second = token(5, 6, Kind::Comma);
    let mut parser = Parser::new(vec![first, second], Span::new(6, 6));
    assert_eq!(parser.token_peek(), Some(first));
    assert_eq!(
        LitNumber::parse(&mut parser),
        Ok(LitNumber { is_negative: true, is_fractional: false, number: Base::Hex, token: first })
    );
    assert_eq!(
        LitNumber::parse(&mut parser),
        Err(ParseError::ExpectedNumber { actual: Kind::Comma, span: Span::new(5, 6) })
    );
    assert_eq!(parser.token_peek(), None);
    assert_eq!(
        LitNumber::parse(&mut parser),
        Err(ParseError::UnexpectedEof { span: Span::new(6, 6) })
    );
}

#[test]
fn string_literal_parses_from_its_token() {
    let first = token(0, 4, Kind::LitStr { escaped: true });
    let second = token(5, 6, Kind::Fn);
    let mut parser = Parser::new(vec![first, second], Span::new(6, 6));
    assert_eq!(LitStr::parse(&mut parser), Ok(LitStr { token: first, escaped: true }));
    assert_eq!(
        LitStr::parse(&mut parser),
        Err(ParseError::ExpectedString { actual: Kind::Fn, span: Span::new(5, 6) })
    );
    assert_eq!(
        LitStr::parse(&mut parser),
        Err(ParseError::UnexpectedEof { span: Span::new(6, 6) })
    );
    assert_eq!(parser.token_next(), Err(ParseError::UnexpectedEof { span: Span::new(6, 6) }));
}

fn literal(text: &str, escaped: bool) -> Result<String, ParseError> {
    let string = LitStr {
        token: token(0, text.chars().count(), Kind::LitStr { escaped }),
        escaped,
    };
    assert_eq!(string.span(), Span::new(0, text.chars().count()));
    string.resolve(&source(text)).map(|chars| chars.into_iter().collect())
}

#[test]
fn string_literals_resolve_to_what_is_between_the_quotes() {
    assert_eq!(literal("\"hello world\"", false), Ok("hello world".to_owned()));
    assert_eq!(literal("\"\"", false), Ok("".to_owned()));
    assert_eq!(literal("\"a\\nb\"", false), Ok("a\\nb".to_owned()));
    assert_eq!(literal("\"грибы\"", false), Ok("грибы".to_owned()));
}

#[test]
fn escape_sequences_are_replaced() {
    assert_eq!(literal("\"hello\\nworld\"", true), Ok("hello\nworld".to_owned()));
    assert_eq!(
        literal("\"\\'\\\"\\n\\r\\t\\\\\\0\"", true),
        Ok("'\"\n\r\t\\\0".to_owned())
    );
    assert_eq!(literal("\"\\x41\\x7f\\x00\"", true), Ok("A\u{7f}\0".to_owned()));
    assert_eq!(literal("\"\\u{41}\\u{1F600}\\u{0}x\"", true), Ok("A\u{1F600}\0x".to_owned()));
    assert_eq!(literal("\"\\u{10ffff}\"", true), Ok("\u{10ffff}".to_owned()));
    assert_eq!(literal("\"plain\"", true), Ok("plain".to_owned()));
}

#[test]
fn bad_escape_sequences_name_their_place() {
    assert_eq!(
        literal("\"ab\\q\"", true),
        Err(ParseError::BadEscapeSequence { span: Span::new(3, 5) })
    );
    assert_eq!(
        literal("\"ab\\\"", true),
        Err(ParseError::BadEscapeSequence { span: Span::new(3, 4) })
    );
    assert_eq!(literal("\"\\x80\"", true), Err(ParseError::BadHexEscape { span: Span::new(1, 5) }));
    assert_eq!(literal("\"\\x4\"", true), Err(ParseError::BadHexEscape { span: Span::new(1, 4) }));
    assert_eq!(literal("\"\\xg0\"", true), Err(ParseError::BadHexEscape { span: Span::new(1, 5) }));
    for text in [
        "\"\\u41\"",
        "\"\\u{}\"",
        "\"\\u{41\"",
        "\"\\u{110000}\"",
        "\"\\u{d800}\"",
        "\"\\u{dfff}\"",
        "\"\\u{1234567}\"",
        "\"\\u{4g}\"",
        "\"\\u\"",
    ] {
        assert_eq!(
            literal(text, true),
            Err(ParseError::BadUnicodeEscape { span: Span::new(1, text.chars().count() - 1) }),
            "{}",
            text
        );
    }
}

#[test]
fn parse_escaped_works_on_any_text() {
    let string = LitStr { token: token(0, 0, Kind::LitStr { escaped: true }), escaped: true };
    assert_eq!(
        string.parse_escaped(Span::new(10, 20), &chars("a\\tb")),
        Ok(chars("a\tb"))
    );
    assert_eq!(
        string.parse_escaped(Span::new(10, 20), &chars("ab\\")),
        Err(ParseError::BadEscapeSequence { span: Span::new(12, 20) })
    );
    assert_eq!(
        string.parse_escaped(Span::new(usize::MAX, 20), &chars("ab\\")),
        Err(ParseError::BadEscapeSequence { span: Span::new(usize::MAX, 20) })
    );
}

#[test]
fn source_gives_text_under_spans() {
    let text = source("héllo");
    assert_eq!(text.len(), 5);
    assert_eq!(text.source(Span::new(1, 3)), Ok(chars("él")));
    assert_eq!(text.source(Span::new(0, 5)), Ok(chars("héllo")));
    assert_eq!(text.source(Span::new(5, 5)), Ok(vec![]));
    assert_eq!(text.source(Span::new(3, 6)), Err(ParseError::BadSlice { span: Span::new(3, 6) }));
    assert_eq!(text.source(Span::new(3, 2)), Err(ParseError::BadSlice { span: Span::new(3, 2) }));
}
