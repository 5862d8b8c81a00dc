//! The parts of the syntax tree that the indexer and the compiler read
//! literals and function declarations from.

use vstd::prelude::*;
use crate::number::{radix_number, read_radix, signed, to_integer};
use crate::span::Span;
use crate::token::{Kind, LitNumber as Base, ParseError, Parser, Source, Token};

verus! {

/// The keyword `async`.
#[derive(Clone, Copy, Debug, PartialEq, Eq, Structural)]
pub struct Async {
    /// The token of the keyword.
    pub token: Token,
}

/// The keyword `fn`.
#[derive(Clone, Copy, Debug, PartialEq, Eq, Structural)]
pub struct FnToken {
    /// The token of the keyword.
    pub token: Token,
}

impl FnToken {
    /// Access the span of the keyword.
    pub fn span(&self) -> (span: Span)
        ensures
            span == self.token.span,
    {
        self.token.span
    }
}

/// An identifier.
#[derive(Clone, Copy, Debug, PartialEq, Eq, Structural)]
pub struct Ident {
    /// The token of the identifier.
    pub token: Token,
}

/// The keyword `self`.
#[derive(Clone, Copy, Debug, PartialEq, Eq, Structural)]
pub struct SelfValue {
    /// The token of the keyword.
    pub token: Token,
}

/// An underscore.
#[derive(Clone, Copy, Debug, PartialEq, Eq, Structural)]
pub struct Underscore {
    /// The token of the underscore.
    pub token: Token,
}

/// A comma.
#[derive(Clone, Copy, Debug, PartialEq, Eq, Structural)]
pub struct Comma {
    /// The token of the comma.
    pub token: Token,
}

/// An argument of a function declaration.
#[derive(Clone, Copy, Debug, PartialEq, Eq, Structural)]
pub enum FnArg {
    /// The `self` parameter.
    Self_(SelfValue),
    /// An argument that is ignored.
    Ignore(Underscore),
    /// An argument with a name.
    Ident(Ident),
}

/// Items in parentheses, each with the separator that follows it.
#[derive(Debug)]
pub struct Parenthesized<T, S> {
    /// The opening parenthesis.
    pub open: Token,
    /// The items, each with the separator that follows it.
    pub items: Vec<(T, Option<S>)>,
    /// The closing parenthesis.
    pub close: Token,
}

/// A block: what stands between a pair of braces.
#[derive(Clone, Copy, Debug, PartialEq, Eq, Structural)]
pub struct ExprBlock {
    /// The opening brace.
    pub open: Token,
    /// The closing brace.
    pub close: Token,
}

impl ExprBlock {
    /// Access the span of the block.
    pub fn span(&self) -> (span: Span)
        ensures
            span == self.open.span.spec_join(self.close.span),
    {
        self.open.span.join(self.close.span)
    }
}

/// A function.
#[derive(Debug)]
pub struct DeclFn {
    /// The optional `async` keyword.
    pub async_: Option<Async>,
    /// The `fn` token.
    pub fn_: FnToken,
    /// The name of the function.
    pub name: Ident,
    /// The arguments of the function.
    pub args: Parenthesized<FnArg, Comma>,
    /// The body of the function.
    pub body: ExprBlock,
}

impl DeclFn {
    /// Access the span for the function declaration: from the `fn` keyword
    /// to the end of the body.
    pub fn span(&self) -> (span: Span)
        ensures
            span == self.fn_.token.span.spec_join(
                self.body.open.span.spec_join(self.body.close.span),
            ),
    {
        self.fn_.span().join(self.body.span())
    }

    /// Test if function is an instance fn: its first argument is `self`.
    pub fn is_instance(&self) -> (instance: bool)
        ensures
            instance == (self.args.items@.len() > 0 && self.args.items@[0].0 is Self_),
    {
        if self.args.items.len() == 0 {
            return false;
        }
        match self.args.items[0].0 {
            FnArg::Self_(_) => true,
            _ => false,
        }
    }

    /// Whether a function declaration starts at the token `t1`.
    pub fn peek(t1: Option<Token>, t2: Option<Token>) -> (starts: bool)
        ensures
            starts == (t1 matches Some(token) && token.kind == Kind::Fn),
    {
        match t1 {
            Some(token) => match token.kind {
                Kind::Fn => true,
                _ => false,
            },
            None => false,
        }
    }
}

/// A resolved number literal.
#[derive(Debug, PartialEq)]
pub enum Number {
    /// A float literal number: the text of its digits, for the driver to
    /// read as a double-precision number.
    Float(Vec<char>),
    /// An integer literal number.
    Integer(i64),
}

/// A resolved number literal, as contracts speak of it.
pub enum NumberView {
    /// A float literal number: the text of its digits.
    Float(Seq<char>),
    /// An integer literal number.
    Integer(i64),
}

impl View for Number {
    type V = NumberView;

    open spec fn view(&self) -> NumberView {
        match self {
            Number::Float(text) => NumberView::Float(text@),
            Number::Integer(number) => NumberView::Integer(*number),
        }
    }
}

/// A number literal.
#[derive(Clone, Copy, Debug, PartialEq, Eq, Structural)]
pub struct LitNumber {
    /// If the number is negative.
    pub is_negative: bool,
    /// Indicates if the number is fractional.
    pub is_fractional: bool,
    /// The kind of the number literal.
    pub number: Base,
    /// The token corresponding to the literal.
    pub token: Token,
}

/// The number of characters that the prefix of a base takes.
pub open spec fn prefix_len(base: Base) -> nat {
    match base {
        Base::Decimal => 0,
        _ => 2,
    }
}

/// The base as a number.
pub open spec fn radix_of(base: Base) -> u32 {
    match base {
        Base::Binary => 2,
        Base::Octal => 8,
        Base::Hex => 16,
        Base::Decimal => 10,
    }
}

impl LitNumber {
    /// What a literal with the given text resolves to. A minus sign in
    /// front of the digits is left out. The digits of a fractional literal
    /// are handed on as they are. Those of any other literal, after the
    /// prefix of the base, are read in the base and give the integer.
    pub open spec fn resolved(self, text: Seq<char>) -> Result<NumberView, ParseError> {
        let span = self.token.span;
        let sign: nat = if self.is_negative {
            1
        } else {
            0
        };
        if text.len() < sign {
            Err(ParseError::BadNumberLiteral { span })
        } else if self.is_fractional {
            Ok(NumberView::Float(text.skip(sign as int)))
        } else if text.len() < sign + prefix_len(self.number) {
            Err(ParseError::BadNumberLiteral { span })
        } else {
            match radix_number(
                text.skip((sign + prefix_len(self.number)) as int),
                radix_of(self.number),
            ) {
                None => Err(ParseError::BadNumberLiteral { span }),
                Some(magnitude) => match signed(magnitude, self.is_negative) {
                    Some(number) => Ok(NumberView::Integer(number)),
                    None => Err(ParseError::BadNumberOutOfBounds { span }),
                },
            }
        }
    }

    /// Access the span of the expression.
    pub fn span(&self) -> (span: Span)
        ensures
            span == self.token.span,
    {
        self.token.span
    }

    /// Read a number literal: the next token has to be one.
    pub fn parse(parser: &mut Parser) -> (result: Result<LitNumber, ParseError>)
        ensures
            final(parser).end() == old(parser).end(),
            if old(parser).rest().len() == 0 {
                &&& result == Err::<LitNumber, ParseError>(
                    ParseError::UnexpectedEof { span: old(parser).end() },
                )
                &&& final(parser).rest() == old(parser).rest()
            } else {
                let token = old(parser).rest()[0];
                &&& final(parser).rest() == old(parser).rest().skip(1)
                &&& result == match token.kind {
                    Kind::LitNumber { is_negative, is_fractional, number } => Ok::<
                        LitNumber,
                        ParseError,
                    >(LitNumber { is_negative, is_fractional, number, token }),
                    actual => Err(ParseError::ExpectedNumber { actual, span: token.span }),
                }
            },
    {
        let token = parser.token_next()?;
        match token.kind {
            Kind::LitNumber { is_negative, is_fractional, number } => Ok(
                LitNumber { is_negative, is_fractional, number, token },
            ),
            actual => Err(ParseError::ExpectedNumber { actual, span: token.span }),
        }
    }

    /// Resolve the literal to the number it stands for.
    pub fn resolve(&self, source: &Source) -> (result: Result<Number, ParseError>)
        ensures
            match Source::spec_source(source@, self.token.span) {
                None => result == Err::<Number, ParseError>(
                    ParseError::BadSlice { span: self.token.span },
                ),
                Some(text) => match self.resolved(text) {
                    Ok(number) => result matches Ok(found) && found@ == number,
                    Err(error) => result == Err::<Number, ParseError>(error),
                },
            },
    {
        let span = self.token.span;
        let text = source.source(span)?;
        let (skip, radix): (usize, u32) = match self.number {
            Base::Binary => (2, 2),
            Base::Octal => (2, 8),
            Base::Hex => (2, 16),
            Base::Decimal => (0, 10),
        };
        let sign: usize = if self.is_negative {
            1
        } else {
            0
        };
        if text.len() < sign {
            return Err(ParseError::BadNumberLiteral { span });
        }
        if self.is_fractional {
            return Ok(Number::Float(tail(&text, sign)));
        }
        if text.len() < sign + skip {
            return Err(ParseError::BadNumberLiteral { span });
        }
        let digits = tail(&text, sign + skip);
        let magnitude = match read_radix(&digits, radix) {
            Some(magnitude) => magnitude,
            None => {
                return Err(ParseError::BadNumberLiteral { span });
            },
        };
        match to_integer(&magnitude, self.is_negative) {
            Some(number) => Ok(Number::Integer(number)),
            None => Err(ParseError::BadNumberOutOfBounds { span }),
        }
    }
}

/// The value of a hexadecimal digit.
pub open spec fn hex_value(c: char) -> Option<nat> {
    let code = c as u32;
    if 48 <= code <= 57 {
        Some((code - 48) as nat)
    } else if 97 <= code <= 102 {
        Some((code - 87) as nat)
    } else if 65 <= code <= 70 {
        Some((code - 55) as nat)
    } else {
        None
    }
}

/// Whether a number is the code of a character.
pub open spec fn is_scalar(value: nat) -> bool {
    value <= 0x10ffff && !(0xd800 <= value <= 0xdfff)
}

/// The code of a character.
pub open spec fn code(c: char) -> nat {
    c as u32 as nat
}

/// The character with a given code.
pub open spec fn scalar(value: nat) -> char {
    choose|c: char| #[trigger] code(c) == value
}

/// What is wrong with an escape sequence.
pub enum EscapeError {
    /// The backslash starts no escape sequence.
    Sequence,
    /// The `\x` escape is wrong.
    Hex,
    /// The `\u` escape is wrong.
    Unicode,
}

/// The code that the hexadecimal digits from position `at` up to a closing
/// brace stand for, with the position after the brace. `seen` digits were
/// read before and gave `value`. There are one to six digits.
pub open spec fn unicode_digits(chars: Seq<char>, at: nat, seen: nat, value: nat) -> Option<
    (nat, nat),
>
    decreases chars.len() - at,
{
    if at >= chars.len() {
        None
    } else if chars[at as int] == '}' {
        if seen >= 1 {
            Some((value, at + 1))
        } else {
            None
        }
    } else if seen >= 6 {
        None
    } else {
        match hex_value(chars[at as int]) {
            Some(digit) => unicode_digits(chars, at + 1, seen + 1, value * 16 + digit),
            None => None,
        }
    }
}

/// The character that the escape sequence stands for whose backslash is
/// right before position `at`, with the position after the sequence.
pub open spec fn escape_at(chars: Seq<char>, at: nat) -> Result<(char, nat), EscapeError> {
    if at >= chars.len() {
        Err(EscapeError::Sequence)
    } else {
        let c = chars[at as int];
        if c == '\'' || c == '"' || c == '\\' {
            Ok((c, at + 1))
        } else if c == 'n' {
            Ok(('\n', at + 1))
        } else if c == 'r' {
            Ok(('\r', at + 1))
        } else if c == 't' {
            Ok(('\t', at + 1))
        } else if c == '0' {
            Ok(('\0', at + 1))
        } else if c == 'x' {
            if at + 2 < chars.len() {
                match (hex_value(chars[at as int + 1]), hex_value(chars[at as int + 2])) {
                    (Some(high), Some(low)) => if high * 16 + low <= 0x7f {
                        Ok((scalar(high * 16 + low), at + 3))
                    } else {
                        Err(EscapeError::Hex)
                    },
                    _ => Err(EscapeError::Hex),
                }
            } else {
                Err(EscapeError::Hex)
            }
        } else if c == 'u' {
            if at + 1 < chars.len() && chars[at as int + 1] == '{' {
                match unicode_digits(chars, at + 2, 0, 0) {
                    Some((value, next)) => if is_scalar(value) {
                        Ok((scalar(value), next))
                    } else {
                        Err(EscapeError::Unicode)
                    },
                    None => Err(EscapeError::Unicode),
                }
            } else {
                Err(EscapeError::Unicode)
            }
        } else {
            Err(EscapeError::Sequence)
        }
    }
}

/// The span that an error in an escape sequence names: from the backslash
/// to the end of the literal.
pub open spec fn escape_span(span: Span, backslash: nat) -> Span {
    Span {
        start: if span.start + backslash <= usize::MAX {
            (span.start + backslash) as usize
        } else {
            usize::MAX
        },
        end: span.end,
    }
}

/// The error of an escape sequence whose backslash is at the given
/// position.
pub open spec fn escape_error(error: EscapeError, span: Span, backslash: nat) -> ParseError {
    match error {
        EscapeError::Sequence => ParseError::BadEscapeSequence {
            span: escape_span(span, backslash),
        },
        EscapeError::Hex => ParseError::BadHexEscape { span: escape_span(span, backslash) },
        EscapeError::Unicode => ParseError::BadUnicodeEscape { span: escape_span(span, backslash) },
    }
}

/// The text that the characters from position `from` on stand for, after
/// the text `done`: each escape sequence gives one character, any other
/// character stands for itself.
pub open spec fn unescaped(chars: Seq<char>, span: Span, from: nat, done: Seq<char>) -> Result<
    Seq<char>,
    ParseError,
>
    decreases chars.len() - from,
{
    if from >= chars.len() {
        Ok(done)
    } else if chars[from as int] != '\\' {
        unescaped(chars, span, from + 1, done.push(chars[from as int]))
    } else {
        match escape_at(chars, from + 1) {
            Ok((c, next)) => if from < next <= chars.len() {
                unescaped(chars, span, next, done.push(c))
            } else {
                Ok(done)
            },
            Err(error) => Err(escape_error(error, span, from)),
        }
    }
}

/// The character with the given code, as `char::from_u32` gives it: there
/// is one unless the code is above `0x10ffff` or one of the surrogates from
/// `0xd800` to `0xdfff`.
#[verifier::external_body]
fn char_from_u32(value: u32) -> (result: Option<char>)
    ensures
        match result {
            Some(c) => is_scalar(value as nat) && c as u32 == value,
            None => !is_scalar(value as nat),
        },
{
    char::from_u32(value)
}

/// The value of a hexadecimal digit.
fn hex_digit(c: char) -> (value: Option<u32>)
    ensures
        match value {
            Some(value) => hex_value(c) == Some(value as nat) && value < 16,
            None => hex_value(c) is None,
        },
{
    let code = c as u32;
    if 48 <= code && code <= 57 {
        Some(code - 48)
    } else if 97 <= code && code <= 102 {
        Some(code - 87)
    } else if 65 <= code && code <= 70 {
        Some(code - 55)
    } else {
        None
    }
}

/// Two characters with one code are one character.
pub proof fn lemma_scalar(c: char)
    ensures
        scalar(c as u32 as nat) == c,
{
    let d = scalar(c as u32 as nat);
    assert(code(c) == c as u32 as nat);
    assert(code(d) == code(c));
    assert(d as u32 == c as u32);
}

/// Read the escape sequence whose backslash is right before position `at`.
fn parse_char_escape(chars: &Vec<char>, at: usize) -> (result: Result<(char, usize), EscapeError>)
    requires
        at <= chars@.len(),
    ensures
        match escape_at(chars@, at as nat) {
            Ok((c, next)) => result matches Ok((found, after)) && found == c && after == next
                && at < after <= chars@.len(),
            Err(error) => result matches Err(found) && found == error,
        },
{
    if at >= chars.len() {
        return Err(EscapeError::Sequence);
    }
    let c = chars[at];
    if c == '\'' || c == '"' || c == '\\' {
        Ok((c, at + 1))
    } else if c == 'n' {
        Ok(('\n', at + 1))
    } else if c == 'r' {
        Ok(('\r', at + 1))
    } else if c == 't' {
        Ok(('\t', at + 1))
    } else if c == '0' {
        Ok(('\0', at + 1))
    } else if c == 'x' {
        if chars.len() - at < 3 {
            return Err(EscapeError::Hex);
        }
        let high = match hex_digit(chars[at + 1]) {
            Some(high) => high,
            None => {
                return Err(EscapeError::Hex);
            },
        };
        let low = match hex_digit(chars[at + 2]) {
            Some(low) => low,
            None => {
                return Err(EscapeError::Hex);
            },
        };
        let value = high * 16 + low;
        if value > 0x7f {
            return Err(EscapeError::Hex);
        }
        match char_from_u32(value) {
            Some(found) => {
                proof {
                    lemma_scalar(found);
                }
                Ok((found, at + 3))
            },
            None => Err(EscapeError::Hex),
        }
    } else if c == 'u' {
        if chars.len() - at < 2 || chars[at + 1] != '{' {
            return Err(EscapeError::Unicode);
        }
        let mut i: usize = at + 2;
        let mut seen: usize = 0;
        let mut value: u32 = 0;
        loop
            invariant
                at + 2 <= i <= chars@.len(),
                chars@[at as int] == 'u',
                chars@[at + 1] == '{',
                seen <= 6,
                value < 0x1000000,
                seen <= 5 ==> value < 0x100000,
                seen <= 4 ==> value < 0x10000,
                seen <= 3 ==> value < 0x1000,
                seen <= 2 ==> value < 0x100,
                seen <= 1 ==> value < 0x10,
                seen == 0 ==> value == 0,
                unicode_digits(chars@, (at + 2) as nat, 0, 0) == unicode_digits(
                    chars@,
                    i as nat,
                    seen as nat,
                    value as nat,
                ),
            decreases chars@.len() - i,
        {
            if i >= chars.len() {
                return Err(EscapeError::Unicode);
            }
            if chars[i] == '}' {
                if seen == 0 {
                    return Err(EscapeError::Unicode);
                }
                return match char_from_u32(value) {
                    Some(found) => {
                        proof {
                            lemma_scalar(found);
                        }
                        Ok((found, i + 1))
                    },
                    None => Err(EscapeError::Unicode),
                };
            }
            if seen >= 6 {
                return Err(EscapeError::Unicode);
            }
            let digit = match hex_digit(chars[i]) {
                Some(digit) => digit,
                None => {
                    return Err(EscapeError::Unicode);
                },
            };
            value = value * 16 + digit;
            seen = seen + 1;
            i = i + 1;
        }
    } else {
        Err(EscapeError::Sequence)
    }
}

/// A string literal.
#[derive(Clone, Copy, Debug, PartialEq, Eq, Structural)]
pub struct LitStr {
    /// The token corresponding to the literal.
    pub token: Token,
    /// If the string literal is escaped.
    pub escaped: bool,
}

impl LitStr {
    /// Access the span of the expression.
    pub fn span(&self) -> (span: Span)
        ensures
            span == self.token.span,
    {
        self.token.span
    }

    /// Read a string literal: the next token has to be one.
    pub fn parse(parser: &mut Parser) -> (result: Result<LitStr, ParseError>)
        ensures
            final(parser).end() == old(parser).end(),
            if old(parser).rest().len() == 0 {
                &&& result == Err::<LitStr, ParseError>(
                    ParseError::UnexpectedEof { span: old(parser).end() },
                )
                &&& final(parser).rest() == old(parser).rest()
            } else {
                let token = old(parser).rest()[0];
                &&& final(parser).rest() == old(parser).rest().skip(1)
                &&& result == match token.kind {
                    Kind::LitStr { escaped } => Ok::<LitStr, ParseError>(LitStr { token, escaped }),
                    actual => Err(ParseError::ExpectedString { actual, span: token.span }),
                }
            },
    {
        let token = parser.token_next()?;
        match token.kind {
            Kind::LitStr { escaped } => Ok(LitStr { token, escaped }),
            actual => Err(ParseError::ExpectedString { actual, span: token.span }),
        }
    }

    /// The text that a string with escape sequences stands for. `span` is
    /// where the string stands in the source.
    pub fn parse_escaped(&self, span: Span, source: &Vec<char>) -> (result: Result<
        Vec<char>,
        ParseError,
    >)
        ensures
            match unescaped(source@, span, 0, Seq::empty()) {
                Ok(text) => result matches Ok(found) && found@ == text,
                Err(error) => result == Err::<Vec<char>, ParseError>(error),
            },
    {
        let mut buffer: Vec<char> = Vec::with_capacity(source.len());
        let mut i: usize = 0;
        while i < source.len()
            invariant
                i <= source@.len(),
                unescaped(source@, span, 0, Seq::empty()) == unescaped(
                    source@,
                    span,
                    i as nat,
                    buffer@,
                ),
            decreases source@.len() - i,
        {
            let c = source[i];
            if c == '\\' {
                match parse_char_escape(source, i + 1) {
                    Ok((found, next)) => {
                        buffer.push(found);
                        i = next;
                    },
                    Err(error) => {
                        let start = match span.start.checked_add(i) {
                            Some(start) => start,
                            None => usize::MAX,
                        };
                        let at = span.with_start(start);
                        return Err(
                            match error {
                                EscapeError::Sequence => ParseError::BadEscapeSequence { span: at },
                                EscapeError::Hex => ParseError::BadHexEscape { span: at },
                                EscapeError::Unicode => ParseError::BadUnicodeEscape { span: at },
                            },
                        );
                    },
                }
            } else {
                buffer.push(c);
                i = i + 1;
            }
        }
        Ok(buffer)
    }

    /// What the literal resolves to: the text between the quotes, with its
    /// escape sequences replaced if it has any.
    pub open spec fn resolved(self, text: Seq<char>) -> Result<Seq<char>, ParseError> {
        match Source::spec_source(text, self.token.span.spec_narrow(1)) {
            None => Err(ParseError::BadSlice { span: self.token.span.spec_narrow(1) }),
            Some(inner) => if self.escaped {
                unescaped(inner, self.token.span.spec_narrow(1), 0, Seq::empty())
            } else {
                Ok(inner)
            },
        }
    }

    /// Resolve the literal to the text it stands for.
    pub fn resolve(&self, source: &Source) -> (result: Result<Vec<char>, ParseError>)
        ensures
            match self.resolved(source@) {
                Ok(text) => result matches Ok(found) && found@ == text,
                Err(error) => result == Err::<Vec<char>, ParseError>(error),
            },
    {
        let span = self.token.span.narrow(1);
        let string = source.source(span)?;
        if self.escaped {
            self.parse_escaped(span, &string)
        } else {
            Ok(string)
        }
    }
}

/// The characters from position `from` on.
fn tail(text: &Vec<char>, from: usize) -> (rest: Vec<char>)
    requires
        from <= text@.len(),
    ensures
        rest@ == text@.skip(from as int),
{
    let mut rest: Vec<char> = Vec::new();
    let mut i: usize = from;
    assert(rest@ =~= text@.subrange(from as int, from as int));
    while i < text.len()
        invariant
            from <= i <= text@.len(),
            rest@ == text@.subrange(from as int, i as int),
        decreases text@.len() - i,
    {
        rest.push(text[i]);
        assert(text@.subrange(from as int, i + 1) =~= text@.subrange(from as int, i as int).push(
            text@[i as int],
        ));
        i = i + 1;
    }
    assert(text@.subrange(from as int, i as int) =~= text@.skip(from as int));
    rest
}

} // verus!
