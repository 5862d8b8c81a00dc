//! Tokens, and the source text they come from.

use vstd::prelude::*;
use crate::span::Span;

verus! {

/// The base in which the digits of a number literal are written.
#[derive(Clone, Copy, Debug, PartialEq, Eq, Structural)]
pub enum LitNumber {
    /// Base 2, after the prefix `0b`.
    Binary,
    /// Base 8, after the prefix `0o`.
    Octal,
    /// Base 16, after the prefix `0x`.
    Hex,
    /// Base 10, without a prefix.
    Decimal,
}

/// The kind of a pair of brackets.
#[derive(Clone, Copy, Debug, PartialEq, Eq, Structural)]
pub enum Delimiter {
    /// `(` and `)`
    Parenthesis,
    /// `{` and `}`
    Brace,
    /// `[` and `]`
    Bracket,
}

/// The kind of a token.
#[derive(Clone, Copy, Debug, PartialEq, Eq, Structural)]
pub enum Kind {
    /// The keyword `async`.
    Async,
    /// The keyword `fn`.
    Fn,
    /// The keyword `self`.
    Self_,
    /// An identifier.
    Ident,
    /// An underscore.
    Underscore,
    /// A comma.
    Comma,
    /// An opening bracket.
    Open { delimiter: Delimiter },
    /// A closing bracket.
    Close { delimiter: Delimiter },
    /// A number literal.
    LitNumber { is_negative: bool, is_fractional: bool, number: LitNumber },
    /// A string literal.
    LitStr { escaped: bool },
}

/// A token: a kind and the place in the source text.
#[derive(Clone, Copy, Debug, PartialEq, Eq, Structural)]
pub struct Token {
    /// Where the token stands.
    pub span: Span,
    /// What the token is.
    pub kind: Kind,
}

/// What is wrong with a program's text.
#[derive(Clone, Copy, Debug, PartialEq, Eq, Structural)]
pub enum ParseError {
    /// The text ended where a token had to follow.
    UnexpectedEof { span: Span },
    /// A span reaches outside the text.
    BadSlice { span: Span },
    /// A number literal had to follow.
    ExpectedNumber { actual: Kind, span: Span },
    /// A string literal had to follow.
    ExpectedString { actual: Kind, span: Span },
    /// The digits of a number literal are none of its base.
    BadNumberLiteral { span: Span },
    /// A number literal is no integer of the machine.
    BadNumberOutOfBounds { span: Span },
    /// A backslash in a string literal starts no escape sequence.
    BadEscapeSequence { span: Span },
    /// A `\x` escape names a character above `\x7f`, or not by two
    /// hexadecimal digits.
    BadHexEscape { span: Span },
    /// A `\u` escape names no character.
    BadUnicodeEscape { span: Span },
}

/// The text of a program, by characters.
#[derive(Debug)]
pub struct Source {
    chars: Vec<char>,
}

impl View for Source {
    type V = Seq<char>;

    closed spec fn view(&self) -> Seq<char> {
        self.chars@
    }
}

impl Source {
    /// The text under a span, if the span lies in a text of these
    /// characters.
    pub open spec fn spec_source(text: Seq<char>, span: Span) -> Option<Seq<char>> {
        if span.start <= span.end <= text.len() {
            Some(text.subrange(span.start as int, span.end as int))
        } else {
            None
        }
    }

    /// A source with the given characters.
    pub fn new(chars: Vec<char>) -> (source: Source)
        ensures
            source@ == chars@,
    {
        Source { chars }
    }

    /// The number of characters.
    pub fn len(&self) -> (len: usize)
        ensures
            len == self@.len(),
    {
        self.chars.len()
    }

    /// The text under a span.
    pub fn source(&self, span: Span) -> (result: Result<Vec<char>, ParseError>)
        ensures
            match Source::spec_source(self@, span) {
                Some(text) => result matches Ok(found) && found@ == text,
                None => result == Err::<Vec<char>, ParseError>(ParseError::BadSlice { span }),
            },
    {
        if span.start > span.end || span.end > self.chars.len() {
            return Err(ParseError::BadSlice { span });
        }
        let mut text: Vec<char> = Vec::with_capacity(span.end - span.start);
        let mut i: usize = span.start;
        while i < span.end
            invariant
                span.start <= i <= span.end <= self.chars@.len(),
                text@ == self@.subrange(span.start as int, i as int),
            decreases span.end - i,
        {
            text.push(self.chars[i]);
            assert(self@.subrange(span.start as int, i + 1) =~= self@.subrange(
                span.start as int,
                i as int,
            ).push(self@[i as int]));
            i = i + 1;
        }
        Ok(text)
    }
}

/// A reader of tokens.
#[derive(Debug)]
pub struct Parser {
    tokens: Vec<Token>,
    position: usize,
    end: Span,
}

impl Parser {
    /// The tokens that are still to be read.
    pub closed spec fn rest(&self) -> Seq<Token> {
        if self.position <= self.tokens@.len() {
            self.tokens@.skip(self.position as int)
        } else {
            Seq::empty()
        }
    }

    /// The span that stands for the end of the text.
    pub closed spec fn end(&self) -> Span {
        self.end
    }

    /// A reader of the given tokens. `end` is the span that an error at the
    /// end of the text names.
    pub fn new(tokens: Vec<Token>, end: Span) -> (parser: Parser)
        ensures
            parser.rest() == tokens@,
            parser.end() == end,
    {
        Parser { tokens, position: 0, end }
    }

    /// The next token, which stays to be read.
    pub fn token_peek(&self) -> (token: Option<Token>)
        ensures
            token == if self.rest().len() > 0 {
                Some(self.rest()[0])
            } else {
                None
            },
    {
        if self.position < self.tokens.len() {
            Some(self.tokens[self.position])
        } else {
            None
        }
    }

    /// Read the next token.
    pub fn token_next(&mut self) -> (result: Result<Token, ParseError>)
        ensures
            final(self).end() == old(self).end(),
            match result {
                Ok(token) => {
                    &&& old(self).rest().len() > 0
                    &&& token == old(self).rest()[0]
                    &&& final(self).rest() == old(self).rest().skip(1)
                },
                Err(error) => {
                    &&& old(self).rest().len() == 0
                    &&& error == (ParseError::UnexpectedEof { span: old(self).end() })
                    &&& final(self).rest() == old(self).rest()
                },
            },
    {
        if self.position < self.tokens.len() {
            let token = self.tokens[self.position];
            self.position = self.position + 1;
            assert(self.rest() =~= old(self).rest().skip(1));
            Ok(token)
        } else {
            Err(ParseError::UnexpectedEof { span: self.end })
        }
    }
}

} // verus!
