//! Lexical tokens: the classified pieces of source text that the tokenizer
//! hands to the parser, together with their position and length.

use vstd::prelude::*;

verus! {

/// One token of source text.  `start` is the character offset where the token
/// begins; `len` is how many characters it spans (0 only for end-of-input).
#[derive(Debug, PartialEq)]
pub struct Token {
    pub kind: TokenKind,
    pub len: usize,
    pub start: usize,
}

#[derive(Debug, Clone, PartialEq)]
pub enum TokenKind {
    Operator(OperatorKind),
    Keyword(KeywordKind),
    Literal(LiteralKind),
    Identifier(String),
    Undefined(char),
    EOF,
}

#[derive(Clone, Copy, Debug, PartialEq, Eq, Structural)]
pub enum OperatorKind {
    LParen,
    RParen,
    LCurly,
    RCurly,
    LBracket,
    RBracket,
    Semicol,
    Coma,
    Binary(BinaryOperatorKind),
}

#[derive(Clone, Copy, Debug, PartialEq, Eq, Structural)]
pub enum BinaryOperatorKind {
    Assigment,
    Addition,
    Subtraction,
    Multiplication,
    Division,
    Comparision(ComparisionOpKind),
}

#[derive(Clone, Copy, Debug, PartialEq, Eq, Structural)]
pub enum ComparisionOpKind {
    Equals,
    NeEq,
    Bigger,
    BiggerOrEq,
    Less,
    LessOrEq,
}

#[derive(Clone, Copy, Debug, PartialEq, Eq, Structural)]
pub enum KeywordKind {
    If,
    Let,
    While,
    Fn,
    Extern,
    Ret,
}

/// A literal's text as it stands in the source.  A numeric literal keeps its
/// spelling here; reading it as a double-precision number is the backend
/// driver's step.  A string literal keeps its surrounding quotes.
#[derive(Debug, Clone, PartialEq)]
pub enum LiteralKind {
    Num(String),
    Str(String),
}

/// The mathematical image of a `LiteralKind`: the text as a character
/// sequence.
pub enum LiteralKindV {
    Num(Seq<char>),
    Str(Seq<char>),
}

/// The mathematical image of a `TokenKind`.
pub enum TokenKindV {
    Operator(OperatorKind),
    Keyword(KeywordKind),
    Literal(LiteralKindV),
    Identifier(Seq<char>),
    Undefined(char),
    EOF,
}

/// The mathematical image of a `Token`.
pub struct TokenV {
    pub kind: TokenKindV,
    pub len: nat,
    pub start: nat,
}

impl View for LiteralKind {
    type V = LiteralKindV;

    open spec fn view(&self) -> LiteralKindV {
        match self {
            LiteralKind::Num(t) => LiteralKindV::Num(t@),
            LiteralKind::Str(t) => LiteralKindV::Str(t@),
        }
    }
}

impl View for TokenKind {
    type V = TokenKindV;

    open spec fn view(&self) -> TokenKindV {
        match self {
            TokenKind::Operator(op) => TokenKindV::Operator(*op),
            TokenKind::Keyword(k) => TokenKindV::Keyword(*k),
            TokenKind::Literal(l) => TokenKindV::Literal(l@),
            TokenKind::Identifier(name) => TokenKindV::Identifier(name@),
            TokenKind::Undefined(c) => TokenKindV::Undefined(*c),
            TokenKind::EOF => TokenKindV::EOF,
        }
    }
}

impl View for Token {
    type V = TokenV;

    open spec fn view(&self) -> TokenV {
        TokenV { kind: self.kind@, len: self.len as nat, start: self.start as nat }
    }
}

impl Token {
    /// The end-of-input token: zero length, positioned on the last character.
    pub fn eof(start: usize) -> (r: Self)
        ensures
            r@ == (TokenV { kind: TokenKindV::EOF, len: 0, start: start as nat }),
    {
        Token { kind: TokenKind::EOF, len: 0, start }
    }

    /// The token for a single character no lexical rule recognises.
    pub fn undefined(c: char, start: usize) -> (r: Self)
        ensures
            r@ == (TokenV { kind: TokenKindV::Undefined(c), len: 1, start: start as nat }),
    {
        Token { kind: TokenKind::Undefined(c), start, len: 1 }
    }
}

} // verus!
