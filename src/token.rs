use vstd::prelude::*;

verus! {

/// The kind of a lexical unit.
#[derive(Clone, Copy, Debug, PartialEq, Eq, Structural)]
pub enum TokenKind {
    Equal,
    NotEqual,
    Less,
    Greater,
    Plus,
    Minus,
    Star,
    Slash,
    Bang,
    Assign,
    LeftParen,
    RightParen,
    LeftBracket,
    RightBracket,
    Comma,
    Semicolon,
    Ident,
    Integer,
    Keyword,
    Eof,
    Illegal,
}

/// A lexical unit: its kind and the text it was read from.
#[derive(Clone, Debug)]
pub struct Token {
    pub kind: TokenKind,
    pub text: String,
}

impl Token {
    pub fn new(kind: TokenKind, text: String) -> (r: Token)
        ensures
            r.kind == kind,
            r.text == text,
    {
        Token { kind, text }
    }
}

} // verus!
