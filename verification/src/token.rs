//! Tokens as the lexer hands them over: a kind, the source text and the line.
use vstd::prelude::*;

verus! {

/// The kind of a token. The evaluator reads it as the operator tag of a node.
#[derive(Clone, Copy, Debug, PartialEq, Eq, Structural)]
pub enum TokenType {
    LeftParen,
    RightParen,
    LeftBrace,
    RightBrace,
    Comma,
    Semicolon,
    Question,
    Colon,
    Minus,
    Plus,
    PlusPlus,
    Slash,
    Star,
    Bang,
    BangEqual,
    Equal,
    EqualEqual,
    Greater,
    GreaterEqual,
    Less,
    LessEqual,
    Identifier,
    Text,
    Number,
    True,
    False,
    Nil,
    Let,
    Print,
    Eof,
}

/// A tagged lexeme with the line it was read on.
#[derive(Clone, Debug, PartialEq, Eq)]
pub struct Token {
    pub token_type: TokenType,
    pub lexeme: String,
    pub line: u64,
}

impl Token {
    pub fn new(token_type: TokenType, lexeme: String, line: u64) -> (token: Token)
        ensures
            token == (Token { token_type, lexeme, line }),
    {
        Token { token_type, lexeme, line }
    }
}

} // verus!
