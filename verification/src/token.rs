use vstd::prelude::*;

verus! {

/// The lexical category of a token.
#[derive(Clone, Copy, Debug, PartialEq, Eq, Structural)]
pub enum Token {
    Int,
    Bool,
    String,
    If,
    For,
    Identifier,
    Number,
    Boolean,
    Plus,
    Minus,
    Assign,
    Greater,
    Less,
    And,
    Or,
    Semicolon,
    LParen,
    RParen,
    LBrace,
    RBrace,
    EOF,
}

impl Token {
    /// `int`, `bool` or `string`: the tokens that open a declaration.
    pub open spec fn starts_declaration(self) -> bool {
        self == Token::Int || self == Token::Bool || self == Token::String
    }

    /// The operators that may stand between two operands of an expression.
    pub open spec fn joins_operands(self) -> bool {
        self == Token::Plus || self == Token::Minus || self == Token::Greater
            || self == Token::Less || self == Token::And || self == Token::Or
    }

    pub fn is_type_keyword(&self) -> (b: bool)
        ensures
            b == self.starts_declaration(),
    {
        matches!(*self, Token::Int | Token::Bool | Token::String)
    }

    pub fn is_binary_operator(&self) -> (b: bool)
        ensures
            b == self.joins_operands(),
    {
        matches!(
            *self,
            Token::Plus | Token::Minus | Token::Greater | Token::Less | Token::And | Token::Or
        )
    }
}

/// What a read past the last token yields: an end marker on line 0.
pub open spec fn end_marker() -> (Token, usize) {
    (Token::EOF, 0usize)
}

/// The token at place `i` of `s`, where every place past the end holds the
/// end marker.
pub open spec fn token_at(s: Seq<(Token, usize)>, i: nat) -> (Token, usize) {
    if i < s.len() {
        s[i as int]
    } else {
        end_marker()
    }
}

/// The number of tokens of `s` from place `i` on.
pub open spec fn left_from(s: Seq<(Token, usize)>, i: nat) -> nat {
    if i < s.len() {
        (s.len() - i) as nat
    } else {
        0
    }
}

pub open spec fn kind_at(s: Seq<(Token, usize)>, i: nat) -> Token {
    token_at(s, i).0
}

pub open spec fn line_at(s: Seq<(Token, usize)>, i: nat) -> usize {
    token_at(s, i).1
}

} // verus!
