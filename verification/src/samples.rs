use vstd::prelude::*;
use crate::token::Token;
use crate::error::{SyntaxError, SyntaxErrorKind};
use crate::grammar::{Outcome, operator_pairs, statement, block, program};
use crate::parser::parse;

verus! {

/// A declaration, an assignment and an `if` with one assignment in its
/// body: accepted.
pub fn test_valid_program() -> (r: Result<(), SyntaxError>)
    ensures
        r == Ok::<(), SyntaxError>(()),
{
    let tokens = vec![
        (Token::Int, 1usize),
        (Token::Identifier, 1usize),
        (Token::Semicolon, 1usize),
        (Token::Identifier, 2usize),
        (Token::Assign, 2usize),
        (Token::Number, 2usize),
        (Token::Semicolon, 2usize),
        (Token::If, 3usize),
        (Token::LParen, 3usize),
        (Token::Identifier, 3usize),
        (Token::Greater, 3usize),
        (Token::Number, 3usize),
        (Token::RParen, 3usize),
        (Token::LBrace, 3usize),
        (Token::Identifier, 4usize),
        (Token::Assign, 4usize),
        (Token::Identifier, 4usize),
        (Token::Minus, 4usize),
        (Token::Number, 4usize),
        (Token::Semicolon, 4usize),
        (Token::RBrace, 5usize),
        (Token::EOF, 6usize),
    ];
    proof {
        let s = tokens@;
        reveal_with_fuel(operator_pairs, 3);
        reveal_with_fuel(statement, 2);
        reveal_with_fuel(block, 3);
        reveal_with_fuel(program, 5);
        assert(operator_pairs(s, 6) == 0);
        assert(statement(s, 3) == (Outcome::Accepted { next: 7 }));
        assert(operator_pairs(s, 10) == 1);
        assert(operator_pairs(s, 17) == 1);
        assert(statement(s, 14) == (Outcome::Accepted { next: 20 }));
        assert(block(s, 14) == (Outcome::Accepted { next: 21 }));
        assert(statement(s, 7) == (Outcome::Accepted { next: 21 }));
        assert(program(s, 21) == (Outcome::Accepted { next: 21 }));
        assert(program(s, 7) == (Outcome::Accepted { next: 21 }));
        assert(program(s, 3) == (Outcome::Accepted { next: 21 }));
    }
    parse(tokens)
}

/// A type keyword with `;` right behind it: rejected on line 1 for want of
/// an identifier.
pub fn test_invalid_declaration() -> (r: Result<(), SyntaxError>)
    ensures
        r == Err::<(), SyntaxError>(
            SyntaxError { kind: SyntaxErrorKind::ExpectedIdentifierInDeclaration, line: 1 },
        ),
{
    let tokens = vec![(Token::Int, 1usize), (Token::Semicolon, 1usize), (Token::EOF, 2usize)];
    parse(tokens)
}

/// An `if` whose body runs into the end marker on line 3: rejected there,
/// since the end marker starts no statement.
pub fn test_missing_brace() -> (r: Result<(), SyntaxError>)
    ensures
        r == Err::<(), SyntaxError>(
            SyntaxError { kind: SyntaxErrorKind::InvalidStatement, line: 3 },
        ),
{
    let tokens = vec![
        (Token::If, 1usize),
        (Token::LParen, 1usize),
        (Token::Identifier, 1usize),
        (Token::Greater, 1usize),
        (Token::Number, 1usize),
        (Token::RParen, 1usize),
        (Token::LBrace, 1usize),
        (Token::Identifier, 2usize),
        (Token::Assign, 2usize),
        (Token::Number, 2usize),
        (Token::Semicolon, 2usize),
        (Token::EOF, 3usize),
    ];
    proof {
        let s = tokens@;
        reveal_with_fuel(operator_pairs, 3);
        reveal_with_fuel(statement, 2);
        reveal_with_fuel(block, 3);
        assert(operator_pairs(s, 3) == 1);
        assert(operator_pairs(s, 10) == 0);
        assert(statement(s, 7) == (Outcome::Accepted { next: 11 }));
        assert(block(s, 7) == (Outcome::Rejected {
            kind: SyntaxErrorKind::InvalidStatement,
            at: 11,
        }));
    }
    parse(tokens)
}

/// An identifier with a number right behind it: rejected on line 1 for want
/// of `=`.
pub fn test_invalid_assignment() -> (r: Result<(), SyntaxError>)
    ensures
        r == Err::<(), SyntaxError>(
            SyntaxError { kind: SyntaxErrorKind::ExpectedAssignInAssignment, line: 1 },
        ),
{
    let tokens = vec![
        (Token::Identifier, 1usize),
        (Token::Number, 1usize),
        (Token::Semicolon, 1usize),
        (Token::EOF, 2usize),
    ];
    parse(tokens)
}

/// A `for` with a type keyword right behind it: rejected on line 1 for want
/// of `(`.
pub fn test_invalid_control() -> (r: Result<(), SyntaxError>)
    ensures
        r == Err::<(), SyntaxError>(
            SyntaxError { kind: SyntaxErrorKind::ExpectedLParenAfterFor, line: 1 },
        ),
{
    let tokens = vec![
        (Token::For, 1usize),
        (Token::Int, 1usize),
        (Token::Identifier, 1usize),
        (Token::Assign, 1usize),
        (Token::Number, 1usize),
        (Token::Semicolon, 1usize),
        (Token::EOF, 2usize),
    ];
    parse(tokens)
}

} // verus!
