use vstd::prelude::*;
use crate::token::{Token, kind_at, line_at, left_from};
use crate::error::{SyntaxError, SyntaxErrorKind};

verus! {

/// How the recognition of one construct ends: accepted, with the place of the
/// token that follows the construct, or rejected, with the place of the token
/// at which the violation was found.
pub enum Outcome {
    Accepted { next: nat },
    Rejected { kind: SyntaxErrorKind, at: nat },
}

impl Outcome {
    /// The place of the token that is current once recognition has ended.
    pub open spec fn stops_at(self) -> nat {
        match self {
            Outcome::Accepted { next } => next,
            Outcome::Rejected { at, .. } => at,
        }
    }

    /// What the caller is told: nothing on acceptance, otherwise the
    /// violation and the line of the token at which it was found.
    pub open spec fn report(self, s: Seq<(Token, usize)>) -> Result<(), SyntaxError> {
        match self {
            Outcome::Accepted { .. } => Ok(()),
            Outcome::Rejected { kind, at } => Err(SyntaxError { kind, line: line_at(s, at) }),
        }
    }
}

/// A declaration that starts at `i`: any token, then an identifier, then `;`.
/// The first token is not looked at: whoever chose this rule has done so.
pub open spec fn declaration(s: Seq<(Token, usize)>, i: nat) -> Outcome {
    if kind_at(s, i + 1) != Token::Identifier {
        Outcome::Rejected { kind: SyntaxErrorKind::ExpectedIdentifierInDeclaration, at: i + 1 }
    } else if kind_at(s, i + 2) != Token::Semicolon {
        Outcome::Rejected { kind: SyntaxErrorKind::MissingSemicolonInDeclaration, at: i + 2 }
    } else {
        Outcome::Accepted { next: i + 3 }
    }
}

/// The number of operator-operand pairs that start at `i`: as long as the
/// token is a binary operator, it and the token behind it make one pair.
pub open spec fn operator_pairs(s: Seq<(Token, usize)>, i: nat) -> nat
    decreases left_from(s, i),
{
    if i < s.len() && kind_at(s, i).joins_operands() {
        1 + operator_pairs(s, i + 2)
    } else {
        0
    }
}

/// The place behind the expression that starts at `i`: one operand of any
/// kind, then all operator-operand pairs. An expression is never rejected.
pub open spec fn expression(s: Seq<(Token, usize)>, i: nat) -> nat {
    i + 1 + 2 * operator_pairs(s, i + 1)
}

/// An assignment that starts at `i`: any token, `=`, an expression, `;`.
pub open spec fn assignment(s: Seq<(Token, usize)>, i: nat) -> Outcome {
    if kind_at(s, i + 1) != Token::Assign {
        Outcome::Rejected { kind: SyntaxErrorKind::ExpectedAssignInAssignment, at: i + 1 }
    } else {
        let j = expression(s, i + 2);
        if kind_at(s, j) != Token::Semicolon {
            Outcome::Rejected { kind: SyntaxErrorKind::MissingSemicolonInAssignment, at: j }
        } else {
            Outcome::Accepted { next: j + 1 }
        }
    }
}

/// A statement that starts at `i`, chosen by the kind of its first token.
pub open spec fn statement(s: Seq<(Token, usize)>, i: nat) -> Outcome
    decreases left_from(s, i), 1int,
{
    match kind_at(s, i) {
        Token::Identifier => assignment(s, i),
        Token::If => if_construct(s, i),
        Token::For => for_construct(s, i),
        _ => Outcome::Rejected { kind: SyntaxErrorKind::InvalidStatement, at: i },
    }
}

/// The rest of a braced body from `i` on: statements up to the first token
/// at a statement's start that is `}`, and that `}`. A body that runs into
/// the end of the input is rejected there as an invalid statement.
///
/// Every accepted statement ends behind its start and within the input
/// (`lemma_statement_advances`), so the last branch is never taken.
pub open spec fn block(s: Seq<(Token, usize)>, i: nat) -> Outcome
    decreases left_from(s, i), 2int,
{
    if kind_at(s, i) == Token::RBrace {
        Outcome::Accepted { next: i + 1 }
    } else {
        match statement(s, i) {
            Outcome::Accepted { next } => if i < next <= s.len() {
                block(s, next)
            } else {
                Outcome::Accepted { next }
            },
            rejected => rejected,
        }
    }
}

/// An `if` that starts at `i`: any token, `(`, an expression, `)`, `{`, a body.
pub open spec fn if_construct(s: Seq<(Token, usize)>, i: nat) -> Outcome
    decreases left_from(s, i), 0int,
{
    if kind_at(s, i + 1) != Token::LParen {
        Outcome::Rejected { kind: SyntaxErrorKind::ExpectedLParenAfterIf, at: i + 1 }
    } else {
        let j = expression(s, i + 2);
        if kind_at(s, j) != Token::RParen {
            Outcome::Rejected { kind: SyntaxErrorKind::ExpectedRParen, at: j }
        } else if kind_at(s, j + 1) != Token::LBrace {
            Outcome::Rejected { kind: SyntaxErrorKind::ExpectedLBrace, at: j + 1 }
        } else {
            block(s, j + 2)
        }
    }
}

/// A `for` that starts at `i`: any token, `(`, a declaration, an expression,
/// `;`, an assignment with its own `;`, `)`, `{`, a body.
pub open spec fn for_construct(s: Seq<(Token, usize)>, i: nat) -> Outcome
    decreases left_from(s, i), 0int,
{
    if kind_at(s, i + 1) != Token::LParen {
        Outcome::Rejected { kind: SyntaxErrorKind::ExpectedLParenAfterFor, at: i + 1 }
    } else {
        match declaration(s, i + 2) {
            Outcome::Accepted { next } => {
                let j = expression(s, next);
                if kind_at(s, j) != Token::Semicolon {
                    Outcome::Rejected { kind: SyntaxErrorKind::MissingSemicolonInFor, at: j }
                } else {
                    match assignment(s, j + 1) {
                        Outcome::Accepted { next } => {
                            if kind_at(s, next) != Token::RParen {
                                Outcome::Rejected { kind: SyntaxErrorKind::ExpectedRParen, at: next }
                            } else if kind_at(s, next + 1) != Token::LBrace {
                                Outcome::Rejected {
                                    kind: SyntaxErrorKind::ExpectedLBrace,
                                    at: next + 1,
                                }
                            } else {
                                block(s, next + 2)
                            }
                        },
                        rejected => rejected,
                    }
                }
            },
            rejected => rejected,
        }
    }
}

/// A program from `i` on: declarations and statements up to the first token
/// at a construct's start that is the end marker. What stands behind that
/// token is not looked at.
///
/// As in `block`, the branch for a statement that does not advance is never
/// taken.
pub open spec fn program(s: Seq<(Token, usize)>, i: nat) -> Outcome
    decreases left_from(s, i),
{
    if kind_at(s, i) == Token::EOF {
        Outcome::Accepted { next: i }
    } else if kind_at(s, i).starts_declaration() {
        match declaration(s, i) {
            Outcome::Accepted { next } => program(s, next),
            rejected => rejected,
        }
    } else {
        match statement(s, i) {
            Outcome::Accepted { next } => if i < next <= s.len() {
                program(s, next)
            } else {
                Outcome::Accepted { next }
            },
            rejected => rejected,
        }
    }
}

/// The verdict on a whole token sequence.
pub open spec fn verdict(s: Seq<(Token, usize)>) -> Result<(), SyntaxError> {
    program(s, 0).report(s)
}

} // verus!
