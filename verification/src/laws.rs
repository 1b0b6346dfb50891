use vstd::prelude::*;
use crate::token::{Token, kind_at, line_at, left_from};
use crate::error::{SyntaxError, SyntaxErrorKind};
use crate::grammar::{
    Outcome, declaration, expression, assignment, statement, block, if_construct, for_construct,
    program, verdict,
};
use crate::parser::Parser;
use crate::progress::lemma_statement_advances;

verus! {

/// A type keyword, an identifier and `;` in a row are accepted as a
/// declaration, and the token behind the `;` is then the current one.
pub proof fn lemma_declaration_accepted(s: Seq<(Token, usize)>, i: nat)
    requires
        kind_at(s, i).starts_declaration(),
        kind_at(s, i + 1) == Token::Identifier,
        kind_at(s, i + 2) == Token::Semicolon,
    ensures
        declaration(s, i) == (Outcome::Accepted { next: i + 3 }),
        declaration(s, i).report(s) == Ok::<(), SyntaxError>(()),
        declaration(s, i).stops_at() == i + 3,
{
}

/// A declaration whose second token is no identifier is rejected at that
/// token, with that token's line.
pub proof fn lemma_declaration_without_identifier(s: Seq<(Token, usize)>, i: nat)
    requires
        kind_at(s, i + 1) != Token::Identifier,
    ensures
        declaration(s, i).report(s) == Err::<(), SyntaxError>(
            SyntaxError {
                kind: SyntaxErrorKind::ExpectedIdentifierInDeclaration,
                line: line_at(s, i + 1),
            },
        ),
        declaration(s, i).stops_at() == i + 1,
{
}

/// A token sequence that opens with a type keyword not followed by an
/// identifier is rejected as a whole, with the second token's line.
pub proof fn lemma_leading_declaration_without_identifier(s: Seq<(Token, usize)>)
    requires
        kind_at(s, 0).starts_declaration(),
        kind_at(s, 1) != Token::Identifier,
    ensures
        verdict(s) == Err::<(), SyntaxError>(
            SyntaxError {
                kind: SyntaxErrorKind::ExpectedIdentifierInDeclaration,
                line: line_at(s, 1),
            },
        ),
{
}

/// `marks` are the starts of statements that stand one behind the other:
/// each but the last is the start of an accepted statement that ends at the
/// next.
pub open spec fn statements_in_a_row(s: Seq<(Token, usize)>, marks: Seq<nat>) -> bool {
    &&& marks.len() >= 1
    &&& forall|k: int|
        0 <= k < marks.len() - 1 ==> #[trigger] statement(s, marks[k]) == (Outcome::Accepted {
            next: marks[k + 1],
        })
}

/// A body made of accepted statements in a row and a closing `}` behind the
/// last of them is accepted, and ends behind that `}`.
pub proof fn lemma_closed_body_accepted(s: Seq<(Token, usize)>, marks: Seq<nat>)
    requires
        statements_in_a_row(s, marks),
        kind_at(s, marks.last()) == Token::RBrace,
    ensures
        block(s, marks[0]) == (Outcome::Accepted { next: marks.last() + 1 }),
    decreases marks.len(),
{
    if marks.len() > 1 {
        let rest = marks.drop_first();
        assert(statement(s, marks[0]) == (Outcome::Accepted { next: marks[1] }));
        lemma_statement_advances(s, marks[0]);
        assert forall|k: int| 0 <= k < rest.len() - 1 implies #[trigger] statement(s, rest[k])
            == (Outcome::Accepted { next: rest[k + 1] }) by {
            assert(statement(s, marks[k + 1]) == (Outcome::Accepted { next: marks[k + 2] }));
        }
        assert(rest.last() == marks.last());
        lemma_closed_body_accepted(s, rest);
    }
}

/// A body made of accepted statements in a row that runs into a token which
/// starts no statement and is no `}`, such as the end marker, is rejected at
/// that token as an invalid statement.
pub proof fn lemma_open_body_rejected(s: Seq<(Token, usize)>, marks: Seq<nat>)
    requires
        statements_in_a_row(s, marks),
        kind_at(s, marks.last()) != Token::RBrace,
        kind_at(s, marks.last()) != Token::Identifier,
        kind_at(s, marks.last()) != Token::If,
        kind_at(s, marks.last()) != Token::For,
    ensures
        block(s, marks[0]) == (Outcome::Rejected {
            kind: SyntaxErrorKind::InvalidStatement,
            at: marks.last(),
        }),
    decreases marks.len(),
{
    if marks.len() > 1 {
        let rest = marks.drop_first();
        assert(statement(s, marks[0]) == (Outcome::Accepted { next: marks[1] }));
        lemma_statement_advances(s, marks[0]);
        assert forall|k: int| 0 <= k < rest.len() - 1 implies #[trigger] statement(s, rest[k])
            == (Outcome::Accepted { next: rest[k + 1] }) by {
            assert(statement(s, marks[k + 1]) == (Outcome::Accepted { next: marks[k + 2] }));
        }
        assert(rest.last() == marks.last());
        lemma_open_body_rejected(s, rest);
    }
}

/// The head of an `if` at `i`: `if`, `(`, an expression, `)` and `{`, with
/// the body starting at `body`.
pub open spec fn if_head(s: Seq<(Token, usize)>, i: nat, body: nat) -> bool {
    &&& kind_at(s, i) == Token::If
    &&& kind_at(s, i + 1) == Token::LParen
    &&& kind_at(s, expression(s, i + 2)) == Token::RParen
    &&& kind_at(s, expression(s, i + 2) + 1) == Token::LBrace
    &&& body == expression(s, i + 2) + 2
}

/// An `if` with a well-formed head, a body of accepted statements and its
/// closing `}` is accepted, as a construct and as a statement, and ends
/// behind that `}`.
pub proof fn lemma_closed_if_accepted(s: Seq<(Token, usize)>, i: nat, marks: Seq<nat>)
    requires
        statements_in_a_row(s, marks),
        if_head(s, i, marks[0]),
        kind_at(s, marks.last()) == Token::RBrace,
    ensures
        if_construct(s, i) == (Outcome::Accepted { next: marks.last() + 1 }),
        statement(s, i) == if_construct(s, i),
{
    lemma_closed_body_accepted(s, marks);
}

/// An `if` with a well-formed head whose body of accepted statements runs
/// into the end marker in place of the closing `}` is rejected there as an
/// invalid statement, with the end marker's line.
pub proof fn lemma_unclosed_if_rejected(s: Seq<(Token, usize)>, i: nat, marks: Seq<nat>)
    requires
        statements_in_a_row(s, marks),
        if_head(s, i, marks[0]),
        kind_at(s, marks.last()) == Token::EOF,
    ensures
        if_construct(s, i) == (Outcome::Rejected {
            kind: SyntaxErrorKind::InvalidStatement,
            at: marks.last(),
        }),
        if_construct(s, i).report(s) == Err::<(), SyntaxError>(
            SyntaxError { kind: SyntaxErrorKind::InvalidStatement, line: line_at(s, marks.last()) },
        ),
        statement(s, i) == if_construct(s, i),
{
    lemma_open_body_rejected(s, marks);
}

/// The head of a `for` at `i`: `for`, `(`, an accepted declaration, an
/// expression, `;`, an accepted assignment, `)` and `{`, with the body
/// starting at `body`.
pub open spec fn for_head(s: Seq<(Token, usize)>, i: nat, body: nat) -> bool {
    let condition_end = expression(s, i + 5);
    let paren = (body - 2) as nat;
    &&& kind_at(s, i) == Token::For
    &&& kind_at(s, i + 1) == Token::LParen
    &&& declaration(s, i + 2) == (Outcome::Accepted { next: i + 5 })
    &&& kind_at(s, condition_end) == Token::Semicolon
    &&& assignment(s, condition_end + 1) == (Outcome::Accepted { next: paren })
    &&& kind_at(s, paren) == Token::RParen
    &&& kind_at(s, paren + 1) == Token::LBrace
    &&& body == paren + 2
}

/// A `for` with a well-formed head, a body of accepted statements and its
/// closing `}` is accepted, as a construct and as a statement, and ends
/// behind that `}`.
pub proof fn lemma_closed_for_accepted(s: Seq<(Token, usize)>, i: nat, marks: Seq<nat>)
    requires
        statements_in_a_row(s, marks),
        for_head(s, i, marks[0]),
        kind_at(s, marks.last()) == Token::RBrace,
    ensures
        for_construct(s, i) == (Outcome::Accepted { next: marks.last() + 1 }),
        statement(s, i) == for_construct(s, i),
{
    lemma_closed_body_accepted(s, marks);
}

/// A `for` with a well-formed head whose body of accepted statements runs
/// into the end marker in place of the closing `}` is rejected there as an
/// invalid statement, with the end marker's line.
pub proof fn lemma_unclosed_for_rejected(s: Seq<(Token, usize)>, i: nat, marks: Seq<nat>)
    requires
        statements_in_a_row(s, marks),
        for_head(s, i, marks[0]),
        kind_at(s, marks.last()) == Token::EOF,
    ensures
        for_construct(s, i).report(s) == Err::<(), SyntaxError>(
            SyntaxError { kind: SyntaxErrorKind::InvalidStatement, line: line_at(s, marks.last()) },
        ),
        for_construct(s, i).stops_at() == marks.last(),
        statement(s, i) == for_construct(s, i),
{
    lemma_open_body_rejected(s, marks);
}

/// Two recognizers that stand at the same place of the same input end the
/// same way: both accept, or both reject with the same violation and line.
/// So recognition of one token sequence gives one verdict, however often it
/// is run.
pub proof fn lemma_same_input_same_verdict(a: Parser, b: Parser)
    requires
        a.wf(),
        b.wf(),
        a.input() == b.input(),
        a.index() == b.index(),
    ensures
        program(a.input(), a.index()).report(a.input()) == program(b.input(), b.index()).report(
            b.input(),
        ),
        program(a.input(), a.index()).stops_at() == program(b.input(), b.index()).stops_at(),
{
}

/// An input without tokens, or one whose first token is the end marker, is
/// accepted.
pub proof fn lemma_empty_input_accepted(s: Seq<(Token, usize)>)
    requires
        kind_at(s, 0) == Token::EOF,
    ensures
        verdict(s) == Ok::<(), SyntaxError>(()),
{
}

/// An accepted program ends at an end marker at or behind its start, or
/// behind the whole input.
pub proof fn lemma_program_ends_at_end_marker(s: Seq<(Token, usize)>, i: nat)
    ensures
        match program(s, i) {
            Outcome::Accepted { next } => i <= next && kind_at(s, next) == Token::EOF,
            Outcome::Rejected { .. } => true,
        },
    decreases left_from(s, i),
{
    if kind_at(s, i) == Token::EOF {
    } else if kind_at(s, i).starts_declaration() {
        if let Outcome::Accepted { next } = declaration(s, i) {
            lemma_program_ends_at_end_marker(s, next);
        }
    } else {
        lemma_statement_advances(s, i);
        if let Outcome::Accepted { next } = statement(s, i) {
            lemma_program_ends_at_end_marker(s, next);
        }
    }
}

} // verus!
