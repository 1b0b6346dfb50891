use vstd::prelude::*;
use crate::token::{Token, kind_at, left_from};
use crate::grammar::{Outcome, expression, assignment, statement, block, if_construct, for_construct};

verus! {

/// An outcome that is either a rejection or an acceptance that ends behind
/// `i` and not behind the end of `s`.
pub open spec fn advances(s: Seq<(Token, usize)>, i: nat, outcome: Outcome) -> bool {
    match outcome {
        Outcome::Accepted { next } => i < next <= s.len(),
        Outcome::Rejected { .. } => true,
    }
}

/// An accepted statement takes at least one token and none past the end.
pub proof fn lemma_statement_advances(s: Seq<(Token, usize)>, i: nat)
    ensures
        advances(s, i, statement(s, i)),
    decreases left_from(s, i), 1int,
{
    match kind_at(s, i) {
        Token::If => lemma_if_advances(s, i),
        Token::For => lemma_for_advances(s, i),
        _ => {},
    }
}

/// An accepted body takes at least its closing brace and nothing past the end.
pub proof fn lemma_block_advances(s: Seq<(Token, usize)>, i: nat)
    ensures
        advances(s, i, block(s, i)),
    decreases left_from(s, i), 2int,
{
    if kind_at(s, i) != Token::RBrace {
        lemma_statement_advances(s, i);
        if let Outcome::Accepted { next } = statement(s, i) {
            lemma_block_advances(s, next);
        }
    }
}

/// An accepted `if` takes at least one token and none past the end.
pub proof fn lemma_if_advances(s: Seq<(Token, usize)>, i: nat)
    ensures
        advances(s, i, if_construct(s, i)),
    decreases left_from(s, i), 0int,
{
    if let Outcome::Accepted { .. } = if_construct(s, i) {
        let j = expression(s, i + 2);
        lemma_block_advances(s, j + 2);
    }
}

/// An accepted `for` takes at least one token and none past the end.
pub proof fn lemma_for_advances(s: Seq<(Token, usize)>, i: nat)
    ensures
        advances(s, i, for_construct(s, i)),
    decreases left_from(s, i), 0int,
{
    if let Outcome::Accepted { .. } = for_construct(s, i) {
        let j = expression(s, i + 5);
        let a = assignment(s, j + 1)->next;
        lemma_block_advances(s, a + 2);
    }
}

} // verus!
