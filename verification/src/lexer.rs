use vstd::prelude::*;
use crate::token::{Token, token_at};

verus! {

/// A forward-only reader over a token sequence.
pub struct Lexer {
    tokens: Vec<(Token, usize)>,
    pos: usize,
}

impl Lexer {
    /// The whole sequence that the reader was made with.
    pub closed spec fn tokens(&self) -> Seq<(Token, usize)> {
        self.tokens@
    }

    /// How many tokens have been handed out.
    pub closed spec fn pos(&self) -> nat {
        self.pos as nat
    }

    /// The position never passes the end of the sequence.
    pub open spec fn wf(&self) -> bool {
        self.pos() <= self.tokens().len()
    }

    pub fn new(tokens: Vec<(Token, usize)>) -> (lexer: Self)
        ensures
            lexer.tokens() == tokens@,
            lexer.pos() == 0,
            lexer.wf(),
    {
        Self { tokens, pos: 0 }
    }

    /// Hands out the token under the position and steps over it. At the end
    /// of the sequence it hands out the end marker, any number of times.
    pub fn next(&mut self) -> (t: (Token, usize))
        ensures
            t == token_at(old(self).tokens(), old(self).pos()),
            final(self).tokens() == old(self).tokens(),
            final(self).pos() == if old(self).pos() < old(self).tokens().len() {
                old(self).pos() + 1
            } else {
                old(self).pos()
            },
            old(self).wf() ==> final(self).wf(),
    {
        if self.pos < self.tokens.len() {
            let t = self.tokens[self.pos];
            self.pos += 1;
            t
        } else {
            (Token::EOF, 0)
        }
    }

    /// The number of tokens handed out so far.
    pub fn position(&self) -> (p: usize)
        ensures
            p == self.pos(),
    {
        self.pos
    }
}

} // verus!
