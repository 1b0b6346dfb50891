use vstd::prelude::*;
use crate::token::{Token, token_at, left_from};
use crate::error::{SyntaxError, SyntaxErrorKind};
use crate::lexer::Lexer;
use crate::grammar::{
    declaration, operator_pairs, expression, assignment, statement, block, if_construct,
    for_construct, program, verdict,
};
use crate::progress::lemma_statement_advances;

verus! {

/// The recognizer: a reader, the token that it read last, and that token's
/// line. It looks at no token but the current one and never goes back.
pub struct Parser {
    lexer: Lexer,
    current: Token,
    line: usize,
    index: Ghost<nat>,
}

impl Parser {
    /// The token sequence under recognition.
    pub closed spec fn input(&self) -> Seq<(Token, usize)> {
        self.lexer.tokens()
    }

    /// The place of the current token in the input. It keeps counting past
    /// the end, where every token is the end marker.
    pub closed spec fn index(&self) -> nat {
        self.index@
    }

    /// The kind of the current token.
    pub closed spec fn current_kind(&self) -> Token {
        self.current
    }

    /// The line of the current token.
    pub closed spec fn current_line(&self) -> usize {
        self.line
    }

    /// The reader's position.
    pub closed spec fn cursor(&self) -> nat {
        self.lexer.pos()
    }

    /// The current token is the one at `index`, and the reader stands behind
    /// it, or at the end of the input.
    pub open spec fn wf(&self) -> bool {
        &&& (self.current_kind(), self.current_line()) == token_at(self.input(), self.index())
        &&& self.cursor() == if self.index() < self.input().len() {
            self.index() + 1
        } else {
            self.input().len()
        }
    }

    /// Reads the first token that the reader has to give.
    pub fn new(lexer: Lexer) -> (parser: Self)
        requires
            lexer.wf(),
        ensures
            parser.wf(),
            parser.input() == lexer.tokens(),
            parser.index() == lexer.pos(),
    {
        let mut lexer = lexer;
        let ghost index = lexer.pos();
        let (token, line) = lexer.next();
        Self { lexer, current: token, line, index: Ghost(index) }
    }

    /// The kind of the current token.
    pub fn current(&self) -> (t: Token)
        ensures
            t == self.current_kind(),
    {
        self.current
    }

    /// The line of the current token.
    pub fn line(&self) -> (l: usize)
        ensures
            l == self.current_line(),
    {
        self.line
    }

    /// The number of tokens read from the input so far, the current one
    /// included.
    pub fn position(&self) -> (p: usize)
        ensures
            p == self.cursor(),
    {
        self.lexer.position()
    }

    /// Makes the next token the current one.
    pub fn advance(&mut self)
        requires
            old(self).wf(),
        ensures
            final(self).wf(),
            final(self).input() == old(self).input(),
            final(self).index() == old(self).index() + 1,
    {
        let (token, line) = self.lexer.next();
        self.current = token;
        self.line = line;
        self.index = Ghost((self.index@ + 1) as nat);
    }

    /// The violation `kind`, placed at the current token's line.
    pub fn error(&self, kind: SyntaxErrorKind) -> (e: SyntaxError)
        ensures
            e == (SyntaxError { kind, line: self.current_line() }),
    {
        SyntaxError { kind, line: self.line }
    }

    /// Recognizes declarations and statements up to the end marker.
    pub fn parse_program(&mut self) -> (r: Result<(), SyntaxError>)
        requires
            old(self).wf(),
        ensures
            final(self).wf(),
            final(self).input() == old(self).input(),
            r == program(old(self).input(), old(self).index()).report(old(self).input()),
            final(self).index() == program(old(self).input(), old(self).index()).stops_at(),
    {
        let ghost s = self.input();
        let ghost start = self.index();
        while !matches!(self.current, Token::EOF)
            invariant
                self.wf(),
                self.input() == s,
                old(self).input() == s,
                old(self).index() == start,
                program(s, self.index()) == program(s, start),
            decreases left_from(s, self.index()),
        {
            let ghost i = self.index();
            if self.current.is_type_keyword() {
                match self.parse_declaration() {
                    Err(e) => {
                        return Err(e);
                    },
                    Ok(()) => {},
                }
            } else {
                proof {
                    lemma_statement_advances(s, i);
                }
                match self.parse_statement() {
                    Err(e) => {
                        return Err(e);
                    },
                    Ok(()) => {},
                }
            }
        }
        Ok(())
    }

    /// Recognizes a declaration whose first token is the current one.
    pub fn parse_declaration(&mut self) -> (r: Result<(), SyntaxError>)
        requires
            old(self).wf(),
        ensures
            final(self).wf(),
            final(self).input() == old(self).input(),
            r == declaration(old(self).input(), old(self).index()).report(old(self).input()),
            final(self).index() == declaration(old(self).input(), old(self).index()).stops_at(),
    {
        self.advance();

        if matches!(self.current, Token::Identifier) {
            self.advance();
        } else {
            return Err(self.error(SyntaxErrorKind::ExpectedIdentifierInDeclaration));
        }

        if matches!(self.current, Token::Semicolon) {
            self.advance();
        } else {
            return Err(self.error(SyntaxErrorKind::MissingSemicolonInDeclaration));
        }
        Ok(())
    }

    /// Recognizes the statement whose first token is the current one.
    pub fn parse_statement(&mut self) -> (r: Result<(), SyntaxError>)
        requires
            old(self).wf(),
        ensures
            final(self).wf(),
            final(self).input() == old(self).input(),
            r == statement(old(self).input(), old(self).index()).report(old(self).input()),
            final(self).index() == statement(old(self).input(), old(self).index()).stops_at(),
        decreases left_from(old(self).input(), old(self).index()), 1int,
    {
        match self.current {
            Token::Identifier => self.parse_assignment(),
            Token::If => self.parse_if(),
            Token::For => self.parse_for(),
            _ => Err(self.error(SyntaxErrorKind::InvalidStatement)),
        }
    }

    /// Recognizes an assignment whose first token is the current one.
    pub fn parse_assignment(&mut self) -> (r: Result<(), SyntaxError>)
        requires
            old(self).wf(),
        ensures
            final(self).wf(),
            final(self).input() == old(self).input(),
            r == assignment(old(self).input(), old(self).index()).report(old(self).input()),
            final(self).index() == assignment(old(self).input(), old(self).index()).stops_at(),
    {
        self.advance();

        if matches!(self.current, Token::Assign) {
            self.advance();
            self.parse_expression();
        } else {
            return Err(self.error(SyntaxErrorKind::ExpectedAssignInAssignment));
        }

        if matches!(self.current, Token::Semicolon) {
            self.advance();
        } else {
            return Err(self.error(SyntaxErrorKind::MissingSemicolonInAssignment));
        }
        Ok(())
    }

    /// Recognizes an `if` whose first token is the current one.
    pub fn parse_if(&mut self) -> (r: Result<(), SyntaxError>)
        requires
            old(self).wf(),
        ensures
            final(self).wf(),
            final(self).input() == old(self).input(),
            r == if_construct(old(self).input(), old(self).index()).report(old(self).input()),
            final(self).index() == if_construct(old(self).input(), old(self).index()).stops_at(),
        decreases left_from(old(self).input(), old(self).index()), 0int,
    {
        let ghost s = self.input();
        let ghost start = self.index();
        self.advance();

        if !matches!(self.current, Token::LParen) {
            return Err(self.error(SyntaxErrorKind::ExpectedLParenAfterIf));
        }
        self.advance();

        self.parse_expression();

        if !matches!(self.current, Token::RParen) {
            return Err(self.error(SyntaxErrorKind::ExpectedRParen));
        }
        self.advance();

        if !matches!(self.current, Token::LBrace) {
            return Err(self.error(SyntaxErrorKind::ExpectedLBrace));
        }
        self.advance();

        while !matches!(self.current, Token::RBrace)
            invariant
                self.wf(),
                self.input() == s,
                old(self).input() == s,
                old(self).index() == start,
                start < self.index(),
                start < s.len(),
                block(s, self.index()) == if_construct(s, start),
            decreases left_from(s, self.index()),
        {
            proof {
                lemma_statement_advances(s, self.index());
            }
            match self.parse_statement() {
                Err(e) => {
                    return Err(e);
                },
                Ok(()) => {},
            }
        }
        self.advance();
        Ok(())
    }

    /// Recognizes a `for` whose first token is the current one.
    pub fn parse_for(&mut self) -> (r: Result<(), SyntaxError>)
        requires
            old(self).wf(),
        ensures
            final(self).wf(),
            final(self).input() == old(self).input(),
            r == for_construct(old(self).input(), old(self).index()).report(old(self).input()),
            final(self).index() == for_construct(old(self).input(), old(self).index()).stops_at(),
        decreases left_from(old(self).input(), old(self).index()), 0int,
    {
        let ghost s = self.input();
        let ghost start = self.index();
        self.advance();

        if !matches!(self.current, Token::LParen) {
            return Err(self.error(SyntaxErrorKind::ExpectedLParenAfterFor));
        }
        self.advance();

        match self.parse_declaration() {
            Err(e) => {
                return Err(e);
            },
            Ok(()) => {},
        }
        self.parse_expression();

        if !matches!(self.current, Token::Semicolon) {
            return Err(self.error(SyntaxErrorKind::MissingSemicolonInFor));
        }
        self.advance();

        match self.parse_assignment() {
            Err(e) => {
                return Err(e);
            },
            Ok(()) => {},
        }

        if !matches!(self.current, Token::RParen) {
            return Err(self.error(SyntaxErrorKind::ExpectedRParen));
        }
        self.advance();

        if !matches!(self.current, Token::LBrace) {
            return Err(self.error(SyntaxErrorKind::ExpectedLBrace));
        }
        self.advance();

        while !matches!(self.current, Token::RBrace)
            invariant
                self.wf(),
                self.input() == s,
                old(self).input() == s,
                old(self).index() == start,
                start < self.index(),
                start < s.len(),
                block(s, self.index()) == for_construct(s, start),
            decreases left_from(s, self.index()),
        {
            proof {
                lemma_statement_advances(s, self.index());
            }
            match self.parse_statement() {
                Err(e) => {
                    return Err(e);
                },
                Ok(()) => {},
            }
        }
        self.advance();
        Ok(())
    }

    /// Steps over an expression whose first token is the current one.
    pub fn parse_expression(&mut self)
        requires
            old(self).wf(),
        ensures
            final(self).wf(),
            final(self).input() == old(self).input(),
            final(self).index() == expression(old(self).input(), old(self).index()),
    {
        let ghost s = self.input();
        let ghost start = self.index();
        self.advance();

        while self.current.is_binary_operator()
            invariant
                self.wf(),
                self.input() == s,
                old(self).input() == s,
                old(self).index() == start,
                start < self.index(),
                self.index() + 2 * operator_pairs(s, self.index()) == expression(s, start),
            decreases left_from(s, self.index()),
        {
            self.advance();
            self.advance();
        }
    }
}

/// Recognizes a whole token sequence from its first token on.
pub fn parse(tokens: Vec<(Token, usize)>) -> (r: Result<(), SyntaxError>)
    ensures
        r == verdict(tokens@),
{
    let lexer = Lexer::new(tokens);
    let mut parser = Parser::new(lexer);
    parser.parse_program()
}

} // verus!
