use vstd::prelude::*;

verus! {

/// The places at which the grammar can be violated.
#[derive(Clone, Copy, Debug, PartialEq, Eq, Structural)]
pub enum SyntaxErrorKind {
    ExpectedIdentifierInDeclaration,
    MissingSemicolonInDeclaration,
    InvalidStatement,
    ExpectedAssignInAssignment,
    MissingSemicolonInAssignment,
    ExpectedLParenAfterIf,
    ExpectedLParenAfterFor,
    MissingSemicolonInFor,
    ExpectedRParen,
    ExpectedLBrace,
}

impl SyntaxErrorKind {
    /// The fixed wording of each violation.
    pub open spec fn text(self) -> Seq<char> {
        match self {
            SyntaxErrorKind::ExpectedIdentifierInDeclaration => "Expected identifier in declaration"@,
            SyntaxErrorKind::MissingSemicolonInDeclaration => "Missing ';' in declaration"@,
            SyntaxErrorKind::InvalidStatement => "Invalid statement"@,
            SyntaxErrorKind::ExpectedAssignInAssignment => "Expected '=' in assignment"@,
            SyntaxErrorKind::MissingSemicolonInAssignment => "Missing ';' in assignment"@,
            SyntaxErrorKind::ExpectedLParenAfterIf => "Expected '(' after if"@,
            SyntaxErrorKind::ExpectedLParenAfterFor => "Expected '(' after for"@,
            SyntaxErrorKind::MissingSemicolonInFor => "Missing ';' in for"@,
            SyntaxErrorKind::ExpectedRParen => "Expected ')'"@,
            SyntaxErrorKind::ExpectedLBrace => "Expected '{'"@,
        }
    }

    pub fn message(&self) -> (m: &'static str)
        ensures
            m@ == self.text(),
    {
        match self {
            SyntaxErrorKind::ExpectedIdentifierInDeclaration => "Expected identifier in declaration",
            SyntaxErrorKind::MissingSemicolonInDeclaration => "Missing ';' in declaration",
            SyntaxErrorKind::InvalidStatement => "Invalid statement",
            SyntaxErrorKind::ExpectedAssignInAssignment => "Expected '=' in assignment",
            SyntaxErrorKind::MissingSemicolonInAssignment => "Missing ';' in assignment",
            SyntaxErrorKind::ExpectedLParenAfterIf => "Expected '(' after if",
            SyntaxErrorKind::ExpectedLParenAfterFor => "Expected '(' after for",
            SyntaxErrorKind::MissingSemicolonInFor => "Missing ';' in for",
            SyntaxErrorKind::ExpectedRParen => "Expected ')'",
            SyntaxErrorKind::ExpectedLBrace => "Expected '{'",
        }
    }
}

/// The first violation found, with the line of the token at which it was found.
#[derive(Clone, Copy, Debug, PartialEq, Eq, Structural)]
pub struct SyntaxError {
    pub kind: SyntaxErrorKind,
    pub line: usize,
}

impl SyntaxError {
    pub fn message(&self) -> (m: &'static str)
        ensures
            m@ == self.kind.text(),
    {
        self.kind.message()
    }
}

} // verus!
