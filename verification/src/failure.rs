use vstd::prelude::*;
use crate::token::Token;

verus! {

/// What the grammar expected at the position where a parse failed.
#[derive(Clone, Debug, PartialEq, Eq)]
pub enum Expectation {
    /// An identifier token naming a parameter or a variable.
    IdentifierName,
    /// A token that can begin a default-value expression.
    ExpressionValue,
    /// A statement terminator: a semicolon or an end-of-line marker.
    Terminator,
    /// The end of the construct: nothing may follow a variadic parameter.
    ListEnd,
}

/// A typed description of why a construct could not match.
///
/// A failure is returned to the caller (never swallowed); constructs
/// propagate nested failures verbatim or wrapped with context.
#[derive(Debug, PartialEq, Eq)]
pub enum ParseFailure {
    /// The observed token matches no production at this grammar position.
    UnexpectedToken { expected: Expectation, found: Token, at: usize },
    /// The cursor was exhausted where more tokens were required.
    UnexpectedEndOfInput { at: usize },
    /// A nested construct (identifier, expression) failed; wraps its failure.
    MalformedSubExpression(Box<ParseFailure>),
    /// A lookahead window was requested past the end of the buffer.
    IndexOutOfRange { at: usize, wanted: usize },
}

impl ParseFailure {
    /// The token position the failure points at, for diagnostics.
    pub open spec fn spec_position(self) -> usize
        decreases self,
    {
        match self {
            ParseFailure::UnexpectedToken { at, .. } => at,
            ParseFailure::UnexpectedEndOfInput { at } => at,
            ParseFailure::MalformedSubExpression(inner) => inner.spec_position(),
            ParseFailure::IndexOutOfRange { at, .. } => at,
        }
    }

    /// The token position the failure points at, for diagnostics.
    pub fn position(&self) -> (r: usize)
        ensures
            r == self.spec_position(),
        decreases *self,
    {
        match self {
            ParseFailure::UnexpectedToken { at, .. } => *at,
            ParseFailure::UnexpectedEndOfInput { at } => *at,
            ParseFailure::MalformedSubExpression(inner) => inner.position(),
            ParseFailure::IndexOutOfRange { at, .. } => *at,
        }
    }
}

} // verus!
