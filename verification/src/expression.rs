use vstd::prelude::*;
use crate::failure::{Expectation, ParseFailure};
use crate::fragment::Fragment;
use crate::token::Token;
use crate::tokens::Tokens;

verus! {

/// A default-value expression. The full expression grammar is a peer
/// construct; the argument-list grammar only needs the atoms it delegates
/// to: a numeric literal or a variable reference.
#[derive(Clone, Debug, PartialEq, Eq)]
pub enum Expression {
    /// A numeric literal, carrying its text.
    Literal(String),
    /// A reference to a variable, carrying its name.
    Variable(String),
}

impl Expression {
    /// The canonical source text of the expression.
    pub open spec fn text(self) -> Seq<char> {
        match self {
            Expression::Literal(s) => s@,
            Expression::Variable(s) => s@,
        }
    }

    /// The single token the expression was read from.
    pub open spec fn token(self) -> Token {
        match self {
            Expression::Literal(s) => Token::Number(s),
            Expression::Variable(s) => Token::Ident(s),
        }
    }

    /// Builds the single token the expression is read from.
    pub fn to_token(&self) -> (t: Token)
        ensures
            t == self.token(),
    {
        match self {
            Expression::Literal(s) => Token::Number(s.clone()),
            Expression::Variable(s) => Token::Ident(s.clone()),
        }
    }

    /// Renders the expression back to canonical source text.
    pub fn render(&self) -> (s: String)
        ensures
            s@ == self.text(),
    {
        match self {
            Expression::Literal(s) => s.clone(),
            Expression::Variable(s) => s.clone(),
        }
    }
}

/// What parsing an expression from the token suffix `t` yields.
/// `base` is the absolute position of `t[0]`, used in failures.
/// On success exactly one token is consumed.
pub open spec fn spec_parse_expression(t: Seq<Token>, base: int) -> Result<
    Expression,
    ParseFailure,
> {
    if t.len() == 0 {
        Err(ParseFailure::UnexpectedEndOfInput { at: base as usize })
    } else {
        match t[0] {
            Token::Number(text) => Ok(Expression::Literal(text)),
            Token::Ident(name) => Ok(Expression::Variable(name)),
            _ => Err(
                ParseFailure::UnexpectedToken {
                    expected: Expectation::ExpressionValue,
                    found: t[0],
                    at: base as usize,
                },
            ),
        }
    }
}

impl Fragment for Expression {
    /// Matches a single literal or variable token.
    fn parse(tokens: &mut Tokens) -> (r: Result<Expression, ParseFailure>)
        ensures
            match spec_parse_expression(old(tokens).remaining(), old(tokens).position()) {
                Ok(e) => r == Ok::<Expression, ParseFailure>(e) && final(tokens).position() == old(
                    tokens,
                ).position() + 1,
                Err(e) => r == Err::<Expression, ParseFailure>(e),
            },
    {
        let at = tokens.pos();
        match tokens.peek() {
            Some(Token::Number(text)) => {
                proof {
                    tokens.lemma_len_bound();
                }
                tokens.skip(1);
                Ok(Expression::Literal(text))
            },
            Some(Token::Ident(name)) => {
                proof {
                    tokens.lemma_len_bound();
                }
                tokens.skip(1);
                Ok(Expression::Variable(name))
            },
            Some(tok) => Err(
                ParseFailure::UnexpectedToken {
                    expected: Expectation::ExpressionValue,
                    found: tok,
                    at,
                },
            ),
            None => Err(ParseFailure::UnexpectedEndOfInput { at }),
        }
    }
}

} // verus!
