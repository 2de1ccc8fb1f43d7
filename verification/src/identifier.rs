use vstd::prelude::*;
use crate::failure::{Expectation, ParseFailure};
use crate::fragment::Fragment;
use crate::token::Token;
use crate::tokens::Tokens;

verus! {

/// An identifier node: the name of a parameter or a variable.
#[derive(Clone, Debug, PartialEq, Eq)]
pub struct Identifier(pub String);

/// What parsing an identifier from the token suffix `t` yields.
/// `base` is the absolute position of `t[0]`, used in failures.
/// On success exactly one token is consumed.
pub open spec fn spec_parse_identifier(t: Seq<Token>, base: int) -> Result<
    Identifier,
    ParseFailure,
> {
    if t.len() == 0 {
        Err(ParseFailure::UnexpectedEndOfInput { at: base as usize })
    } else {
        match t[0] {
            Token::Ident(name) => Ok(Identifier(name)),
            _ => Err(
                ParseFailure::UnexpectedToken {
                    expected: Expectation::IdentifierName,
                    found: t[0],
                    at: base as usize,
                },
            ),
        }
    }
}

impl Fragment for Identifier {
    /// Matches a single identifier token.
    fn parse(tokens: &mut Tokens) -> (r: Result<Identifier, ParseFailure>)
        ensures
            match spec_parse_identifier(old(tokens).remaining(), old(tokens).position()) {
                Ok(id) => r == Ok::<Identifier, ParseFailure>(id) && final(tokens).position()
                    == old(tokens).position() + 1,
                Err(e) => r == Err::<Identifier, ParseFailure>(e),
            },
    {
        let at = tokens.pos();
        match tokens.peek() {
            Some(Token::Ident(name)) => {
                proof {
                    tokens.lemma_len_bound();
                }
                tokens.skip(1);
                Ok(Identifier(name))
            },
            Some(tok) => Err(
                ParseFailure::UnexpectedToken {
                    expected: Expectation::IdentifierName,
                    found: tok,
                    at,
                },
            ),
            None => Err(ParseFailure::UnexpectedEndOfInput { at }),
        }
    }
}

} // verus!
