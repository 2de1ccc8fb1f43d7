use vstd::prelude::*;
use crate::failure::{Expectation, ParseFailure};
use crate::token::{is_terminator, Token};
use crate::tokens::Tokens;

verus! {

/// What requiring a statement terminator at the token suffix `t` yields.
/// `base` is the absolute position of `t[0]`, used in failures.
/// On success exactly one token is consumed.
pub open spec fn spec_parse_terminator(t: Seq<Token>, base: int) -> Result<(), ParseFailure> {
    if t.len() == 0 {
        Err(ParseFailure::UnexpectedEndOfInput { at: base as usize })
    } else if is_terminator(t[0]) {
        Ok(())
    } else {
        Err(
            ParseFailure::UnexpectedToken {
                expected: Expectation::Terminator,
                found: t[0],
                at: base as usize,
            },
        )
    }
}

/// Requires the next token to be a statement terminator (a semicolon or an
/// end-of-line marker) and consumes it; otherwise fails without consuming,
/// naming the expected terminator and the offending token.
pub fn semi_or_eol(tokens: &mut Tokens) -> (r: Result<(), ParseFailure>)
    ensures
        final(tokens).toks() == old(tokens).toks(),
        match spec_parse_terminator(old(tokens).remaining(), old(tokens).position()) {
            Ok(u) => r == Ok::<(), ParseFailure>(u) && final(tokens).position() == old(
                tokens,
            ).position() + 1,
            Err(e) => r == Err::<(), ParseFailure>(e) && final(tokens).position() == old(
                tokens,
            ).position(),
        },
{
    let at = tokens.pos();
    match tokens.peek() {
        Some(Token::Semicolon) => {
            proof {
                tokens.lemma_len_bound();
            }
            tokens.skip(1);
            Ok(())
        },
        Some(Token::Eol) => {
            proof {
                tokens.lemma_len_bound();
            }
            tokens.skip(1);
            Ok(())
        },
        Some(tok) => Err(
            ParseFailure::UnexpectedToken { expected: Expectation::Terminator, found: tok, at },
        ),
        None => Err(ParseFailure::UnexpectedEndOfInput { at }),
    }
}

} // verus!
