use vstd::prelude::*;
use crate::failure::ParseFailure;
use crate::tokens::Tokens;

verus! {

/// The parsing protocol that every grammar construct implements: given a
/// cursor, produce `Self` or a typed parse failure.
///
/// The protocol fixes the shared cursor discipline:
/// - the token contents are never mutated, only the position;
/// - the position never moves backwards across a call;
/// - a call that starts inside the buffer ends inside the buffer;
/// - failure is clean: a failed call restores the position it was given,
///   so the caller may retry an alternative production at the same place.
pub trait Fragment: Sized {
    /// Parses one construct from the cursor, consuming the tokens it
    /// recognizes.
    fn parse(tokens: &mut Tokens) -> (r: Result<Self, ParseFailure>)
        ensures
            final(tokens).toks() == old(tokens).toks(),
            old(tokens).position() <= final(tokens).position(),
            old(tokens).position() <= old(tokens).toks().len() ==> final(tokens).position() <= final(tokens).toks().len(),
            r is Err ==> final(tokens).position() == old(tokens).position(),
    ;
}

} // verus!
