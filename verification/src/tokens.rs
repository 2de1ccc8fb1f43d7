use vstd::prelude::*;
use crate::failure::ParseFailure;
use crate::token::{dup_token, Token};

verus! {

/// A sequence of tokens with a marker at the current position.
///
/// The token contents never change after construction; the position is
/// the only mutable state. The position may be driven past the end with
/// `skip`; the overrun is observed as a clean failure by the next read,
/// never as an out-of-bounds access.
pub struct Tokens {
    tokens: Vec<Token>,
    pos: usize,
}

impl Tokens {
    /// The full underlying token sequence.
    pub closed spec fn toks(self) -> Seq<Token> {
        self.tokens@
    }

    /// The current read position.
    pub closed spec fn position(self) -> int {
        self.pos as int
    }

    /// The unread suffix of the token sequence.
    pub open spec fn remaining(self) -> Seq<Token> {
        if self.position() <= self.toks().len() {
            self.toks().skip(self.position())
        } else {
            Seq::empty()
        }
    }

    /// The token sequence fits in memory: its length is bounded by `usize`.
    pub proof fn lemma_len_bound(self)
        ensures
            self.toks().len() <= usize::MAX,
    {
        assert(self.tokens.len() == self.toks().len());
    }

    /// Creates a new cursor positioned at the first token.
    pub fn new(tokens: Vec<Token>) -> (r: Tokens)
        ensures
            r.toks() == tokens@,
            r.position() == 0,
    {
        Tokens { tokens, pos: 0 }
    }

    /// Returns the token at the current position without advancing, or
    /// `None` when the position is at or past the end of the sequence.
    pub fn peek(&self) -> (r: Option<Token>)
        ensures
            r matches Some(t) ==> self.position() < self.toks().len() && t == self.toks()[self.position()],
            r is None <==> self.position() >= self.toks().len(),
    {
        if self.pos < self.tokens.len() {
            Some(dup_token(&self.tokens[self.pos]))
        } else {
            None
        }
    }

    /// Returns the token at the current position and advances by one;
    /// at or past the end it returns `None` and leaves the position unchanged.
    pub fn next(&mut self) -> (r: Option<Token>)
        ensures
            final(self).toks() == old(self).toks(),
            r matches Some(t) ==> old(self).position() < old(self).toks().len() && t == old(self).toks()[old(self).position()] && final(self).position() == old(self).position() + 1,
            r is None ==> old(self).position() >= old(self).toks().len() && final(self).position() == old(self).position(),
    {
        if self.pos < self.tokens.len() {
            let t = dup_token(&self.tokens[self.pos]);
            self.pos = self.pos + 1;
            Some(t)
        } else {
            None
        }
    }

    /// Advances the position by `n` tokens, unconditionally; running past
    /// the end is observed as a failure by the next read, not here.
    pub fn skip(&mut self, n: usize)
        requires
            old(self).position() + n <= usize::MAX,
        ensures
            final(self).toks() == old(self).toks(),
            final(self).position() == old(self).position() + n,
    {
        self.pos = self.pos + n;
    }

    /// Retreats the position by `n` tokens, un-consuming input after a
    /// partial match.
    pub fn back(&mut self, n: usize)
        requires
            n <= old(self).position(),
        ensures
            final(self).toks() == old(self).toks(),
            final(self).position() == old(self).position() - n,
    {
        self.pos = self.pos - n;
    }

    /// The current position, to be saved for speculative parsing.
    pub fn pos(&self) -> (r: usize)
        ensures
            r == self.position(),
    {
        self.pos
    }

    /// Restores a saved position, fully undoing a failed attempt.
    pub fn seek(&mut self, pos: usize)
        ensures
            final(self).toks() == old(self).toks(),
            final(self).position() == pos,
    {
        self.pos = pos;
    }

    /// A read-only view of the next `k` tokens, for multi-token lookahead.
    /// When fewer than `k` tokens remain the request fails with
    /// `IndexOutOfRange` instead of reading past the buffer.
    pub fn window(&self, k: usize) -> (r: Result<Vec<Token>, ParseFailure>)
        ensures
            match r {
                Ok(v) => self.position() + k <= self.toks().len() && v@ == self.toks().subrange(
                    self.position(),
                    self.position() + k,
                ),
                Err(e) => self.position() + k > self.toks().len() && (e matches
                    ParseFailure::IndexOutOfRange { at, wanted } && at == self.position() && wanted
                    == k),
            },
    {
        if k <= self.tokens.len() && self.pos <= self.tokens.len() - k {
            let mut v: Vec<Token> = Vec::new();
            let mut i: usize = 0;
            while i < k
                invariant
                    i <= k,
                    self.pos + k <= self.tokens.len(),
                    v@ == self.toks().subrange(self.position(), self.position() + i),
                decreases k - i,
            {
                v.push(dup_token(&self.tokens[self.pos + i]));
                i = i + 1;
                proof {
                    assert(v@ =~= self.toks().subrange(self.position(), self.position() + i));
                }
            }
            Ok(v)
        } else {
            Err(ParseFailure::IndexOutOfRange { at: self.pos, wanted: k })
        }
    }
}

} // verus!
