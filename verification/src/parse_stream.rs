use crate::token::{Token, TokenV};
use vstd::prelude::*;

verus! {

/// An immutable token sequence together with a mutable read cursor.
///
/// The cursor only ever moves forward, one token per `next` call — even past
/// the end of the sequence — except when a caller overwrites it through
/// `set_position` to backtrack by hand. The combinator layer never does.
#[derive(Debug, Clone)]
pub struct ParseStream {
    tokens: Vec<Token>,
    position: usize,
}

/// What peeking into a token sequence at a given cursor yields: the token
/// there, or nothing once the cursor stands outside the sequence.
pub open spec fn spec_peek(toks: Seq<TokenV>, pos: int) -> Option<TokenV> {
    if 0 <= pos < toks.len() {
        Some(toks[pos])
    } else {
        None
    }
}

impl ParseStream {
    /// The token sequence under the cursor, as a mathematical sequence.
    pub closed spec fn toks(&self) -> Seq<TokenV> {
        self.tokens.deep_view()
    }

    /// The cursor. It may stand at or past the end of the sequence.
    pub closed spec fn pos(&self) -> int {
        self.position as int
    }

    pub fn new(tokens: Vec<Token>) -> (r: ParseStream)
        ensures
            r.toks() == tokens.deep_view(),
            r.pos() == 0,
    {
        ParseStream { tokens, position: 0 }
    }

    pub fn position(&self) -> (r: usize)
        ensures
            r == self.pos(),
    {
        self.position
    }

    /// Overwrites the cursor; the one way it can move backwards.
    pub fn set_position(&mut self, position: usize)
        ensures
            final(self).toks() == old(self).toks(),
            final(self).pos() == position,
    {
        self.position = position
    }

    /// Looks at the current token without moving the cursor.
    pub fn peek(&self) -> (r: Option<&Token>)
        ensures
            0 <= self.pos(),
            match r {
                Some(t) => {
                    &&& self.pos() < self.toks().len()
                    &&& t@ == self.toks()[self.pos()]
                    &&& spec_peek(self.toks(), self.pos()) == Some(t@)
                },
                None => {
                    &&& self.pos() >= self.toks().len()
                    &&& spec_peek(self.toks(), self.pos()) is None
                },
            },
    {
        if self.position < self.tokens.len() {
            Some(&self.tokens[self.position])
        } else {
            None
        }
    }

    /// Returns the current token, if any, and advances the cursor by one in
    /// either case: consuming past the end keeps yielding nothing.
    pub fn next(&mut self) -> (r: Option<Token>)
        requires
            old(self).pos() < usize::MAX,
        ensures
            0 <= old(self).pos(),
            final(self).toks() == old(self).toks(),
            final(self).pos() == old(self).pos() + 1,
            match r {
                Some(t) => {
                    &&& old(self).pos() < old(self).toks().len()
                    &&& t@ == old(self).toks()[old(self).pos()]
                },
                None => old(self).pos() >= old(self).toks().len(),
            },
    {
        let item = if self.position < self.tokens.len() {
            Some(self.tokens[self.position].clone())
        } else {
            None
        };
        self.position = self.position + 1;
        item
    }
}

/// Exhaustion is terminal and idempotent: once the cursor stands at or past
/// the end of the sequence, it stays there under any number of further
/// advances, and peeking keeps yielding nothing.
pub proof fn lemma_exhaustion_idempotent(toks: Seq<TokenV>, pos: int, advances: nat)
    requires
        pos >= toks.len(),
    ensures
        pos + advances >= toks.len(),
        spec_peek(toks, pos + advances) is None,
{
}

} // verus!
