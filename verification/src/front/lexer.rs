//! Token sources: where the parser pulls its tokens from.

use crate::define::token::{clone_pull, LexResult, Lexeme, Pull, Token};
use vstd::prelude::*;

verus! {

/// A token stream: the pulls that a source still has to give, in order, up to
/// the end of the input. After the last of them every pull gives
/// `Ok(Lexeme::End)`.
pub type Stream = Seq<Pull>;

/// The next pull of a stream.
pub open spec fn head(s: Stream) -> Pull {
    if s.len() > 0 {
        s[0]
    } else {
        Ok(Lexeme::End)
    }
}

/// The stream after its next pull.
pub open spec fn tail(s: Stream) -> Stream {
    if s.len() > 0 {
        s.skip(1)
    } else {
        s
    }
}

/// A source of tokens. Each pull gives the next token or the text of a lexical
/// error; once the input is exhausted, and only then, it gives `Token::End`.
pub trait TokenSource {
    /// The pulls still to come. A source that does not say which they are
    /// leaves them unknown: some function of the source, of which the contract
    /// of `next_token` holds.
    open spec fn remaining(&self) -> Stream {
        arbitrary::<spec_fn(&Self) -> Stream>()(self)
    }

    /// Pulls the next token.
    fn next_token(&mut self) -> (result: LexResult)
        ensures
            crate::define::token::pull_view(result) == head(old(self).remaining()),
            final(self).remaining() == tail(old(self).remaining()),
            crate::define::token::pull_view(result) == Ok::<Lexeme, Seq<char>>(Lexeme::End)
                ==> old(self).remaining().len() == 0,
    ;
}

/// The values of a sequence of pulls.
pub open spec fn pulls_view(pulls: Seq<LexResult>) -> Stream {
    Seq::new(pulls.len(), |i: int| crate::define::token::pull_view(pulls[i]))
}

/// The pulls that come before the first end of input.
pub open spec fn until_end(pulls: Stream) -> Stream
    decreases pulls.len(),
{
    if pulls.len() == 0 || pulls[0] == Ok::<Lexeme, Seq<char>>(Lexeme::End) {
        Seq::empty()
    } else {
        seq![pulls[0]] + until_end(pulls.skip(1))
    }
}

/// A token source over tokens that are already in memory. It gives them in
/// order, and stops at the first `Token::End` among them or after the last.
pub struct TokenBuffer {
    tokens: Vec<LexResult>,
    pos: usize,
}

impl TokenBuffer {
    #[verifier::type_invariant]
    spec fn in_bounds(self) -> bool {
        self.pos <= self.tokens.len()
    }

    /// Creates a source that gives `tokens`.
    pub fn new(tokens: Vec<LexResult>) -> (buffer: Self)
        ensures
            buffer.remaining() == until_end(pulls_view(tokens@)),
    {
        let buffer = TokenBuffer { tokens, pos: 0 };
        assert(buffer.tokens@.skip(0) == buffer.tokens@);
        buffer
    }
}

impl TokenSource for TokenBuffer {
    closed spec fn remaining(&self) -> Stream {
        until_end(pulls_view(self.tokens@.skip(self.pos as int)))
    }

    fn next_token(&mut self) -> (result: LexResult) {
        proof {
            use_type_invariant(&*self);
        }
        if self.pos < self.tokens.len() {
            let pull = clone_pull(&self.tokens[self.pos]);
            let ghost before = pulls_view(self.tokens@.skip(self.pos as int));
            assert(before[0] == crate::define::token::pull_view(pull));
            assert(before.skip(1) == pulls_view(self.tokens@.skip(self.pos as int + 1)));
            let at_end = match &pull {
                Ok(Token::End) => true,
                _ => false,
            };
            if !at_end {
                self.pos = self.pos + 1;
            }
            pull
        } else {
            Ok(Token::End)
        }
    }
}

} // verus!
