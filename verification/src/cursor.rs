//! A cursor over the token trees of one input.

use vstd::prelude::*;
use proc_macro2::TokenStream;
use crate::error::{missing, Expected, Failure, SyntaxError};
use crate::host::{host_expr, host_pat, read_expr, read_pat};
use crate::stream::{heads, stream_tokens, suffix};
use crate::token::{arrow_at, comma_at, is_in, Token, Tree};

verus! {

/// Where a read of the host's parser ends, when it starts at `pos` of `len`
/// token trees and reports `outcome`: what it read and how much it left.
///
/// A read counts only if it took at least one token tree and left no more
/// than there were. It then ends `left` trees before the end of the input.
pub open spec fn landing(outcome: Option<(Seq<Tree>, nat)>, len: nat, pos: nat) -> Option<
    (Seq<Tree>, nat),
> {
    match outcome {
        Some((read, left)) => if pos + left < len {
            Some((read, (len - left) as nat))
        } else {
            None
        },
        None => None,
    }
}

/// The host expression that starts at `pos`: its tokens and the position
/// after it.
pub open spec fn expr_at(trees: Seq<Tree>, pos: nat) -> Option<(Seq<Tree>, nat)> {
    landing(host_expr(trees.skip(pos as int)), trees.len(), pos)
}

/// The host pattern that starts at `pos`: its tokens and the position after
/// it.
pub open spec fn pat_at(trees: Seq<Tree>, pos: nat) -> Option<(Seq<Tree>, nat)> {
    landing(host_pat(trees.skip(pos as int)), trees.len(), pos)
}

/// A position in the token trees of one input.
///
/// The cursor only ever moves forward over what has been read, or back to a
/// place it has been at.
pub struct Cursor {
    stream: TokenStream,
    tokens: Vec<Token>,
    pos: usize,
}

impl Cursor {
    /// The token trees of the input.
    pub closed spec fn trees(&self) -> Seq<Tree> {
        stream_tokens(self.stream)
    }

    /// The number of token trees before the cursor.
    pub closed spec fn position(&self) -> nat {
        self.pos as nat
    }

    /// The cursor is within its input and knows the outermost layer of each
    /// tree.
    pub closed spec fn wf(&self) -> bool {
        &&& self.pos <= self.tokens.len()
        &&& self.tokens.len() == self.trees().len()
        &&& forall|i: int|
            0 <= i < self.tokens.len() ==> (#[trigger] self.tokens[i]).is_head_of(self.trees()[i])
    }

    /// A well-formed cursor is within its input.
    pub proof fn lemma_within(&self)
        requires
            self.wf(),
        ensures
            self.position() <= self.trees().len(),
    {
    }

    /// A cursor at the start of `stream`.
    pub fn new(stream: TokenStream) -> (cursor: Cursor)
        ensures
            cursor.wf(),
            cursor.trees() == stream_tokens(stream),
            cursor.position() == 0,
    {
        let tokens = heads(&stream);
        Cursor { stream, tokens, pos: 0 }
    }

    /// The number of token trees before the cursor.
    pub fn offset(&self) -> (offset: usize)
        ensures
            offset == self.position(),
    {
        self.pos
    }

    /// Whether the cursor stands at the end of the input.
    pub fn is_empty(&self) -> (empty: bool)
        requires
            self.wf(),
        ensures
            empty == (self.position() == self.trees().len()),
    {
        self.pos == self.tokens.len()
    }

    /// Moves the cursor back to `mark`, a place it has been at.
    pub fn reset(&mut self, mark: usize)
        requires
            old(self).wf(),
            mark <= old(self).position(),
        ensures
            final(self).wf(),
            final(self).trees() == old(self).trees(),
            final(self).position() == mark,
    {
        self.pos = mark;
    }

    /// The error to report when `expected` is not found at the cursor.
    pub fn unexpected(&self, expected: Expected) -> (error: SyntaxError)
        requires
            self.wf(),
        ensures
            error@ == missing(self.trees(), expected, self.position()),
            error.found_in(self.trees()),
    {
        if self.pos < self.tokens.len() {
            let found = self.tokens[self.pos].clone();
            SyntaxError::UnexpectedToken { expected, found, position: self.pos }
        } else {
            SyntaxError::UnexpectedEnd { expected, position: self.pos }
        }
    }

    /// Takes in what the host's parser reported of a read that started at the
    /// cursor.
    ///
    /// Where the read counts (see [`landing`]), the cursor moves to its end
    /// and the tokens read are returned. Otherwise the cursor stays and the
    /// error names `expected`.
    pub fn accept(&mut self, outcome: Option<(TokenStream, usize)>, expected: Expected) -> (result:
        Result<TokenStream, SyntaxError>)
        requires
            old(self).wf(),
        ensures
            final(self).wf(),
            final(self).trees() == old(self).trees(),
            match result {
                Ok(read) => outcome matches Some((tokens, left)) && tokens == read && landing(
                    Some((stream_tokens(tokens), left as nat)),
                    old(self).trees().len(),
                    old(self).position(),
                ) == Some((stream_tokens(read), final(self).position())),
                Err(error) => {
                    &&& match outcome {
                        Some((tokens, left)) => landing(
                            Some((stream_tokens(tokens), left as nat)),
                            old(self).trees().len(),
                            old(self).position(),
                        ) is None,
                        None => true,
                    }
                    &&& final(self).position() == old(self).position()
                    &&& error@ == missing(old(self).trees(), expected, old(self).position())
                    &&& error.found_in(old(self).trees())
                },
            },
    {
        match outcome {
            Some((read, left)) => {
                if left < self.tokens.len() - self.pos {
                    self.pos = self.tokens.len() - left;
                    Ok(read)
                } else {
                    Err(self.unexpected(expected))
                }
            },
            None => Err(self.unexpected(expected)),
        }
    }

    /// Reads one host expression at the cursor. The error names `expected`.
    pub fn expression(&mut self, expected: Expected) -> (result: Result<TokenStream, SyntaxError>)
        requires
            old(self).wf(),
        ensures
            final(self).wf(),
            final(self).trees() == old(self).trees(),
            match result {
                Ok(read) => expr_at(old(self).trees(), old(self).position()) == Some(
                    (stream_tokens(read), final(self).position()),
                ),
                Err(error) => {
                    &&& expr_at(old(self).trees(), old(self).position()) is None
                    &&& final(self).position() == old(self).position()
                    &&& error@ == missing(old(self).trees(), expected, old(self).position())
                    &&& error.found_in(old(self).trees())
                },
            },
    {
        let outcome = read_expr(suffix(&self.stream, self.pos));
        self.accept(outcome, expected)
    }

    /// Reads one host pattern at the cursor.
    pub fn pattern(&mut self) -> (result: Result<TokenStream, SyntaxError>)
        requires
            old(self).wf(),
        ensures
            final(self).wf(),
            final(self).trees() == old(self).trees(),
            match result {
                Ok(read) => pat_at(old(self).trees(), old(self).position()) == Some(
                    (stream_tokens(read), final(self).position()),
                ),
                Err(error) => {
                    &&& pat_at(old(self).trees(), old(self).position()) is None
                    &&& final(self).position() == old(self).position()
                    &&& error@ == missing(old(self).trees(), Expected::Pattern, old(self).position())
                    &&& error.found_in(old(self).trees())
                },
            },
    {
        let outcome = read_pat(suffix(&self.stream, self.pos));
        self.accept(outcome, Expected::Pattern)
    }

    /// Steps over the keyword `in`.
    pub fn keyword_in(&mut self) -> (result: Result<(), SyntaxError>)
        requires
            old(self).wf(),
        ensures
            final(self).wf(),
            final(self).trees() == old(self).trees(),
            match result {
                Ok(_) => {
                    &&& old(self).position() < old(self).trees().len()
                    &&& is_in(old(self).trees()[old(self).position() as int])
                    &&& final(self).position() == old(self).position() + 1
                },
                Err(error) => {
                    &&& !(old(self).position() < old(self).trees().len() && is_in(
                        old(self).trees()[old(self).position() as int],
                    ))
                    &&& final(self).position() == old(self).position()
                    &&& error@ == missing(old(self).trees(), Expected::In, old(self).position())
                    &&& error.found_in(old(self).trees())
                },
            },
    {
        if self.pos < self.tokens.len() && self.tokens[self.pos].is_keyword_in() {
            self.pos = self.pos + 1;
            Ok(())
        } else {
            Err(self.unexpected(Expected::In))
        }
    }

    /// Steps over the binding operator `<-`.
    pub fn arrow(&mut self) -> (result: Result<(), SyntaxError>)
        requires
            old(self).wf(),
        ensures
            final(self).wf(),
            final(self).trees() == old(self).trees(),
            match result {
                Ok(_) => {
                    &&& arrow_at(old(self).trees(), old(self).position())
                    &&& final(self).position() == old(self).position() + 2
                },
                Err(error) => {
                    &&& !arrow_at(old(self).trees(), old(self).position())
                    &&& final(self).position() == old(self).position()
                    &&& error@ == missing(old(self).trees(), Expected::Arrow, old(self).position())
                    &&& error.found_in(old(self).trees())
                },
            },
    {
        if self.tokens.len() - self.pos >= 2 && self.tokens[self.pos].is_joint_punct('<')
            && self.tokens[self.pos + 1].is_punct('-') {
            self.pos = self.pos + 2;
            Ok(())
        } else {
            Err(self.unexpected(Expected::Arrow))
        }
    }

    /// Steps over the condition separator `,`.
    pub fn comma(&mut self) -> (result: Result<(), SyntaxError>)
        requires
            old(self).wf(),
        ensures
            final(self).wf(),
            final(self).trees() == old(self).trees(),
            match result {
                Ok(_) => {
                    &&& comma_at(old(self).trees(), old(self).position())
                    &&& final(self).position() == old(self).position() + 1
                },
                Err(error) => {
                    &&& !comma_at(old(self).trees(), old(self).position())
                    &&& final(self).position() == old(self).position()
                    &&& error@ == missing(old(self).trees(), Expected::Comma, old(self).position())
                    &&& error.found_in(old(self).trees())
                },
            },
    {
        if self.pos < self.tokens.len() && self.tokens[self.pos].is_punct(',') {
            self.pos = self.pos + 1;
            Ok(())
        } else {
            Err(self.unexpected(Expected::Comma))
        }
    }

    /// Asks that nothing is left after the cursor.
    pub fn end(&self) -> (result: Result<(), SyntaxError>)
        requires
            self.wf(),
        ensures
            match result {
                Ok(_) => self.position() == self.trees().len(),
                Err(error) => self.position() < self.trees().len() && error@
                    == (Failure::TrailingInput { position: self.position() }),
            },
    {
        if self.pos == self.tokens.len() {
            Ok(())
        } else {
            Err(SyntaxError::TrailingInput { position: self.pos })
        }
    }
}

} // verus!
