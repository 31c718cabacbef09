//! Syntax errors.

use vstd::prelude::*;
use crate::token::{Token, Tree};

verus! {

/// A part of a comprehension that the parser asks for.
#[derive(Clone, Copy, Debug, PartialEq, Eq, Structural)]
pub enum Expected {
    /// The mapping expression, at the very start.
    Mapping,
    /// The keyword `in`.
    In,
    /// The binding pattern.
    Pattern,
    /// The binding operator `<-`.
    Arrow,
    /// The iterable expression.
    Iterable,
    /// The condition separator `,`.
    Comma,
    /// The expression of a condition.
    Condition,
}

/// Why a run of token trees is no comprehension: the model of a
/// [`SyntaxError`].
pub enum Failure {
    /// The token at `position` cannot start, or be, what was expected there.
    UnexpectedToken { expected: Expected, position: nat },
    /// The input ends at `position`, where something was still expected.
    UnexpectedEnd { expected: Expected, position: nat },
    /// A whole comprehension ends at `position` and input is left.
    TrailingInput { position: nat },
}

impl Failure {
    /// The position the failure points at.
    pub open spec fn position(self) -> nat {
        match self {
            Failure::UnexpectedToken { expected, position } => position,
            Failure::UnexpectedEnd { expected, position } => position,
            Failure::TrailingInput { position } => position,
        }
    }
}

/// A syntax error. Positions count the token trees of the input from 0.
#[derive(Debug, PartialEq, Eq)]
pub enum SyntaxError {
    /// The token `found` at `position` cannot start, or be, what was expected
    /// there.
    UnexpectedToken { expected: Expected, found: Token, position: usize },
    /// The input ends at `position`, where something was still expected.
    UnexpectedEnd { expected: Expected, position: usize },
    /// A whole comprehension ends at `position` and input is left.
    TrailingInput { position: usize },
}

impl View for SyntaxError {
    type V = Failure;

    open spec fn view(&self) -> Failure {
        match *self {
            SyntaxError::UnexpectedToken { expected, found, position } => Failure::UnexpectedToken {
                expected,
                position: position as nat,
            },
            SyntaxError::UnexpectedEnd { expected, position } => Failure::UnexpectedEnd {
                expected,
                position: position as nat,
            },
            SyntaxError::TrailingInput { position } => Failure::TrailingInput {
                position: position as nat,
            },
        }
    }
}

impl Clone for SyntaxError {
    fn clone(&self) -> (copy: SyntaxError)
        ensures
            copy == *self,
    {
        match self {
            SyntaxError::UnexpectedToken { expected, found, position } => {
                SyntaxError::UnexpectedToken {
                    expected: *expected,
                    found: found.clone(),
                    position: *position,
                }
            },
            SyntaxError::UnexpectedEnd { expected, position } => SyntaxError::UnexpectedEnd {
                expected: *expected,
                position: *position,
            },
            SyntaxError::TrailingInput { position } => SyntaxError::TrailingInput {
                position: *position,
            },
        }
    }
}

impl SyntaxError {
    /// The token that the error shows is the one at its position in `trees`.
    pub open spec fn found_in(&self, trees: Seq<Tree>) -> bool {
        match *self {
            SyntaxError::UnexpectedToken { expected, found, position } => position < trees.len()
                && found.is_head_of(trees[position as int]),
            _ => true,
        }
    }

    /// The position the error points at.
    pub fn position(&self) -> (position: usize)
        ensures
            position == self@.position(),
    {
        match self {
            SyntaxError::UnexpectedToken { expected, found, position } => *position,
            SyntaxError::UnexpectedEnd { expected, position } => *position,
            SyntaxError::TrailingInput { position } => *position,
        }
    }
}

/// The failure to find `expected` at `pos`: the end of the input where
/// nothing stands there, the token that does otherwise.
pub open spec fn missing(trees: Seq<Tree>, expected: Expected, pos: nat) -> Failure {
    if pos < trees.len() {
        Failure::UnexpectedToken { expected, position: pos }
    } else {
        Failure::UnexpectedEnd { expected, position: pos }
    }
}

} // verus!
