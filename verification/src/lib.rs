//! A list-comprehension compiler over Rust token streams.
//!
//! A comprehension is written `MAPPING in PATTERN <- ITERABLE, COND, COND, ...`.
//! [`comp`] reads one from a token stream and writes the iterator pipeline it
//! stands for: a `flat_map` over the iterable that yields the mapping for every
//! element on which all conditions hold.
//!
//! The grammar of the comprehension itself is this crate's and is verified.
//! Expressions and patterns are the host language's: they are read by `syn`,
//! and the contracts speak of what `syn` returns only by name ([`host`]).
//! Token streams are `proc_macro2`'s; what is taken on trust of them is
//! written down in [`stream`].
//!
//! - [`token`]: token trees as plain values
//! - [`stream`]: token streams, read and built
//! - [`host`]: the host's expressions and patterns
//! - [`error`]: syntax errors
//! - [`cursor`]: a position in an input
//! - [`syntax`]: the syntax tree and its parser
//! - [`emit`]: the pipeline a comprehension lowers to
//! - [`laws`]: what holds of every well-formed input, and of every error

use vstd::prelude::*;
use proc_macro2::TokenStream;
use crate::cursor::Cursor;
use crate::emit::{lower, pipeline};
use crate::error::{Failure, SyntaxError};
use crate::stream::stream_tokens;
use crate::syntax::{Comprehension, ComprehensionView, Parse};
use crate::token::Tree;

pub mod token;
pub mod stream;
pub mod host;
pub mod error;
pub mod cursor;
pub mod syntax;
pub mod emit;
pub mod laws;

verus! {

/// What parsing makes of a whole input: the comprehension that starts at its
/// first token tree and ends at its last, or the reason there is none.
pub open spec fn parsed_input(trees: Seq<Tree>) -> Result<ComprehensionView, Failure> {
    match Comprehension::parsed(trees, 0) {
        Err(failure) => Err(failure),
        Ok((comprehension, end)) => if end < trees.len() {
            Err(Failure::TrailingInput { position: end })
        } else {
            Ok(comprehension)
        },
    }
}

/// What compiling makes of a whole input: the pipeline of the comprehension
/// it holds, or the reason it holds none.
pub open spec fn compiled(trees: Seq<Tree>) -> Result<Seq<Tree>, Failure> {
    match parsed_input(trees) {
        Err(failure) => Err(failure),
        Ok(comprehension) => Ok(pipeline(comprehension)),
    }
}

/// Parses a whole input as one comprehension.
///
/// The first error on the way is returned; input left after the
/// comprehension is an error too.
pub fn parse(input: TokenStream) -> (result: Result<Comprehension, SyntaxError>)
    ensures
        match result {
            Ok(comprehension) => parsed_input(stream_tokens(input)) == Ok::<
                ComprehensionView,
                Failure,
            >(comprehension@),
            Err(error) => parsed_input(stream_tokens(input)) == Err::<ComprehensionView, Failure>(
                error@,
            ) && error.found_in(stream_tokens(input)),
        },
{
    let mut cursor = Cursor::new(input);
    let comprehension = match Comprehension::parse(&mut cursor) {
        Ok(comprehension) => comprehension,
        Err(error) => {
            return Err(error);
        },
    };
    match cursor.end() {
        Ok(_) => Ok(comprehension),
        Err(error) => Err(error),
    }
}

/// Compiles a comprehension: parses the whole input and lowers what it holds
/// to its pipeline. An input that is no comprehension yields the error and no
/// pipeline.
pub fn comp(input: TokenStream) -> (result: Result<TokenStream, SyntaxError>)
    ensures
        match result {
            Ok(tokens) => compiled(stream_tokens(input)) == Ok::<Seq<Tree>, Failure>(
                stream_tokens(tokens),
            ),
            Err(error) => compiled(stream_tokens(input)) == Err::<Seq<Tree>, Failure>(error@)
                && error.found_in(stream_tokens(input)),
        },
{
    match parse(input) {
        Ok(comprehension) => Ok(lower(&comprehension)),
        Err(error) => Err(error),
    }
}

} // verus!
