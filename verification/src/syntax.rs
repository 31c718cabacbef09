//! The syntax tree of a comprehension and its parser.
//!
//! ```text
//! comprehension := mapping "in" binding condition*
//! binding       := pattern "<-" iterable
//! condition     := "," expression
//! ```
//!
//! `mapping`, `iterable` and the expression of a condition are expressions of
//! the host language, `pattern` is one of its patterns without a top-level `|`.
//!
//! Each node says in [`Parse::parsed`] what parsing makes of a run of token
//! trees from a position on, and [`Parse::parse`] is proved to compute it.

use vstd::prelude::*;
use proc_macro2::TokenStream;
use crate::cursor::{expr_at, pat_at, Cursor};
use crate::error::{missing, Expected, Failure, SyntaxError};
use crate::stream::stream_tokens;
use crate::token::{arrow_at, comma_at, is_in, Tree};

verus! {

/// The expression that gives one element of the result.
#[derive(Debug)]
pub struct Mapping(pub TokenStream);

/// The pattern that an element of the iterable is bound to.
#[derive(Debug)]
pub struct Pattern(pub TokenStream);

/// `pattern <- iterable`: what is walked, and how each element is named.
#[derive(Debug)]
pub struct Binding {
    pub pattern: Pattern,
    pub iterable: TokenStream,
}

/// `, expression`: a test that an element must pass.
#[derive(Debug)]
pub struct Condition(pub TokenStream);

/// A whole comprehension.
#[derive(Debug)]
pub struct Comprehension {
    pub mapping: Mapping,
    pub binding: Binding,
    pub conditions: Vec<Condition>,
}

/// The model of a [`Binding`].
pub struct BindingView {
    pub pattern: Seq<Tree>,
    pub iterable: Seq<Tree>,
}

/// The model of a [`Comprehension`]: the token trees of each of its parts.
pub struct ComprehensionView {
    pub mapping: Seq<Tree>,
    pub binding: BindingView,
    pub conditions: Seq<Seq<Tree>>,
}

/// The models of a run of nodes, in order.
pub open spec fn views<T: View>(nodes: Seq<T>) -> Seq<T::V> {
    Seq::new(nodes.len(), |i: int| nodes[i]@)
}

impl View for Mapping {
    type V = Seq<Tree>;

    open spec fn view(&self) -> Seq<Tree> {
        stream_tokens(self.0)
    }
}

impl View for Pattern {
    type V = Seq<Tree>;

    open spec fn view(&self) -> Seq<Tree> {
        stream_tokens(self.0)
    }
}

impl View for Binding {
    type V = BindingView;

    open spec fn view(&self) -> BindingView {
        BindingView { pattern: self.pattern@, iterable: stream_tokens(self.iterable) }
    }
}

impl View for Condition {
    type V = Seq<Tree>;

    open spec fn view(&self) -> Seq<Tree> {
        stream_tokens(self.0)
    }
}

impl View for Comprehension {
    type V = ComprehensionView;

    open spec fn view(&self) -> ComprehensionView {
        ComprehensionView {
            mapping: self.mapping@,
            binding: self.binding@,
            conditions: views(self.conditions@),
        }
    }
}

/// A node of the syntax tree that can be read at a cursor.
pub trait Parse: Sized + View {
    /// What parsing makes of `trees` from `pos` on: the node and the position
    /// after it, or the first failure on the way.
    spec fn parsed(trees: Seq<Tree>, pos: nat) -> Result<(Self::V, nat), Failure>;

    /// A node takes up at least one token tree and ends within the input.
    proof fn lemma_parsed_advances(trees: Seq<Tree>, pos: nat)
        requires
            pos <= trees.len(),
        ensures
            Self::parsed(trees, pos) matches Ok((_, next)) ==> pos < next <= trees.len(),
    ;

    /// Reads one node at the cursor and moves past it. A failed read leaves
    /// the cursor where it was.
    fn parse(input: &mut Cursor) -> (result: Result<Self, SyntaxError>)
        requires
            old(input).wf(),
        ensures
            final(input).wf(),
            final(input).trees() == old(input).trees(),
            match result {
                Ok(node) => {
                    &&& Self::parsed(old(input).trees(), old(input).position()) matches Ok(
                        (view, next),
                    )
                    &&& view == node@
                    &&& next == final(input).position()
                },
                Err(error) => {
                    &&& Self::parsed(old(input).trees(), old(input).position()) matches Err(
                        failure,
                    )
                    &&& failure == error@
                    &&& error.found_in(old(input).trees())
                    &&& final(input).position() == old(input).position()
                },
            },
    ;
}

impl Parse for Mapping {
    open spec fn parsed(trees: Seq<Tree>, pos: nat) -> Result<(Seq<Tree>, nat), Failure> {
        match expr_at(trees, pos) {
            Some(read) => Ok(read),
            None => Err(missing(trees, Expected::Mapping, pos)),
        }
    }

    proof fn lemma_parsed_advances(trees: Seq<Tree>, pos: nat) {
    }

    fn parse(input: &mut Cursor) -> (result: Result<Self, SyntaxError>) {
        match input.expression(Expected::Mapping) {
            Ok(tokens) => Ok(Mapping(tokens)),
            Err(error) => Err(error),
        }
    }
}

impl Parse for Pattern {
    open spec fn parsed(trees: Seq<Tree>, pos: nat) -> Result<(Seq<Tree>, nat), Failure> {
        match pat_at(trees, pos) {
            Some(read) => Ok(read),
            None => Err(missing(trees, Expected::Pattern, pos)),
        }
    }

    proof fn lemma_parsed_advances(trees: Seq<Tree>, pos: nat) {
    }

    fn parse(input: &mut Cursor) -> (result: Result<Self, SyntaxError>) {
        match input.pattern() {
            Ok(tokens) => Ok(Pattern(tokens)),
            Err(error) => Err(error),
        }
    }
}

impl Parse for Binding {
    open spec fn parsed(trees: Seq<Tree>, pos: nat) -> Result<(BindingView, nat), Failure> {
        match Pattern::parsed(trees, pos) {
            Err(failure) => Err(failure),
            Ok((pattern, arrow)) => if !arrow_at(trees, arrow) {
                Err(missing(trees, Expected::Arrow, arrow))
            } else {
                match expr_at(trees, arrow + 2) {
                    None => Err(missing(trees, Expected::Iterable, arrow + 2)),
                    Some((iterable, next)) => Ok((BindingView { pattern, iterable }, next)),
                }
            },
        }
    }

    proof fn lemma_parsed_advances(trees: Seq<Tree>, pos: nat) {
    }

    fn parse(input: &mut Cursor) -> (result: Result<Self, SyntaxError>) {
        let mark = input.offset();
        let pattern = match Pattern::parse(input) {
            Ok(pattern) => pattern,
            Err(error) => {
                return Err(error);
            },
        };
        match input.arrow() {
            Ok(_) => {},
            Err(error) => {
                input.reset(mark);
                return Err(error);
            },
        }
        match input.expression(Expected::Iterable) {
            Ok(iterable) => Ok(Binding { pattern, iterable }),
            Err(error) => {
                input.reset(mark);
                Err(error)
            },
        }
    }
}

impl Parse for Condition {
    open spec fn parsed(trees: Seq<Tree>, pos: nat) -> Result<(Seq<Tree>, nat), Failure> {
        if !comma_at(trees, pos) {
            Err(missing(trees, Expected::Comma, pos))
        } else {
            match expr_at(trees, pos + 1) {
                None => Err(missing(trees, Expected::Condition, pos + 1)),
                Some(read) => Ok(read),
            }
        }
    }

    proof fn lemma_parsed_advances(trees: Seq<Tree>, pos: nat) {
    }

    fn parse(input: &mut Cursor) -> (result: Result<Self, SyntaxError>) {
        let mark = input.offset();
        match input.comma() {
            Ok(_) => {},
            Err(error) => {
                return Err(error);
            },
        }
        match input.expression(Expected::Condition) {
            Ok(tokens) => Ok(Condition(tokens)),
            Err(error) => {
                input.reset(mark);
                Err(error)
            },
        }
    }
}

/// The nodes that stand one after the other from `pos` on, up to the first
/// position where none can be read, and that position.
pub open spec fn zero_or_more<T: Parse>(trees: Seq<Tree>, pos: nat) -> (Seq<T::V>, nat)
    decreases trees.len() - pos,
{
    match T::parsed(trees, pos) {
        Ok((node, next)) => if pos < next <= trees.len() {
            let (more, end) = zero_or_more::<T>(trees, next);
            (seq![node] + more, end)
        } else {
            (Seq::empty(), pos)
        },
        Err(_) => (Seq::empty(), pos),
    }
}

/// A repetition ends within the input, at or after the place it started.
pub proof fn lemma_zero_or_more_ends<T: Parse>(trees: Seq<Tree>, pos: nat)
    requires
        pos <= trees.len(),
    ensures
        pos <= zero_or_more::<T>(trees, pos).1 <= trees.len(),
    decreases trees.len() - pos,
{
    match T::parsed(trees, pos) {
        Ok((node, next)) => {
            if pos < next <= trees.len() {
                lemma_zero_or_more_ends::<T>(trees, next);
            }
        },
        Err(_) => {},
    }
}

/// A repetition is greedy: where it ends, no further node can be read.
pub proof fn lemma_zero_or_more_is_greedy<T: Parse>(trees: Seq<Tree>, pos: nat)
    requires
        pos <= trees.len(),
    ensures
        T::parsed(trees, zero_or_more::<T>(trees, pos).1) is Err,
    decreases trees.len() - pos,
{
    T::lemma_parsed_advances(trees, pos);
    match T::parsed(trees, pos) {
        Ok((node, next)) => {
            lemma_zero_or_more_is_greedy::<T>(trees, next);
        },
        Err(_) => {},
    }
}

/// Reads nodes at the cursor for as long as one can be read. Finding none is
/// no error: the first failed read ends the repetition and takes nothing.
pub fn parse_zero_or_more<T: Parse>(input: &mut Cursor) -> (result: Vec<T>)
    requires
        old(input).wf(),
    ensures
        final(input).wf(),
        final(input).trees() == old(input).trees(),
        zero_or_more::<T>(old(input).trees(), old(input).position()) == (
            views(result@),
            final(input).position(),
        ),
{
    let mut result: Vec<T> = Vec::new();
    proof {
        input.lemma_within();
        assert(views(result@) + zero_or_more::<T>(input.trees(), input.position()).0
            =~= zero_or_more::<T>(input.trees(), input.position()).0);
    }
    loop
        invariant
            input.wf(),
            input.trees() == old(input).trees(),
            old(input).position() <= input.position() <= input.trees().len(),
            zero_or_more::<T>(old(input).trees(), old(input).position()) == (
                views(result@) + zero_or_more::<T>(input.trees(), input.position()).0,
                zero_or_more::<T>(input.trees(), input.position()).1,
            ),
        decreases input.trees().len() - input.position(),
    {
        let ghost before = views(result@);
        let ghost here = input.position();
        proof {
            T::lemma_parsed_advances(input.trees(), here);
        }
        match T::parse(input) {
            Ok(node) => {
                result.push(node);
                proof {
                    let after = views(result@);
                    assert(after =~= before + seq![node@]);
                    let more = zero_or_more::<T>(input.trees(), input.position()).0;
                    assert(before + (seq![node@] + more) =~= after + more);
                }
            },
            Err(_) => {
                proof {
                    assert(before + Seq::<T::V>::empty() =~= before);
                }
                return result;
            },
        }
    }
}

impl Parse for Comprehension {
    open spec fn parsed(trees: Seq<Tree>, pos: nat) -> Result<(ComprehensionView, nat), Failure> {
        match Mapping::parsed(trees, pos) {
            Err(failure) => Err(failure),
            Ok((mapping, word)) => if !(word < trees.len() && is_in(trees[word as int])) {
                Err(missing(trees, Expected::In, word))
            } else {
                match Binding::parsed(trees, word + 1) {
                    Err(failure) => Err(failure),
                    Ok((binding, rest)) => {
                        let (conditions, next) = zero_or_more::<Condition>(trees, rest);
                        Ok((ComprehensionView { mapping, binding, conditions }, next))
                    },
                }
            },
        }
    }

    proof fn lemma_parsed_advances(trees: Seq<Tree>, pos: nat) {
        match Mapping::parsed(trees, pos) {
            Err(failure) => {},
            Ok((mapping, word)) => {
                if word < trees.len() && is_in(trees[word as int]) {
                    match Binding::parsed(trees, word + 1) {
                        Err(failure) => {},
                        Ok((binding, rest)) => {
                            lemma_zero_or_more_ends::<Condition>(trees, rest);
                        },
                    }
                }
            },
        }
    }

    fn parse(input: &mut Cursor) -> (result: Result<Self, SyntaxError>) {
        let mark = input.offset();
        let mapping = match Mapping::parse(input) {
            Ok(mapping) => mapping,
            Err(error) => {
                return Err(error);
            },
        };
        match input.keyword_in() {
            Ok(_) => {},
            Err(error) => {
                input.reset(mark);
                return Err(error);
            },
        }
        let binding = match Binding::parse(input) {
            Ok(binding) => binding,
            Err(error) => {
                input.reset(mark);
                return Err(error);
            },
        };
        let conditions = parse_zero_or_more::<Condition>(input);
        Ok(Comprehension { mapping, binding, conditions })
    }
}

} // verus!
