//! Lowering a comprehension to an iterator pipeline.
//!
//! `MAPPING in PATTERN <- ITERABLE, C1, C2` becomes
//!
//! ```text
//! ::core::iter::IntoIterator::into_iter(ITERABLE).flat_map(move |PATTERN| {
//!     (true && C1 && C2).then(|| MAPPING)
//! })
//! ```
//!
//! The conditions are tested in the order written and the first that fails
//! ends the test. The mapping sits in a closure behind the test, so it is
//! evaluated only for an element that passed, and nothing is evaluated before
//! the pipeline is asked for an element.

use vstd::prelude::*;
use proc_macro2::TokenStream;
use crate::stream::{push_group, push_ident, push_punct, push_stream, stream_tokens};
use crate::syntax::{Comprehension, ComprehensionView, Condition};
use crate::token::{ident, Delimiter, Spacing, Tree};

verus! {

/// The two-character operator `first second`, written without a gap.
pub open spec fn operator(first: char, second: char) -> Seq<Tree> {
    seq![Tree::Punct(first, Spacing::Joint), Tree::Punct(second, Spacing::Alone)]
}

/// `::core::iter::IntoIterator::into_iter`
pub open spec fn into_iter_path() -> Seq<Tree> {
    operator(':', ':') + seq![ident("core")] + operator(':', ':') + seq![ident("iter")] + operator(
        ':',
        ':',
    ) + seq![ident("IntoIterator")] + operator(':', ':') + seq![ident("into_iter")]
}

/// `true && C1 && C2 ...`: the conjunction of the conditions, in their
/// order. Without conditions it is `true` alone.
pub open spec fn guard(conditions: Seq<Seq<Tree>>) -> Seq<Tree>
    decreases conditions.len(),
{
    if conditions.len() == 0 {
        seq![ident("true")]
    } else {
        guard(conditions.drop_last()) + operator('&', '&') + conditions.last()
    }
}

/// `(GUARD).then(|| MAPPING)`: the body of the closure.
pub open spec fn body(comprehension: ComprehensionView) -> Seq<Tree> {
    seq![
        Tree::Group(Delimiter::Parenthesis, guard(comprehension.conditions)),
        Tree::Punct('.', Spacing::Alone),
        ident("then"),
        Tree::Group(Delimiter::Parenthesis, operator('|', '|') + comprehension.mapping),
    ]
}

/// `move |PATTERN| { BODY }`: what is done with one element.
pub open spec fn closure(comprehension: ComprehensionView) -> Seq<Tree> {
    seq![ident("move"), Tree::Punct('|', Spacing::Alone)] + comprehension.binding.pattern + seq![
        Tree::Punct('|', Spacing::Alone),
        Tree::Group(Delimiter::Brace, body(comprehension)),
    ]
}

/// The whole pipeline.
pub open spec fn pipeline(comprehension: ComprehensionView) -> Seq<Tree> {
    into_iter_path() + seq![
        Tree::Group(Delimiter::Parenthesis, comprehension.binding.iterable),
        Tree::Punct('.', Spacing::Alone),
        ident("flat_map"),
        Tree::Group(Delimiter::Parenthesis, closure(comprehension)),
    ]
}

/// Appends the two-character operator `first second`.
fn push_operator(tokens: &mut TokenStream, first: char, second: char)
    requires
        crate::stream::is_punct_char(first),
        crate::stream::is_punct_char(second),
    ensures
        stream_tokens(*final(tokens)) == stream_tokens(*old(tokens)) + operator(first, second),
{
    push_punct(tokens, first, Spacing::Joint);
    push_punct(tokens, second, Spacing::Alone);
    proof {
        assert(stream_tokens(*tokens) =~= stream_tokens(*old(tokens)) + operator(first, second));
    }
}

/// Appends `::name`.
fn push_segment(tokens: &mut TokenStream, name: &str)
    requires
        crate::stream::is_word(name@),
    ensures
        stream_tokens(*final(tokens)) == stream_tokens(*old(tokens)) + operator(':', ':')
            + seq![ident(name)],
{
    push_operator(tokens, ':', ':');
    push_ident(tokens, name);
    proof {
        assert(stream_tokens(*tokens) =~= stream_tokens(*old(tokens)) + operator(':', ':')
            + seq![ident(name)]);
    }
}

impl Condition {
    /// Appends the expression of the condition.
    pub fn to_tokens(&self, tokens: &mut TokenStream)
        ensures
            stream_tokens(*final(tokens)) == stream_tokens(*old(tokens)) + self@,
    {
        push_stream(tokens, &self.0);
    }
}

impl Comprehension {
    /// `true && C1 && C2 ...` as a stream of its own.
    fn guard_tokens(&self) -> (tokens: TokenStream)
        ensures
            stream_tokens(tokens) == guard(self@.conditions),
    {
        let mut tokens = TokenStream::new();
        proof {
            reveal_strlit("true");
        }
        push_ident(&mut tokens, "true");
        let mut done: usize = 0;
        proof {
            assert(self@.conditions.take(0) =~= Seq::empty());
            assert(stream_tokens(tokens) =~= guard(self@.conditions.take(0)));
        }
        while done < self.conditions.len()
            invariant
                done <= self.conditions.len(),
                stream_tokens(tokens) == guard(self@.conditions.take(done as int)),
            decreases self.conditions.len() - done,
        {
            push_operator(&mut tokens, '&', '&');
            self.conditions[done].to_tokens(&mut tokens);
            proof {
                let upto = self@.conditions.take(done + 1);
                assert(upto.drop_last() =~= self@.conditions.take(done as int));
                assert(upto.last() == self.conditions[done as int]@);
            }
            done = done + 1;
        }
        proof {
            assert(self@.conditions.take(done as int) =~= self@.conditions);
        }
        tokens
    }

    /// `(GUARD).then(|| MAPPING)` as a stream of its own.
    fn body_tokens(&self) -> (tokens: TokenStream)
        ensures
            stream_tokens(tokens) == body(self@),
    {
        let mut mapping = TokenStream::new();
        push_operator(&mut mapping, '|', '|');
        push_stream(&mut mapping, &self.mapping.0);
        let mut tokens = TokenStream::new();
        push_group(&mut tokens, Delimiter::Parenthesis, self.guard_tokens());
        push_punct(&mut tokens, '.', Spacing::Alone);
        proof {
            reveal_strlit("then");
        }
        push_ident(&mut tokens, "then");
        push_group(&mut tokens, Delimiter::Parenthesis, mapping);
        proof {
            assert(stream_tokens(mapping) =~= operator('|', '|') + self@.mapping);
            assert(stream_tokens(tokens) =~= body(self@));
        }
        tokens
    }

    /// `move |PATTERN| { BODY }` as a stream of its own.
    fn closure_tokens(&self) -> (tokens: TokenStream)
        ensures
            stream_tokens(tokens) == closure(self@),
    {
        let mut tokens = TokenStream::new();
        proof {
            reveal_strlit("move");
        }
        push_ident(&mut tokens, "move");
        push_punct(&mut tokens, '|', Spacing::Alone);
        push_stream(&mut tokens, &self.binding.pattern.0);
        push_punct(&mut tokens, '|', Spacing::Alone);
        push_group(&mut tokens, Delimiter::Brace, self.body_tokens());
        proof {
            assert(stream_tokens(tokens) =~= closure(self@));
        }
        tokens
    }

    /// Appends the pipeline that the comprehension stands for.
    pub fn to_tokens(&self, tokens: &mut TokenStream)
        ensures
            stream_tokens(*final(tokens)) == stream_tokens(*old(tokens)) + pipeline(self@),
    {
        let mut iterable = TokenStream::new();
        push_stream(&mut iterable, &self.binding.iterable);
        proof {
            reveal_strlit("core");
            reveal_strlit("iter");
            reveal_strlit("IntoIterator");
            reveal_strlit("into_iter");
            reveal_strlit("flat_map");
            assert(stream_tokens(iterable) =~= self@.binding.iterable);
        }
        push_segment(tokens, "core");
        push_segment(tokens, "iter");
        push_segment(tokens, "IntoIterator");
        push_segment(tokens, "into_iter");
        push_group(tokens, Delimiter::Parenthesis, iterable);
        push_punct(tokens, '.', Spacing::Alone);
        push_ident(tokens, "flat_map");
        push_group(tokens, Delimiter::Parenthesis, self.closure_tokens());
        proof {
            assert(stream_tokens(*tokens) =~= stream_tokens(*old(tokens)) + pipeline(self@));
        }
    }
}

/// The pipeline that a comprehension stands for. Lowering cannot fail.
pub fn lower(comprehension: &Comprehension) -> (tokens: TokenStream)
    ensures
        stream_tokens(tokens) == pipeline(comprehension@),
{
    let mut tokens = TokenStream::new();
    comprehension.to_tokens(&mut tokens);
    proof {
        assert(stream_tokens(tokens) =~= pipeline(comprehension@));
    }
    tokens
}

} // verus!
