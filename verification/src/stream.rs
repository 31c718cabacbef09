//! Token streams of `proc_macro2`, seen as sequences of token trees.
//!
//! A stream is opaque to the verifier. Its contents have a name,
//! [`stream_tokens`], and every function here that touches a stream says what
//! it does to those contents. None of these contracts is proved: each restates
//! what `proc_macro2` and `quote` document.

use vstd::prelude::*;
use proc_macro2::TokenStream;
use crate::token::{Delimiter, Spacing, Token, Tree};

verus! {

/// `proc_macro2::TokenStream`.
#[verifier::external_type_specification]
#[verifier::external_body]
pub struct ExTokenStream(proc_macro2::TokenStream);

/// The token trees that a stream holds, in order.
pub uninterp spec fn stream_tokens(stream: TokenStream) -> Seq<Tree>;

/// An ASCII letter.
pub open spec fn is_letter(c: char) -> bool {
    ('a' <= c && c <= 'z') || ('A' <= c && c <= 'Z')
}

/// A name made of ASCII letters, digits and underscores that starts with a
/// letter. Every such name is an identifier or a keyword of the language.
pub open spec fn is_word(name: Seq<char>) -> bool {
    &&& name.len() > 0
    &&& is_letter(name[0])
    &&& forall|i: int|
        0 < i < name.len() ==> is_letter(#[trigger] name[i]) || name[i] == '_' || ('0' <= name[i]
            && name[i] <= '9')
}

/// A character that the language uses as punctuation.
pub open spec fn is_punct_char(c: char) -> bool {
    c == '!' || c == '#' || c == '$' || c == '%' || c == '&' || c == '\'' || c == '*' || c == '+'
        || c == ',' || c == '-' || c == '.' || c == '/' || c == ':' || c == ';' || c == '<' || c
        == '=' || c == '>' || c == '?' || c == '@' || c == '^' || c == '|' || c == '~'
}

/// `TokenStream::new`: the stream that holds nothing.
pub assume_specification[ TokenStream::new ]() -> (stream: TokenStream)
    ensures
        stream_tokens(stream) == Seq::<Tree>::empty(),
;

/// Appends an identifier with `Ident::new` and `TokenStreamExt::append`.
///
/// `Ident::new` panics on a string that is no identifier. The contract admits
/// only plain ASCII words, which all are, and claims that the stream grows by
/// the one identifier that prints as `name`.
#[verifier::external_body]
pub(crate) fn push_ident(stream: &mut TokenStream, name: &str)
    requires
        is_word(name@),
    ensures
        stream_tokens(*final(stream)) == stream_tokens(*old(stream)).push(Tree::Ident(name@)),
{
    let ident = proc_macro2::Ident::new(name, proc_macro2::Span::call_site());
    quote::TokenStreamExt::append(stream, ident);
}

/// Appends a punctuation character with `Punct::new` and
/// `TokenStreamExt::append`.
///
/// `Punct::new` panics on a character outside the list in [`is_punct_char`].
/// The contract claims that the stream grows by that one character with the
/// given spacing.
#[verifier::external_body]
pub(crate) fn push_punct(stream: &mut TokenStream, ch: char, spacing: Spacing)
    requires
        is_punct_char(ch),
    ensures
        stream_tokens(*final(stream)) == stream_tokens(*old(stream)).push(Tree::Punct(ch, spacing)),
{
    let spacing = match spacing {
        Spacing::Alone => proc_macro2::Spacing::Alone,
        Spacing::Joint => proc_macro2::Spacing::Joint,
    };
    quote::TokenStreamExt::append(stream, proc_macro2::Punct::new(ch, spacing));
}

/// Appends a delimited group with `Group::new` and `TokenStreamExt::append`.
///
/// The contract claims that the stream grows by one group that holds the
/// trees of `inner` inside the given delimiter.
#[verifier::external_body]
pub(crate) fn push_group(stream: &mut TokenStream, delimiter: Delimiter, inner: TokenStream)
    ensures
        stream_tokens(*final(stream)) == stream_tokens(*old(stream)).push(
            Tree::Group(delimiter, stream_tokens(inner)),
        ),
{
    let delimiter = match delimiter {
        Delimiter::Parenthesis => proc_macro2::Delimiter::Parenthesis,
        Delimiter::Brace => proc_macro2::Delimiter::Brace,
        Delimiter::Bracket => proc_macro2::Delimiter::Bracket,
        Delimiter::Invisible => proc_macro2::Delimiter::None,
    };
    quote::TokenStreamExt::append(stream, proc_macro2::Group::new(delimiter, inner));
}

/// Appends a copy of every tree of `part` with `Extend::extend`.
///
/// The contract claims that the stream grows by the trees of `part`, in
/// order, and that nothing else changes.
#[verifier::external_body]
pub(crate) fn push_stream(stream: &mut TokenStream, part: &TokenStream)
    ensures
        stream_tokens(*final(stream)) == stream_tokens(*old(stream)) + stream_tokens(*part),
{
    stream.extend(part.clone());
}

/// Walks a stream with `IntoIterator::into_iter` and hands out the outermost
/// layer of each tree.
///
/// The contract claims one token for each tree, in order: an identifier and
/// a literal with the text they print as, a punctuation character with its
/// spacing, and a group as a group.
#[verifier::external_body]
pub(crate) fn heads(stream: &TokenStream) -> (tokens: Vec<Token>)
    ensures
        tokens.len() == stream_tokens(*stream).len(),
        forall|i: int|
            0 <= i < tokens.len() ==> (#[trigger] tokens[i]).is_head_of(stream_tokens(*stream)[i]),
{
    let head = |tree| match tree {
        proc_macro2::TokenTree::Ident(ident) => Token::Ident(ident.to_string()),
        proc_macro2::TokenTree::Literal(literal) => Token::Literal(literal.to_string()),
        proc_macro2::TokenTree::Group(_) => Token::Group,
        proc_macro2::TokenTree::Punct(punct) => match punct.spacing() {
            proc_macro2::Spacing::Alone => Token::Punct(punct.as_char(), Spacing::Alone),
            proc_macro2::Spacing::Joint => Token::Punct(punct.as_char(), Spacing::Joint),
        },
    };
    stream.clone().into_iter().map(head).collect()
}

/// Copies a stream from its `start`-th tree on, with `IntoIterator::into_iter`
/// and `FromIterator::from_iter`.
///
/// The contract claims that the copy holds the trees from `start` on, in
/// order, and none where the stream has fewer.
#[verifier::external_body]
pub(crate) fn suffix(stream: &TokenStream, start: usize) -> (rest: TokenStream)
    requires
        start <= stream_tokens(*stream).len(),
    ensures
        stream_tokens(rest) == stream_tokens(*stream).skip(start as int),
{
    stream.clone().into_iter().skip(start).collect()
}

} // verus!
