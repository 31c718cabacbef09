//! The host language's sub-grammars: expressions and patterns, as `syn` reads
//! them.
//!
//! What `syn` accepts as an expression or as a pattern takes a grammar of its
//! own to say. Here it only has a name: a function of the token trees handed
//! in. The functions that call `syn` say that their result is that function's
//! value, and nothing more.

use vstd::prelude::*;
use proc_macro2::TokenStream;
use crate::token::Tree;
use crate::stream::stream_tokens;

verus! {

/// What `syn`'s expression parser (`<syn::Expr as Parse>::parse`) makes of the
/// front of `input`.
///
/// `None` where it rejects the input. Otherwise the expression it read, as the
/// token trees it prints to, and the number of token trees it left unread.
pub uninterp spec fn host_expr(input: Seq<Tree>) -> Option<(Seq<Tree>, nat)>;

/// What `syn`'s parser for a pattern without a top-level `|`
/// (`syn::Pat::parse_single`) makes of the front of `input`.
///
/// `None` where it rejects the input. Otherwise the pattern it read, as the
/// token trees it prints to, and the number of token trees it left unread.
pub uninterp spec fn host_pat(input: Seq<Tree>) -> Option<(Seq<Tree>, nat)>;

/// Runs `syn`'s expression parser on the front of `input`.
///
/// `syn` hands its parse stream only to a function that it calls, so the two
/// reads stand in a closure given to `Parser::parse2`: first the expression,
/// then whatever is left. The expression is printed with
/// `ToTokens::to_token_stream`, and what is left is counted. An error of
/// `syn` becomes `None`.
///
/// The contract claims that the outcome is [`host_expr`] of the trees handed
/// in, which is to say that it depends on those trees and on nothing else.
#[verifier::external_body]
pub(crate) fn read_expr(input: TokenStream) -> (outcome: Option<(TokenStream, usize)>)
    ensures
        match outcome {
            Some((expr, left)) => host_expr(stream_tokens(input)) == Some(
                (stream_tokens(expr), left as nat),
            ),
            None => host_expr(stream_tokens(input)) is None,
        },
{
    let reads = |stream: syn::parse::ParseStream| -> syn::Result<(syn::Expr, TokenStream)> {
        Ok((stream.parse()?, stream.parse()?))
    };
    match syn::parse::Parser::parse2(reads, input) {
        Ok((expr, rest)) => Some((quote::ToTokens::to_token_stream(&expr), rest.into_iter().count())),
        Err(_) => None,
    }
}

/// Runs `syn`'s single-pattern parser on the front of `input`.
///
/// As [`read_expr`], with `Pat::parse_single` for the first read. The contract
/// claims that the outcome is [`host_pat`] of the trees handed in.
#[verifier::external_body]
pub(crate) fn read_pat(input: TokenStream) -> (outcome: Option<(TokenStream, usize)>)
    ensures
        match outcome {
            Some((pat, left)) => host_pat(stream_tokens(input)) == Some(
                (stream_tokens(pat), left as nat),
            ),
            None => host_pat(stream_tokens(input)) is None,
        },
{
    let reads = |stream: syn::parse::ParseStream| -> syn::Result<(syn::Pat, TokenStream)> {
        Ok((syn::Pat::parse_single(stream)?, stream.parse()?))
    };
    match syn::parse::Parser::parse2(reads, input) {
        Ok((pat, rest)) => Some((quote::ToTokens::to_token_stream(&pat), rest.into_iter().count())),
        Err(_) => None,
    }
}

} // verus!
