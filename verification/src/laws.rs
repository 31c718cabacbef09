//! What holds of every input that is laid out as a comprehension, and of
//! every error.

use vstd::prelude::*;
use crate::cursor::{expr_at, pat_at};
use crate::error::{missing, Expected, Failure};
use crate::parsed_input;
use crate::syntax::{lemma_zero_or_more_ends, zero_or_more, Binding, Condition, Mapping, Parse};
use crate::token::{arrow_at, comma_at, is_in, Tree};

verus! {

/// Where the fixed tokens of a comprehension stand in an input: the keyword
/// `in`, the binding operator, and the separator of each condition, in the
/// order written; and where the comprehension ends.
pub struct Layout {
    pub word: nat,
    pub arrow: nat,
    pub commas: Seq<nat>,
    pub end: nat,
}

impl Layout {
    /// Where the iterable ends: at the first separator, or with the
    /// comprehension.
    pub open spec fn iterable_end(self) -> nat {
        self.clause_start(0)
    }

    /// Where the `i`-th condition starts, and what stands before it ends.
    /// Past the last condition it is the end of the comprehension.
    pub open spec fn clause_start(self, i: int) -> nat {
        if 0 <= i < self.commas.len() {
            self.commas[i]
        } else {
            self.end
        }
    }
}

/// The host expression that starts at `from` ends exactly at `to`.
pub open spec fn expr_spans(trees: Seq<Tree>, from: nat, to: nat) -> bool {
    expr_at(trees, from) matches Some((_, end)) && end == to
}

/// The host pattern that starts at `from` ends exactly at `to`.
pub open spec fn pat_spans(trees: Seq<Tree>, from: nat, to: nat) -> bool {
    pat_at(trees, from) matches Some((_, end)) && end == to
}

/// The `i`-th condition is in place: its separator stands where the layout
/// says, and the expression behind it ends where the next condition starts,
/// or with the comprehension.
pub open spec fn clause_fits(trees: Seq<Tree>, layout: Layout, i: int) -> bool {
    &&& comma_at(trees, layout.commas[i])
    &&& expr_spans(trees, layout.commas[i] + 1, layout.clause_start(i + 1))
}

/// The front of `trees` has the shape `M in P <- I` followed by one `, C` for
/// each entry of `layout.commas`: each part is what the host's parser reads
/// at its place, each ends where the next fixed token stands, and the last
/// ends at `layout.end`.
pub open spec fn laid_out(trees: Seq<Tree>, layout: Layout) -> bool {
    &&& expr_spans(trees, 0, layout.word)
    &&& layout.word < trees.len()
    &&& is_in(trees[layout.word as int])
    &&& pat_spans(trees, layout.word + 1, layout.arrow)
    &&& arrow_at(trees, layout.arrow)
    &&& expr_spans(trees, layout.arrow + 2, layout.iterable_end())
    &&& forall|i: int| 0 <= i < layout.commas.len() ==> #[trigger] clause_fits(trees, layout, i)
}

/// From the `k`-th separator on, the repetition of conditions reads exactly
/// the conditions that are left, and stops where the layout ends if no
/// condition stands there.
proof fn lemma_conditions_from(trees: Seq<Tree>, layout: Layout, k: int)
    requires
        laid_out(trees, layout),
        Condition::parsed(trees, layout.end) is Err,
        0 <= k <= layout.commas.len(),
    ensures
        ({
            let (conditions, end) = zero_or_more::<Condition>(trees, layout.clause_start(k));
            &&& end == layout.end
            &&& conditions.len() == layout.commas.len() - k
            &&& forall|i: int|
                0 <= i < conditions.len() ==> expr_at(trees, layout.commas[k + i] + 1) == Some(
                    (#[trigger] conditions[i], layout.clause_start(k + i + 1)),
                )
        }),
    decreases layout.commas.len() - k,
{
    if k < layout.commas.len() {
        let comma = layout.commas[k];
        let next = layout.clause_start(k + 1);
        assert(clause_fits(trees, layout, k));
        lemma_conditions_from(trees, layout, k + 1);
        let (more, end) = zero_or_more::<Condition>(trees, next);
        let first = expr_at(trees, comma + 1).unwrap().0;
        let conditions = zero_or_more::<Condition>(trees, comma).0;
        assert(Condition::parsed(trees, comma) matches Ok(read) && read == (first, next));
        assert(conditions =~= seq![first] + more);
        assert forall|i: int| 0 <= i < conditions.len() implies expr_at(
            trees,
            layout.commas[k + i] + 1,
        ) == Some((#[trigger] conditions[i], layout.clause_start(k + i + 1))) by {
            if i > 0 {
                assert(conditions[i] == more[i - 1]);
            }
        }
    }
}

/// Every input of the shape `M in P <- I` followed by any number of clauses
/// `, C`, and by nothing else, parses. The conditions of the result are the
/// clauses, as many and in the order written.
pub proof fn lemma_laid_out_parses(trees: Seq<Tree>, layout: Layout)
    requires
        laid_out(trees, layout),
        layout.end == trees.len(),
    ensures
        parsed_input(trees) matches Ok(comprehension) && {
            &&& expr_at(trees, 0) == Some((comprehension.mapping, layout.word))
            &&& pat_at(trees, layout.word + 1) == Some(
                (comprehension.binding.pattern, layout.arrow),
            )
            &&& expr_at(trees, layout.arrow + 2) == Some(
                (comprehension.binding.iterable, layout.iterable_end()),
            )
            &&& comprehension.conditions.len() == layout.commas.len()
            &&& forall|i: int|
                0 <= i < layout.commas.len() ==> expr_at(trees, layout.commas[i] + 1) == Some(
                    (#[trigger] comprehension.conditions[i], layout.clause_start(i + 1)),
                )
        },
{
    lemma_conditions_from(trees, layout, 0);
}

/// Input that is left after a comprehension is an error at the first token
/// left: where the front of the input is laid out as a comprehension, no
/// further condition follows it, and the input goes on.
pub proof fn lemma_trailing_input_fails(trees: Seq<Tree>, layout: Layout)
    requires
        laid_out(trees, layout),
        Condition::parsed(trees, layout.end) is Err,
        layout.end < trees.len(),
    ensures
        parsed_input(trees) matches Err(failure) && failure == (Failure::TrailingInput {
            position: layout.end,
        }),
{
    lemma_conditions_from(trees, layout, 0);
}

/// Without the binding operator behind the pattern there is no
/// comprehension: the error asks for `<-` at the place where the pattern
/// ends.
pub proof fn lemma_missing_arrow_fails(trees: Seq<Tree>, word: nat, arrow: nat)
    requires
        expr_spans(trees, 0, word),
        word < trees.len(),
        is_in(trees[word as int]),
        pat_spans(trees, word + 1, arrow),
        !arrow_at(trees, arrow),
    ensures
        parsed_input(trees) matches Err(failure) && failure == missing(
            trees,
            Expected::Arrow,
            arrow,
        ),
{
}

/// An error points into the input: at a token that is there (an unexpected
/// token, or the first one left over), or just behind the last (an unexpected
/// end).
pub proof fn lemma_failure_in_bounds(trees: Seq<Tree>)
    ensures
        match parsed_input(trees) {
            Ok(_) => true,
            Err(Failure::UnexpectedToken { expected, position }) => position < trees.len(),
            Err(Failure::UnexpectedEnd { expected, position }) => position == trees.len(),
            Err(Failure::TrailingInput { position }) => position < trees.len(),
        },
{
    if let Ok((_, word)) = Mapping::parsed(trees, 0) {
        if let Ok((_, rest)) = Binding::parsed(trees, word + 1) {
            lemma_zero_or_more_ends::<Condition>(trees, rest);
        }
    }
}

} // verus!
