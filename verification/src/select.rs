//! Selecting the pull requests of a run.

use vstd::prelude::*;
use std::collections::HashSet;
use crate::model::PullRequest;

verus! {

/// Whether a pull request with this number belongs to the run: the build bot
/// has approved it and it is not below the threshold.
pub open spec fn is_selected(approved: Set<u64>, min: u64, number: u64) -> bool {
    approved.contains(number) && number >= min
}

/// The condition of a run on a pull request, as a function.
pub open spec fn selector(approved: Set<u64>, min: u64) -> spec_fn(PullRequest) -> bool {
    |p: PullRequest| is_selected(approved, min, p.number)
}

/// The pull requests of `pulls` that belong to the run, in their order.
pub open spec fn selection(approved: Set<u64>, min: u64, pulls: Seq<PullRequest>) -> Seq<
    PullRequest,
> {
    pulls.filter(selector(approved, min))
}

/// What is selected belongs to the run and comes from the list, and what in
/// the list belongs to the run is selected.
pub proof fn lemma_selection_is_exact(
    approved: Set<u64>,
    min: u64,
    pulls: Seq<PullRequest>,
    pull: PullRequest,
)
    ensures
        selection(approved, min, pulls).contains(pull) <==> pulls.contains(pull) && is_selected(
            approved,
            min,
            pull.number,
        ),
{
    let keep = selector(approved, min);
    let chosen = pulls.filter(keep);
    if chosen.contains(pull) {
        let i = choose|i: int| 0 <= i < chosen.len() && chosen[i] == pull;
        pulls.lemma_filter_pred(keep, i);
        pulls.lemma_filter_contains_rev(keep, pull);
    }
    if pulls.contains(pull) && keep(pull) {
        let i = choose|i: int| 0 <= i < pulls.len() && pulls[i] == pull;
        pulls.lemma_filter_contains(keep, i);
    }
}

/// Selecting keeps the order and the number of occurrences: what is selected
/// from a list in two parts is what is selected from the first part, followed
/// by what is selected from the second.
pub proof fn lemma_selection_keeps_order(
    approved: Set<u64>,
    min: u64,
    first: Seq<PullRequest>,
    second: Seq<PullRequest>,
)
    ensures
        selection(approved, min, first + second) == selection(approved, min, first) + selection(
            approved,
            min,
            second,
        ),
{
    Seq::filter_distributes_over_add(first, second, selector(approved, min));
}

/// A list of one pull request is selected whole or not at all.
pub proof fn lemma_selection_of_one(approved: Set<u64>, min: u64, pull: PullRequest)
    ensures
        selection(approved, min, seq![pull]) == if is_selected(approved, min, pull.number) {
            seq![pull]
        } else {
            Seq::<PullRequest>::empty()
        },
{
    reveal_with_fuel(Seq::filter, 2);
    assert(seq![pull].drop_last() == Seq::<PullRequest>::empty());
}

/// Keeps the pull requests that are approved and not below `min`.
///
/// The result is the sub-sequence of `pulls` that satisfies the condition:
/// the order is kept, nothing is added and nothing is taken twice.
pub fn select(approved: &HashSet<u64>, pulls: Vec<PullRequest>, min: u64) -> (chosen: Vec<
    PullRequest,
>)
    ensures
        chosen@ == selection(approved@, min, pulls@),
{
    let ghost all = pulls@;
    let ghost keep = selector(approved@, min);
    let mut chosen: Vec<PullRequest> = Vec::new();
    for pull in it: pulls
        invariant
            it.seq() == all,
            chosen@ == all.take(it.index()).filter(keep),
            keep == selector(approved@, min),
    {
        proof {
            let upto = all.take(it.index() + 1);
            assert(upto.drop_last() == all.take(it.index()));
            assert(upto.last() == pull);
            reveal(Seq::filter);
        }
        if approved.contains(&pull.number) && pull.number >= min {
            chosen.push(pull);
        }
    }
    assert(all.take(all.len() as int) == all);
    chosen
}

} // verus!
