//! Whole runs: where a routine stands after a row of outcomes.

use vstd::prelude::*;
use crate::operation::{OutcomeView, StepView};

verus! {

/// Where a routine stands once the operations it asked for have ended with
/// `outcomes`, in that order. `begin` is the step that the routine starts
/// with and `routine` its transition. A routine that has ended asks for
/// nothing more: outcomes beyond its end change nothing.
pub open spec fn stands_after<S, E>(
    routine: spec_fn(S, OutcomeView) -> StepView<S, E>,
    begin: StepView<S, E>,
    outcomes: Seq<OutcomeView>,
) -> StepView<S, E>
    decreases outcomes.len(),
{
    if outcomes.len() == 0 {
        begin
    } else {
        match stands_after(routine, begin, outcomes.drop_last()) {
            StepView::Perform(state, _) => routine(state, outcomes.last()),
            ended => ended,
        }
    }
}

/// One more outcome moves a routine by one transition, from where it stood
/// before that outcome.
pub proof fn lemma_one_more<S, E>(
    routine: spec_fn(S, OutcomeView) -> StepView<S, E>,
    begin: StepView<S, E>,
    outcomes: Seq<OutcomeView>,
    n: int,
)
    requires
        0 <= n < outcomes.len(),
    ensures
        stands_after(routine, begin, outcomes.take(n + 1)) == match stands_after(
            routine,
            begin,
            outcomes.take(n),
        ) {
            StepView::Perform(state, _) => routine(state, outcomes[n]),
            ended => ended,
        },
{
    let longer = outcomes.take(n + 1);
    assert(longer.drop_last() =~= outcomes.take(n));
    assert(longer.last() == outcomes[n]);
}

/// A routine that has ended stays where it ended, whatever is reported to it
/// afterwards.
pub proof fn lemma_ended_stays<S, E>(
    routine: spec_fn(S, OutcomeView) -> StepView<S, E>,
    begin: StepView<S, E>,
    outcomes: Seq<OutcomeView>,
    n: int,
)
    requires
        0 <= n <= outcomes.len(),
        !(stands_after(routine, begin, outcomes.take(n)) is Perform),
    ensures
        stands_after(routine, begin, outcomes) == stands_after(routine, begin, outcomes.take(n)),
    decreases outcomes.len(),
{
    if n == outcomes.len() {
        assert(outcomes.take(n) =~= outcomes);
    } else {
        let shorter = outcomes.drop_last();
        assert(shorter.take(n) =~= outcomes.take(n));
        lemma_ended_stays(routine, begin, shorter, n);
    }
}

} // verus!
