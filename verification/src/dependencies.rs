//! The check that the required tools are there, made before anything is
//! changed.

use vstd::prelude::*;
use crate::command::{make_version_probe, version_probe};
use crate::error::{DependencyError, Tool};
use crate::operation::{Outcome, OutcomeView, Step, StepView};
use crate::run::{lemma_ended_stays, lemma_one_more, stands_after};

verus! {

/// Where the check of the required tools stands.
#[derive(Clone, Copy, Debug, PartialEq, Eq, Structural)]
pub enum DependencyState {
    /// Nothing was asked for yet.
    Start,
    /// The tool was asked for its version.
    Probing(Tool),
}

impl View for DependencyState {
    type V = DependencyState;

    open spec fn view(&self) -> DependencyState {
        *self
    }
}

/// The required tools, in the order in which they are looked for.
pub open spec fn required_tools() -> Seq<Tool> {
    seq![Tool::Stow, Tool::Zsh, Tool::Wget]
}

impl Tool {
    /// The tool that is looked for after this one, if any.
    pub open spec fn successor(self) -> Option<Tool> {
        match self {
            Tool::Stow => Some(Tool::Zsh),
            Tool::Zsh => Some(Tool::Wget),
            Tool::Wget => None,
        }
    }

    pub fn next(&self) -> (next: Option<Tool>)
        ensures
            next == self.successor(),
    {
        match self {
            Tool::Stow => Some(Tool::Zsh),
            Tool::Zsh => Some(Tool::Wget),
            Tool::Wget => None,
        }
    }
}

/// The step that asks `tool` for its version.
pub open spec fn asks_for(tool: Tool) -> StepView<DependencyState, DependencyError> {
    StepView::Perform(DependencyState::Probing(tool), version_probe(tool))
}

/// The step that gives up because `tool` is missing.
pub open spec fn gives_up_on(tool: Tool) -> StepView<DependencyState, DependencyError> {
    StepView::Abort(DependencyError::Missing(tool))
}

/// The check of the required tools: each is asked for its version, one
/// after the other. The first that cannot be launched ends the check and is
/// named by the error; the check is through when the last one answered.
pub open spec fn dependency_check(state: DependencyState, outcome: OutcomeView) -> StepView<
    DependencyState,
    DependencyError,
> {
    match state {
        DependencyState::Start => asks_for(Tool::Stow),
        DependencyState::Probing(tool) => if !outcome.succeeded() {
            gives_up_on(tool)
        } else {
            match tool.successor() {
                Some(next) => asks_for(next),
                None => StepView::Finished,
            }
        },
    }
}

/// Checks that every required tool can be launched. In
/// [`DependencyState::Start`] the outcome is not looked at.
pub fn check_dependencies(state: DependencyState, outcome: &Outcome) -> (step: Step<
    DependencyState,
    DependencyError,
>)
    ensures
        step@ == dependency_check(state, outcome@),
{
    match state {
        DependencyState::Start => Step::Perform(
            DependencyState::Probing(Tool::Stow),
            make_version_probe(Tool::Stow),
        ),
        DependencyState::Probing(tool) => if !outcome.succeeded() {
            Step::Abort(DependencyError::Missing(tool))
        } else {
            match tool.next() {
                Some(next) => Step::Perform(
                    DependencyState::Probing(next),
                    make_version_probe(next),
                ),
                None => Step::Finished,
            }
        },
    }
}

/// The check changes nothing: whatever it asks for only looks.
pub proof fn lemma_check_only_looks(state: DependencyState, outcome: OutcomeView)
    ensures
        dependency_check(state, outcome) matches StepView::Perform(_, operation)
            ==> operation.only_looks(),
{
}

/// The transition of the check, as a value.
pub open spec fn dependency_routine() -> spec_fn(DependencyState, OutcomeView) -> StepView<
    DependencyState,
    DependencyError,
> {
    |state: DependencyState, outcome: OutcomeView| dependency_check(state, outcome)
}

/// Where the check stands after the probes asked for so far have ended with
/// `outcomes`.
pub open spec fn dependency_run(outcomes: Seq<OutcomeView>) -> StepView<
    DependencyState,
    DependencyError,
> {
    stands_after(
        dependency_routine(),
        dependency_check(DependencyState::Start, OutcomeView::Success),
        outcomes,
    )
}

/// Whether the first `n` of `outcomes` are all successes.
pub open spec fn all_launched(outcomes: Seq<OutcomeView>, n: int) -> bool {
    forall|k: int| 0 <= k < n ==> (#[trigger] outcomes[k]).succeeded()
}

/// The check as a whole. It gives up with the first required tool that
/// could not be launched; tools after that one are not looked for. It is
/// through once every required tool could be launched. Before that it asks
/// for the tools in the order of [`required_tools`].
pub proof fn lemma_check_names_first_missing(outcomes: Seq<OutcomeView>)
    ensures
        forall|i: int|
            0 <= i < outcomes.len() && i < required_tools().len() && all_launched(outcomes, i)
                && !(#[trigger] outcomes[i]).succeeded() ==> dependency_run(outcomes)
                == gives_up_on(required_tools()[i]),
        outcomes.len() >= required_tools().len() && all_launched(
            outcomes,
            required_tools().len() as int,
        ) ==> dependency_run(outcomes) is Finished,
        outcomes.len() < required_tools().len() && all_launched(outcomes, outcomes.len() as int)
            ==> dependency_run(outcomes) == asks_for(required_tools()[outcomes.len() as int]),
{
    let routine = dependency_routine();
    let begin = dependency_check(DependencyState::Start, OutcomeView::Success);
    let tools = required_tools();
    assert(outcomes.take(0) =~= Seq::<OutcomeView>::empty());
    if outcomes.len() >= 1 {
        lemma_one_more(routine, begin, outcomes, 0);
    }
    if outcomes.len() >= 2 {
        lemma_one_more(routine, begin, outcomes, 1);
    }
    if outcomes.len() >= 3 {
        lemma_one_more(routine, begin, outcomes, 2);
    }
    assert forall|i: int|
        0 <= i < outcomes.len() && i < tools.len() && all_launched(outcomes, i) && !(
        #[trigger] outcomes[i]).succeeded() implies dependency_run(outcomes) == gives_up_on(
        tools[i],
    ) by {
        lemma_ended_stays(routine, begin, outcomes, i + 1);
    }
    if outcomes.len() >= tools.len() && all_launched(outcomes, tools.len() as int) {
        lemma_ended_stays(routine, begin, outcomes, 3);
    }
    if outcomes.len() < tools.len() && all_launched(outcomes, outcomes.len() as int) {
        assert(outcomes.take(outcomes.len() as int) =~= outcomes);
    }
}

/// The tools are looked for in the order of [`required_tools`], each of
/// them once.
pub proof fn lemma_tools_follow_the_list()
    ensures
        required_tools().no_duplicates(),
        forall|tool: Tool| required_tools().contains(tool),
        forall|i: int|
            0 <= i < required_tools().len() ==> #[trigger] required_tools()[i].successor() == if i
                + 1 < required_tools().len() {
                Some(required_tools()[i + 1])
            } else {
                None
            },
{
    let tools = required_tools();
    assert forall|tool: Tool| tools.contains(tool) by {
        match tool {
            Tool::Stow => assert(tools[0] == tool),
            Tool::Zsh => assert(tools[1] == tool),
            Tool::Wget => assert(tools[2] == tool),
        }
    }
}

} // verus!
