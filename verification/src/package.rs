//! Bringing one package of the dotfiles checkout back to its tracked state.

use vstd::prelude::*;
use crate::command::{make_restore, restore};
use crate::error::InstallError;
use crate::operation::{Outcome, OutcomeView, Step, StepView};
use crate::text::{join, joined};

verus! {

/// Where the reset of a package stands.
#[derive(Clone, Copy, Debug, PartialEq, Eq, Structural)]
pub enum ResetState {
    /// Nothing was asked for yet.
    Start,
    /// The restore command was asked for.
    Restoring,
}

impl View for ResetState {
    type V = ResetState;

    open spec fn view(&self) -> ResetState {
        *self
    }
}

/// The reset of the package `package` of the checkout `dotfiles`: one
/// restore of the package's directory, fatal when it cannot be launched.
pub open spec fn package_reset(
    dotfiles: Seq<char>,
    package: Seq<char>,
    state: ResetState,
    outcome: OutcomeView,
) -> StepView<ResetState, InstallError> {
    match state {
        ResetState::Start => StepView::Perform(
            ResetState::Restoring,
            restore(joined(dotfiles, package)),
        ),
        ResetState::Restoring => if outcome.succeeded() {
            StepView::Finished
        } else {
            StepView::Abort(InstallError::RestoreFailed)
        },
    }
}

/// A reset is the same however often it is run: it asks for one restore of
/// the package's directory, whatever was reported before, and it is through
/// as soon as that restore was launched.
pub proof fn lemma_reset_is_one_restore(
    dotfiles: Seq<char>,
    package: Seq<char>,
    before: OutcomeView,
    launched: OutcomeView,
)
    ensures
        package_reset(dotfiles, package, ResetState::Start, before) == StepView::<
            ResetState,
            InstallError,
        >::Perform(ResetState::Restoring, restore(joined(dotfiles, package))),
        launched.succeeded() ==> package_reset(dotfiles, package, ResetState::Restoring, launched)
            is Finished,
{
}

/// Discards whatever an installer changed below one package of the dotfiles
/// checkout. In [`ResetState::Start`] the outcome is not looked at.
pub fn reset_dotfile_package(
    dotfiles_directory: &str,
    stow_package: &str,
    state: ResetState,
    outcome: &Outcome,
) -> (step: Step<ResetState, InstallError>)
    ensures
        step@ == package_reset(dotfiles_directory@, stow_package@, state, outcome@),
{
    match state {
        ResetState::Start => Step::Perform(
            ResetState::Restoring,
            make_restore(join(dotfiles_directory, stow_package)),
        ),
        ResetState::Restoring => if outcome.succeeded() {
            Step::Finished
        } else {
            Step::Abort(InstallError::RestoreFailed)
        },
    }
}

} // verus!
