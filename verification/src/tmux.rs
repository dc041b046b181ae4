//! The installer of the terminal multiplexer's configuration.

use vstd::prelude::*;
use crate::command::{make_symlink, symlink};
use crate::error::InstallError;
use crate::operation::{Operation, OperationView, Outcome, OutcomeView, Step, StepView};
use crate::site::{Site, SiteView};
use crate::text::{join, joined};

verus! {

/// Where the installation of the multiplexer stands.
#[derive(Clone, Copy, Debug, PartialEq, Eq, Structural)]
pub enum TmuxState {
    /// Nothing was asked for yet.
    Start,
    /// The clone was asked for.
    Cloning,
    /// The link into the configuration directory was asked for.
    Linking,
}

impl View for TmuxState {
    type V = TmuxState;

    open spec fn view(&self) -> TmuxState {
        *self
    }
}

/// The directory that the multiplexer's configuration is cloned into.
pub open spec fn tmux_directory(site: SiteView) -> Seq<char> {
    joined(site.installation_root, "configurations-tmux"@)
}

/// The installation of the multiplexer: clone the configuration, then link
/// it into the user's configuration directory. A failed clone is fatal, so
/// are an unknown home directory and a link command that cannot be launched.
pub open spec fn tmux_install(site: SiteView, state: TmuxState, outcome: OutcomeView) -> StepView<
    TmuxState,
    InstallError,
> {
    match state {
        TmuxState::Start => StepView::Perform(
            TmuxState::Cloning,
            OperationView::CloneRepository { url: site.sources.tmux, into: tmux_directory(site) },
        ),
        TmuxState::Cloning => if !outcome.succeeded() {
            StepView::Abort(InstallError::CloneFailed)
        } else {
            match site.home {
                Some(home) => StepView::Perform(
                    TmuxState::Linking,
                    symlink(tmux_directory(site), SiteView::configuration(home, "tmux"@)),
                ),
                None => StepView::Abort(InstallError::HomeUnset),
            }
        },
        TmuxState::Linking => if outcome.succeeded() {
            StepView::Finished
        } else {
            StepView::Abort(InstallError::LinkFailed)
        },
    }
}

/// Installs the multiplexer's configuration. In [`TmuxState::Start`] the
/// outcome is not looked at.
pub fn install_tmux(site: &Site, state: TmuxState, outcome: &Outcome) -> (step: Step<
    TmuxState,
    InstallError,
>)
    ensures
        step@ == tmux_install(site@, state, outcome@),
{
    match state {
        TmuxState::Start => Step::Perform(
            TmuxState::Cloning,
            Operation::CloneRepository {
                url: site.sources.tmux.clone(),
                into: join(site.installation_root.as_str(), "configurations-tmux"),
            },
        ),
        TmuxState::Cloning => if !outcome.succeeded() {
            Step::Abort(InstallError::CloneFailed)
        } else {
            match &site.home {
                Some(home) => {
                    let target = join(site.installation_root.as_str(), "configurations-tmux");
                    let link = Site::configuration(home.as_str(), "tmux");
                    Step::Perform(TmuxState::Linking, make_symlink(target, link))
                },
                None => Step::Abort(InstallError::HomeUnset),
            }
        },
        TmuxState::Linking => if outcome.succeeded() {
            Step::Finished
        } else {
            Step::Abort(InstallError::LinkFailed)
        },
    }
}

} // verus!
