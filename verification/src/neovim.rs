//! The installer of the editor's configuration.

use vstd::prelude::*;
use crate::command::{make_script, make_symlink, script, symlink};
use crate::error::InstallError;
use crate::operation::{Operation, OperationView, Outcome, OutcomeView, Step, StepView};
use crate::site::{Site, SiteView};
use crate::text::{join, joined};

verus! {

/// Where the setup that follows the editor's clone stands.
#[derive(Clone, Copy, Debug, PartialEq, Eq, Structural)]
pub enum SetupState {
    /// Nothing was asked for yet.
    Start,
    /// The setup script was asked for.
    RunningSetup,
    /// The link into the configuration directory was asked for.
    Linking,
}

impl View for SetupState {
    type V = SetupState;

    open spec fn view(&self) -> SetupState {
        *self
    }
}

/// Where the installation of the editor stands.
#[derive(Clone, Copy, Debug, PartialEq, Eq, Structural)]
pub enum NeovimState {
    /// Nothing was asked for yet.
    Start,
    /// The clone was asked for.
    Cloning,
    /// The clone is there and its setup is under way.
    Dependencies(SetupState),
}

impl View for NeovimState {
    type V = NeovimState;

    open spec fn view(&self) -> NeovimState {
        *self
    }
}

/// The directory that the editor's configuration is cloned into.
pub open spec fn neovim_directory(site: SiteView) -> Seq<char> {
    joined(site.installation_root, "configurations-neovim"@)
}

/// The setup of the cloned configuration `configuration`: run its setup
/// script with the installation root as argument, then link the
/// configuration into the user's configuration directory. Fatal are a script
/// or a link command that cannot be launched, and an unknown home directory.
pub open spec fn neovim_setup(
    site: SiteView,
    configuration: Seq<char>,
    state: SetupState,
    outcome: OutcomeView,
) -> StepView<SetupState, InstallError> {
    match state {
        SetupState::Start => StepView::Perform(
            SetupState::RunningSetup,
            script(
                "bash"@,
                joined(configuration, "setup.sh"@),
                Some(site.installation_root),
                None,
            ),
        ),
        SetupState::RunningSetup => if !outcome.succeeded() {
            StepView::Abort(InstallError::SetupFailed)
        } else {
            match site.home {
                Some(home) => StepView::Perform(
                    SetupState::Linking,
                    symlink(configuration, SiteView::configuration(home, "nvim"@)),
                ),
                None => StepView::Abort(InstallError::HomeUnset),
            }
        },
        SetupState::Linking => if outcome.succeeded() {
            StepView::Finished
        } else {
            StepView::Abort(InstallError::LinkFailed)
        },
    }
}

/// A step of the setup, seen from the installation that it ends.
pub open spec fn neovim_after_clone(step: StepView<SetupState, InstallError>) -> StepView<
    NeovimState,
    InstallError,
> {
    step.within(|state: SetupState| NeovimState::Dependencies(state))
}

/// The installation of the editor: clone the configuration, fatal when that
/// fails, then set it up.
pub open spec fn neovim_install(
    site: SiteView,
    state: NeovimState,
    outcome: OutcomeView,
) -> StepView<NeovimState, InstallError> {
    match state {
        NeovimState::Start => StepView::Perform(
            NeovimState::Cloning,
            OperationView::CloneRepository {
                url: site.sources.neovim,
                into: neovim_directory(site),
            },
        ),
        NeovimState::Cloning => if outcome.succeeded() {
            neovim_after_clone(
                neovim_setup(site, neovim_directory(site), SetupState::Start, outcome),
            )
        } else {
            StepView::Abort(InstallError::CloneFailed)
        },
        NeovimState::Dependencies(setup) => neovim_after_clone(
            neovim_setup(site, neovim_directory(site), setup, outcome),
        ),
    }
}

/// Sets the cloned configuration up. In [`SetupState::Start`] the outcome is
/// not looked at.
pub fn install_neovim_dependencies(
    site: &Site,
    custom_neovim_config_dir: &str,
    state: SetupState,
    outcome: &Outcome,
) -> (step: Step<SetupState, InstallError>)
    ensures
        step@ == neovim_setup(site@, custom_neovim_config_dir@, state, outcome@),
{
    match state {
        SetupState::Start => Step::Perform(
            SetupState::RunningSetup,
            make_script(
                "bash",
                join(custom_neovim_config_dir, "setup.sh"),
                Some(site.installation_root.clone()),
                None,
            ),
        ),
        SetupState::RunningSetup => if !outcome.succeeded() {
            Step::Abort(InstallError::SetupFailed)
        } else {
            match &site.home {
                Some(home) => Step::Perform(
                    SetupState::Linking,
                    make_symlink(
                        custom_neovim_config_dir.to_owned(),
                        Site::configuration(home.as_str(), "nvim"),
                    ),
                ),
                None => Step::Abort(InstallError::HomeUnset),
            }
        },
        SetupState::Linking => if outcome.succeeded() {
            Step::Finished
        } else {
            Step::Abort(InstallError::LinkFailed)
        },
    }
}

/// Installs the editor's configuration. In [`NeovimState::Start`] the
/// outcome is not looked at.
pub fn install_neovim(site: &Site, state: NeovimState, outcome: &Outcome) -> (step: Step<
    NeovimState,
    InstallError,
>)
    ensures
        step@ == neovim_install(site@, state, outcome@),
{
    let setup = match state {
        NeovimState::Start => {
            return Step::Perform(
                NeovimState::Cloning,
                Operation::CloneRepository {
                    url: site.sources.neovim.clone(),
                    into: join(site.installation_root.as_str(), "configurations-neovim"),
                },
            );
        },
        NeovimState::Cloning => {
            if !outcome.succeeded() {
                return Step::Abort(InstallError::CloneFailed);
            }
            SetupState::Start
        },
        NeovimState::Dependencies(setup) => setup,
    };
    let directory = join(site.installation_root.as_str(), "configurations-neovim");
    match install_neovim_dependencies(site, directory.as_str(), setup, outcome) {
        Step::Perform(next, operation) => Step::Perform(
            NeovimState::Dependencies(next),
            operation,
        ),
        Step::Finished => Step::Finished,
        Step::Abort(error) => Step::Abort(error),
    }
}

} // verus!
