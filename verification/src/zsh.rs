//! The installer of the shell environment.

use vstd::prelude::*;
use crate::command::{download, make_download, make_script, script};
use crate::error::InstallError;
use crate::operation::{Operation, OperationView, Outcome, OutcomeView, Step, StepView};
use crate::package::{package_reset, reset_dotfile_package, ResetState};
use crate::site::{Site, SiteView};

verus! {

/// Where the restoring of the shell resource file stands. The vendor's
/// installer has run: it may have written a resource file of its own and may
/// have set the previous one aside.
#[derive(Clone, Copy, Debug, PartialEq, Eq, Structural)]
pub enum RcState {
    /// Nothing was asked for yet.
    Start,
    /// Asked whether there is a resource file.
    CheckingCurrent,
    /// Asked to set the resource file aside.
    BackingUp,
    /// Asked whether the vendor set a resource file aside.
    CheckingVendorBackup,
    /// Asked to put back the file that the vendor set aside.
    Adopting,
    /// Asked to put back the file that was set aside here.
    Recovering,
}

impl View for RcState {
    type V = RcState;

    open spec fn view(&self) -> RcState {
        *self
    }
}

/// Where the installation of the shell environment stands.
#[derive(Clone, Copy, Debug, PartialEq, Eq, Structural)]
pub enum ZshState {
    /// Nothing was asked for yet.
    Start,
    /// The download of the vendor's installer was asked for.
    Downloading,
    /// The run of the vendor's installer was asked for.
    RunningInstaller,
    /// Asked whether the downloaded installer is still there.
    CheckingInstaller,
    /// Asked to remove the downloaded installer.
    RemovingInstaller,
    /// The resource file is being restored.
    RestoringConfig(RcState),
    /// The shell's package of the dotfiles is being reset.
    Resetting(ResetState),
}

impl View for ZshState {
    type V = ZshState;

    open spec fn view(&self) -> ZshState {
        *self
    }
}

/// The file that the vendor's installer is downloaded to.
pub open spec fn installer_file() -> Seq<char> {
    "install.sh"@
}

/// The shell resource file.
pub open spec fn rc_file() -> Seq<char> {
    ".zshrc"@
}

/// Where this installer sets the resource file aside.
pub open spec fn rc_backup() -> Seq<char> {
    ".zshrc.bak"@
}

/// Where the vendor's installer sets the previous resource file aside.
pub open spec fn rc_vendor_backup() -> Seq<char> {
    ".zshrc.pre-oh-my-zsh"@
}

/// The package of the dotfiles that holds the shell's files.
pub open spec fn shell_package() -> Seq<char> {
    "zsh"@
}

/// Putting the user's resource file back after the vendor's installer ran.
///
/// The resource file that is there now, if any, is set aside. Then the file
/// that the vendor set aside is put in its place; where the vendor set none
/// aside, the file set aside a moment ago is put back. A rename that fails is
/// fatal; that a file is not there is not.
pub open spec fn shell_config_restore(state: RcState, outcome: OutcomeView) -> StepView<
    RcState,
    InstallError,
> {
    match state {
        RcState::Start => StepView::Perform(
            RcState::CheckingCurrent,
            OperationView::Exists { path: rc_file() },
        ),
        RcState::CheckingCurrent => if outcome.succeeded() {
            StepView::Perform(
                RcState::BackingUp,
                OperationView::Rename { from: rc_file(), to: rc_backup() },
            )
        } else {
            StepView::Perform(
                RcState::CheckingVendorBackup,
                OperationView::Exists { path: rc_vendor_backup() },
            )
        },
        RcState::BackingUp => if outcome.succeeded() {
            StepView::Perform(
                RcState::CheckingVendorBackup,
                OperationView::Exists { path: rc_vendor_backup() },
            )
        } else {
            StepView::Abort(InstallError::BackupFailed)
        },
        RcState::CheckingVendorBackup => if outcome.succeeded() {
            StepView::Perform(
                RcState::Adopting,
                OperationView::Rename { from: rc_vendor_backup(), to: rc_file() },
            )
        } else {
            StepView::Perform(
                RcState::Recovering,
                OperationView::Rename { from: rc_backup(), to: rc_file() },
            )
        },
        RcState::Adopting => if outcome.succeeded() {
            StepView::Finished
        } else {
            StepView::Abort(InstallError::AdoptFailed)
        },
        RcState::Recovering => if outcome.succeeded() {
            StepView::Finished
        } else {
            StepView::Abort(InstallError::RecoverFailed)
        },
    }
}

/// A step of the package reset that ends the installation.
pub open spec fn zsh_reset(site: SiteView, state: ResetState, outcome: OutcomeView) -> StepView<
    ZshState,
    InstallError,
> {
    package_reset(site.dotfiles_root, shell_package(), state, outcome).within(
        |state: ResetState| ZshState::Resetting(state),
    )
}

/// A step of the restoring of the resource file; once that is through, the
/// package reset begins.
pub open spec fn zsh_restore_config(
    site: SiteView,
    state: RcState,
    outcome: OutcomeView,
) -> StepView<ZshState, InstallError> {
    shell_config_restore(state, outcome).and_then(
        |state: RcState| ZshState::RestoringConfig(state),
        zsh_reset(site, ResetState::Start, outcome),
    )
}

/// The installation of the shell environment: download the vendor's
/// installer, run it through the shell, remove the download if it is still
/// there, restore the resource file, and reset the shell's package of the
/// dotfiles. Fatal are a command that cannot be launched and a file
/// operation that fails on a file that was found.
pub open spec fn zsh_install(site: SiteView, state: ZshState, outcome: OutcomeView) -> StepView<
    ZshState,
    InstallError,
> {
    match state {
        ZshState::Start => StepView::Perform(
            ZshState::Downloading,
            download(site.sources.shell_installer),
        ),
        ZshState::Downloading => if outcome.succeeded() {
            StepView::Perform(
                ZshState::RunningInstaller,
                script("zsh"@, installer_file(), None, None),
            )
        } else {
            StepView::Abort(InstallError::DownloadFailed)
        },
        ZshState::RunningInstaller => if outcome.succeeded() {
            StepView::Perform(
                ZshState::CheckingInstaller,
                OperationView::Exists { path: installer_file() },
            )
        } else {
            StepView::Abort(InstallError::VendorInstallFailed)
        },
        ZshState::CheckingInstaller => if outcome.succeeded() {
            StepView::Perform(
                ZshState::RemovingInstaller,
                OperationView::RemoveFile { path: installer_file() },
            )
        } else {
            zsh_restore_config(site, RcState::Start, outcome)
        },
        ZshState::RemovingInstaller => if outcome.succeeded() {
            zsh_restore_config(site, RcState::Start, outcome)
        } else {
            StepView::Abort(InstallError::CleanupFailed)
        },
        ZshState::RestoringConfig(rc) => zsh_restore_config(site, rc, outcome),
        ZshState::Resetting(reset) => zsh_reset(site, reset, outcome),
    }
}

/// Puts the user's resource file back after the vendor's installer ran. In
/// [`RcState::Start`] the outcome is not looked at.
pub fn restore_shell_config(state: RcState, outcome: &Outcome) -> (step: Step<
    RcState,
    InstallError,
>)
    ensures
        step@ == shell_config_restore(state, outcome@),
{
    match state {
        RcState::Start => Step::Perform(
            RcState::CheckingCurrent,
            Operation::Exists { path: ".zshrc".to_owned() },
        ),
        RcState::CheckingCurrent => if outcome.succeeded() {
            Step::Perform(
                RcState::BackingUp,
                Operation::Rename { from: ".zshrc".to_owned(), to: ".zshrc.bak".to_owned() },
            )
        } else {
            Step::Perform(
                RcState::CheckingVendorBackup,
                Operation::Exists { path: ".zshrc.pre-oh-my-zsh".to_owned() },
            )
        },
        RcState::BackingUp => if outcome.succeeded() {
            Step::Perform(
                RcState::CheckingVendorBackup,
                Operation::Exists { path: ".zshrc.pre-oh-my-zsh".to_owned() },
            )
        } else {
            Step::Abort(InstallError::BackupFailed)
        },
        RcState::CheckingVendorBackup => if outcome.succeeded() {
            Step::Perform(
                RcState::Adopting,
                Operation::Rename {
                    from: ".zshrc.pre-oh-my-zsh".to_owned(),
                    to: ".zshrc".to_owned(),
                },
            )
        } else {
            Step::Perform(
                RcState::Recovering,
                Operation::Rename { from: ".zshrc.bak".to_owned(), to: ".zshrc".to_owned() },
            )
        },
        RcState::Adopting => if outcome.succeeded() {
            Step::Finished
        } else {
            Step::Abort(InstallError::AdoptFailed)
        },
        RcState::Recovering => if outcome.succeeded() {
            Step::Finished
        } else {
            Step::Abort(InstallError::RecoverFailed)
        },
    }
}

fn reset_shell_package(site: &Site, state: ResetState, outcome: &Outcome) -> (step: Step<
    ZshState,
    InstallError,
>)
    ensures
        step@ == zsh_reset(site@, state, outcome@),
{
    match reset_dotfile_package(site.dotfiles_root.as_str(), "zsh", state, outcome) {
        Step::Perform(next, operation) => Step::Perform(ZshState::Resetting(next), operation),
        Step::Finished => Step::Finished,
        Step::Abort(error) => Step::Abort(error),
    }
}

fn restore_then_reset(site: &Site, state: RcState, outcome: &Outcome) -> (step: Step<
    ZshState,
    InstallError,
>)
    ensures
        step@ == zsh_restore_config(site@, state, outcome@),
{
    match restore_shell_config(state, outcome) {
        Step::Perform(next, operation) => Step::Perform(
            ZshState::RestoringConfig(next),
            operation,
        ),
        Step::Finished => reset_shell_package(site, ResetState::Start, outcome),
        Step::Abort(error) => Step::Abort(error),
    }
}

/// Installs the shell environment. In [`ZshState::Start`] the outcome is not
/// looked at.
pub fn install_zsh(site: &Site, state: ZshState, outcome: &Outcome) -> (step: Step<
    ZshState,
    InstallError,
>)
    ensures
        step@ == zsh_install(site@, state, outcome@),
{
    match state {
        ZshState::Start => Step::Perform(
            ZshState::Downloading,
            make_download(site.sources.shell_installer.clone()),
        ),
        ZshState::Downloading => if outcome.succeeded() {
            Step::Perform(
                ZshState::RunningInstaller,
                make_script("zsh", "install.sh".to_owned(), None, None),
            )
        } else {
            Step::Abort(InstallError::DownloadFailed)
        },
        ZshState::RunningInstaller => if outcome.succeeded() {
            Step::Perform(
                ZshState::CheckingInstaller,
                Operation::Exists { path: "install.sh".to_owned() },
            )
        } else {
            Step::Abort(InstallError::VendorInstallFailed)
        },
        ZshState::CheckingInstaller => if outcome.succeeded() {
            Step::Perform(
                ZshState::RemovingInstaller,
                Operation::RemoveFile { path: "install.sh".to_owned() },
            )
        } else {
            restore_then_reset(site, RcState::Start, outcome)
        },
        ZshState::RemovingInstaller => if outcome.succeeded() {
            restore_then_reset(site, RcState::Start, outcome)
        } else {
            Step::Abort(InstallError::CleanupFailed)
        },
        ZshState::RestoringConfig(rc) => restore_then_reset(site, rc, outcome),
        ZshState::Resetting(reset) => reset_shell_package(site, reset, outcome),
    }
}

} // verus!
