//! What can go wrong, and the diagnostic that names it.

use vstd::prelude::*;

verus! {

/// An outside tool that has to be present before anything is changed.
#[derive(Clone, Copy, Debug, PartialEq, Eq, Structural)]
pub enum Tool {
    Stow,
    Zsh,
    Wget,
}

impl Tool {
    /// The name under which the tool is launched.
    pub open spec fn program_text(self) -> Seq<char> {
        match self {
            Tool::Stow => "stow"@,
            Tool::Zsh => "zsh"@,
            Tool::Wget => "wget"@,
        }
    }

    pub fn program(&self) -> (name: &'static str)
        ensures
            name@ == self.program_text(),
    {
        match self {
            Tool::Stow => "stow",
            Tool::Zsh => "zsh",
            Tool::Wget => "wget",
        }
    }
}

/// A required tool could not be launched.
#[derive(Clone, Copy, Debug, PartialEq, Eq, Structural)]
pub enum DependencyError {
    Missing(Tool),
}

impl DependencyError {
    pub open spec fn message_text(self) -> Seq<char> {
        match self {
            DependencyError::Missing(Tool::Stow) => "Stow is not installed and can not be installed! Install it!"@,
            DependencyError::Missing(Tool::Zsh) => "ZSH is not installed and can not be installed! Install it!"@,
            DependencyError::Missing(Tool::Wget) => "wget is not installed and can not be installed! Install it!"@,
        }
    }

    /// The diagnostic shown for this error.
    pub fn message(&self) -> (text: String)
        ensures
            text@ == self.message_text(),
    {
        match self {
            DependencyError::Missing(Tool::Stow) => "Stow is not installed and can not be installed! Install it!".to_owned(),
            DependencyError::Missing(Tool::Zsh) => "ZSH is not installed and can not be installed! Install it!".to_owned(),
            DependencyError::Missing(Tool::Wget) => "wget is not installed and can not be installed! Install it!".to_owned(),
        }
    }
}

/// Why a directory cannot be installed into.
#[derive(Clone, Copy, Debug, PartialEq, Eq, Structural)]
pub enum PathError {
    NotADirectory,
    NotWritable,
}

impl PathError {
    pub open spec fn message_text(self) -> Seq<char> {
        match self {
            PathError::NotADirectory => "Path is not a directory"@,
            PathError::NotWritable => "Directory is not writable"@,
        }
    }

    /// The diagnostic shown for this error.
    pub fn message(&self) -> (text: String)
        ensures
            text@ == self.message_text(),
    {
        match self {
            PathError::NotADirectory => "Path is not a directory".to_owned(),
            PathError::NotWritable => "Directory is not writable".to_owned(),
        }
    }
}

/// A fatal condition met while installing. Nothing is retried and nothing
/// that was already done is undone.
#[derive(Clone, Copy, Debug, PartialEq, Eq, Structural)]
pub enum InstallError {
    /// The feature is registered but has no installer yet.
    NotImplemented,
    /// The home directory of the user is not known.
    HomeUnset,
    /// A repository could not be cloned.
    CloneFailed,
    /// The editor's setup script could not be launched.
    SetupFailed,
    /// The command that links a configuration could not be launched.
    LinkFailed,
    /// The command that restores a package could not be launched.
    RestoreFailed,
    /// The downloader could not be launched.
    DownloadFailed,
    /// The shell's vendor installer could not be launched.
    VendorInstallFailed,
    /// The downloaded installer was there and could not be removed.
    CleanupFailed,
    /// The shell resource file was there and could not be set aside.
    BackupFailed,
    /// The resource file that the vendor set aside could not be put back.
    AdoptFailed,
    /// The resource file that was set aside could not be put back.
    RecoverFailed,
    /// The old dotfiles checkout could not be removed.
    RemoveFailed,
    /// The install entry point of the dotfiles could not be launched.
    BootstrapFailed,
    /// The environment marker file could not be overwritten.
    MarkerFailed,
    /// The packages of the dotfiles checkout could not be listed.
    ListFailed,
}

impl InstallError {
    pub open spec fn message_text(self) -> Seq<char> {
        match self {
            InstallError::NotImplemented => "Secret keys not implemented yet!"@,
            InstallError::HomeUnset => "HOME is not set"@,
            InstallError::CloneFailed => "failed to clone"@,
            InstallError::SetupFailed => "failed to execute setup.sh for configurations-neovim."@,
            InstallError::LinkFailed => "failed to link custom configuration."@,
            InstallError::RestoreFailed => "failed to restore dotfile package."@,
            InstallError::DownloadFailed => "failed to download oh-my-zsh install script."@,
            InstallError::VendorInstallFailed => "failed to install oh-my-zsh via install script."@,
            InstallError::CleanupFailed => "failed to remove install.sh"@,
            InstallError::BackupFailed => "failed to back up .zshrc"@,
            InstallError::AdoptFailed => "failed to rename .zshrc.pre-oh-my-zsh to .zshrc"@,
            InstallError::RecoverFailed => "failed to restore back up .zshrc"@,
            InstallError::RemoveFailed => "failed to remove dotfiles directory"@,
            InstallError::BootstrapFailed => "failed to execute install.sh for dotfiles."@,
            InstallError::MarkerFailed => "failed to write to ~/.red_panda_setup.sh"@,
            InstallError::ListFailed => "failed to list the dotfile packages"@,
        }
    }

    /// The diagnostic shown for this error.
    pub fn message(&self) -> (text: String)
        ensures
            text@ == self.message_text(),
    {
        match self {
            InstallError::NotImplemented => "Secret keys not implemented yet!".to_owned(),
            InstallError::HomeUnset => "HOME is not set".to_owned(),
            InstallError::CloneFailed => "failed to clone".to_owned(),
            InstallError::SetupFailed => "failed to execute setup.sh for configurations-neovim.".to_owned(),
            InstallError::LinkFailed => "failed to link custom configuration.".to_owned(),
            InstallError::RestoreFailed => "failed to restore dotfile package.".to_owned(),
            InstallError::DownloadFailed => "failed to download oh-my-zsh install script.".to_owned(),
            InstallError::VendorInstallFailed => "failed to install oh-my-zsh via install script.".to_owned(),
            InstallError::CleanupFailed => "failed to remove install.sh".to_owned(),
            InstallError::BackupFailed => "failed to back up .zshrc".to_owned(),
            InstallError::AdoptFailed => "failed to rename .zshrc.pre-oh-my-zsh to .zshrc".to_owned(),
            InstallError::RecoverFailed => "failed to restore back up .zshrc".to_owned(),
            InstallError::RemoveFailed => "failed to remove dotfiles directory".to_owned(),
            InstallError::BootstrapFailed => "failed to execute install.sh for dotfiles.".to_owned(),
            InstallError::MarkerFailed => "failed to write to ~/.red_panda_setup.sh".to_owned(),
            InstallError::ListFailed => "failed to list the dotfile packages".to_owned(),
        }
    }
}

} // verus!
