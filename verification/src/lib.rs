//! Decision engine of a personal environment installer.
//!
//! Given a target directory and a list of features, the library decides which
//! outside operations have to happen, in which order, and what a failure of
//! each of them means. It never touches the system itself: every routine is a
//! transition function that takes the state it stands in and the outcome of
//! the operation performed last, and answers with the next [`Step`]. A driver
//! performs the operation that a step asks for and comes back with the state
//! of that step and the [`Outcome`] of the operation.

pub mod command;
pub mod dependencies;
pub mod dotfiles;
pub mod error;
pub mod feature;
pub mod install;
pub mod keys;
pub mod neovim;
pub mod operation;
pub mod package;
pub mod plan;
pub mod run;
pub mod site;
pub mod text;
pub mod tmux;
pub mod validate;
pub mod zsh;

pub use dependencies::{check_dependencies, DependencyState};
pub use dotfiles::{setup_dotfiles, DotfilesState, DotfilesStateView};
pub use error::{DependencyError, InstallError, PathError, Tool};
pub use feature::{list, Feature};
pub use install::{install, FeatureState, InstallState, InstallStateView};
pub use keys::{install_public_keys, install_secretkeys, KeysState};
pub use neovim::{install_neovim, install_neovim_dependencies, NeovimState, SetupState};
pub use operation::{Operation, OperationView, Outcome, OutcomeView, Step, StepView};
pub use package::{reset_dotfile_package, ResetState};
pub use plan::resolve;
pub use site::{Site, SiteView, Sources, SourcesView};
pub use text::join;
pub use tmux::{install_tmux, TmuxState};
pub use validate::path_validator;
pub use zsh::{install_zsh, restore_shell_config, RcState, ZshState};
