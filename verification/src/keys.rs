//! The installers of the public keys and of the secret keys.

use vstd::prelude::*;
use crate::error::InstallError;
use crate::operation::{Operation, OperationView, Outcome, OutcomeView, Step, StepView};
use crate::site::{Site, SiteView};
use crate::text::{join, joined};

verus! {

/// Where the installation of the public keys stands.
#[derive(Clone, Copy, Debug, PartialEq, Eq, Structural)]
pub enum KeysState {
    /// Nothing was asked for yet.
    Start,
    /// The clone was asked for.
    Cloning,
}

impl View for KeysState {
    type V = KeysState;

    open spec fn view(&self) -> KeysState {
        *self
    }
}

/// The directory that the public keys are cloned into.
pub open spec fn public_keys_directory(site: SiteView) -> Seq<char> {
    joined(site.installation_root, "public-keys"@)
}

/// The installation of the public keys: one clone, fatal when it fails.
pub open spec fn public_keys_install(
    site: SiteView,
    state: KeysState,
    outcome: OutcomeView,
) -> StepView<KeysState, InstallError> {
    match state {
        KeysState::Start => StepView::Perform(
            KeysState::Cloning,
            OperationView::CloneRepository {
                url: site.sources.public_keys,
                into: public_keys_directory(site),
            },
        ),
        KeysState::Cloning => if outcome.succeeded() {
            StepView::Finished
        } else {
            StepView::Abort(InstallError::CloneFailed)
        },
    }
}

/// Clones the public keys below the installation root. In
/// [`KeysState::Start`] the outcome is not looked at.
pub fn install_public_keys(site: &Site, state: KeysState, outcome: &Outcome) -> (step: Step<
    KeysState,
    InstallError,
>)
    ensures
        step@ == public_keys_install(site@, state, outcome@),
{
    match state {
        KeysState::Start => Step::Perform(
            KeysState::Cloning,
            Operation::CloneRepository {
                url: site.sources.public_keys.clone(),
                into: join(site.installation_root.as_str(), "public-keys"),
            },
        ),
        KeysState::Cloning => if outcome.succeeded() {
            Step::Finished
        } else {
            Step::Abort(InstallError::CloneFailed)
        },
    }
}

/// The secret keys have no installer yet: asking for them fails, whatever
/// the site, before anything is touched.
pub fn install_secretkeys(_site: &Site) -> (done: Result<(), InstallError>)
    ensures
        done == Err::<(), InstallError>(InstallError::NotImplemented),
{
    Err(InstallError::NotImplemented)
}

} // verus!
