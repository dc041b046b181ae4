//! The bootstrap of the dotfiles checkout, which comes before any feature.

use vstd::prelude::*;
use crate::command::{make_script, restore, script};
use crate::error::InstallError;
use crate::operation::{Operation, OperationView, Outcome, OutcomeView, Step, StepView};
use crate::package::{package_reset, reset_dotfile_package, ResetState};
use crate::run::stands_after;
use crate::site::{Site, SiteView};
use crate::text::{join, joined};

verus! {

/// Where the bootstrap of the dotfiles stands.
#[derive(Clone, Debug, PartialEq, Eq)]
pub enum DotfilesState {
    /// Nothing was asked for yet.
    Start,
    /// Asked whether the dotfiles root is a repository already.
    Probing,
    /// Asked to remove the old checkout.
    Removing,
    /// The clone was asked for.
    Cloning,
    /// The run of the checkout's install entry point was asked for.
    Bootstrapping,
    /// The marker file is being overwritten.
    WritingMarker,
    /// The packages of the checkout were asked for.
    Listing,
    /// The packages are being reset, one after the other; those before
    /// `index` are through.
    Resetting { packages: Vec<String>, index: usize, reset: ResetState },
}

/// What a [`DotfilesState`] is, as mathematics.
pub enum DotfilesStateView {
    Start,
    Probing,
    Removing,
    Cloning,
    Bootstrapping,
    WritingMarker,
    Listing,
    Resetting { packages: Seq<Seq<char>>, index: nat, reset: ResetState },
}

impl View for DotfilesState {
    type V = DotfilesStateView;

    open spec fn view(&self) -> DotfilesStateView {
        match *self {
            DotfilesState::Start => DotfilesStateView::Start,
            DotfilesState::Probing => DotfilesStateView::Probing,
            DotfilesState::Removing => DotfilesStateView::Removing,
            DotfilesState::Cloning => DotfilesStateView::Cloning,
            DotfilesState::Bootstrapping => DotfilesStateView::Bootstrapping,
            DotfilesState::WritingMarker => DotfilesStateView::WritingMarker,
            DotfilesState::Listing => DotfilesStateView::Listing,
            DotfilesState::Resetting { packages, index, reset } => DotfilesStateView::Resetting {
                packages: packages.deep_view(),
                index: index as nat,
                reset,
            },
        }
    }
}

/// The clone of the dotfiles repository into the dotfiles root.
pub open spec fn dotfiles_clone(site: SiteView) -> OperationView {
    OperationView::CloneRepository { url: site.sources.dotfiles, into: site.dotfiles_root }
}

/// The run of the checkout's install entry point, inside the checkout.
pub open spec fn dotfiles_entry_point(site: SiteView) -> OperationView {
    script("bash"@, joined(site.dotfiles_root, "install.sh"@), None, Some(site.dotfiles_root))
}

/// The reset of the packages `packages[index..]`, in that order, where the
/// reset of `packages[index]` stands at `reset`. A package is begun as soon
/// as the one before it is through; the first reset that fails ends it all.
pub open spec fn packages_reset(
    site: SiteView,
    packages: Seq<Seq<char>>,
    index: nat,
    reset: ResetState,
    outcome: OutcomeView,
) -> StepView<DotfilesStateView, InstallError>
    decreases packages.len() - index,
{
    if index >= packages.len() {
        StepView::Finished
    } else {
        package_reset(site.dotfiles_root, packages[index as int], reset, outcome).and_then(
            |reset: ResetState| DotfilesStateView::Resetting { packages, index, reset },
            packages_reset(site, packages, index + 1, ResetState::Start, outcome),
        )
    }
}

/// The bootstrap of the dotfiles.
///
/// A checkout that is there already is removed and cloned afresh; otherwise
/// the repository is cloned right away. Then the checkout's install entry
/// point runs inside the checkout, the marker file is overwritten with the
/// installation root, and every directory directly below the dotfiles root
/// is reset as a package. Fatal are a removal, a clone, a write or a listing
/// that fails, a command that cannot be launched, and an unknown home
/// directory.
pub open spec fn dotfiles_setup(
    site: SiteView,
    state: DotfilesStateView,
    outcome: OutcomeView,
) -> StepView<DotfilesStateView, InstallError> {
    match state {
        DotfilesStateView::Start => StepView::Perform(
            DotfilesStateView::Probing,
            OperationView::OpenRepository { path: site.dotfiles_root },
        ),
        DotfilesStateView::Probing => if outcome.succeeded() {
            StepView::Perform(
                DotfilesStateView::Removing,
                OperationView::RemoveTree { path: site.dotfiles_root },
            )
        } else {
            StepView::Perform(DotfilesStateView::Cloning, dotfiles_clone(site))
        },
        DotfilesStateView::Removing => if outcome.succeeded() {
            StepView::Perform(DotfilesStateView::Cloning, dotfiles_clone(site))
        } else {
            StepView::Abort(InstallError::RemoveFailed)
        },
        DotfilesStateView::Cloning => if outcome.succeeded() {
            StepView::Perform(DotfilesStateView::Bootstrapping, dotfiles_entry_point(site))
        } else {
            StepView::Abort(InstallError::CloneFailed)
        },
        DotfilesStateView::Bootstrapping => if !outcome.succeeded() {
            StepView::Abort(InstallError::BootstrapFailed)
        } else {
            match site.home {
                Some(home) => StepView::Perform(
                    DotfilesStateView::WritingMarker,
                    OperationView::Overwrite {
                        path: SiteView::marker_file(home),
                        contents: site.marker_line(),
                    },
                ),
                None => StepView::Abort(InstallError::HomeUnset),
            }
        },
        DotfilesStateView::WritingMarker => if outcome.succeeded() {
            StepView::Perform(
                DotfilesStateView::Listing,
                OperationView::ListDirectories { path: site.dotfiles_root },
            )
        } else {
            StepView::Abort(InstallError::MarkerFailed)
        },
        DotfilesStateView::Listing => if outcome.succeeded() {
            packages_reset(site, outcome.entries(), 0, ResetState::Start, outcome)
        } else {
            StepView::Abort(InstallError::ListFailed)
        },
        DotfilesStateView::Resetting { packages, index, reset } => packages_reset(
            site,
            packages,
            index,
            reset,
            outcome,
        ),
    }
}

/// The step that asks for the restore of `packages[index]`.
pub open spec fn resetting(site: SiteView, packages: Seq<Seq<char>>, index: nat) -> StepView<
    DotfilesStateView,
    InstallError,
> {
    StepView::Perform(
        DotfilesStateView::Resetting { packages, index, reset: ResetState::Restoring },
        restore(joined(site.dotfiles_root, packages[index as int])),
    )
}

/// Every package is reset, in the order of the listing: a package is begun
/// with the restore of its directory, and once that restore was launched the
/// next package is begun, or the bootstrap is through where none is left. A
/// restore that could not be launched ends the bootstrap.
pub proof fn lemma_packages_are_reset_in_turn(
    site: SiteView,
    packages: Seq<Seq<char>>,
    index: nat,
    outcome: OutcomeView,
)
    requires
        index < packages.len(),
    ensures
        packages_reset(site, packages, index, ResetState::Start, outcome) == resetting(
            site,
            packages,
            index,
        ),
        packages_reset(site, packages, index, ResetState::Restoring, outcome) == if !outcome.succeeded() {
            StepView::Abort(InstallError::RestoreFailed)
        } else if index + 1 < packages.len() {
            resetting(site, packages, index + 1)
        } else {
            StepView::Finished
        },
{
    if outcome.succeeded() && index + 1 < packages.len() {
        assert(packages_reset(site, packages, index + 1, ResetState::Start, outcome) == resetting(
            site,
            packages,
            index + 1,
        ));
    }
}

/// The transition of the bootstrap on the site `site`, as a value.
pub open spec fn dotfiles_routine(site: SiteView) -> spec_fn(
    DotfilesStateView,
    OutcomeView,
) -> StepView<DotfilesStateView, InstallError> {
    |state: DotfilesStateView, outcome: OutcomeView| dotfiles_setup(site, state, outcome)
}

/// Where the bootstrap stands after the operations asked for so far have
/// ended with `outcomes`.
pub open spec fn dotfiles_run(site: SiteView, outcomes: Seq<OutcomeView>) -> StepView<
    DotfilesStateView,
    InstallError,
> {
    stands_after(
        dotfiles_routine(site),
        dotfiles_setup(site, DotfilesStateView::Start, OutcomeView::Success),
        outcomes,
    )
}

fn make_dotfiles_clone(site: &Site) -> (operation: Operation)
    ensures
        operation@ == dotfiles_clone(site@),
{
    Operation::CloneRepository {
        url: site.sources.dotfiles.clone(),
        into: site.dotfiles_root.clone(),
    }
}

fn reset_packages(
    site: &Site,
    packages: Vec<String>,
    first: usize,
    begun: ResetState,
    outcome: &Outcome,
) -> (step: Step<DotfilesState, InstallError>)
    ensures
        step@ == packages_reset(site@, packages.deep_view(), first as nat, begun, outcome@),
{
    let ghost names = packages.deep_view();
    let mut index = first;
    let mut reset = begun;
    while index < packages.len()
        invariant
            names == packages.deep_view(),
            packages_reset(site@, names, index as nat, reset, outcome@) == packages_reset(
                site@,
                names,
                first as nat,
                begun,
                outcome@,
            ),
        decreases packages.len() - index,
    {
        assert(names[index as int] == packages[index as int]@);
        match reset_dotfile_package(
            site.dotfiles_root.as_str(),
            packages[index].as_str(),
            reset,
            outcome,
        ) {
            Step::Perform(next, operation) => {
                return Step::Perform(
                    DotfilesState::Resetting { packages, index, reset: next },
                    operation,
                );
            },
            Step::Finished => {
                index += 1;
                reset = ResetState::Start;
            },
            Step::Abort(error) => {
                return Step::Abort(error);
            },
        }
    }
    Step::Finished
}

/// Bootstraps the dotfiles checkout. In [`DotfilesState::Start`] the outcome
/// is not looked at.
pub fn setup_dotfiles(site: &Site, state: DotfilesState, outcome: &Outcome) -> (step: Step<
    DotfilesState,
    InstallError,
>)
    ensures
        step@ == dotfiles_setup(site@, state@, outcome@),
{
    match state {
        DotfilesState::Start => Step::Perform(
            DotfilesState::Probing,
            Operation::OpenRepository { path: site.dotfiles_root.clone() },
        ),
        DotfilesState::Probing => if outcome.succeeded() {
            Step::Perform(
                DotfilesState::Removing,
                Operation::RemoveTree { path: site.dotfiles_root.clone() },
            )
        } else {
            Step::Perform(DotfilesState::Cloning, make_dotfiles_clone(site))
        },
        DotfilesState::Removing => if outcome.succeeded() {
            Step::Perform(DotfilesState::Cloning, make_dotfiles_clone(site))
        } else {
            Step::Abort(InstallError::RemoveFailed)
        },
        DotfilesState::Cloning => if outcome.succeeded() {
            Step::Perform(
                DotfilesState::Bootstrapping,
                make_script(
                    "bash",
                    join(site.dotfiles_root.as_str(), "install.sh"),
                    None,
                    Some(site.dotfiles_root.clone()),
                ),
            )
        } else {
            Step::Abort(InstallError::CloneFailed)
        },
        DotfilesState::Bootstrapping => if !outcome.succeeded() {
            Step::Abort(InstallError::BootstrapFailed)
        } else {
            match &site.home {
                Some(home) => Step::Perform(
                    DotfilesState::WritingMarker,
                    Operation::Overwrite {
                        path: Site::marker_file(home.as_str()),
                        contents: site.marker_line(),
                    },
                ),
                None => Step::Abort(InstallError::HomeUnset),
            }
        },
        DotfilesState::WritingMarker => if outcome.succeeded() {
            Step::Perform(
                DotfilesState::Listing,
                Operation::ListDirectories { path: site.dotfiles_root.clone() },
            )
        } else {
            Step::Abort(InstallError::MarkerFailed)
        },
        DotfilesState::Listing => if outcome.succeeded() {
            reset_packages(site, outcome.entries(), 0, ResetState::Start, outcome)
        } else {
            Step::Abort(InstallError::ListFailed)
        },
        DotfilesState::Resetting { packages, index, reset } => reset_packages(
            site,
            packages,
            index,
            reset,
            outcome,
        ),
    }
}

} // verus!
