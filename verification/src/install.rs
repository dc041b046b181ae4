//! The orchestrator: the dotfiles bootstrap first, then every feature of the
//! plan, in the order of the plan.

use vstd::prelude::*;
use crate::dotfiles::{
    dotfiles_run, dotfiles_setup, setup_dotfiles, DotfilesState, DotfilesStateView,
};
use crate::error::InstallError;
use crate::feature::Feature;
use crate::keys::{install_public_keys, install_secretkeys, public_keys_install, KeysState};
use crate::neovim::{install_neovim, neovim_install, NeovimState};
use crate::operation::{OperationView, Outcome, OutcomeView, Step, StepView};
use crate::run::stands_after;
use crate::site::{Site, SiteView};
use crate::tmux::{install_tmux, tmux_install, TmuxState};
use crate::zsh::{install_zsh, zsh_install, ZshState};

verus! {

/// Where the installation of one feature stands.
#[derive(Clone, Copy, Debug, PartialEq, Eq, Structural)]
pub enum FeatureState {
    /// Nothing was asked for yet.
    Start,
    /// The shell environment is being installed.
    Zsh(ZshState),
    /// The editor is being installed.
    Neovim(NeovimState),
    /// The public keys are being installed.
    PublicKeys(KeysState),
    /// The multiplexer is being installed.
    Tmux(TmuxState),
}

impl View for FeatureState {
    type V = FeatureState;

    open spec fn view(&self) -> FeatureState {
        *self
    }
}

/// A step of the shell's installer, seen as a step of a feature.
pub open spec fn as_zsh(step: StepView<ZshState, InstallError>) -> StepView<
    FeatureState,
    InstallError,
> {
    step.within(|state: ZshState| FeatureState::Zsh(state))
}

/// A step of the editor's installer, seen as a step of a feature.
pub open spec fn as_neovim(step: StepView<NeovimState, InstallError>) -> StepView<
    FeatureState,
    InstallError,
> {
    step.within(|state: NeovimState| FeatureState::Neovim(state))
}

/// A step of the public keys' installer, seen as a step of a feature.
pub open spec fn as_public_keys(step: StepView<KeysState, InstallError>) -> StepView<
    FeatureState,
    InstallError,
> {
    step.within(|state: KeysState| FeatureState::PublicKeys(state))
}

/// A step of the multiplexer's installer, seen as a step of a feature.
pub open spec fn as_tmux(step: StepView<TmuxState, InstallError>) -> StepView<
    FeatureState,
    InstallError,
> {
    step.within(|state: TmuxState| FeatureState::Tmux(state))
}

impl Feature {
    /// The installation of the feature.
    ///
    /// From [`FeatureState::Start`] the feature picks its installer; the
    /// secret keys have none and give up at once. An installer that is under
    /// way is carried on.
    pub open spec fn installation(
        self,
        site: SiteView,
        state: FeatureState,
        outcome: OutcomeView,
    ) -> StepView<FeatureState, InstallError> {
        match state {
            FeatureState::Start => match self {
                Feature::ZSH => as_zsh(zsh_install(site, ZshState::Start, outcome)),
                Feature::NeoVIM => as_neovim(neovim_install(site, NeovimState::Start, outcome)),
                Feature::PublicKeys => as_public_keys(
                    public_keys_install(site, KeysState::Start, outcome),
                ),
                Feature::TMUX => as_tmux(tmux_install(site, TmuxState::Start, outcome)),
                Feature::SecretKeys => StepView::Abort(InstallError::NotImplemented),
            },
            FeatureState::Zsh(state) => as_zsh(zsh_install(site, state, outcome)),
            FeatureState::Neovim(state) => as_neovim(neovim_install(site, state, outcome)),
            FeatureState::PublicKeys(state) => as_public_keys(
                public_keys_install(site, state, outcome),
            ),
            FeatureState::Tmux(state) => as_tmux(tmux_install(site, state, outcome)),
        }
    }

    /// Installs the feature. In [`FeatureState::Start`] the outcome is not
    /// looked at.
    pub fn install(&self, site: &Site, state: FeatureState, outcome: &Outcome) -> (step: Step<
        FeatureState,
        InstallError,
    >)
        ensures
            step@ == self.installation(site@, state, outcome@),
    {
        match state {
            FeatureState::Start => match self {
                Feature::ZSH => shell_step(install_zsh(site, ZshState::Start, outcome)),
                Feature::NeoVIM => editor_step(install_neovim(site, NeovimState::Start, outcome)),
                Feature::PublicKeys => keys_step(
                    install_public_keys(site, KeysState::Start, outcome),
                ),
                Feature::TMUX => multiplexer_step(install_tmux(site, TmuxState::Start, outcome)),
                Feature::SecretKeys => match install_secretkeys(site) {
                    Ok(()) => Step::Finished,
                    Err(error) => Step::Abort(error),
                },
            },
            FeatureState::Zsh(state) => shell_step(install_zsh(site, state, outcome)),
            FeatureState::Neovim(state) => editor_step(install_neovim(site, state, outcome)),
            FeatureState::PublicKeys(state) => keys_step(
                install_public_keys(site, state, outcome),
            ),
            FeatureState::Tmux(state) => multiplexer_step(install_tmux(site, state, outcome)),
        }
    }
}

fn shell_step(step: Step<ZshState, InstallError>) -> (lifted: Step<FeatureState, InstallError>)
    ensures
        lifted@ == as_zsh(step@),
{
    match step {
        Step::Perform(state, operation) => Step::Perform(FeatureState::Zsh(state), operation),
        Step::Finished => Step::Finished,
        Step::Abort(error) => Step::Abort(error),
    }
}

fn editor_step(step: Step<NeovimState, InstallError>) -> (lifted: Step<
    FeatureState,
    InstallError,
>)
    ensures
        lifted@ == as_neovim(step@),
{
    match step {
        Step::Perform(state, operation) => Step::Perform(FeatureState::Neovim(state), operation),
        Step::Finished => Step::Finished,
        Step::Abort(error) => Step::Abort(error),
    }
}

fn keys_step(step: Step<KeysState, InstallError>) -> (lifted: Step<FeatureState, InstallError>)
    ensures
        lifted@ == as_public_keys(step@),
{
    match step {
        Step::Perform(state, operation) => Step::Perform(
            FeatureState::PublicKeys(state),
            operation,
        ),
        Step::Finished => Step::Finished,
        Step::Abort(error) => Step::Abort(error),
    }
}

fn multiplexer_step(step: Step<TmuxState, InstallError>) -> (lifted: Step<
    FeatureState,
    InstallError,
>)
    ensures
        lifted@ == as_tmux(step@),
{
    match step {
        Step::Perform(state, operation) => Step::Perform(FeatureState::Tmux(state), operation),
        Step::Finished => Step::Finished,
        Step::Abort(error) => Step::Abort(error),
    }
}

/// Where an installation stands.
#[derive(Clone, Debug, PartialEq, Eq)]
pub enum InstallState {
    /// Nothing was asked for yet.
    Start,
    /// The dotfiles are being bootstrapped; no feature was begun.
    Bootstrapping(DotfilesState),
    /// The bootstrap and the features of the plan before this index are
    /// through; the feature at this index is being installed.
    Installing(usize, FeatureState),
}

/// What an [`InstallState`] is, as mathematics.
pub enum InstallStateView {
    Start,
    Bootstrapping(DotfilesStateView),
    Installing(nat, FeatureState),
}

impl View for InstallState {
    type V = InstallStateView;

    open spec fn view(&self) -> InstallStateView {
        match *self {
            InstallState::Start => InstallStateView::Start,
            InstallState::Bootstrapping(state) => InstallStateView::Bootstrapping(state@),
            InstallState::Installing(index, state) => InstallStateView::Installing(
                index as nat,
                state,
            ),
        }
    }
}

/// The installation of the features `plan[index..]`, in that order, where
/// the installation of `plan[index]` stands at `state`. A feature is begun
/// as soon as the one before it is through; the first that gives up ends it
/// all, and no later feature is begun.
pub open spec fn features_install(
    site: SiteView,
    plan: Seq<Feature>,
    index: nat,
    state: FeatureState,
    outcome: OutcomeView,
) -> StepView<InstallStateView, InstallError>
    decreases plan.len() - index,
{
    if index >= plan.len() {
        StepView::Finished
    } else {
        plan[index as int].installation(site, state, outcome).and_then(
            |state: FeatureState| InstallStateView::Installing(index, state),
            features_install(site, plan, index + 1, FeatureState::Start, outcome),
        )
    }
}

/// A step of the bootstrap, seen as a step of the installation: once the
/// bootstrap is through, the first feature of the plan is begun.
pub open spec fn after_bootstrap(
    site: SiteView,
    plan: Seq<Feature>,
    step: StepView<DotfilesStateView, InstallError>,
    outcome: OutcomeView,
) -> StepView<InstallStateView, InstallError> {
    step.and_then(
        |state: DotfilesStateView| InstallStateView::Bootstrapping(state),
        features_install(site, plan, 0, FeatureState::Start, outcome),
    )
}

/// The installation of the plan `plan` on the site `site`: the bootstrap of
/// the dotfiles, whatever the plan holds, and then the features of the plan
/// as they stand in it, none left out, none moved and none merged with
/// another.
pub open spec fn installation(
    site: SiteView,
    plan: Seq<Feature>,
    state: InstallStateView,
    outcome: OutcomeView,
) -> StepView<InstallStateView, InstallError> {
    match state {
        InstallStateView::Start => after_bootstrap(
            site,
            plan,
            dotfiles_setup(site, DotfilesStateView::Start, outcome),
            outcome,
        ),
        InstallStateView::Bootstrapping(state) => after_bootstrap(
            site,
            plan,
            dotfiles_setup(site, state, outcome),
            outcome,
        ),
        InstallStateView::Installing(index, state) => features_install(
            site,
            plan,
            index,
            state,
            outcome,
        ),
    }
}

/// The transition of the installation of `plan` on `site`, as a value.
pub open spec fn installation_routine(site: SiteView, plan: Seq<Feature>) -> spec_fn(
    InstallStateView,
    OutcomeView,
) -> StepView<InstallStateView, InstallError> {
    |state: InstallStateView, outcome: OutcomeView| installation(site, plan, state, outcome)
}

/// Where the installation stands after the operations asked for so far have
/// ended with `outcomes`.
pub open spec fn installation_run(
    site: SiteView,
    plan: Seq<Feature>,
    outcomes: Seq<OutcomeView>,
) -> StepView<InstallStateView, InstallError> {
    stands_after(
        installation_routine(site, plan),
        installation(site, plan, InstallStateView::Start, OutcomeView::Success),
        outcomes,
    )
}

/// How far an installation has come: nowhere while the dotfiles are
/// bootstrapped, and one further with every feature of the plan that it has
/// reached.
pub open spec fn progress(state: InstallStateView) -> nat {
    match state {
        InstallStateView::Start => 0,
        InstallStateView::Bootstrapping(_) => 0,
        InstallStateView::Installing(index, _) => index + 1,
    }
}

/// No feature is passed over in silence: begun, it asks for an operation or
/// gives up. The secret keys give up at once, on every site.
pub proof fn lemma_no_feature_is_passed_over(
    feature: Feature,
    site: SiteView,
    outcome: OutcomeView,
)
    ensures
        !(feature.installation(site, FeatureState::Start, outcome) is Finished),
        feature == Feature::SecretKeys ==> feature.installation(
            site,
            FeatureState::Start,
            outcome,
        ) == StepView::<FeatureState, InstallError>::Abort(InstallError::NotImplemented),
{
}

/// Whatever the features ask for is asked for on behalf of a feature of the
/// plan, and never of one that stands before the feature at hand.
pub proof fn lemma_features_keep_to_the_plan(
    site: SiteView,
    plan: Seq<Feature>,
    index: nat,
    state: FeatureState,
    outcome: OutcomeView,
)
    ensures
        features_install(site, plan, index, state, outcome) matches StepView::Perform(next, _)
            ==> next matches InstallStateView::Installing(reached, _) && index <= reached
            < plan.len(),
    decreases plan.len() - index,
{
    if index < plan.len() {
        if plan[index as int].installation(site, state, outcome) is Finished {
            lemma_features_keep_to_the_plan(site, plan, index + 1, FeatureState::Start, outcome);
        }
    }
}

/// No transition takes an installation backwards: it stays with the
/// bootstrap, stays with the feature at hand, or goes on to a later feature
/// of the plan.
pub proof fn lemma_installation_moves_forward(
    site: SiteView,
    plan: Seq<Feature>,
    state: InstallStateView,
    outcome: OutcomeView,
)
    ensures
        installation(site, plan, state, outcome) matches StepView::Perform(next, _) ==> progress(
            state,
        ) <= progress(next) <= plan.len(),
{
    lemma_features_keep_to_the_plan(site, plan, 0, FeatureState::Start, outcome);
    match state {
        InstallStateView::Installing(index, feature) => {
            lemma_features_keep_to_the_plan(site, plan, index, feature, outcome);
        },
        _ => {},
    }
}

/// The bootstrap comes first. As long as the bootstrap is under way the
/// installation asks for exactly what the bootstrap asks for, and where the
/// bootstrap gives up the installation gives up with it. No feature is begun
/// before the bootstrap is through.
pub proof fn lemma_bootstrap_comes_first(
    site: SiteView,
    plan: Seq<Feature>,
    outcomes: Seq<OutcomeView>,
)
    ensures
        match dotfiles_run(site, outcomes) {
            StepView::Perform(state, operation) => installation_run(site, plan, outcomes)
                == StepView::<InstallStateView, InstallError>::Perform(
                InstallStateView::Bootstrapping(state),
                operation,
            ),
            StepView::Abort(error) => installation_run(site, plan, outcomes) == StepView::<
                InstallStateView,
                InstallError,
            >::Abort(error),
            StepView::Finished => installation_run(site, plan, outcomes) matches StepView::Perform(
                state,
                _,
            ) ==> state is Installing,
        },
    decreases outcomes.len(),
{
    if outcomes.len() > 0 {
        let before = outcomes.drop_last();
        let outcome = outcomes.last();
        lemma_bootstrap_comes_first(site, plan, before);
        lemma_features_keep_to_the_plan(site, plan, 0, FeatureState::Start, outcome);
        match installation_run(site, plan, before) {
            StepView::Perform(InstallStateView::Installing(index, feature), _) => {
                lemma_features_keep_to_the_plan(site, plan, index, feature, outcome);
            },
            _ => {},
        }
    }
}

/// The transition of the installation of `feature` on `site`, as a value.
pub open spec fn feature_routine(feature: Feature, site: SiteView) -> spec_fn(
    FeatureState,
    OutcomeView,
) -> StepView<FeatureState, InstallError> {
    |state: FeatureState, outcome: OutcomeView| feature.installation(site, state, outcome)
}

/// Where the installation of `feature` stands after `outcomes`, begun at the
/// step `Perform(state, operation)`.
pub open spec fn feature_run(
    feature: Feature,
    site: SiteView,
    state: FeatureState,
    operation: OperationView,
    outcomes: Seq<OutcomeView>,
) -> StepView<FeatureState, InstallError> {
    stands_after(feature_routine(feature, site), StepView::Perform(state, operation), outcomes)
}

/// Where the installation of `plan` stands after `outcomes`, begun at the
/// step of the feature `plan[index]` that is `Perform(state, operation)`.
pub open spec fn installation_run_at(
    site: SiteView,
    plan: Seq<Feature>,
    index: nat,
    state: FeatureState,
    operation: OperationView,
    outcomes: Seq<OutcomeView>,
) -> StepView<InstallStateView, InstallError> {
    stands_after(
        installation_routine(site, plan),
        StepView::Perform(InstallStateView::Installing(index, state), operation),
        outcomes,
    )
}

/// A feature comes whole. While the installer of the feature at hand is
/// under way the installation asks for exactly what that installer asks for,
/// and where the installer gives up the installation gives up with it. Only
/// when the installer is through does the installation go on, and then to a
/// feature that stands later in the plan.
pub proof fn lemma_feature_comes_whole(
    site: SiteView,
    plan: Seq<Feature>,
    index: nat,
    state: FeatureState,
    operation: OperationView,
    outcomes: Seq<OutcomeView>,
)
    requires
        index < plan.len(),
    ensures
        match feature_run(plan[index as int], site, state, operation, outcomes) {
            StepView::Perform(next, asked) => installation_run_at(
                site,
                plan,
                index,
                state,
                operation,
                outcomes,
            ) == StepView::<InstallStateView, InstallError>::Perform(
                InstallStateView::Installing(index, next),
                asked,
            ),
            StepView::Abort(error) => installation_run_at(
                site,
                plan,
                index,
                state,
                operation,
                outcomes,
            ) == StepView::<InstallStateView, InstallError>::Abort(error),
            StepView::Finished => installation_run_at(
                site,
                plan,
                index,
                state,
                operation,
                outcomes,
            ) matches StepView::Perform(reached, _) ==> index + 1 < progress(reached)
                <= plan.len(),
        },
    decreases outcomes.len(),
{
    if outcomes.len() > 0 {
        let before = outcomes.drop_last();
        let outcome = outcomes.last();
        lemma_feature_comes_whole(site, plan, index, state, operation, before);
        match feature_run(plan[index as int], site, state, operation, before) {
            StepView::Perform(next, _) => {
                if plan[index as int].installation(site, next, outcome) is Finished {
                    lemma_features_keep_to_the_plan(
                        site,
                        plan,
                        index + 1,
                        FeatureState::Start,
                        outcome,
                    );
                }
            },
            StepView::Finished => {
                match installation_run_at(site, plan, index, state, operation, before) {
                    StepView::Perform(reached, _) => {
                        lemma_installation_moves_forward(site, plan, reached, outcome);
                    },
                    _ => {},
                }
            },
            StepView::Abort(_) => {},
        }
    }
}

/// The features come in the order of the plan. Of two moments of one
/// installation, the later one is at least as far into the plan as the
/// earlier one.
pub proof fn lemma_features_in_plan_order(
    site: SiteView,
    plan: Seq<Feature>,
    outcomes: Seq<OutcomeView>,
    earlier: int,
)
    requires
        0 <= earlier <= outcomes.len(),
    ensures
        installation_run(site, plan, outcomes.take(earlier)) matches StepView::Perform(then, _)
            ==> (installation_run(site, plan, outcomes) matches StepView::Perform(now, _)
            ==> progress(then) <= progress(now) <= plan.len()),
    decreases outcomes.len(),
{
    if earlier == outcomes.len() {
        assert(outcomes.take(earlier) =~= outcomes);
        if outcomes.len() == 0 {
            lemma_installation_moves_forward(
                site,
                plan,
                InstallStateView::Start,
                OutcomeView::Success,
            );
        } else {
            match installation_run(site, plan, outcomes.drop_last()) {
                StepView::Perform(state, _) => {
                    lemma_installation_moves_forward(site, plan, state, outcomes.last());
                },
                _ => {},
            }
        }
    } else {
        let before = outcomes.drop_last();
        assert(before.take(earlier) =~= outcomes.take(earlier));
        lemma_features_in_plan_order(site, plan, before, earlier);
        match installation_run(site, plan, before) {
            StepView::Perform(state, _) => {
                lemma_installation_moves_forward(site, plan, state, outcomes.last());
            },
            _ => {},
        }
    }
}

fn install_features(
    site: &Site,
    features: &Vec<Feature>,
    first: usize,
    begun: FeatureState,
    outcome: &Outcome,
) -> (step: Step<InstallState, InstallError>)
    ensures
        step@ == features_install(site@, features@, first as nat, begun, outcome@),
{
    let mut index = first;
    let mut state = begun;
    while index < features.len()
        invariant
            features_install(site@, features@, index as nat, state, outcome@) == features_install(
                site@,
                features@,
                first as nat,
                begun,
                outcome@,
            ),
        decreases features.len() - index,
    {
        match features[index].install(site, state, outcome) {
            Step::Perform(next, operation) => {
                return Step::Perform(InstallState::Installing(index, next), operation);
            },
            Step::Finished => {
                index += 1;
                state = FeatureState::Start;
            },
            Step::Abort(error) => {
                return Step::Abort(error);
            },
        }
    }
    Step::Finished
}

/// Installs the features `features` on the site `site`. In
/// [`InstallState::Start`] the outcome is not looked at.
pub fn install(site: &Site, features: &Vec<Feature>, state: InstallState, outcome: &Outcome) -> (step:
    Step<InstallState, InstallError>)
    ensures
        step@ == installation(site@, features@, state@, outcome@),
{
    let bootstrap = match state {
        InstallState::Start => DotfilesState::Start,
        InstallState::Bootstrapping(state) => state,
        InstallState::Installing(index, state) => {
            return install_features(site, features, index, state, outcome);
        },
    };
    match setup_dotfiles(site, bootstrap, outcome) {
        Step::Perform(next, operation) => Step::Perform(
            InstallState::Bootstrapping(next),
            operation,
        ),
        Step::Finished => install_features(site, features, 0, FeatureState::Start, outcome),
        Step::Abort(error) => Step::Abort(error),
    }
}

} // verus!
