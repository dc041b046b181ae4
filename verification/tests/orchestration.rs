use std::collections::{BTreeMap, BTreeSet};

use red_panda::error::InstallError;
use red_panda::feature::Feature;
use red_panda::install::{install, FeatureState, InstallState};
use red_panda::dotfiles::DotfilesState;
use red_panda::list;
use red_panda::operation::{Operation, Outcome, Step};
use red_panda::site::{Site, Sources};
use red_panda::tmux::TmuxState;

/// A pretended machine: what is on its disk, and what was launched on it.
#[derive(Clone, Debug, PartialEq, Eq)]
struct World {
    repositories: BTreeSet<String>,
    files: BTreeMap<String, String>,
    packages: Vec<String>,
    launched: Vec<Vec<String>>,
}

impl World {
    fn fresh() -> World {
        let mut files = BTreeMap::new();
        files.insert("/home/panda/.red_panda_setup.sh".to_string(), String::new());
        World {
            repositories: BTreeSet::new(),
            files,
            packages: vec!["zsh".to_string(), "nvim".to_string()],
            launched: Vec::new(),
        }
    }

    fn perform(&mut self, operation: &Operation) -> Outcome {
        let done = |ok: bool| if ok { Outcome::Success } else { Outcome::Failure };
        match operation {
            Operation::Probe { program, arguments } | Operation::Run { program, arguments, .. } => {
                let mut line = vec![program.clone()];
                line.extend(arguments.iter().cloned());
                self.launched.push(line);
                Outcome::Success
            }
            Operation::OpenRepository { path } => done(self.repositories.contains(path)),
            Operation::CloneRepository { url, into } => {
                done(!url.is_empty() && self.repositories.insert(into.clone()))
            }
            Operation::RemoveTree { path } => done(self.repositories.remove(path)),
            Operation::Exists { path } => done(self.files.contains_key(path)),
            Operation::RemoveFile { path } => done(self.files.remove(path).is_some()),
            Operation::Rename { from, to } => match self.files.remove(from) {
                Some(contents) => {
                    self.files.insert(to.clone(), contents);
                    Outcome::Success
                }
                None => Outcome::Failure,
            },
            Operation::Overwrite { path, contents } => match self.files.get_mut(path) {
                Some(held) => {
                    *held = contents.clone();
                    Outcome::Success
                }
                None => Outcome::Failure,
            },
            Operation::ListDirectories { path } => {
                if self.repositories.contains(path) {
                    Outcome::Entries(self.packages.clone())
                } else {
                    Outcome::Failure
                }
            }
        }
    }
}

fn site() -> Site {
    Site::below("/tmp/x", Some("/home/panda".to_string()), Sources::standard())
}

/// Installs the plan on the pretended machine: the operations performed and
/// how the installation ended.
fn run_install(
    world: &mut World,
    site: &Site,
    plan: &Vec<Feature>,
) -> (Vec<Operation>, Result<(), InstallError>) {
    let mut performed = Vec::new();
    let mut step = install(site, plan, InstallState::Start, &Outcome::Success);
    loop {
        match step {
            Step::Perform(state, operation) => {
                let outcome = world.perform(&operation);
                performed.push(operation);
                step = install(site, plan, state, &outcome);
            }
            Step::Finished => return (performed, Ok(())),
            Step::Abort(error) => return (performed, Err(error)),
        }
    }
}

fn clone_into(operation: &Operation) -> Option<&str> {
    match operation {
        Operation::CloneRepository { into, .. } => Some(into.as_str()),
        _ => None,
    }
}

fn clones(performed: &[Operation]) -> Vec<&str> {
    performed.iter().filter_map(clone_into).collect()
}

#[test]
fn an_empty_plan_still_bootstraps_the_dotfiles() {
    let mut world = World::fresh();
    let (performed, end) = run_install(&mut world, &site(), &vec![]);
    assert_eq!(end, Ok(()));
    assert_eq!(clones(&performed), vec!["/tmp/x/.red-panda-dotfiles"]);
    assert_eq!(performed.len(), 7);
    assert_eq!(
        world.files["/home/panda/.red_panda_setup.sh"],
        "export RED_PANDA_HOME=/tmp/x/red-panda-hollow\n"
    );
}

#[test]
fn the_bootstrap_comes_before_every_feature() {
    let mut bare = World::fresh();
    let (bootstrap, _) = run_install(&mut bare, &site(), &vec![]);
    let mut world = World::fresh();
    let (performed, end) = run_install(&mut world, &site(), &vec![Feature::TMUX, Feature::NeoVIM]);
    assert_eq!(end, Ok(()));
    assert_eq!(&performed[..bootstrap.len()], &bootstrap[..]);
    assert_eq!(
        clones(&performed[bootstrap.len()..]),
        vec![
            "/tmp/x/red-panda-hollow/configurations-tmux",
            "/tmp/x/red-panda-hollow/configurations-neovim",
        ]
    );
}

#[test]
fn features_are_installed_in_the_order_of_the_plan() {
    let mut world = World::fresh();
    let (performed, end) = run_install(&mut world, &site(), &vec![Feature::NeoVIM, Feature::TMUX]);
    assert_eq!(end, Ok(()));
    assert_eq!(
        clones(&performed),
        vec![
            "/tmp/x/.red-panda-dotfiles",
            "/tmp/x/red-panda-hollow/configurations-neovim",
            "/tmp/x/red-panda-hollow/configurations-tmux",
        ]
    );
}

#[test]
fn a_feature_asked_for_twice_is_installed_twice() {
    let mut world = World::fresh();
    let (performed, end) = run_install(&mut world, &site(), &vec![Feature::TMUX, Feature::TMUX]);
    // The second clone finds the directory of the first and fails.
    assert_eq!(end, Err(InstallError::CloneFailed));
    assert_eq!(
        clones(&performed),
        vec![
            "/tmp/x/.red-panda-dotfiles",
            "/tmp/x/red-panda-hollow/configurations-tmux",
            "/tmp/x/red-panda-hollow/configurations-tmux",
        ]
    );
}

#[test]
fn a_full_installation_is_the_installation_of_every_name() {
    let named: Vec<Feature> =
        list().iter().map(|name| Feature::from_name(name).unwrap()).collect();
    let mut by_name = World::fresh();
    let mut full = World::fresh();
    let left = run_install(&mut by_name, &site(), &named);
    let right = run_install(&mut full, &site(), &Feature::all());
    assert_eq!(left, right);
    assert_eq!(by_name, full);
}

#[test]
fn a_full_installation_stops_at_the_public_keys() {
    let mut world = World::fresh();
    world.files.insert(".zshrc".to_string(), "vendor".to_string());
    world.files.insert(".zshrc.pre-oh-my-zsh".to_string(), "mine".to_string());
    let (performed, end) = run_install(&mut world, &site(), &Feature::all());
    assert_eq!(end, Err(InstallError::CloneFailed));
    assert_eq!(
        clones(&performed),
        vec![
            "/tmp/x/.red-panda-dotfiles",
            "/tmp/x/red-panda-hollow/configurations-neovim",
            "/tmp/x/red-panda-hollow/public-keys",
        ]
    );
    assert_eq!(world.files[".zshrc"], "mine");
    assert_eq!(world.files[".zshrc.bak"], "vendor");
    assert!(!world.repositories.contains("/tmp/x/red-panda-hollow/configurations-tmux"));
}

#[test]
fn public_keys_without_a_source_fail_at_the_clone() {
    let mut world = World::fresh();
    let (performed, end) = run_install(&mut world, &site(), &vec![Feature::PublicKeys]);
    assert_eq!(end, Err(InstallError::CloneFailed));
    assert_eq!(
        performed.last(),
        Some(&Operation::CloneRepository {
            url: String::new(),
            into: "/tmp/x/red-panda-hollow/public-keys".to_string(),
        })
    );
    assert!(!world.repositories.contains("/tmp/x/red-panda-hollow/public-keys"));
}

#[test]
fn secret_keys_always_give_up_as_not_implemented() {
    let mut bare = World::fresh();
    let (bootstrap, _) = run_install(&mut bare, &site(), &vec![]);
    let mut world = World::fresh();
    let (performed, end) = run_install(&mut world, &site(), &vec![Feature::SecretKeys]);
    assert_eq!(end, Err(InstallError::NotImplemented));
    assert_eq!(end.unwrap_err().message(), "Secret keys not implemented yet!");
    // The feature itself asks for nothing: all that was done is the bootstrap.
    assert_eq!(performed, bootstrap);
    assert_eq!(world, bare);
}

#[test]
fn nothing_follows_a_feature_that_gave_up() {
    let mut world = World::fresh();
    let (performed, end) =
        run_install(&mut world, &site(), &vec![Feature::SecretKeys, Feature::TMUX]);
    assert_eq!(end, Err(InstallError::NotImplemented));
    assert_eq!(clones(&performed), vec!["/tmp/x/.red-panda-dotfiles"]);
}

#[test]
fn no_feature_is_begun_when_the_bootstrap_gives_up() {
    let mut world = World::fresh();
    world.files.clear();
    let (performed, end) = run_install(&mut world, &site(), &vec![Feature::TMUX]);
    assert_eq!(end, Err(InstallError::MarkerFailed));
    assert_eq!(clones(&performed), vec!["/tmp/x/.red-panda-dotfiles"]);
}

#[test]
fn a_second_installation_removes_the_old_checkout_first() {
    let mut world = World::fresh();
    let (first, end) = run_install(&mut world, &site(), &vec![]);
    assert_eq!(end, Ok(()));
    let after_first = world.clone();
    let (second, end) = run_install(&mut world, &site(), &vec![]);
    assert_eq!(end, Ok(()));
    assert!(!first.contains(&Operation::RemoveTree { path: "/tmp/x/.red-panda-dotfiles".to_string() }));
    assert_eq!(second[1], Operation::RemoveTree { path: "/tmp/x/.red-panda-dotfiles".to_string() });
    assert_eq!(clones(&second), vec!["/tmp/x/.red-panda-dotfiles"]);
    assert_eq!(world.repositories, after_first.repositories);
    assert_eq!(world.files, after_first.files);
    let (third, end) = run_install(&mut world, &site(), &vec![]);
    assert_eq!(end, Ok(()));
    assert_eq!(third, second);
}

#[test]
fn the_state_says_which_feature_is_at_hand() {
    let plan = vec![Feature::PublicKeys, Feature::TMUX];
    let step = install(
        &site(),
        &plan,
        InstallState::Bootstrapping(DotfilesState::Listing),
        &Outcome::Entries(vec![]),
    );
    match step {
        Step::Perform(InstallState::Installing(0, FeatureState::PublicKeys(_)), _) => {}
        other => panic!("{other:?}"),
    }
    let step = install(
        &site(),
        &plan,
        InstallState::Installing(0, FeatureState::Tmux(TmuxState::Linking)),
        &Outcome::Success,
    );
    match step {
        Step::Perform(InstallState::Installing(1, FeatureState::Tmux(TmuxState::Cloning)), _) => {}
        other => panic!("{other:?}"),
    }
}

#[test]
fn a_place_beyond_the_plan_means_through() {
    let plan = vec![Feature::TMUX];
    assert_eq!(
        install(&site(), &plan, InstallState::Installing(1, FeatureState::Start), &Outcome::Success),
        Step::Finished
    );
    assert_eq!(
        install(
            &site(),
            &vec![],
            InstallState::Installing(usize::MAX, FeatureState::Start),
            &Outcome::Failure
        ),
        Step::Finished
    );
}

#[test]
fn the_last_feature_ends_the_installation() {
    let plan = vec![Feature::TMUX];
    assert_eq!(
        install(
            &site(),
            &plan,
            InstallState::Installing(0, FeatureState::Tmux(TmuxState::Linking)),
            &Outcome::Success
        ),
        Step::Finished
    );
}
