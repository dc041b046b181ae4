use red_panda::feature::Feature;
use red_panda::list;
use red_panda::plan::resolve;

#[test]
fn list_names_every_feature_in_canonical_order() {
    assert_eq!(list(), vec!["zsh", "neovim", "pubkeys", "tmux", "secretkeys"]);
}

#[test]
fn list_is_the_same_every_time() {
    let first = list();
    for _ in 0..5 {
        assert_eq!(list(), first);
    }
}

#[test]
fn all_is_the_canonical_order() {
    assert_eq!(
        Feature::all(),
        vec![
            Feature::ZSH,
            Feature::NeoVIM,
            Feature::PublicKeys,
            Feature::TMUX,
            Feature::SecretKeys,
        ]
    );
}

#[test]
fn every_feature_has_its_name() {
    assert_eq!(Feature::ZSH.name(), "zsh");
    assert_eq!(Feature::NeoVIM.name(), "neovim");
    assert_eq!(Feature::PublicKeys.name(), "pubkeys");
    assert_eq!(Feature::TMUX.name(), "tmux");
    assert_eq!(Feature::SecretKeys.name(), "secretkeys");
}

#[test]
fn list_agrees_with_the_names() {
    let names: Vec<String> = Feature::all().iter().map(|f| f.name().to_string()).collect();
    assert_eq!(list(), names);
}

#[test]
fn from_name_finds_every_feature() {
    assert_eq!(Feature::from_name("zsh"), Some(Feature::ZSH));
    assert_eq!(Feature::from_name("neovim"), Some(Feature::NeoVIM));
    assert_eq!(Feature::from_name("pubkeys"), Some(Feature::PublicKeys));
    assert_eq!(Feature::from_name("tmux"), Some(Feature::TMUX));
    assert_eq!(Feature::from_name("secretkeys"), Some(Feature::SecretKeys));
}

#[test]
fn from_name_turns_unknown_names_down() {
    for name in ["emacs", "", "ZSH", "zsh ", " zsh", "NeoVIM", "public-keys", "secret", "tmux\n", "zs"] {
        assert_eq!(Feature::from_name(name), None, "{name:?}");
    }
}

#[test]
fn names_are_distinct() {
    let names = list();
    for i in 0..names.len() {
        for j in 0..names.len() {
            assert_eq!(names[i] == names[j], i == j);
        }
    }
}

#[test]
fn asking_for_every_name_selects_the_full_plan() {
    let asked: Vec<Feature> =
        list().iter().map(|name| Feature::from_name(name).unwrap()).collect();
    assert_eq!(asked, Feature::all());
}

#[test]
fn a_selection_keeps_its_order_and_its_repetitions() {
    let asked: Vec<Feature> = ["tmux", "zsh", "tmux"]
        .iter()
        .map(|name| Feature::from_name(name).unwrap())
        .collect();
    assert_eq!(asked, vec![Feature::TMUX, Feature::ZSH, Feature::TMUX]);
}

fn texts(items: &[&str]) -> Vec<String> {
    items.iter().map(|item| item.to_string()).collect()
}

#[test]
fn resolve_gives_the_feature_of_every_name() {
    assert_eq!(
        resolve(&texts(&["pubkeys", "zsh"])),
        Ok(vec![Feature::PublicKeys, Feature::ZSH])
    );
    assert_eq!(resolve(&texts(&["secretkeys"])), Ok(vec![Feature::SecretKeys]));
}

#[test]
fn resolve_keeps_order_and_repetitions() {
    assert_eq!(
        resolve(&texts(&["tmux", "zsh", "tmux", "neovim", "zsh"])),
        Ok(vec![Feature::TMUX, Feature::ZSH, Feature::TMUX, Feature::NeoVIM, Feature::ZSH])
    );
}

#[test]
fn resolve_of_no_names_is_the_empty_plan() {
    assert_eq!(resolve(&vec![]), Ok(vec![]));
}

#[test]
fn resolve_of_every_name_is_the_full_plan() {
    assert_eq!(resolve(&list()), Ok(Feature::all()));
}

#[test]
fn resolve_turns_an_unknown_name_down() {
    assert_eq!(resolve(&texts(&["emacs"])), Err(0));
    assert_eq!(resolve(&texts(&["zsh", "tmux", "vim"])), Err(2));
    assert_eq!(resolve(&texts(&["zsh", ""])), Err(1));
}

#[test]
fn resolve_points_at_the_first_unknown_name() {
    assert_eq!(resolve(&texts(&["zsh", "vim", "tmux", "emacs"])), Err(1));
    assert_eq!(resolve(&texts(&["Zsh", "zsh", "nope"])), Err(0));
}
