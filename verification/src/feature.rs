//! The registry of installable features.

use vstd::prelude::*;
use crate::text::same_text;

verus! {

/// Something that can be installed. The set is closed; [`Feature::registry`]
/// lists it in its canonical order.
#[derive(Clone, Copy, Debug, PartialEq, Eq, Structural)]
pub enum Feature {
    ZSH,
    NeoVIM,
    PublicKeys,
    TMUX,
    SecretKeys,
}

impl Feature {
    /// The name by which the feature is asked for and shown.
    pub open spec fn name_text(self) -> Seq<char> {
        match self {
            Feature::ZSH => "zsh"@,
            Feature::NeoVIM => "neovim"@,
            Feature::PublicKeys => "pubkeys"@,
            Feature::TMUX => "tmux"@,
            Feature::SecretKeys => "secretkeys"@,
        }
    }

    /// Every feature, once, in canonical order.
    pub open spec fn registry() -> Seq<Feature> {
        seq![
            Feature::ZSH,
            Feature::NeoVIM,
            Feature::PublicKeys,
            Feature::TMUX,
            Feature::SecretKeys,
        ]
    }

    /// The feature that goes by the name `text`, if there is one.
    pub open spec fn named(text: Seq<char>) -> Option<Feature> {
        if exists|feature: Feature| feature.name_text() == text {
            Some(choose|feature: Feature| feature.name_text() == text)
        } else {
            None
        }
    }

    pub fn name(&self) -> (name: &'static str)
        ensures
            name@ == self.name_text(),
    {
        match self {
            Feature::ZSH => "zsh",
            Feature::NeoVIM => "neovim",
            Feature::PublicKeys => "pubkeys",
            Feature::TMUX => "tmux",
            Feature::SecretKeys => "secretkeys",
        }
    }

    /// Every feature in canonical order: the plan of a full installation.
    pub fn all() -> (features: Vec<Feature>)
        ensures
            features@ == Feature::registry(),
    {
        let mut features: Vec<Feature> = Vec::new();
        features.push(Feature::ZSH);
        features.push(Feature::NeoVIM);
        features.push(Feature::PublicKeys);
        features.push(Feature::TMUX);
        features.push(Feature::SecretKeys);
        assert(features@ =~= Feature::registry());
        features
    }

    /// Looks a feature up by its name. A text that names no feature is
    /// turned down.
    pub fn from_name(name: &str) -> (found: Option<Feature>)
        ensures
            found == Feature::named(name@),
            found is None <==> forall|feature: Feature| feature.name_text() != name@,
            found matches Some(feature) ==> feature.name_text() == name@,
    {
        let found = if same_text(name, "zsh") {
            Some(Feature::ZSH)
        } else if same_text(name, "neovim") {
            Some(Feature::NeoVIM)
        } else if same_text(name, "pubkeys") {
            Some(Feature::PublicKeys)
        } else if same_text(name, "tmux") {
            Some(Feature::TMUX)
        } else if same_text(name, "secretkeys") {
            Some(Feature::SecretKeys)
        } else {
            None
        };
        proof {
            lemma_names_differ();
            match found {
                Some(feature) => {
                    assert(feature.name_text() == name@);
                },
                None => {
                    assert forall|feature: Feature| feature.name_text() != name@ by {
                        match feature {
                            Feature::ZSH => {},
                            Feature::NeoVIM => {},
                            Feature::PublicKeys => {},
                            Feature::TMUX => {},
                            Feature::SecretKeys => {},
                        }
                    }
                },
            }
        }
        found
    }
}

/// No two features share a name.
pub proof fn lemma_names_differ()
    ensures
        forall|a: Feature, b: Feature| a.name_text() == b.name_text() ==> a == b,
{
    reveal_strlit("zsh");
    reveal_strlit("neovim");
    reveal_strlit("pubkeys");
    reveal_strlit("tmux");
    reveal_strlit("secretkeys");
    assert forall|a: Feature, b: Feature| a.name_text() == b.name_text() implies a == b by {
        if a != b {
            assert(a.name_text().len() != b.name_text().len() || a.name_text()[0]
                != b.name_text()[0]);
        }
    }
}

/// The registry holds every feature, and none of them twice.
pub proof fn lemma_registry_is_closed()
    ensures
        forall|feature: Feature| Feature::registry().contains(feature),
        Feature::registry().no_duplicates(),
{
    let all = Feature::registry();
    assert forall|feature: Feature| all.contains(feature) by {
        match feature {
            Feature::ZSH => assert(all[0] == feature),
            Feature::NeoVIM => assert(all[1] == feature),
            Feature::PublicKeys => assert(all[2] == feature),
            Feature::TMUX => assert(all[3] == feature),
            Feature::SecretKeys => assert(all[4] == feature),
        }
    }
}

/// A feature is found again by its own name.
pub proof fn lemma_name_round_trip(feature: Feature)
    ensures
        Feature::named(feature.name_text()) == Some(feature),
{
    lemma_names_differ();
}

/// The names of all features in canonical order.
pub open spec fn listing() -> Seq<Seq<char>> {
    Feature::registry().map_values(|feature: Feature| feature.name_text())
}

/// Lists the name of every feature, in canonical order.
pub fn list() -> (names: Vec<String>)
    ensures
        names.deep_view() == listing(),
{
    let features = Feature::all();
    let mut names: Vec<String> = Vec::new();
    let mut i: usize = 0;
    while i < features.len()
        invariant
            i <= features.len(),
            features@ == Feature::registry(),
            names.len() == i,
            forall|k: int| 0 <= k < i ==> names[k]@ == Feature::registry()[k].name_text(),
        decreases features.len() - i,
    {
        names.push(features[i].name().to_owned());
        i += 1;
    }
    assert(names.deep_view() =~= listing());
    names
}

} // verus!
