use red_panda::site::{
    Site, Sources, DOTFILES_REPO_URL, NEOVIM_CONFIGURATION_REPO_URL, PUBLIC_KEYS_REPO_URL,
    SHELL_INSTALLER_URL, TMUX_CONFIGURATION_REPO_URL,
};
use red_panda::text::{join, same_text};

#[test]
fn join_puts_one_separator_between() {
    assert_eq!(join("/tmp/x", "red-panda-hollow"), "/tmp/x/red-panda-hollow");
    assert_eq!(join("relative", "name"), "relative/name");
    assert_eq!(join("/", "name"), "/name");
}

#[test]
fn join_adds_no_separator_after_one() {
    assert_eq!(join("/tmp/x/", "red-panda-hollow"), "/tmp/x/red-panda-hollow");
}

#[test]
fn join_onto_nothing_is_the_name() {
    assert_eq!(join("", "name"), "name");
    assert_eq!(join("", ""), "");
}

#[test]
fn join_lets_a_rooted_name_replace_the_base() {
    assert_eq!(join("/tmp/x", "/etc"), "/etc");
    assert_eq!(join("", "/etc"), "/etc");
}

#[test]
fn join_of_an_empty_name_ends_in_a_separator() {
    assert_eq!(join("/tmp/x", ""), "/tmp/x/");
    assert_eq!(join("/tmp/x/", ""), "/tmp/x/");
}

#[test]
fn join_agrees_with_the_standard_path_join() {
    let bases = ["", "/", "/tmp/x", "/tmp/x/", "a", "a/b", "ü/ß"];
    let names = ["", "n", "/n", "n/m", ".hidden", "ö"];
    for base in bases {
        for name in names {
            let expected = std::path::Path::new(base).join(name);
            assert_eq!(join(base, name), expected.to_str().unwrap(), "{base:?} {name:?}");
        }
    }
}

#[test]
fn same_text_compares_characters() {
    assert!(same_text("zsh", "zsh"));
    assert!(same_text("", ""));
    assert!(!same_text("zsh", "zsh "));
    assert!(!same_text("zsh", "ZSH"));
    assert!(!same_text("", "a"));
}

#[test]
fn standard_sources_are_the_fixed_endpoints() {
    let sources = Sources::standard();
    assert_eq!(sources.neovim, "https://gitlab.com/bjk2k/configurations-neovim.git");
    assert_eq!(sources.tmux, "https://gitlab.com/bjk2k/configurations-tmux.git");
    assert_eq!(sources.dotfiles, "https://gitlab.com/bjk2k/dotfiles-red-panda.git");
    assert_eq!(sources.public_keys, "");
    assert_eq!(
        sources.shell_installer,
        "https://raw.githubusercontent.com/ohmyzsh/ohmyzsh/master/tools/install.sh"
    );
    assert_eq!(sources.neovim, NEOVIM_CONFIGURATION_REPO_URL);
    assert_eq!(sources.tmux, TMUX_CONFIGURATION_REPO_URL);
    assert_eq!(sources.dotfiles, DOTFILES_REPO_URL);
    assert_eq!(sources.public_keys, PUBLIC_KEYS_REPO_URL);
    assert_eq!(sources.shell_installer, SHELL_INSTALLER_URL);
}

#[test]
fn a_site_lies_below_its_target_directory() {
    let site = Site::below("/tmp/x", Some("/home/panda".to_string()), Sources::standard());
    assert_eq!(site.installation_root, "/tmp/x/red-panda-hollow");
    assert_eq!(site.dotfiles_root, "/tmp/x/.red-panda-dotfiles");
    assert_eq!(site.home, Some("/home/panda".to_string()));
    assert_eq!(site.sources, Sources::standard());
}

#[test]
fn a_site_keeps_substituted_sources_and_a_missing_home() {
    let sources = Sources {
        neovim: "file:///fixtures/nvim".to_string(),
        tmux: "file:///fixtures/tmux".to_string(),
        dotfiles: "file:///fixtures/dotfiles".to_string(),
        public_keys: "file:///fixtures/keys".to_string(),
        shell_installer: "file:///fixtures/install.sh".to_string(),
    };
    let site = Site::below("target/", None, sources.clone());
    assert_eq!(site.installation_root, "target/red-panda-hollow");
    assert_eq!(site.dotfiles_root, "target/.red-panda-dotfiles");
    assert_eq!(site.home, None);
    assert_eq!(site.sources, sources);
}

#[test]
fn the_marker_line_exports_the_installation_root() {
    let site = Site::below("/tmp/x", None, Sources::standard());
    assert_eq!(site.marker_line(), "export RED_PANDA_HOME=/tmp/x/red-panda-hollow\n");
}

#[test]
fn the_marker_file_lies_in_the_home_directory() {
    assert_eq!(Site::marker_file("/home/panda"), "/home/panda/.red_panda_setup.sh");
}

#[test]
fn configurations_lie_below_dot_config() {
    assert_eq!(Site::configuration("/home/panda", "nvim"), "/home/panda/.config/nvim");
    assert_eq!(Site::configuration("/home/panda/", "tmux"), "/home/panda/.config/tmux");
}
