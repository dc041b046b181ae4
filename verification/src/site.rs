//! Where things come from and where they go.

use vstd::prelude::*;
use crate::text::{join, joined};

verus! {

pub const NEOVIM_CONFIGURATION_REPO_URL: &'static str =
    "https://gitlab.com/bjk2k/configurations-neovim.git";

pub const TMUX_CONFIGURATION_REPO_URL: &'static str =
    "https://gitlab.com/bjk2k/configurations-tmux.git";

pub const DOTFILES_REPO_URL: &'static str = "https://gitlab.com/bjk2k/dotfiles-red-panda.git";

/// No repository of public keys is known yet: cloning from here fails.
pub const PUBLIC_KEYS_REPO_URL: &'static str = "";

pub const SHELL_INSTALLER_URL: &'static str =
    "https://raw.githubusercontent.com/ohmyzsh/ohmyzsh/master/tools/install.sh";

/// The endpoints that the installers fetch from.
#[derive(Clone, Debug, PartialEq, Eq)]
pub struct Sources {
    pub neovim: String,
    pub tmux: String,
    pub dotfiles: String,
    pub public_keys: String,
    pub shell_installer: String,
}

/// What [`Sources`] is, as mathematics.
pub struct SourcesView {
    pub neovim: Seq<char>,
    pub tmux: Seq<char>,
    pub dotfiles: Seq<char>,
    pub public_keys: Seq<char>,
    pub shell_installer: Seq<char>,
}

impl View for Sources {
    type V = SourcesView;

    open spec fn view(&self) -> SourcesView {
        SourcesView {
            neovim: self.neovim@,
            tmux: self.tmux@,
            dotfiles: self.dotfiles@,
            public_keys: self.public_keys@,
            shell_installer: self.shell_installer@,
        }
    }
}

/// The endpoints used unless a caller substitutes others.
pub open spec fn standard_sources() -> SourcesView {
    SourcesView {
        neovim: NEOVIM_CONFIGURATION_REPO_URL@,
        tmux: TMUX_CONFIGURATION_REPO_URL@,
        dotfiles: DOTFILES_REPO_URL@,
        public_keys: PUBLIC_KEYS_REPO_URL@,
        shell_installer: SHELL_INSTALLER_URL@,
    }
}

impl Sources {
    pub fn standard() -> (sources: Sources)
        ensures
            sources@ == standard_sources(),
    {
        Sources {
            neovim: NEOVIM_CONFIGURATION_REPO_URL.to_owned(),
            tmux: TMUX_CONFIGURATION_REPO_URL.to_owned(),
            dotfiles: DOTFILES_REPO_URL.to_owned(),
            public_keys: PUBLIC_KEYS_REPO_URL.to_owned(),
            shell_installer: SHELL_INSTALLER_URL.to_owned(),
        }
    }
}

/// The directories of one installation, the user's home directory if it is
/// known, and the endpoints to fetch from.
#[derive(Clone, Debug, PartialEq, Eq)]
pub struct Site {
    /// Every feature clones into a directory of its own below this one.
    pub installation_root: String,
    /// The checkout of the dotfiles repository, one directory per package.
    pub dotfiles_root: String,
    pub home: Option<String>,
    pub sources: Sources,
}

/// What a [`Site`] is, as mathematics.
pub struct SiteView {
    pub installation_root: Seq<char>,
    pub dotfiles_root: Seq<char>,
    pub home: Option<Seq<char>>,
    pub sources: SourcesView,
}

impl View for Site {
    type V = SiteView;

    open spec fn view(&self) -> SiteView {
        SiteView {
            installation_root: self.installation_root@,
            dotfiles_root: self.dotfiles_root@,
            home: self.home.deep_view(),
            sources: self.sources@,
        }
    }
}

/// The site laid out below the target directory `directory`.
pub open spec fn site_below(
    directory: Seq<char>,
    home: Option<Seq<char>>,
    sources: SourcesView,
) -> SiteView {
    SiteView {
        installation_root: joined(directory, "red-panda-hollow"@),
        dotfiles_root: joined(directory, ".red-panda-dotfiles"@),
        home,
        sources,
    }
}

impl Site {
    /// Lays the site out below the target directory.
    pub fn below(directory: &str, home: Option<String>, sources: Sources) -> (site: Site)
        ensures
            site@ == site_below(directory@, home.deep_view(), sources@),
    {
        Site {
            installation_root: join(directory, "red-panda-hollow"),
            dotfiles_root: join(directory, ".red-panda-dotfiles"),
            home,
            sources,
        }
    }
}

impl SiteView {
    /// The path `name` in the configuration directory of a user whose home
    /// directory is `home`.
    pub open spec fn configuration(home: Seq<char>, name: Seq<char>) -> Seq<char> {
        joined(joined(home, ".config"@), name)
    }

    /// The file that records the installation root for later shells.
    pub open spec fn marker_file(home: Seq<char>) -> Seq<char> {
        joined(home, ".red_panda_setup.sh"@)
    }

    /// The single line that the marker file holds.
    pub open spec fn marker_line(self) -> Seq<char> {
        "export RED_PANDA_HOME="@ + self.installation_root + "\n"@
    }
}

impl Site {
    /// The path `name` in the configuration directory below `home`.
    pub fn configuration(home: &str, name: &str) -> (path: String)
        ensures
            path@ == SiteView::configuration(home@, name@),
    {
        let directory = join(home, ".config");
        join(directory.as_str(), name)
    }

    /// The path of the marker file below `home`.
    pub fn marker_file(home: &str) -> (path: String)
        ensures
            path@ == SiteView::marker_file(home@),
    {
        join(home, ".red_panda_setup.sh")
    }

    /// The line to write into the marker file.
    pub fn marker_line(&self) -> (line: String)
        ensures
            line@ == self@.marker_line(),
    {
        let mut line = "export RED_PANDA_HOME=".to_owned();
        line.append(self.installation_root.as_str());
        line.append("\n");
        line
    }
}

} // verus!
