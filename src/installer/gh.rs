//! GitHub CLI, unpacked from a zip archive.
use vstd::prelude::*;
use crate::config::{join_path, joined, ConfigView, HudoConfig};
use crate::installer::{append_path, no_actions, no_deps, then, EnvAction, EnvChange, Installer, ToolInfo};

verus! {

pub struct GhInstaller;

/// The release fetched unless another is asked for.
pub const GH_VERSION_DEFAULT: &'static str = "2.87.3";

/// The archive of release `version`, and its cache file name.
pub open spec fn gh_download_spec(version: Seq<char>) -> (Seq<char>, Seq<char>) {
    let file = "gh_"@ + version + "_windows_amd64.zip"@;
    ("https://github.com/cli/cli/releases/download/v"@ + version + "/"@ + file, file)
}

/// The directory to put on PATH: `bin` where the archive put `gh.exe`
/// there, else the install directory itself.
pub open spec fn gh_path_entry(install_path: Seq<char>, in_bin: bool) -> Seq<char> {
    if in_bin {
        joined(install_path, "bin"@)
    } else {
        install_path
    }
}

/// The directory to put on PATH; `in_bin` tells whether `bin\gh.exe` exists
/// under the install directory.
pub fn path_entry(install_path: &str, in_bin: bool) -> (r: String)
    ensures
        r@ == gh_path_entry(install_path@, in_bin),
{
    if in_bin {
        join_path(install_path, "bin")
    } else {
        String::from_str(install_path)
    }
}

/// The `gh` to run: the managed one, at `bin\gh.exe` or at the top of its
/// directory (whichever exists, as `in_bin` and `at_top` tell), else the one
/// on PATH.
pub fn find_gh(config: &HudoConfig, in_bin: bool, at_top: bool) -> (r: String)
    ensures
        r@ == if in_bin {
            joined(joined(joined(joined(config.root_dir@, "tools"@), "gh"@), "bin"@), "gh.exe"@)
        } else if at_top {
            joined(joined(joined(config.root_dir@, "tools"@), "gh"@), "gh.exe"@)
        } else {
            "gh"@
        },
{
    let root = join_path(config.tools_dir().as_str(), "gh");
    if in_bin {
        join_path(join_path(root.as_str(), "bin").as_str(), "gh.exe")
    } else if at_top {
        join_path(root.as_str(), "gh.exe")
    } else {
        String::from_str("gh")
    }
}

impl Installer for GhInstaller {
    open spec fn id_spec(&self) -> Seq<char> {
        "gh"@
    }

    open spec fn download_spec(&self, config: ConfigView) -> (Seq<char>, Seq<char>) {
        gh_download_spec(GH_VERSION_DEFAULT@)
    }

    /// The usual layout of the archive, with `gh.exe` under `bin`; see
    /// `path_entry` for the other.
    open spec fn env_spec(&self, install_path: Seq<char>, config: ConfigView) -> Seq<EnvChange> {
        seq![EnvChange::AppendPath(gh_path_entry(install_path, true))]
    }

    open spec fn dir_spec(&self, config: ConfigView) -> Seq<char> {
        joined(joined(config.root_dir, "tools"@), "gh"@)
    }

    open spec fn deps_spec(&self) -> Seq<Seq<char>> {
        Seq::empty()
    }

    fn info(&self) -> (r: ToolInfo) {
        ToolInfo { id: "gh", name: "GitHub CLI", description: "GitHub 官方命令行工具" }
    }

    fn resolve_download(&self, config: &HudoConfig) -> (r: (String, String)) {
        let file = String::from_str("gh_").concat(GH_VERSION_DEFAULT).concat("_windows_amd64.zip");
        let url = String::from_str("https://github.com/cli/cli/releases/download/v").concat(GH_VERSION_DEFAULT).concat(
            "/",
        ).concat(file.as_str());
        (url, file)
    }

    fn env_actions(&self, install_path: &str, config: &HudoConfig) -> (r: Vec<EnvAction>) {
        then(no_actions(), append_path(path_entry(install_path, true)))
    }

    fn dependencies(&self) -> (r: Vec<String>) {
        no_deps()
    }

    fn install_dir(&self, config: &HudoConfig) -> (r: String) {
        join_path(config.tools_dir().as_str(), "gh")
    }
}

} // verus!
