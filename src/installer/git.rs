//! Git for Windows, run from its installer.
use vstd::prelude::*;
use crate::config::{join_path, joined, ConfigView, HudoConfig};
use crate::installer::{append_path, no_actions, no_deps, or_default, then, value_or, EnvAction, EnvChange, Installer, ToolInfo};
use crate::text::{split_on, split_str};

verus! {

pub struct GitInstaller;

/// The release fetched unless another is asked for.
pub const GIT_VERSION_DEFAULT: &'static str = "2.47.1.2";

/// The release tag of a Git for Windows version: `2.47.1.2` is tagged
/// `v2.47.1.windows.2`, and a version of fewer than four numbers is the first
/// Windows build of that Git release.
pub open spec fn git_tag_of(version: Seq<char>) -> Seq<char> {
    let parts = split_on(version, '.');
    if parts.len() >= 4 {
        "v"@ + parts[0] + "."@ + parts[1] + "."@ + parts[2] + ".windows."@ + parts[3]
    } else {
        "v"@ + version + ".windows.1"@
    }
}

/// The release tag of a Git for Windows version.
pub fn git_version_to_tag(version: &str) -> (r: String)
    ensures
        r@ == git_tag_of(version@),
{
    let parts = split_str(version, '.');
    if parts.len() >= 4 {
        String::from_str("v").concat(parts[0].as_str()).concat(".").concat(parts[1].as_str()).concat(".").concat(
            parts[2].as_str(),
        ).concat(".windows.").concat(parts[3].as_str())
    } else {
        String::from_str("v").concat(version).concat(".windows.1")
    }
}

/// The installer of `version`, and its cache file name.
pub open spec fn git_download_spec(version: Seq<char>) -> (Seq<char>, Seq<char>) {
    let file = "Git-"@ + version + "-64-bit.exe"@;
    ("https://github.com/git-for-windows/git/releases/download/"@ + git_tag_of(version) + "/"@ + file, file)
}

/// The `git` to run: the managed one where `managed_present` tells it exists,
/// else the one on PATH.
pub fn find_git(config: &HudoConfig, managed_present: bool) -> (r: String)
    ensures
        r@ == if managed_present {
            joined(joined(joined(joined(config.root_dir@, "tools"@), "git"@), "cmd"@), "git.exe"@)
        } else {
            "git"@
        },
{
    if managed_present {
        let dir = join_path(join_path(config.tools_dir().as_str(), "git").as_str(), "cmd");
        join_path(dir.as_str(), "git.exe")
    } else {
        String::from_str("git")
    }
}

impl Installer for GitInstaller {
    open spec fn id_spec(&self) -> Seq<char> {
        "git"@
    }

    open spec fn download_spec(&self, config: ConfigView) -> (Seq<char>, Seq<char>) {
        git_download_spec(or_default(config.versions_git, GIT_VERSION_DEFAULT@))
    }

    open spec fn env_spec(&self, install_path: Seq<char>, config: ConfigView) -> Seq<EnvChange> {
        seq![EnvChange::AppendPath(joined(install_path, "cmd"@))]
    }

    open spec fn dir_spec(&self, config: ConfigView) -> Seq<char> {
        joined(joined(config.root_dir, "tools"@), "git"@)
    }

    open spec fn deps_spec(&self) -> Seq<Seq<char>> {
        Seq::empty()
    }

    fn info(&self) -> (r: ToolInfo) {
        ToolInfo { id: "git", name: "Git", description: "分布式版本控制系统" }
    }

    fn resolve_download(&self, config: &HudoConfig) -> (r: (String, String)) {
        let version = value_or(&config.versions.git, GIT_VERSION_DEFAULT);
        let tag = git_version_to_tag(version.as_str());
        let file = String::from_str("Git-").concat(version.as_str()).concat("-64-bit.exe");
        let url = String::from_str("https://github.com/git-for-windows/git/releases/download/").concat(tag.as_str()).concat(
            "/",
        ).concat(file.as_str());
        (url, file)
    }

    fn env_actions(&self, install_path: &str, config: &HudoConfig) -> (r: Vec<EnvAction>) {
        then(no_actions(), append_path(join_path(install_path, "cmd")))
    }

    fn dependencies(&self) -> (r: Vec<String>) {
        no_deps()
    }

    fn install_dir(&self, config: &HudoConfig) -> (r: String) {
        join_path(config.tools_dir().as_str(), "git")
    }
}

} // verus!
