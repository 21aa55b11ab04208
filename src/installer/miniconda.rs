//! Miniconda, run from its installer.
use vstd::prelude::*;
use crate::config::{join_path, joined, ConfigView, HudoConfig};
use crate::installer::{append_path, no_actions, no_deps, then, EnvAction, EnvChange, Installer, ToolInfo};

verus! {

pub struct MinicondaInstaller;

impl Installer for MinicondaInstaller {
    open spec fn id_spec(&self) -> Seq<char> {
        "miniconda"@
    }

    open spec fn download_spec(&self, config: ConfigView) -> (Seq<char>, Seq<char>) {
        ("https://repo.anaconda.com/miniconda/Miniconda3-latest-Windows-x86_64.exe"@, "Miniconda3-latest-Windows-x86_64.exe"@)
    }

    open spec fn env_spec(&self, install_path: Seq<char>, config: ConfigView) -> Seq<EnvChange> {
        seq![
            EnvChange::AppendPath(install_path),
            EnvChange::AppendPath(joined(install_path, "Scripts"@)),
            EnvChange::AppendPath(joined(joined(install_path, "Library"@), "bin"@)),
        ]
    }

    open spec fn dir_spec(&self, config: ConfigView) -> Seq<char> {
        joined(joined(config.root_dir, "tools"@), "miniconda"@)
    }

    open spec fn deps_spec(&self) -> Seq<Seq<char>> {
        Seq::empty()
    }

    fn info(&self) -> (r: ToolInfo) {
        ToolInfo { id: "miniconda", name: "Miniconda", description: "Conda 包管理器（最小安装）" }
    }

    fn resolve_download(&self, config: &HudoConfig) -> (r: (String, String)) {
        (
            String::from_str("https://repo.anaconda.com/miniconda/Miniconda3-latest-Windows-x86_64.exe"),
            String::from_str("Miniconda3-latest-Windows-x86_64.exe"),
        )
    }

    fn env_actions(&self, install_path: &str, config: &HudoConfig) -> (r: Vec<EnvAction>) {
        let v = then(no_actions(), append_path(String::from_str(install_path)));
        let v = then(v, append_path(join_path(install_path, "Scripts")));
        then(v, append_path(join_path(join_path(install_path, "Library").as_str(), "bin")))
    }

    fn dependencies(&self) -> (r: Vec<String>) {
        no_deps()
    }

    fn install_dir(&self, config: &HudoConfig) -> (r: String) {
        join_path(config.tools_dir().as_str(), "miniconda")
    }
}

} // verus!
