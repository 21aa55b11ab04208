//! Bun, the JavaScript runtime and package manager.
use vstd::prelude::*;
use crate::config::{join_path, joined, ConfigView, HudoConfig};
use crate::installer::{append_path, no_deps, then, no_actions, EnvAction, EnvChange, Installer, ToolInfo};

verus! {

pub struct BunInstaller;

impl Installer for BunInstaller {
    open spec fn id_spec(&self) -> Seq<char> {
        "bun"@
    }

    open spec fn download_spec(&self, config: ConfigView) -> (Seq<char>, Seq<char>) {
        ("https://github.com/oven-sh/bun/releases/latest/download/bun-windows-x64.zip"@, "bun-windows-x64.zip"@)
    }

    open spec fn env_spec(&self, install_path: Seq<char>, config: ConfigView) -> Seq<EnvChange> {
        seq![EnvChange::AppendPath(install_path)]
    }

    open spec fn dir_spec(&self, config: ConfigView) -> Seq<char> {
        joined(joined(config.root_dir, "tools"@), "bun"@)
    }

    open spec fn deps_spec(&self) -> Seq<Seq<char>> {
        Seq::empty()
    }

    fn info(&self) -> (r: ToolInfo) {
        ToolInfo { id: "bun", name: "Bun", description: "JavaScript/TypeScript 运行时与包管理器" }
    }

    fn resolve_download(&self, config: &HudoConfig) -> (r: (String, String)) {
        (
            String::from_str("https://github.com/oven-sh/bun/releases/latest/download/bun-windows-x64.zip"),
            String::from_str("bun-windows-x64.zip"),
        )
    }

    fn env_actions(&self, install_path: &str, config: &HudoConfig) -> (r: Vec<EnvAction>) {
        then(no_actions(), append_path(String::from_str(install_path)))
    }

    fn dependencies(&self) -> (r: Vec<String>) {
        no_deps()
    }

    fn install_dir(&self, config: &HudoConfig) -> (r: String) {
        join_path(config.tools_dir().as_str(), "bun")
    }
}

} // verus!
