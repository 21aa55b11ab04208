//! Visual Studio Code, unpacked from its zip archive.
use vstd::prelude::*;
use crate::config::{join_path, joined, ConfigView, HudoConfig};
use crate::installer::{append_path, no_actions, no_deps, or_default, then, value_or, EnvAction, EnvChange, Installer, ToolInfo};

verus! {

pub struct VscodeInstaller;

impl Installer for VscodeInstaller {
    open spec fn id_spec(&self) -> Seq<char> {
        "vscode"@
    }

    open spec fn download_spec(&self, config: ConfigView) -> (Seq<char>, Seq<char>) {
        (
            or_default(config.mirrors_vscode, "https://update.code.visualstudio.com/latest/win32-x64-archive/stable"@),
            "vscode-win32-x64.zip"@,
        )
    }

    open spec fn env_spec(&self, install_path: Seq<char>, config: ConfigView) -> Seq<EnvChange> {
        seq![EnvChange::AppendPath(install_path), EnvChange::AppendPath(joined(install_path, "bin"@))]
    }

    open spec fn dir_spec(&self, config: ConfigView) -> Seq<char> {
        joined(joined(config.root_dir, "ide"@), "vscode"@)
    }

    open spec fn deps_spec(&self) -> Seq<Seq<char>> {
        Seq::empty()
    }

    fn info(&self) -> (r: ToolInfo) {
        ToolInfo { id: "vscode", name: "VS Code", description: "Visual Studio Code 编辑器" }
    }

    fn resolve_download(&self, config: &HudoConfig) -> (r: (String, String)) {
        (
            value_or(&config.mirrors.vscode, "https://update.code.visualstudio.com/latest/win32-x64-archive/stable"),
            String::from_str("vscode-win32-x64.zip"),
        )
    }

    fn env_actions(&self, install_path: &str, config: &HudoConfig) -> (r: Vec<EnvAction>) {
        let v = then(no_actions(), append_path(String::from_str(install_path)));
        then(v, append_path(join_path(install_path, "bin")))
    }

    fn dependencies(&self) -> (r: Vec<String>) {
        no_deps()
    }

    fn install_dir(&self, config: &HudoConfig) -> (r: String) {
        join_path(config.ide_dir().as_str(), "vscode")
    }
}

} // verus!
