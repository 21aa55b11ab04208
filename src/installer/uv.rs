//! uv, the Python package and project manager, through its install script.
use vstd::prelude::*;
use crate::config::{join_path, joined, ConfigView, HudoConfig};
use crate::installer::{append_path, no_actions, no_deps, set_var, then, EnvAction, EnvChange, Installer, ToolInfo};

verus! {

pub struct UvInstaller;

impl Installer for UvInstaller {
    open spec fn id_spec(&self) -> Seq<char> {
        "uv"@
    }

    open spec fn download_spec(&self, config: ConfigView) -> (Seq<char>, Seq<char>) {
        ("https://astral.sh/uv/install.ps1"@, "uv-installer.ps1"@)
    }

    open spec fn env_spec(&self, install_path: Seq<char>, config: ConfigView) -> Seq<EnvChange> {
        seq![
            EnvChange::AppendPath(install_path),
            EnvChange::SetVar("UV_PYTHON_INSTALL_DIR"@, joined(install_path, "python"@)),
            EnvChange::SetVar("UV_TOOL_DIR"@, joined(install_path, "tools"@)),
            EnvChange::SetVar("UV_CACHE_DIR"@, joined(install_path, "cache"@)),
        ]
    }

    open spec fn dir_spec(&self, config: ConfigView) -> Seq<char> {
        joined(joined(config.root_dir, "tools"@), "uv"@)
    }

    open spec fn deps_spec(&self) -> Seq<Seq<char>> {
        Seq::empty()
    }

    fn info(&self) -> (r: ToolInfo) {
        ToolInfo { id: "uv", name: "uv", description: "Python 包管理器与项目管理工具" }
    }

    fn resolve_download(&self, config: &HudoConfig) -> (r: (String, String)) {
        (String::from_str("https://astral.sh/uv/install.ps1"), String::from_str("uv-installer.ps1"))
    }

    fn env_actions(&self, install_path: &str, config: &HudoConfig) -> (r: Vec<EnvAction>) {
        let v = then(no_actions(), append_path(String::from_str(install_path)));
        let v = then(v, set_var("UV_PYTHON_INSTALL_DIR", join_path(install_path, "python")));
        let v = then(v, set_var("UV_TOOL_DIR", join_path(install_path, "tools")));
        then(v, set_var("UV_CACHE_DIR", join_path(install_path, "cache")))
    }

    fn dependencies(&self) -> (r: Vec<String>) {
        no_deps()
    }

    fn install_dir(&self, config: &HudoConfig) -> (r: String) {
        join_path(config.tools_dir().as_str(), "uv")
    }
}

} // verus!
