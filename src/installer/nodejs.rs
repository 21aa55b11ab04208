//! Node.js, through the fnm version manager.
use vstd::prelude::*;
use crate::config::{join_path, joined, ConfigView, HudoConfig};
use crate::installer::{append_path, no_actions, no_deps, or_default, set_var, then, value_or, EnvAction, EnvChange, Installer, ToolInfo};
use crate::text::{trim_end, trim_end_char};

verus! {

pub struct NodejsInstaller;

impl Installer for NodejsInstaller {
    open spec fn id_spec(&self) -> Seq<char> {
        "nodejs"@
    }

    open spec fn download_spec(&self, config: ConfigView) -> (Seq<char>, Seq<char>) {
        let base = match config.versions_fnm {
            Some(v) => or_default(config.mirrors_fnm, "https://github.com/Schniz/fnm/releases/download/v"@ + v),
            None => or_default(config.mirrors_fnm, "https://github.com/Schniz/fnm/releases/latest/download"@),
        };
        (trim_end(base, '/') + "/"@ + "fnm-windows.zip"@, "fnm-windows.zip"@)
    }

    open spec fn env_spec(&self, install_path: Seq<char>, config: ConfigView) -> Seq<EnvChange> {
        seq![EnvChange::SetVar("FNM_DIR"@, joined(joined(config.root_dir, "lang"@), "node"@)), EnvChange::AppendPath(install_path)]
    }

    open spec fn dir_spec(&self, config: ConfigView) -> Seq<char> {
        joined(joined(config.root_dir, "tools"@), "fnm"@)
    }

    open spec fn deps_spec(&self) -> Seq<Seq<char>> {
        Seq::empty()
    }

    fn info(&self) -> (r: ToolInfo) {
        ToolInfo { id: "nodejs", name: "Node.js", description: "Node.js 运行时 (via fnm)" }
    }

    fn resolve_download(&self, config: &HudoConfig) -> (r: (String, String)) {
        let base = match &config.versions.fnm {
            Some(v) => {
                let official = String::from_str("https://github.com/Schniz/fnm/releases/download/v").concat(v.as_str());
                value_or(&config.mirrors.fnm, official.as_str())
            },
            None => value_or(&config.mirrors.fnm, "https://github.com/Schniz/fnm/releases/latest/download"),
        };
        let url = trim_end_char(base.as_str(), '/').concat("/").concat("fnm-windows.zip");
        (url, String::from_str("fnm-windows.zip"))
    }

    fn env_actions(&self, install_path: &str, config: &HudoConfig) -> (r: Vec<EnvAction>) {
        let v = then(no_actions(), set_var("FNM_DIR", join_path(config.lang_dir().as_str(), "node")));
        then(v, append_path(String::from_str(install_path)))
    }

    fn dependencies(&self) -> (r: Vec<String>) {
        no_deps()
    }

    fn install_dir(&self, config: &HudoConfig) -> (r: String) {
        join_path(config.tools_dir().as_str(), "fnm")
    }
}

} // verus!
