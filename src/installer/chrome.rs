//! Google Chrome, installed by its own enterprise installer.
use vstd::prelude::*;
use crate::config::{join_path, joined, ConfigView, HudoConfig};
use crate::installer::{no_actions, no_deps, EnvAction, EnvChange, Installer, ToolInfo};

verus! {

pub struct ChromeInstaller;

impl Installer for ChromeInstaller {
    open spec fn id_spec(&self) -> Seq<char> {
        "chrome"@
    }

    open spec fn download_spec(&self, config: ConfigView) -> (Seq<char>, Seq<char>) {
        ("https://dl.google.com/dl/chrome/install/googlechromestandaloneenterprise64.msi"@, "chrome-enterprise-64.msi"@)
    }

    /// Chrome is no command line tool: nothing goes on PATH.
    open spec fn env_spec(&self, install_path: Seq<char>, config: ConfigView) -> Seq<EnvChange> {
        Seq::empty()
    }

    /// Where Chrome's own installer puts it is found after the install;
    /// this is the directory this system would use.
    open spec fn dir_spec(&self, config: ConfigView) -> Seq<char> {
        joined(joined(config.root_dir, "tools"@), "chrome"@)
    }

    open spec fn deps_spec(&self) -> Seq<Seq<char>> {
        Seq::empty()
    }

    fn info(&self) -> (r: ToolInfo) {
        ToolInfo { id: "chrome", name: "Google Chrome", description: "Google Chrome 浏览器（路径由 Google 安装程序决定）" }
    }

    fn resolve_download(&self, config: &HudoConfig) -> (r: (String, String)) {
        (
            String::from_str("https://dl.google.com/dl/chrome/install/googlechromestandaloneenterprise64.msi"),
            String::from_str("chrome-enterprise-64.msi"),
        )
    }

    fn env_actions(&self, install_path: &str, config: &HudoConfig) -> (r: Vec<EnvAction>) {
        no_actions()
    }

    fn dependencies(&self) -> (r: Vec<String>) {
        no_deps()
    }

    fn install_dir(&self, config: &HudoConfig) -> (r: String) {
        join_path(config.tools_dir().as_str(), "chrome")
    }
}

} // verus!
