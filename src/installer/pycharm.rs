//! PyCharm Community, unpacked from its zip archive.
use vstd::prelude::*;
use crate::config::{join_path, joined, ConfigView, HudoConfig};
use crate::installer::{append_path, no_actions, no_deps, or_default, then, value_or, EnvAction, EnvChange, Installer, ToolInfo};
use crate::text::{trim_end, trim_end_char};

verus! {

pub struct PycharmInstaller;

/// The release fetched unless another is asked for.
pub const PYCHARM_VERSION_DEFAULT: &'static str = "2024.3.5";

impl Installer for PycharmInstaller {
    open spec fn id_spec(&self) -> Seq<char> {
        "pycharm"@
    }

    open spec fn download_spec(&self, config: ConfigView) -> (Seq<char>, Seq<char>) {
        (
            trim_end(or_default(config.mirrors_pycharm, "https://download.jetbrains.com"@), '/') + "/python/pycharm-community-"@
                + or_default(config.versions_pycharm, PYCHARM_VERSION_DEFAULT@) + ".win.zip"@,
            "pycharm-community.zip"@,
        )
    }

    open spec fn env_spec(&self, install_path: Seq<char>, config: ConfigView) -> Seq<EnvChange> {
        seq![EnvChange::AppendPath(joined(install_path, "bin"@))]
    }

    open spec fn dir_spec(&self, config: ConfigView) -> Seq<char> {
        joined(joined(config.root_dir, "ide"@), "pycharm"@)
    }

    open spec fn deps_spec(&self) -> Seq<Seq<char>> {
        Seq::empty()
    }

    fn info(&self) -> (r: ToolInfo) {
        ToolInfo { id: "pycharm", name: "PyCharm", description: "PyCharm Community IDE" }
    }

    fn resolve_download(&self, config: &HudoConfig) -> (r: (String, String)) {
        let version = value_or(&config.versions.pycharm, PYCHARM_VERSION_DEFAULT);
        let base = trim_end_char(value_or(&config.mirrors.pycharm, "https://download.jetbrains.com").as_str(), '/');
        let url = base.concat("/python/pycharm-community-").concat(version.as_str()).concat(".win.zip");
        (url, String::from_str("pycharm-community.zip"))
    }

    fn env_actions(&self, install_path: &str, config: &HudoConfig) -> (r: Vec<EnvAction>) {
        then(no_actions(), append_path(join_path(install_path, "bin")))
    }

    fn dependencies(&self) -> (r: Vec<String>) {
        no_deps()
    }

    fn install_dir(&self, config: &HudoConfig) -> (r: String) {
        join_path(config.ide_dir().as_str(), "pycharm")
    }
}

} // verus!
