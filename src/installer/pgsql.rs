//! PostgreSQL, unpacked from the EDB binaries archive.
use vstd::prelude::*;
use crate::config::{join_path, joined, ConfigView, HudoConfig};
use crate::installer::{append_path, no_actions, no_deps, or_default, then, value_or, EnvAction, EnvChange, Installer, ToolInfo};

verus! {

pub struct PgsqlInstaller;

/// The release fetched unless another is asked for.
pub const PG_VERSION_DEFAULT: &'static str = "17.8";

impl Installer for PgsqlInstaller {
    open spec fn id_spec(&self) -> Seq<char> {
        "pgsql"@
    }

    open spec fn download_spec(&self, config: ConfigView) -> (Seq<char>, Seq<char>) {
        let file = "postgresql-"@ + or_default(config.versions_pgsql, PG_VERSION_DEFAULT@) + "-1-windows-x64-binaries.zip"@;
        ("https://get.enterprisedb.com/postgresql/"@ + file, file)
    }

    open spec fn env_spec(&self, install_path: Seq<char>, config: ConfigView) -> Seq<EnvChange> {
        seq![EnvChange::AppendPath(joined(install_path, "bin"@))]
    }

    open spec fn dir_spec(&self, config: ConfigView) -> Seq<char> {
        joined(joined(config.root_dir, "tools"@), "pgsql"@)
    }

    open spec fn deps_spec(&self) -> Seq<Seq<char>> {
        Seq::empty()
    }

    fn info(&self) -> (r: ToolInfo) {
        ToolInfo { id: "pgsql", name: "PostgreSQL", description: "PostgreSQL 数据库" }
    }

    fn resolve_download(&self, config: &HudoConfig) -> (r: (String, String)) {
        let version = value_or(&config.versions.pgsql, PG_VERSION_DEFAULT);
        let file = String::from_str("postgresql-").concat(version.as_str()).concat("-1-windows-x64-binaries.zip");
        let url = String::from_str("https://get.enterprisedb.com/postgresql/").concat(file.as_str());
        (url, file)
    }

    fn env_actions(&self, install_path: &str, config: &HudoConfig) -> (r: Vec<EnvAction>) {
        then(no_actions(), append_path(join_path(install_path, "bin")))
    }

    fn dependencies(&self) -> (r: Vec<String>) {
        no_deps()
    }

    fn install_dir(&self, config: &HudoConfig) -> (r: String) {
        join_path(config.tools_dir().as_str(), "pgsql")
    }
}

} // verus!
