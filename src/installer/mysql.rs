//! MySQL Community Server, unpacked from its zip archive.
use vstd::prelude::*;
use crate::config::{join_path, joined, ConfigView, HudoConfig};
use crate::installer::{append_path, no_actions, no_deps, or_default, then, value_or, EnvAction, EnvChange, Installer, ToolInfo};
use crate::text::{join_strs, join_with, split_on, split_str, views};

verus! {

pub struct MysqlInstaller;

/// The release fetched unless another is asked for.
pub const MYSQL_VERSION_DEFAULT: &'static str = "8.4.8";

/// The release series of `version`: all but its last number (`8.4` for
/// `8.4.8`), or the whole version where it has a single number.
pub open spec fn release_series(version: Seq<char>) -> Seq<char> {
    let parts = split_on(version, '.');
    if parts.len() > 1 {
        join_with(parts.drop_last(), '.')
    } else {
        version
    }
}

/// The release series of `version`.
pub fn series_of(version: &str) -> (r: String)
    ensures
        r@ == release_series(version@),
{
    let parts = split_str(version, '.');
    if parts.len() <= 1 {
        return String::from_str(version);
    }
    let ghost pv = views(parts@);
    let mut head: Vec<String> = Vec::new();
    let mut j: usize = 0;
    while j + 1 < parts.len()
        invariant
            views(parts@) == pv,
            parts@.len() > 1,
            j < parts@.len(),
            views(head@) == pv.take(j as int),
        decreases parts.len() - j,
    {
        let ghost before = head@;
        head.push(parts[j].clone());
        assert(views(head@) =~= views(before).push(parts@[j as int]@));
        assert(pv.take(j as int + 1) =~= pv.take(j as int).push(pv[j as int]));
        j = j + 1;
    }
    assert(pv.take(j as int) =~= pv.drop_last());
    proof {
        reveal_strlit(".");
    }
    join_strs(&head, ".")
}

impl Installer for MysqlInstaller {
    open spec fn id_spec(&self) -> Seq<char> {
        "mysql"@
    }

    open spec fn download_spec(&self, config: ConfigView) -> (Seq<char>, Seq<char>) {
        let version = or_default(config.versions_mysql, MYSQL_VERSION_DEFAULT@);
        let file = "mysql-"@ + version + "-winx64.zip"@;
        ("https://cdn.mysql.com/Downloads/MySQL-"@ + release_series(version) + "/"@ + file, file)
    }

    open spec fn env_spec(&self, install_path: Seq<char>, config: ConfigView) -> Seq<EnvChange> {
        seq![EnvChange::AppendPath(joined(install_path, "bin"@))]
    }

    open spec fn dir_spec(&self, config: ConfigView) -> Seq<char> {
        joined(joined(config.root_dir, "tools"@), "mysql"@)
    }

    open spec fn deps_spec(&self) -> Seq<Seq<char>> {
        Seq::empty()
    }

    fn info(&self) -> (r: ToolInfo) {
        ToolInfo { id: "mysql", name: "MySQL", description: "MySQL Community Server" }
    }

    fn resolve_download(&self, config: &HudoConfig) -> (r: (String, String)) {
        let version = value_or(&config.versions.mysql, MYSQL_VERSION_DEFAULT);
        let file = String::from_str("mysql-").concat(version.as_str()).concat("-winx64.zip");
        let url = String::from_str("https://cdn.mysql.com/Downloads/MySQL-").concat(series_of(version.as_str()).as_str()).concat(
            "/",
        ).concat(file.as_str());
        (url, file)
    }

    fn env_actions(&self, install_path: &str, config: &HudoConfig) -> (r: Vec<EnvAction>) {
        then(no_actions(), append_path(join_path(install_path, "bin")))
    }

    fn dependencies(&self) -> (r: Vec<String>) {
        no_deps()
    }

    fn install_dir(&self, config: &HudoConfig) -> (r: String) {
        join_path(config.tools_dir().as_str(), "mysql")
    }
}

} // verus!
