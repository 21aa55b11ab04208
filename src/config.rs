//! The user's settings: the install root and the directories derived from
//! it, the Java and Go versions, pinned tool versions and download mirrors.
use vstd::prelude::*;
use crate::text::str_eq;

verus! {

/// `base` and `name` with one path separator between them.
pub open spec fn joined(base: Seq<char>, name: Seq<char>) -> Seq<char> {
    if base.len() == 0 {
        name
    } else if base.last() == '\\' || base.last() == '/' {
        base + name
    } else {
        base.push('\\') + name
    }
}

/// The path `name` under the directory `base`.
pub fn join_path(base: &str, name: &str) -> (r: String)
    ensures
        r@ == joined(base@, name@),
{
    let n = base.unicode_len();
    if n == 0 {
        return String::from_str(name);
    }
    let last = base.get_char(n - 1);
    if last == '\\' || last == '/' {
        String::from_str(base).concat(name)
    } else {
        proof {
            reveal_strlit("\\");
        }
        let with_sep = String::from_str(base).concat("\\");
        assert(with_sep@ =~= base@.push('\\'));
        with_sep.concat(name)
    }
}

/// The `Option<String>` seen as an optional sequence of characters.
pub open spec fn opt_view(o: Option<String>) -> Option<Seq<char>> {
    match o {
        Some(s) => Some(s@),
        None => None,
    }
}

/// The Java release line to install.
#[derive(Debug, Clone)]
pub struct JavaConfig {
    pub version: String,
}

/// The Go release to install.
#[derive(Debug, Clone)]
pub struct GoConfig {
    pub version: String,
}

/// Download bases that replace a tool's official one.
#[derive(Debug, Clone)]
pub struct MirrorConfig {
    pub uv: Option<String>,
    pub fnm: Option<String>,
    pub go: Option<String>,
    pub java: Option<String>,
    pub vscode: Option<String>,
    pub pycharm: Option<String>,
    pub maven: Option<String>,
    pub gradle: Option<String>,
}

/// Versions pinned by the user instead of the latest release.
#[derive(Debug, Clone)]
pub struct VersionConfig {
    pub git: Option<String>,
    pub fnm: Option<String>,
    pub mysql: Option<String>,
    pub pgsql: Option<String>,
    pub pycharm: Option<String>,
    pub maven: Option<String>,
    pub gradle: Option<String>,
}

/// All settings.
#[derive(Debug, Clone)]
pub struct HudoConfig {
    pub root_dir: String,
    pub java: JavaConfig,
    pub go: GoConfig,
    pub versions: VersionConfig,
    pub mirrors: MirrorConfig,
}

/// One drive that could hold the install root.
#[derive(Debug)]
pub struct DriveInfo {
    /// The drive letter as an ASCII byte.
    pub letter: u8,
    pub is_system: bool,
    pub free_gb: u64,
}

/// The drive `letter` with `free_gb` GiB free; `C` is the system drive.
pub open spec fn drive_info(letter: u8, free_gb: u64) -> DriveInfo {
    DriveInfo { letter, is_system: letter == 67, free_gb }
}

/// The Java release line used when none is configured.
pub fn default_java_version() -> (r: String)
    ensures
        r@ == "21"@,
{
    String::from_str("21")
}

/// The Go release used when none is configured: the latest one.
pub fn default_go_version() -> (r: String)
    ensures
        r@ == "latest"@,
{
    String::from_str("latest")
}

impl Default for JavaConfig {
    fn default() -> (r: Self)
        ensures
            r.version@ == "21"@,
    {
        JavaConfig { version: default_java_version() }
    }
}

impl Default for GoConfig {
    fn default() -> (r: Self)
        ensures
            r.version@ == "latest"@,
    {
        GoConfig { version: default_go_version() }
    }
}

impl Default for MirrorConfig {
    fn default() -> (r: Self)
        ensures
            r.uv is None && r.fnm is None && r.go is None && r.java is None,
            r.vscode is None && r.pycharm is None && r.maven is None && r.gradle is None,
    {
        MirrorConfig {
            uv: None,
            fnm: None,
            go: None,
            java: None,
            vscode: None,
            pycharm: None,
            maven: None,
            gradle: None,
        }
    }
}

impl Default for VersionConfig {
    fn default() -> (r: Self)
        ensures
            r.git is None && r.fnm is None && r.mysql is None && r.pgsql is None,
            r.pycharm is None && r.maven is None && r.gradle is None,
    {
        VersionConfig { git: None, fnm: None, mysql: None, pgsql: None, pycharm: None, maven: None, gradle: None }
    }
}

/// All settings, as sequences of characters.
pub struct ConfigView {
    pub root_dir: Seq<char>,
    pub java_version: Seq<char>,
    pub go_version: Seq<char>,
    pub versions_git: Option<Seq<char>>,
    pub versions_fnm: Option<Seq<char>>,
    pub versions_mysql: Option<Seq<char>>,
    pub versions_pgsql: Option<Seq<char>>,
    pub versions_pycharm: Option<Seq<char>>,
    pub mirrors_uv: Option<Seq<char>>,
    pub mirrors_fnm: Option<Seq<char>>,
    pub mirrors_go: Option<Seq<char>>,
    pub mirrors_java: Option<Seq<char>>,
    pub mirrors_vscode: Option<Seq<char>>,
    pub mirrors_pycharm: Option<Seq<char>>,
    pub versions_maven: Option<Seq<char>>,
    pub versions_gradle: Option<Seq<char>>,
    pub mirrors_maven: Option<Seq<char>>,
    pub mirrors_gradle: Option<Seq<char>>,
}

/// The keys that `cmd_config_set` accepts.
pub open spec fn known_key(k: Seq<char>) -> bool {
    k == "root_dir"@ || k == "java.version"@ || k == "go.version"@ || k == "versions.git"@
        || k == "versions.fnm"@ || k == "versions.mysql"@ || k == "versions.pgsql"@
        || k == "versions.pycharm"@ || k == "mirrors.uv"@ || k == "mirrors.fnm"@
        || k == "mirrors.go"@ || k == "mirrors.java"@ || k == "mirrors.vscode"@
        || k == "mirrors.pycharm"@
}

/// The settings `c` with the one named by `k` set to `v`.
pub open spec fn config_set(c: ConfigView, k: Seq<char>, v: Seq<char>) -> ConfigView {
    if k == "root_dir"@ {
        ConfigView { root_dir: v, ..c }
    } else if k == "java.version"@ {
        ConfigView { java_version: v, ..c }
    } else if k == "go.version"@ {
        ConfigView { go_version: v, ..c }
    } else if k == "versions.git"@ {
        ConfigView { versions_git: Some(v), ..c }
    } else if k == "versions.fnm"@ {
        ConfigView { versions_fnm: Some(v), ..c }
    } else if k == "versions.mysql"@ {
        ConfigView { versions_mysql: Some(v), ..c }
    } else if k == "versions.pgsql"@ {
        ConfigView { versions_pgsql: Some(v), ..c }
    } else if k == "versions.pycharm"@ {
        ConfigView { versions_pycharm: Some(v), ..c }
    } else if k == "mirrors.uv"@ {
        ConfigView { mirrors_uv: Some(v), ..c }
    } else if k == "mirrors.fnm"@ {
        ConfigView { mirrors_fnm: Some(v), ..c }
    } else if k == "mirrors.go"@ {
        ConfigView { mirrors_go: Some(v), ..c }
    } else if k == "mirrors.java"@ {
        ConfigView { mirrors_java: Some(v), ..c }
    } else if k == "mirrors.vscode"@ {
        ConfigView { mirrors_vscode: Some(v), ..c }
    } else if k == "mirrors.pycharm"@ {
        ConfigView { mirrors_pycharm: Some(v), ..c }
    } else {
        c
    }
}

/// A setting that `cmd_config_set` does not know.
#[derive(Debug, Clone)]
pub struct UnknownKey {
    pub key: String,
}

impl HudoConfig {
    /// The settings, as sequences of characters.
    pub open spec fn model(&self) -> ConfigView {
        ConfigView {
            root_dir: self.root_dir@,
            java_version: self.java.version@,
            go_version: self.go.version@,
            versions_git: opt_view(self.versions.git),
            versions_fnm: opt_view(self.versions.fnm),
            versions_mysql: opt_view(self.versions.mysql),
            versions_pgsql: opt_view(self.versions.pgsql),
            versions_pycharm: opt_view(self.versions.pycharm),
            mirrors_uv: opt_view(self.mirrors.uv),
            mirrors_fnm: opt_view(self.mirrors.fnm),
            mirrors_go: opt_view(self.mirrors.go),
            mirrors_java: opt_view(self.mirrors.java),
            mirrors_vscode: opt_view(self.mirrors.vscode),
            mirrors_pycharm: opt_view(self.mirrors.pycharm),
            versions_maven: opt_view(self.versions.maven),
            versions_gradle: opt_view(self.versions.gradle),
            mirrors_maven: opt_view(self.mirrors.maven),
            mirrors_gradle: opt_view(self.mirrors.gradle),
        }
    }

    /// Settings with the given install root and everything else at its default.
    pub fn with_root(root_dir: &str) -> (r: Self)
        ensures
            r.root_dir@ == root_dir@,
            r.java.version@ == "21"@,
            r.go.version@ == "latest"@,
            r.model().versions_git is None && r.model().mirrors_uv is None,
    {
        HudoConfig {
            root_dir: String::from_str(root_dir),
            java: JavaConfig::default(),
            go: GoConfig::default(),
            versions: VersionConfig::default(),
            mirrors: MirrorConfig::default(),
        }
    }

    /// The install root.
    pub fn root_path(&self) -> (r: String)
        ensures
            r@ == self.root_dir@,
    {
        String::from_str(self.root_dir.as_str())
    }

    /// Where command line tools are installed.
    pub fn tools_dir(&self) -> (r: String)
        ensures
            r@ == joined(self.root_dir@, "tools"@),
    {
        join_path(self.root_dir.as_str(), "tools")
    }

    /// Where language runtimes are installed.
    pub fn lang_dir(&self) -> (r: String)
        ensures
            r@ == joined(self.root_dir@, "lang"@),
    {
        join_path(self.root_dir.as_str(), "lang")
    }

    /// Where editors and IDEs are installed.
    pub fn ide_dir(&self) -> (r: String)
        ensures
            r@ == joined(self.root_dir@, "ide"@),
    {
        join_path(self.root_dir.as_str(), "ide")
    }

    /// Where downloads are kept.
    pub fn cache_dir(&self) -> (r: String)
        ensures
            r@ == joined(self.root_dir@, "cache"@),
    {
        join_path(self.root_dir.as_str(), "cache")
    }

    /// The ledger file.
    pub fn state_path(&self) -> (r: String)
        ensures
            r@ == joined(self.root_dir@, "state.json"@),
    {
        join_path(self.root_dir.as_str(), "state.json")
    }

    /// The drives on offer for the install root, from each drive letter found
    /// (an ASCII byte) with its free space in GiB: the system drive is `C`.
    pub fn scan_drives(found: &Vec<(u8, u64)>) -> (r: Vec<DriveInfo>)
        ensures
            r@.len() == found@.len(),
            forall|i: int| 0 <= i < r@.len() ==> #[trigger] r@[i] == drive_info(found@[i].0, found@[i].1),
    {
        let mut drives: Vec<DriveInfo> = Vec::new();
        let mut i: usize = 0;
        while i < found.len()
            invariant
                i <= found@.len(),
                drives@.len() == i,
                forall|j: int| 0 <= j < i ==> #[trigger] drives@[j] == drive_info(found@[j].0, found@[j].1),
            decreases found.len() - i,
        {
            let (letter, gb) = found[i];
            let d = DriveInfo { letter, is_system: letter == 67, free_gb: gb };
            drives.push(d);
            i = i + 1;
        }
        drives
    }
}

/// Sets the setting named `key` to `value`; an unknown key changes nothing
/// and is an error.
pub fn cmd_config_set(config: &mut HudoConfig, key: &str, value: &str) -> (r: Result<(), UnknownKey>)
    ensures
        r is Ok <==> known_key(key@),
        r is Err ==> r->Err_0.key@ == key@,
        final(config).model() == config_set(old(config).model(), key@, value@),
{
    let v = String::from_str(value);
    if str_eq(key, "root_dir") {
        config.root_dir = v;
    } else if str_eq(key, "java.version") {
        config.java.version = v;
    } else if str_eq(key, "go.version") {
        config.go.version = v;
    } else if str_eq(key, "versions.git") {
        config.versions.git = Some(v);
    } else if str_eq(key, "versions.fnm") {
        config.versions.fnm = Some(v);
    } else if str_eq(key, "versions.mysql") {
        config.versions.mysql = Some(v);
    } else if str_eq(key, "versions.pgsql") {
        config.versions.pgsql = Some(v);
    } else if str_eq(key, "versions.pycharm") {
        config.versions.pycharm = Some(v);
    } else if str_eq(key, "mirrors.uv") {
        config.mirrors.uv = Some(v);
    } else if str_eq(key, "mirrors.fnm") {
        config.mirrors.fnm = Some(v);
    } else if str_eq(key, "mirrors.go") {
        config.mirrors.go = Some(v);
    } else if str_eq(key, "mirrors.java") {
        config.mirrors.java = Some(v);
    } else if str_eq(key, "mirrors.vscode") {
        config.mirrors.vscode = Some(v);
    } else if str_eq(key, "mirrors.pycharm") {
        config.mirrors.pycharm = Some(v);
    } else {
        return Err(UnknownKey { key: String::from_str(key) });
    }
    Ok(())
}

} // verus!
