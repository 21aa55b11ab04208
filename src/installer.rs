//! What each tool's installer provides, and the values that pass between the
//! installers and the orchestration.
use vstd::prelude::*;
use crate::config::{opt_view, ConfigView, HudoConfig};
use crate::orchestrator::str_views;
use crate::text::str_eq;

pub mod bun;
pub mod chrome;
pub mod gh;
pub mod git;
pub mod go;
pub mod gradle;
pub mod jdk;
pub mod maven;
pub mod mingw;
pub mod miniconda;
pub mod mysql;
pub mod nodejs;
pub mod pgsql;
pub mod pycharm;
pub mod rustup;
pub mod uv;
pub mod vscode;

verus! {

/// Identifies a tool across all parts of the system.
#[derive(Debug, Clone)]
pub struct ToolInfo {
    /// The key of the tool, such as `git`.
    pub id: &'static str,
    /// The name shown to the user.
    pub name: &'static str,
    /// One line on what the tool is.
    pub description: &'static str,
}

/// A change to the persistent user environment that an install needs.
#[derive(Debug, Clone)]
pub enum EnvAction {
    /// Set the variable `name` to `value`.
    SetVar { name: String, value: String },
    /// Append `path` to PATH.
    AppendPath { path: String },
}

/// An environment change, as sequences of characters.
pub enum EnvChange {
    SetVar(Seq<char>, Seq<char>),
    AppendPath(Seq<char>),
}

impl EnvAction {
    pub open spec fn view(&self) -> EnvChange {
        match self {
            EnvAction::SetVar { name, value } => EnvChange::SetVar(name@, value@),
            EnvAction::AppendPath { path } => EnvChange::AppendPath(path@),
        }
    }
}

/// The environment changes of a list of actions.
pub open spec fn changes(actions: Seq<EnvAction>) -> Seq<EnvChange> {
    actions.map_values(|a: EnvAction| a.view())
}

/// Where a tool stands on this machine.
#[derive(Debug)]
pub enum DetectResult {
    /// Not found.
    NotInstalled,
    /// Installed and owned by this system, with its version.
    InstalledByHudo(String),
    /// Reachable, but installed by something else, with its version.
    InstalledExternal(String),
}

/// Where a tool stands, as sequences of characters.
pub enum Detected {
    NotInstalled,
    Managed(Seq<char>),
    External(Seq<char>),
}

impl DetectResult {
    pub open spec fn view(&self) -> Detected {
        match self {
            DetectResult::NotInstalled => Detected::NotInstalled,
            DetectResult::InstalledByHudo(v) => Detected::Managed(v@),
            DetectResult::InstalledExternal(v) => Detected::External(v@),
        }
    }

    /// A second value equal to this one.
    pub fn duplicate(&self) -> (r: Self)
        ensures
            r.view() == self.view(),
    {
        match self {
            DetectResult::NotInstalled => DetectResult::NotInstalled,
            DetectResult::InstalledByHudo(v) => DetectResult::InstalledByHudo(v.clone()),
            DetectResult::InstalledExternal(v) => DetectResult::InstalledExternal(v.clone()),
        }
    }
}

/// What an install produced.
#[derive(Debug, Clone)]
pub struct InstallResult {
    /// The directory the tool was installed to.
    pub install_path: String,
    /// The version installed.
    pub version: String,
}

/// What an installer is given to work with.
pub struct InstallContext<'a> {
    pub config: &'a HudoConfig,
}

/// The state of an operating system service.
#[derive(Debug, Clone, Copy, PartialEq, Eq)]
pub enum ServiceState {
    Running,
    Stopped,
    NotFound,
}

/// What every tool provides: its identity, where it is downloaded from, the
/// environment its install needs, and the tools it depends on. Installing,
/// probing and configuring run outside the library.
pub trait Installer {
    /// The tool's id.
    spec fn id_spec(&self) -> Seq<char>;

    /// The download (URL, cache file name) under the settings `config`.
    spec fn download_spec(&self, config: ConfigView) -> (Seq<char>, Seq<char>);

    /// The environment changes for an install at `install_path`.
    spec fn env_spec(&self, install_path: Seq<char>, config: ConfigView) -> Seq<EnvChange>;

    /// The ids of the tools that must be installed first.
    spec fn deps_spec(&self) -> Seq<Seq<char>>;

    /// The directory the tool is installed to under the settings `config`.
    spec fn dir_spec(&self, config: ConfigView) -> Seq<char>;

    fn info(&self) -> (r: ToolInfo)
        ensures
            r.id@ == self.id_spec(),
    ;

    fn resolve_download(&self, config: &HudoConfig) -> (r: (String, String))
        ensures
            (r.0@, r.1@) == self.download_spec(config.model()),
    ;

    fn env_actions(&self, install_path: &str, config: &HudoConfig) -> (r: Vec<EnvAction>)
        ensures
            changes(r@) == self.env_spec(install_path@, config.model()),
    ;

    fn dependencies(&self) -> (r: Vec<String>)
        ensures
            str_views(r@) == self.deps_spec(),
    ;

    fn install_dir(&self, config: &HudoConfig) -> (r: String)
        ensures
            r@ == self.dir_spec(config.model()),
    ;
}

/// `o`'s value, or `d` where it has none.
pub open spec fn or_default(o: Option<Seq<char>>, d: Seq<char>) -> Seq<char> {
    match o {
        Some(v) => v,
        None => d,
    }
}

/// `o`'s value, or `d` where it has none.
pub fn value_or(o: &Option<String>, d: &str) -> (r: String)
    ensures
        r@ == or_default(opt_view(*o), d@),
{
    match o {
        Some(v) => v.clone(),
        None => String::from_str(d),
    }
}

/// An action that sets `name` to `value`.
pub fn set_var(name: &str, value: String) -> (r: EnvAction)
    ensures
        r.view() == EnvChange::SetVar(name@, value@),
{
    EnvAction::SetVar { name: String::from_str(name), value }
}

/// An action that appends `path` to PATH.
pub fn append_path(path: String) -> (r: EnvAction)
    ensures
        r.view() == EnvChange::AppendPath(path@),
{
    EnvAction::AppendPath { path }
}

/// `v` with `a` added at the end.
pub fn then(v: Vec<EnvAction>, a: EnvAction) -> (r: Vec<EnvAction>)
    ensures
        changes(r@) == changes(v@).push(a.view()),
{
    let mut v = v;
    let ghost before = v@;
    v.push(a);
    assert(changes(v@) =~= changes(before).push(a.view()));
    v
}

/// No actions.
pub fn no_actions() -> (r: Vec<EnvAction>)
    ensures
        changes(r@) == Seq::<EnvChange>::empty(),
{
    let v: Vec<EnvAction> = Vec::new();
    assert(changes(v@) =~= Seq::<EnvChange>::empty());
    v
}

/// The dependency list naming the one tool `id`.
pub fn depends_on(id: &str) -> (r: Vec<String>)
    ensures
        str_views(r@) == seq![id@],
{
    let mut v: Vec<String> = Vec::new();
    v.push(String::from_str(id));
    assert(str_views(v@) =~= seq![id@]);
    v
}

/// No dependencies.
pub fn no_deps() -> (r: Vec<String>)
    ensures
        str_views(r@) == Seq::<Seq<char>>::empty(),
{
    let v: Vec<String> = Vec::new();
    assert(str_views(v@) =~= Seq::<Seq<char>>::empty());
    v
}

/// The ids of the catalog, in order: tools, then language runtimes grouped by
/// language, databases, and editors.
pub open spec fn catalog_spec() -> Seq<Seq<char>> {
    seq![
        "git"@, "gh"@, "uv"@, "miniconda"@, "nodejs"@, "bun"@, "rust"@, "go"@, "jdk"@, "maven"@, "gradle"@, "c"@,
        "mysql"@, "pgsql"@, "vscode"@, "pycharm"@, "chrome"@,
    ]
}

/// The ids of the catalog, in order.
pub fn catalog_ids() -> (r: Vec<&'static str>)
    ensures
        r@.map_values(|s: &'static str| s@) == catalog_spec(),
{
    let mut v: Vec<&'static str> = Vec::new();
    v.push("git");
    v.push("gh");
    v.push("uv");
    v.push("miniconda");
    v.push("nodejs");
    v.push("bun");
    v.push("rust");
    v.push("go");
    v.push("jdk");
    v.push("maven");
    v.push("gradle");
    v.push("c");
    v.push("mysql");
    v.push("pgsql");
    v.push("vscode");
    v.push("pycharm");
    v.push("chrome");
    assert(v@.map_values(|s: &'static str| s@) =~= catalog_spec());
    v
}

/// Every tool this system manages, one installer per id of `catalog_ids`,
/// in that order. (Verus keeps no facts about a vector of trait objects, so
/// the order is stated on `catalog_ids` and held by a test.)
pub fn all_installers() -> (r: Vec<Box<dyn Installer>>) {
    let mut v: Vec<Box<dyn Installer>> = Vec::new();
    v.push(Box::new(git::GitInstaller));
    v.push(Box::new(gh::GhInstaller));
    v.push(Box::new(uv::UvInstaller));
    v.push(Box::new(miniconda::MinicondaInstaller));
    v.push(Box::new(nodejs::NodejsInstaller));
    v.push(Box::new(bun::BunInstaller));
    v.push(Box::new(rustup::RustupInstaller));
    v.push(Box::new(go::GoInstaller));
    v.push(Box::new(jdk::JdkInstaller));
    v.push(Box::new(maven::MavenInstaller));
    v.push(Box::new(gradle::GradleInstaller));
    v.push(Box::new(mingw::MingwInstaller));
    v.push(Box::new(mysql::MysqlInstaller));
    v.push(Box::new(pgsql::PgsqlInstaller));
    v.push(Box::new(vscode::VscodeInstaller));
    v.push(Box::new(pycharm::PycharmInstaller));
    v.push(Box::new(chrome::ChromeInstaller));
    v
}

/// The position of the tool `id` in `catalog`, if it is there.
pub fn find_tool(catalog: &Vec<Box<dyn Installer>>, id: &str) -> (r: Option<usize>)
    ensures
        r is Some ==> r->0 < catalog@.len() && catalog@[r->0 as int].id_spec() == id@,
        r is None ==> forall|i: int| 0 <= i < catalog@.len() ==> (#[trigger] catalog@[i]).id_spec() != id@,
{
    let mut i: usize = 0;
    while i < catalog.len()
        invariant
            i <= catalog@.len(),
            forall|j: int| 0 <= j < i ==> (#[trigger] catalog@[j]).id_spec() != id@,
        decreases catalog.len() - i,
    {
        let info = catalog[i].info();
        if crate::text::str_eq(info.id, id) {
            return Some(i);
        }
        i = i + 1;
    }
    None
}

/// `text` holds `word` somewhere.
pub open spec fn holds_word(text: Seq<char>, word: Seq<char>) -> bool {
    exists|i: int| 0 <= i && i + word.len() <= text.len() && #[trigger] text.subrange(i, i + word.len()) == word
}

/// Whether `text` holds `word` somewhere.
pub fn contains_word(text: &str, word: &str) -> (r: bool)
    ensures
        r == holds_word(text@, word@),
{
    let n = text.unicode_len();
    let m = word.unicode_len();
    if m > n {
        return false;
    }
    if m == 0 {
        assert(text@.subrange(0, 0 + word@.len() as int) =~= word@);
        return true;
    }
    let ends = n - m + 1;
    let mut i: usize = 0;
    while i < ends
        invariant
            n == text@.len(),
            m == word@.len(),
            1 <= m <= n,
            ends == n - m + 1,
            i <= ends,
            forall|j: int| 0 <= j < i ==> #[trigger] text@.subrange(j, j + m) != word@,
        decreases ends - i,
    {
        if str_eq(text.substring_char(i, i + m), word) {
            return true;
        }
        i = i + 1;
    }
    assert forall|j: int| 0 <= j && j + m <= n implies #[trigger] text@.subrange(j, j + m as int) != word@ by {
        assert(j < i);
    }
    false
}

/// The state of a service from the query for it: not found where the query
/// failed, running where its report says `RUNNING`, else stopped.
pub fn service_state_of(query_ok: bool, report: &str) -> (r: ServiceState)
    ensures
        r == if !query_ok {
            ServiceState::NotFound
        } else if holds_word(report@, "RUNNING"@) {
            ServiceState::Running
        } else {
            ServiceState::Stopped
        },
{
    if !query_ok {
        ServiceState::NotFound
    } else if contains_word(report, "RUNNING") {
        ServiceState::Running
    } else {
        ServiceState::Stopped
    }
}

} // verus!
