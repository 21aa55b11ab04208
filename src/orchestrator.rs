//! The lifecycle of one tool: what `ensure` does for each detected state, how
//! an uninstall reverses an install, and how a batch reports its outcome.
use vstd::prelude::*;
use crate::detect::{fast_detect_spec, merged};
use crate::env::{lemma_removed_count_le, lemma_removed_has_none, path_count, removed_path};
use crate::config::{join_path, joined, HudoConfig};
use crate::installer::{changes, Detected, DetectResult, EnvAction, EnvChange};
use crate::text::{join_strs, join_with, split_on, split_str, str_eq, trim_str, trim_ws, views};

verus! {

/// One step of `ensure`, carried out in order by the caller.
#[derive(Debug, Clone)]
pub enum EnsureAction {
    /// Run the tool's configuration hook.
    Configure,
    /// Remove the installation that this system does not own.
    UninstallExternal,
    /// Make sure the named tool, which this one needs, is installed, and put
    /// its environment into effect for the rest of the session.
    EnsureDependency(String),
    /// Download and install the tool.
    Install,
    /// Apply the tool's environment actions.
    ApplyEnv,
    /// Write the install record to the ledger.
    Record,
}

/// One step of `ensure`, as sequences of characters.
pub enum Step {
    Configure,
    UninstallExternal,
    EnsureDependency(Seq<char>),
    Install,
    ApplyEnv,
    Record,
}

impl EnsureAction {
    pub open spec fn view(&self) -> Step {
        match self {
            EnsureAction::Configure => Step::Configure,
            EnsureAction::UninstallExternal => Step::UninstallExternal,
            EnsureAction::EnsureDependency(d) => Step::EnsureDependency(d@),
            EnsureAction::Install => Step::Install,
            EnsureAction::ApplyEnv => Step::ApplyEnv,
            EnsureAction::Record => Step::Record,
        }
    }
}

pub open spec fn steps(actions: Seq<EnsureAction>) -> Seq<Step> {
    actions.map_values(|a: EnsureAction| a.view())
}

/// The configuration step, where one is asked for.
pub open spec fn configure_tail(configure: bool) -> Seq<Step> {
    if configure {
        seq![Step::Configure]
    } else {
        Seq::empty()
    }
}

/// The steps that install a tool: its missing dependencies first, then the
/// install, its environment, its record, and its configuration.
pub open spec fn install_steps(missing: Seq<Seq<char>>, configure: bool) -> Seq<Step> {
    missing.map_values(|d: Seq<char>| Step::EnsureDependency(d)) + seq![Step::Install, Step::ApplyEnv, Step::Record]
        + configure_tail(configure)
}

/// What `ensure` does for a tool in the state `d`. A managed tool is only
/// configured. An external one is configured in place unless the user lets
/// this system take it over; then it is removed and installed anew.
pub open spec fn ensure_steps(d: Detected, take_over: bool, missing: Seq<Seq<char>>, configure: bool) -> Seq<Step> {
    match d {
        Detected::Managed(_) => configure_tail(configure),
        Detected::External(_) => if take_over {
            seq![Step::UninstallExternal] + install_steps(missing, configure)
        } else {
            configure_tail(configure)
        },
        Detected::NotInstalled => install_steps(missing, configure),
    }
}

pub open spec fn str_views(v: Seq<String>) -> Seq<Seq<char>> {
    v.map_values(|s: String| s@)
}

/// The steps of `ensure` for a tool found in the state `detected`.
/// `take_over` is the user's answer on an external install; `missing` are the
/// tools it depends on that are not installed; `configure` asks for the
/// configuration hook to run at the end.
pub fn ensure_plan(detected: &DetectResult, take_over: bool, missing: &Vec<String>, configure: bool) -> (r: Vec<EnsureAction>)
    ensures
        steps(r@) == ensure_steps(detected.view(), take_over, str_views(missing@), configure),
{
    let mut r: Vec<EnsureAction> = Vec::new();
    let install = match detected {
        DetectResult::InstalledByHudo(_) => false,
        DetectResult::InstalledExternal(_) => take_over,
        DetectResult::NotInstalled => true,
    };
    if install {
        if let DetectResult::InstalledExternal(_) = detected {
            r.push(EnsureAction::UninstallExternal);
        }
        let ghost head = steps(r@);
        assert(head =~= match detected {
            DetectResult::InstalledExternal(_) => seq![Step::UninstallExternal],
            _ => Seq::<Step>::empty(),
        });
        let mut i: usize = 0;
        while i < missing.len()
            invariant
                i <= missing@.len(),
                steps(r@) == head + str_views(missing@).take(i as int).map_values(|d: Seq<char>| Step::EnsureDependency(d)),
            decreases missing.len() - i,
        {
            let ghost before = r@;
            r.push(EnsureAction::EnsureDependency(missing[i].clone()));
            assert(steps(r@) =~= steps(before).push(Step::EnsureDependency(missing@[i as int]@)));
            assert(str_views(missing@).take(i as int + 1).map_values(|d: Seq<char>| Step::EnsureDependency(d))
                =~= str_views(missing@).take(i as int).map_values(|d: Seq<char>| Step::EnsureDependency(d)).push(
                Step::EnsureDependency(missing@[i as int]@)));
            i = i + 1;
        }
        assert(str_views(missing@).take(missing@.len() as int) =~= str_views(missing@));
        let ghost after_deps = r@;
        r.push(EnsureAction::Install);
        r.push(EnsureAction::ApplyEnv);
        r.push(EnsureAction::Record);
        assert(steps(r@) =~= steps(after_deps) + seq![Step::Install, Step::ApplyEnv, Step::Record]);
    }
    let ghost pre_conf = r@;
    if configure {
        r.push(EnsureAction::Configure);
    }
    proof {
        assert(steps(r@) =~= steps(pre_conf) + configure_tail(configure));
        let d = str_views(missing@).map_values(|d: Seq<char>| Step::EnsureDependency(d));
        if install {
            assert(install_steps(str_views(missing@), configure) =~= d + seq![Step::Install, Step::ApplyEnv, Step::Record]
                + configure_tail(configure));
            match detected {
                DetectResult::InstalledExternal(_) => {
                    assert(steps(r@) =~= seq![Step::UninstallExternal] + install_steps(str_views(missing@), configure));
                },
                _ => {
                    assert(steps(r@) =~= install_steps(str_views(missing@), configure));
                },
            }
        } else {
            assert(steps(pre_conf) =~= Seq::<Step>::empty());
        }
        assert(steps(r@) =~= ensure_steps(detected.view(), take_over, str_views(missing@), configure));
    }
    r
}

/// One step of an uninstall, carried out in order by the caller.
#[derive(Debug, Clone)]
pub enum UninstallStep {
    /// Run the tool's pre-uninstall hook (stop a service and the like).
    PreUninstall,
    /// Delete the user variable with this name.
    DeleteVar(String),
    /// Take this directory out of PATH.
    RemoveFromPath(String),
    /// Delete the install directory.
    DeleteInstallDir,
    /// Drop the tool's ledger record.
    RemoveRecord,
}

/// One step of an uninstall, as sequences of characters.
pub enum Undo {
    PreUninstall,
    DeleteVar(Seq<char>),
    RemoveFromPath(Seq<char>),
    DeleteInstallDir,
    RemoveRecord,
}

impl UninstallStep {
    pub open spec fn view(&self) -> Undo {
        match self {
            UninstallStep::PreUninstall => Undo::PreUninstall,
            UninstallStep::DeleteVar(n) => Undo::DeleteVar(n@),
            UninstallStep::RemoveFromPath(p) => Undo::RemoveFromPath(p@),
            UninstallStep::DeleteInstallDir => Undo::DeleteInstallDir,
            UninstallStep::RemoveRecord => Undo::RemoveRecord,
        }
    }
}

pub open spec fn undos(v: Seq<UninstallStep>) -> Seq<Undo> {
    v.map_values(|u: UninstallStep| u.view())
}

/// The step that reverses one environment change.
pub open spec fn undo_of(c: EnvChange) -> Undo {
    match c {
        EnvChange::SetVar(n, _) => Undo::DeleteVar(n),
        EnvChange::AppendPath(p) => Undo::RemoveFromPath(p),
    }
}

/// The steps of an uninstall of a managed tool whose install took the
/// environment actions `actions`; nothing for a tool that is not managed.
pub open spec fn uninstall_steps_spec(d: Detected, actions: Seq<EnvChange>) -> Option<Seq<Undo>> {
    match d {
        Detected::Managed(_) => Some(
            seq![Undo::PreUninstall] + actions.map_values(|c: EnvChange| undo_of(c)) + seq![
                Undo::DeleteInstallDir,
                Undo::RemoveRecord,
            ],
        ),
        _ => None,
    }
}

/// The steps that uninstall a tool found in the state `detected` whose
/// install took the environment actions `actions`. Only a managed tool is
/// uninstalled: for any other the result is `None` and nothing is done.
pub fn uninstall_plan(detected: &DetectResult, actions: &Vec<EnvAction>) -> (r: Option<Vec<UninstallStep>>)
    ensures
        match r {
            Some(v) => uninstall_steps_spec(detected.view(), changes(actions@)) == Some(undos(v@)),
            None => uninstall_steps_spec(detected.view(), changes(actions@)) is None,
        },
{
    match detected {
        DetectResult::InstalledByHudo(_) => {},
        _ => {
            return None;
        },
    }
    let mut r: Vec<UninstallStep> = Vec::new();
    r.push(UninstallStep::PreUninstall);
    let mut i: usize = 0;
    while i < actions.len()
        invariant
            i <= actions@.len(),
            undos(r@) == seq![Undo::PreUninstall] + changes(actions@).take(i as int).map_values(|c: EnvChange| undo_of(c)),
        decreases actions.len() - i,
    {
        let ghost before = r@;
        let step = match &actions[i] {
            EnvAction::SetVar { name, .. } => UninstallStep::DeleteVar(name.clone()),
            EnvAction::AppendPath { path } => UninstallStep::RemoveFromPath(path.clone()),
        };
        r.push(step);
        assert(undos(r@) =~= undos(before).push(undo_of(actions@[i as int].view())));
        assert(changes(actions@).take(i as int + 1).map_values(|c: EnvChange| undo_of(c))
            =~= changes(actions@).take(i as int).map_values(|c: EnvChange| undo_of(c)).push(undo_of(actions@[i as int].view())));
        i = i + 1;
    }
    assert(changes(actions@).take(actions@.len() as int) =~= changes(actions@));
    let ghost mid = r@;
    r.push(UninstallStep::DeleteInstallDir);
    r.push(UninstallStep::RemoveRecord);
    assert(undos(r@) =~= undos(mid) + seq![Undo::DeleteInstallDir, Undo::RemoveRecord]);
    Some(r)
}

/// Calling `ensure` on a tool that the ledger records and whose install path
/// is present only configures it (or does nothing where no configuration is
/// asked for): no dependency, no download, no environment change and no
/// ledger write, whatever a probe would have said.
pub proof fn lemma_managed_ensure_only_configures(
    ledger: Map<Seq<char>, (Seq<char>, Seq<char>, Seq<char>)>,
    id: Seq<char>,
    probed: Option<Detected>,
    take_over: bool,
    missing: Seq<Seq<char>>,
    configure: bool,
)
    requires
        ledger.contains_key(id),
    ensures
        merged(fast_detect_spec(ledger, id, true), probed) == Detected::Managed(ledger[id].0),
        ensure_steps(merged(fast_detect_spec(ledger, id, true), probed), take_over, missing, configure)
            == configure_tail(configure),
        forall|i: int|
            0 <= i < ensure_steps(merged(fast_detect_spec(ledger, id, true), probed), take_over, missing, configure).len()
                ==> #[trigger] ensure_steps(merged(fast_detect_spec(ledger, id, true), probed), take_over, missing, configure)[i]
                is Configure,
{
}

/// The name of the PATH variable in the user environment.
pub open spec fn path_key() -> Seq<char> {
    seq!['P', 'a', 't', 'h']
}

/// The PATH value of the environment `env`; empty where it has none.
pub open spec fn path_of(env: Map<Seq<char>, Seq<char>>) -> Seq<char> {
    if env.contains_key(path_key()) {
        env[path_key()]
    } else {
        Seq::empty()
    }
}

/// The user environment after one uninstall step.
pub open spec fn apply_undo(env: Map<Seq<char>, Seq<char>>, u: Undo) -> Map<Seq<char>, Seq<char>> {
    match u {
        Undo::DeleteVar(n) => env.remove(n),
        Undo::RemoveFromPath(p) => env.insert(path_key(), removed_path(path_of(env), p)),
        _ => env,
    }
}

/// The user environment after the uninstall steps `us`, in order.
pub open spec fn run_undos(env: Map<Seq<char>, Seq<char>>, us: Seq<Undo>) -> Map<Seq<char>, Seq<char>>
    decreases us.len(),
{
    if us.len() == 0 {
        env
    } else {
        apply_undo(run_undos(env, us.drop_last()), us.last())
    }
}

/// Every step of `us` has taken effect in `env`.
pub open spec fn undone(env: Map<Seq<char>, Seq<char>>, us: Seq<Undo>) -> bool {
    forall|j: int|
        0 <= j < us.len() ==> match #[trigger] us[j] {
            Undo::DeleteVar(n) => !env.contains_key(n),
            Undo::RemoveFromPath(p) => path_count(path_of(env), p) == 0,
            _ => true,
        }
}

/// The variable names that `us` deletes are not the PATH variable.
pub open spec fn spares_path(us: Seq<Undo>) -> bool {
    forall|j: int| 0 <= j < us.len() ==> match #[trigger] us[j] {
        Undo::DeleteVar(n) => n != path_key(),
        _ => true,
    }
}

proof fn lemma_run_undos(env: Map<Seq<char>, Seq<char>>, us: Seq<Undo>)
    requires
        spares_path(us),
    ensures
        undone(run_undos(env, us), us),
    decreases us.len(),
{
    if us.len() > 0 {
        let init = us.drop_last();
        assert(spares_path(init)) by {
            assert forall|j: int| 0 <= j < init.len() implies match #[trigger] init[j] {
                Undo::DeleteVar(n) => n != path_key(),
                _ => true,
            } by {
                assert(init[j] == us[j]);
            }
        }
        lemma_run_undos(env, init);
        let prev = run_undos(env, init);
        let last = us.last();
        let after = run_undos(env, us);
        assert(after == apply_undo(prev, last));
        assert forall|j: int| 0 <= j < us.len() implies match #[trigger] us[j] {
            Undo::DeleteVar(n) => !after.contains_key(n),
            Undo::RemoveFromPath(p) => path_count(path_of(after), p) == 0,
            _ => true,
        } by {
            if j < init.len() {
                assert(us[j] == init[j]);
                match us[j] {
                    Undo::RemoveFromPath(p) => {
                        if let Undo::RemoveFromPath(q) = last {
                            lemma_removed_count_le(path_of(prev), q, p);
                        } else if let Undo::DeleteVar(n) = last {
                            assert(us[us.len() - 1] == last);
                            assert(path_of(after) == path_of(prev));
                        }
                    },
                    Undo::DeleteVar(n) => {
                        assert(n != path_key());
                    },
                    _ => {},
                }
            } else {
                if let Undo::RemoveFromPath(q) = last {
                    lemma_removed_has_none(path_of(prev), q);
                }
            }
        }
    }
}

/// Uninstalling a managed tool reverses its install: each variable that the
/// install set is gone, no PATH entry stands for a directory it appended,
/// the ledger no longer records the tool, and with no external copy found a
/// later detection reports it not installed. Holds for actions that do not
/// set the PATH variable itself.
pub proof fn lemma_uninstall_reverses(
    env: Map<Seq<char>, Seq<char>>,
    ledger: Map<Seq<char>, (Seq<char>, Seq<char>, Seq<char>)>,
    id: Seq<char>,
    version: Seq<char>,
    actions: Seq<EnvChange>,
    path_present: bool,
)
    requires
        forall|i: int| 0 <= i < actions.len() ==> match #[trigger] actions[i] {
            EnvChange::SetVar(n, _) => n != path_key(),
            _ => true,
        },
    ensures
        uninstall_steps_spec(Detected::Managed(version), actions) is Some,
        forall|i: int| 0 <= i < actions.len() ==> match #[trigger] actions[i] {
            EnvChange::SetVar(n, _) => !run_undos(env, uninstall_steps_spec(Detected::Managed(version), actions)->0).contains_key(n),
            EnvChange::AppendPath(p) => path_count(path_of(run_undos(env, uninstall_steps_spec(Detected::Managed(version), actions)->0)), p) == 0,
        },
        !ledger.remove(id).contains_key(id),
        merged(fast_detect_spec(ledger.remove(id), id, path_present), Some(Detected::NotInstalled)) == Detected::NotInstalled,
{
    let mid = actions.map_values(|c: EnvChange| undo_of(c));
    let us = seq![Undo::PreUninstall] + mid + seq![Undo::DeleteInstallDir, Undo::RemoveRecord];
    assert(uninstall_steps_spec(Detected::Managed(version), actions) == Some(us));
    assert(spares_path(us)) by {
        assert forall|j: int| 0 <= j < us.len() implies match #[trigger] us[j] {
            Undo::DeleteVar(n) => n != path_key(),
            _ => true,
        } by {
            if 1 <= j < 1 + actions.len() {
                assert(us[j] == undo_of(actions[j - 1]));
            }
        }
    }
    lemma_run_undos(env, us);
    assert forall|i: int| 0 <= i < actions.len() implies match #[trigger] actions[i] {
        EnvChange::SetVar(n, _) => !run_undos(env, us).contains_key(n),
        EnvChange::AppendPath(p) => path_count(path_of(run_undos(env, us)), p) == 0,
    } by {
        assert(us[i + 1] == undo_of(actions[i]));
    }
}

/// How a copy of a tool that this system does not own is removed before
/// this system installs its own.
#[derive(Debug, Clone)]
pub enum SystemUninstall {
    /// Run, silently, the uninstaller registered under this key.
    RegistryUninstaller(String),
    /// Remove uv's binaries, cache and receipt, and its PATH entry.
    Uv,
    /// Run `rustup self uninstall`; failing that, take the directories of
    /// `rustc` and `cargo` out of PATH and delete CARGO_HOME and RUSTUP_HOME.
    Rust,
    /// Take the directory of `go` out of PATH and delete GOROOT and GOPATH.
    Go,
    /// Take the directory of `conda` out of PATH.
    Miniconda,
    /// Take the directory of `code` out of PATH.
    Vscode,
    /// Find these binaries on PATH, take their directories out of PATH and
    /// delete these variables.
    Green { binaries: Vec<String>, env_vars: Vec<String> },
}

/// A way to remove an external copy, as sequences of characters.
pub enum SystemPlan {
    Registry(Seq<char>),
    Uv,
    Rust,
    Go,
    Miniconda,
    Vscode,
    Green(Seq<Seq<char>>, Seq<Seq<char>>),
}

impl SystemUninstall {
    pub open spec fn view(&self) -> SystemPlan {
        match self {
            SystemUninstall::RegistryUninstaller(k) => SystemPlan::Registry(k@),
            SystemUninstall::Uv => SystemPlan::Uv,
            SystemUninstall::Rust => SystemPlan::Rust,
            SystemUninstall::Go => SystemPlan::Go,
            SystemUninstall::Miniconda => SystemPlan::Miniconda,
            SystemUninstall::Vscode => SystemPlan::Vscode,
            SystemUninstall::Green { binaries, env_vars } => SystemPlan::Green(str_views(binaries@), str_views(env_vars@)),
        }
    }
}

/// The way to remove an external copy of the tool `id`; `None` where this
/// system cannot remove one.
pub open spec fn system_uninstall_of(id: Seq<char>) -> Option<SystemPlan> {
    if id == "git"@ {
        Some(SystemPlan::Registry("Git_is1"@))
    } else if id == "uv"@ {
        Some(SystemPlan::Uv)
    } else if id == "rust"@ {
        Some(SystemPlan::Rust)
    } else if id == "go"@ {
        Some(SystemPlan::Go)
    } else if id == "miniconda"@ {
        Some(SystemPlan::Miniconda)
    } else if id == "vscode"@ {
        Some(SystemPlan::Vscode)
    } else if id == "nodejs"@ {
        Some(SystemPlan::Green(seq!["fnm"@, "node"@], seq!["FNM_DIR"@]))
    } else if id == "bun"@ {
        Some(SystemPlan::Green(seq!["bun"@], Seq::empty()))
    } else if id == "jdk"@ {
        Some(SystemPlan::Green(seq!["java"@], seq!["JAVA_HOME"@]))
    } else if id == "c"@ {
        Some(SystemPlan::Green(seq!["gcc"@], Seq::empty()))
    } else if id == "mysql"@ {
        Some(SystemPlan::Green(seq!["mysql"@], Seq::empty()))
    } else if id == "pgsql"@ {
        Some(SystemPlan::Green(seq!["psql"@], Seq::empty()))
    } else if id == "pycharm"@ {
        Some(SystemPlan::Green(seq!["pycharm64"@], Seq::empty()))
    } else {
        None
    }
}

/// A tool whose external copy this system cannot remove.
#[derive(Debug, Clone)]
pub struct UnsupportedTool {
    pub id: String,
}

fn names(a: &str, b: &str, two: bool) -> (r: Vec<String>)
    ensures
        str_views(r@) == if two { seq![a@, b@] } else { seq![a@] },
{
    let mut v: Vec<String> = Vec::new();
    v.push(String::from_str(a));
    if two {
        v.push(String::from_str(b));
    }
    assert(str_views(v@) =~= if two { seq![a@, b@] } else { seq![a@] });
    v
}

fn none_named() -> (r: Vec<String>)
    ensures
        str_views(r@) == Seq::<Seq<char>>::empty(),
{
    let v: Vec<String> = Vec::new();
    assert(str_views(v@) =~= Seq::<Seq<char>>::empty());
    v
}

/// How to remove the external copy of the tool `tool_id` before taking it
/// over; an error for a tool that has no such way.
pub fn uninstall_from_system(tool_id: &str) -> (r: Result<SystemUninstall, UnsupportedTool>)
    ensures
        match r {
            Ok(u) => system_uninstall_of(tool_id@) == Some(u.view()),
            Err(e) => system_uninstall_of(tool_id@) is None && e.id@ == tool_id@,
        },
{
    let green = if str_eq(tool_id, "git") {
        return Ok(SystemUninstall::RegistryUninstaller(String::from_str("Git_is1")));
    } else if str_eq(tool_id, "uv") {
        return Ok(SystemUninstall::Uv);
    } else if str_eq(tool_id, "rust") {
        return Ok(SystemUninstall::Rust);
    } else if str_eq(tool_id, "go") {
        return Ok(SystemUninstall::Go);
    } else if str_eq(tool_id, "miniconda") {
        return Ok(SystemUninstall::Miniconda);
    } else if str_eq(tool_id, "vscode") {
        return Ok(SystemUninstall::Vscode);
    } else if str_eq(tool_id, "nodejs") {
        (names("fnm", "node", true), names("FNM_DIR", "", false))
    } else if str_eq(tool_id, "bun") {
        (names("bun", "", false), none_named())
    } else if str_eq(tool_id, "jdk") {
        (names("java", "", false), names("JAVA_HOME", "", false))
    } else if str_eq(tool_id, "c") {
        (names("gcc", "", false), none_named())
    } else if str_eq(tool_id, "mysql") {
        (names("mysql", "", false), none_named())
    } else if str_eq(tool_id, "pgsql") {
        (names("psql", "", false), none_named())
    } else if str_eq(tool_id, "pycharm") {
        (names("pycharm64", "", false), none_named())
    } else {
        return Err(UnsupportedTool { id: String::from_str(tool_id) });
    };
    let (binaries, env_vars) = green;
    Ok(SystemUninstall::Green { binaries, env_vars })
}

/// Where a tool without a ledger record is taken to be installed: editors
/// under the IDE directory, Go, Java and Rust under the language directory
/// (as `go`, `java` and `cargo`), the rest under the tools directory.
pub open spec fn default_install_path_spec(root: Seq<char>, id: Seq<char>) -> Seq<char> {
    if id == "vscode"@ || id == "pycharm"@ {
        joined(joined(root, "ide"@), id)
    } else if id == "go"@ {
        joined(joined(root, "lang"@), "go"@)
    } else if id == "jdk"@ {
        joined(joined(root, "lang"@), "java"@)
    } else if id == "rust"@ {
        joined(joined(root, "lang"@), "cargo"@)
    } else {
        joined(joined(root, "tools"@), id)
    }
}

/// Where the tool `id` is taken to be installed when the ledger has no
/// record of it.
pub fn default_install_path(config: &HudoConfig, id: &str) -> (r: String)
    ensures
        r@ == default_install_path_spec(config.root_dir@, id@),
{
    if str_eq(id, "vscode") || str_eq(id, "pycharm") {
        join_path(config.ide_dir().as_str(), id)
    } else if str_eq(id, "go") {
        join_path(config.lang_dir().as_str(), "go")
    } else if str_eq(id, "jdk") {
        join_path(config.lang_dir().as_str(), "java")
    } else if str_eq(id, "rust") {
        join_path(config.lang_dir().as_str(), "cargo")
    } else {
        join_path(config.tools_dir().as_str(), id)
    }
}

/// The environment that a freshly installed dependency adds to this process,
/// for the commands run after it: its variables, and the directories put in
/// front of PATH.
#[derive(Debug, Clone)]
pub struct EnvOverlay {
    pub vars: Vec<(String, String)>,
    pub path_prefix: Vec<String>,
}

/// The variables that `cs` set, in order.
pub open spec fn overlay_vars(cs: Seq<EnvChange>) -> Seq<(Seq<char>, Seq<char>)>
    decreases cs.len(),
{
    if cs.len() == 0 {
        Seq::empty()
    } else {
        match cs.last() {
            EnvChange::SetVar(n, v) => overlay_vars(cs.drop_last()).push((n, v)),
            EnvChange::AppendPath(_) => overlay_vars(cs.drop_last()),
        }
    }
}

/// The directories that `cs` append to PATH, in order.
pub open spec fn overlay_dirs(cs: Seq<EnvChange>) -> Seq<Seq<char>>
    decreases cs.len(),
{
    if cs.len() == 0 {
        Seq::empty()
    } else {
        match cs.last() {
            EnvChange::SetVar(_, _) => overlay_dirs(cs.drop_last()),
            EnvChange::AppendPath(p) => overlay_dirs(cs.drop_last()).push(p),
        }
    }
}

pub open spec fn pair_views(v: Seq<(String, String)>) -> Seq<(Seq<char>, Seq<char>)> {
    v.map_values(|p: (String, String)| (p.0@, p.1@))
}

impl EnvOverlay {
    /// The overlay of a dependency whose install took the actions `actions`.
    pub fn from_actions(actions: &Vec<EnvAction>) -> (r: Self)
        ensures
            pair_views(r.vars@) == overlay_vars(changes(actions@)),
            str_views(r.path_prefix@) == overlay_dirs(changes(actions@)),
    {
        let mut vars: Vec<(String, String)> = Vec::new();
        let mut dirs: Vec<String> = Vec::new();
        let mut i: usize = 0;
        while i < actions.len()
            invariant
                i <= actions@.len(),
                pair_views(vars@) == overlay_vars(changes(actions@).take(i as int)),
                str_views(dirs@) == overlay_dirs(changes(actions@).take(i as int)),
            decreases actions.len() - i,
        {
            let ghost done = changes(actions@).take(i as int);
            assert(changes(actions@).take(i as int + 1).drop_last() =~= done);
            assert(changes(actions@).take(i as int + 1).last() == actions@[i as int].view());
            match &actions[i] {
                EnvAction::SetVar { name, value } => {
                    let ghost before = vars@;
                    vars.push((name.clone(), value.clone()));
                    assert(pair_views(vars@) =~= pair_views(before).push((name@, value@)));
                },
                EnvAction::AppendPath { path } => {
                    let ghost before = dirs@;
                    dirs.push(path.clone());
                    assert(str_views(dirs@) =~= str_views(before).push(path@));
                },
            }
            i = i + 1;
        }
        assert(changes(actions@).take(actions@.len() as int) =~= changes(actions@));
        EnvOverlay { vars, path_prefix: dirs }
    }

    /// The PATH for commands run under the overlay: its directories first,
    /// then the PATH `current`, where that is not empty.
    pub open spec fn path_value_spec(&self, current: Seq<char>) -> Seq<char> {
        join_with(
            if current.len() == 0 {
                str_views(self.path_prefix@)
            } else {
                str_views(self.path_prefix@).push(current)
            },
            ';',
        )
    }

    /// The PATH for commands run under the overlay.
    pub fn path_value(&self, current: &str) -> (r: String)
        ensures
            r@ == self.path_value_spec(current@),
    {
        let mut all: Vec<String> = Vec::new();
        let mut i: usize = 0;
        while i < self.path_prefix.len()
            invariant
                i <= self.path_prefix@.len(),
                str_views(all@) == str_views(self.path_prefix@).take(i as int),
            decreases self.path_prefix.len() - i,
        {
            let ghost before = all@;
            all.push(self.path_prefix[i].clone());
            assert(str_views(all@) =~= str_views(before).push(self.path_prefix@[i as int]@));
            assert(str_views(self.path_prefix@).take(i as int + 1) =~= str_views(self.path_prefix@).take(i as int).push(
                self.path_prefix@[i as int]@,
            ));
            i = i + 1;
        }
        assert(str_views(self.path_prefix@).take(self.path_prefix@.len() as int) =~= str_views(self.path_prefix@));
        if current.unicode_len() > 0 {
            let ghost before = all@;
            all.push(String::from_str(current));
            assert(str_views(all@) =~= str_views(before).push(current@));
        }
        proof {
            reveal_strlit(";");
            assert(views(all@) == str_views(all@));
        }
        join_strs(&all, ";")
    }
}

/// The value of the last `PATH` entry of a session environment, if any.
pub open spec fn last_path(entries: Seq<(Seq<char>, Seq<char>)>) -> Option<Seq<char>>
    decreases entries.len(),
{
    if entries.len() == 0 {
        None
    } else if entries.last().0 == "PATH"@ {
        Some(entries.last().1)
    } else {
        last_path(entries.drop_last())
    }
}

/// The environment of the rest of a session after a dependency with the
/// overlay `o` was installed: the session's entries so far, then the
/// overlay's variables, then a `PATH` with the overlay's directories in front
/// of the session's current PATH (its last `PATH` entry, else the process's
/// own `process_path`).
pub open spec fn session_after(
    entries: Seq<(Seq<char>, Seq<char>)>,
    o: EnvOverlay,
    process_path: Seq<char>,
) -> Seq<(Seq<char>, Seq<char>)> {
    let current = match last_path(entries) {
        Some(p) => p,
        None => process_path,
    };
    entries + pair_views(o.vars@) + seq![("PATH"@, o.path_value_spec(current))]
}

/// Adds the overlay `o` of a freshly installed dependency to the session
/// environment `entries`.
pub fn extend_session(entries: &mut Vec<(String, String)>, o: &EnvOverlay, process_path: &str)
    ensures
        pair_views(final(entries)@) == session_after(pair_views(old(entries)@), *o, process_path@),
{
    let ghost start = pair_views(entries@);
    let mut current = String::from_str(process_path);
    let mut i: usize = 0;
    while i < entries.len()
        invariant
            i <= entries@.len(),
            start == pair_views(entries@),
            current@ == match last_path(start.take(i as int)) {
                Some(p) => p,
                None => process_path@,
            },
        decreases entries.len() - i,
    {
        assert(start.take(i as int + 1).drop_last() =~= start.take(i as int));
        assert(start.take(i as int + 1).last() == (entries@[i as int].0@, entries@[i as int].1@));
        if str_eq(entries[i].0.as_str(), "PATH") {
            current = entries[i].1.clone();
        }
        i = i + 1;
    }
    assert(start.take(entries@.len() as int) =~= start);
    let ghost base = entries@;
    let mut j: usize = 0;
    while j < o.vars.len()
        invariant
            j <= o.vars@.len(),
            pair_views(entries@) == pair_views(base) + pair_views(o.vars@).take(j as int),
        decreases o.vars.len() - j,
    {
        let ghost before = entries@;
        entries.push((o.vars[j].0.clone(), o.vars[j].1.clone()));
        assert(pair_views(entries@) =~= pair_views(before).push((o.vars@[j as int].0@, o.vars@[j as int].1@)));
        assert(pair_views(o.vars@).take(j as int + 1) =~= pair_views(o.vars@).take(j as int).push(
            (o.vars@[j as int].0@, o.vars@[j as int].1@),
        ));
        j = j + 1;
    }
    assert(pair_views(o.vars@).take(o.vars@.len() as int) =~= pair_views(o.vars@));
    let value = o.path_value(current.as_str());
    let ghost before = entries@;
    entries.push((String::from_str("PATH"), value));
    assert(pair_views(entries@) =~= pair_views(before).push(("PATH"@, o.path_value_spec(current@))));
}

/// The dependencies among `deps` that are not installed, in order;
/// `installed` tells for each whether it is.
pub open spec fn missing_spec(deps: Seq<Seq<char>>, installed: Seq<bool>) -> Seq<Seq<char>>
    decreases deps.len(),
{
    if deps.len() == 0 || installed.len() != deps.len() {
        Seq::empty()
    } else if installed.last() {
        missing_spec(deps.drop_last(), installed.drop_last())
    } else {
        missing_spec(deps.drop_last(), installed.drop_last()).push(deps.last())
    }
}

/// The dependencies among `deps` that are not installed, in order.
pub fn missing_dependencies(deps: &Vec<String>, installed: &Vec<bool>) -> (r: Vec<String>)
    requires
        deps@.len() == installed@.len(),
    ensures
        str_views(r@) == missing_spec(str_views(deps@), installed@),
{
    let mut r: Vec<String> = Vec::new();
    let mut i: usize = 0;
    while i < deps.len()
        invariant
            deps@.len() == installed@.len(),
            i <= deps@.len(),
            str_views(r@) == missing_spec(str_views(deps@).take(i as int), installed@.take(i as int)),
        decreases deps.len() - i,
    {
        assert(str_views(deps@).take(i as int + 1).drop_last() =~= str_views(deps@).take(i as int));
        assert(installed@.take(i as int + 1).drop_last() =~= installed@.take(i as int));
        if !installed[i] {
            let ghost before = r@;
            r.push(deps[i].clone());
            assert(str_views(r@) =~= str_views(before).push(deps@[i as int]@));
        }
        i = i + 1;
    }
    assert(str_views(deps@).take(deps@.len() as int) =~= str_views(deps@));
    assert(installed@.take(deps@.len() as int) =~= installed@);
    r
}

/// The user would not have a missing dependency installed; the install of
/// the tool that needs it stops here.
#[derive(Debug, Clone)]
pub struct DependencyRefused {
    pub id: String,
}

/// Goes on with a missing dependency `dep` only where the user agreed to
/// install it; otherwise the whole `ensure` ends with this error.
pub fn dependency_consent(dep: &str, accepted: bool) -> (r: Result<(), DependencyRefused>)
    ensures
        r is Ok <==> accepted,
        r is Err ==> r->Err_0.id@ == dep@,
{
    if accepted {
        Ok(())
    } else {
        Err(DependencyRefused { id: String::from_str(dep) })
    }
}

/// The position of the last `\` or `/` in `s`, or -1.
pub open spec fn last_sep(s: Seq<char>) -> int
    decreases s.len(),
{
    if s.len() == 0 {
        -1
    } else if s.last() == '\\' || s.last() == '/' {
        s.len() - 1
    } else {
        last_sep(s.drop_last())
    }
}

/// The directory of the file path `s`: all before its last separator, the
/// separator kept after a drive such as `C:`; `None` without a separator.
pub open spec fn parent_of(s: Seq<char>) -> Option<Seq<char>> {
    let k = last_sep(s);
    if k < 0 {
        None
    } else if k > 0 && s[k - 1] == ':' {
        Some(s.take(k + 1))
    } else {
        Some(s.take(k))
    }
}

/// The directories of the files that `where` listed, one per line.
pub open spec fn where_dirs_spec(lines: Seq<Seq<char>>) -> Seq<Seq<char>>
    decreases lines.len(),
{
    if lines.len() == 0 {
        Seq::empty()
    } else {
        match parent_of(trim_ws(lines.last())) {
            Some(d) => where_dirs_spec(lines.drop_last()).push(d),
            None => where_dirs_spec(lines.drop_last()),
        }
    }
}

/// The directory of the file path `s`.
pub fn parent_dir(s: &str) -> (r: Option<String>)
    ensures
        match r {
            Some(d) => parent_of(s@) == Some(d@),
            None => parent_of(s@) is None,
        },
{
    let n = s.unicode_len();
    let mut k = n;
    assert(s@.take(k as int) =~= s@);
    while k > 0 && s.get_char(k - 1) != '\\' && s.get_char(k - 1) != '/'
        invariant
            k <= n,
            n == s@.len(),
            last_sep(s@.take(k as int)) == last_sep(s@),
        decreases k,
    {
        assert(s@.take(k as int).drop_last() =~= s@.take(k as int - 1));
        k = k - 1;
    }
    if k == 0 {
        assert(s@.take(0) =~= Seq::<char>::empty());
        return None;
    }
    assert(s@.take(k as int).drop_last() =~= s@.take(k as int - 1));
    assert(last_sep(s@.take(k as int)) == k - 1);
    let sep_at = k - 1;
    if sep_at > 0 && s.get_char(sep_at - 1) == ':' {
        let d = s.substring_char(0, k);
        assert(d@ =~= s@.take(k as int));
        Some(String::from_str(d))
    } else {
        let d = s.substring_char(0, sep_at);
        assert(d@ =~= s@.take(sep_at as int));
        Some(String::from_str(d))
    }
}

/// The directories of the files that `where` printed in `output`, one line
/// each: these come out of PATH when an external copy is removed.
pub fn where_dirs(output: &str) -> (r: Vec<String>)
    ensures
        str_views(r@) == where_dirs_spec(split_on(output@, '\n')),
{
    let lines = split_str(output, '\n');
    let ghost lv = views(lines@);
    let mut r: Vec<String> = Vec::new();
    let mut i: usize = 0;
    while i < lines.len()
        invariant
            lv == views(lines@),
            lv == split_on(output@, '\n'),
            i <= lines@.len(),
            str_views(r@) == where_dirs_spec(lv.take(i as int)),
        decreases lines.len() - i,
    {
        assert(lv.take(i as int + 1).drop_last() =~= lv.take(i as int));
        assert(lv.take(i as int + 1).last() == lines@[i as int]@);
        let line = trim_str(lines[i].as_str());
        match parent_dir(line.as_str()) {
            Some(d) => {
                let ghost before = r@;
                r.push(d);
                assert(str_views(r@) =~= str_views(before).push(r@.last()@));
            },
            None => {},
        }
        i = i + 1;
    }
    assert(lv.take(lines@.len() as int) =~= lv);
    r
}

/// The outcome of installing several tools in one session: how many
/// succeeded, and which failed, in order.
#[derive(Debug, Clone)]
pub struct BatchReport {
    pub succeeded: usize,
    pub failed: Vec<String>,
}

impl BatchReport {
    /// A batch that has not started.
    pub fn new() -> (r: Self)
        ensures
            r.succeeded == 0,
            r.failed@.len() == 0,
    {
        BatchReport { succeeded: 0, failed: Vec::new() }
    }

    /// Counts one more tool installed.
    pub fn record_success(&mut self)
        requires
            old(self).succeeded < usize::MAX,
        ensures
            final(self).succeeded == old(self).succeeded + 1,
            final(self).failed@ == old(self).failed@,
    {
        self.succeeded = self.succeeded + 1;
    }

    /// Notes that the tool `id` failed.
    pub fn record_failure(&mut self, id: &str)
        ensures
            final(self).succeeded == old(self).succeeded,
            str_views(final(self).failed@) == str_views(old(self).failed@).push(id@),
    {
        let ghost before = self.failed@;
        self.failed.push(String::from_str(id));
        assert(str_views(self.failed@) =~= str_views(before).push(id@));
    }

    /// Whether every tool of the batch succeeded.
    pub fn all_succeeded(&self) -> (r: bool)
        ensures
            r == (self.failed@.len() == 0),
    {
        self.failed.len() == 0
    }
}

} // verus!
