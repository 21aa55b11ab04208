use hudo::env::{append_to_path, remove_from_path};
use hudo::installer::{DetectResult, EnvAction};
use hudo::orchestrator::{ensure_plan, uninstall_plan, EnsureAction, UninstallStep};
use hudo::registry::InstallRegistry;
use hudo::detect::{collect_detections, fast_detect};

fn names(plan: &[EnsureAction]) -> Vec<String> {
    plan.iter()
        .map(|a| match a {
            EnsureAction::Configure => "configure".to_string(),
            EnsureAction::UninstallExternal => "uninstall-external".to_string(),
            EnsureAction::EnsureDependency(d) => format!("dep:{}", d),
            EnsureAction::Install => "install".to_string(),
            EnsureAction::ApplyEnv => "env".to_string(),
            EnsureAction::Record => "record".to_string(),
        })
        .collect()
}

#[test]
fn managed_tool_is_only_configured() {
    let mut reg = InstallRegistry::new();
    reg.mark_installed("maven", "3.9.9", "D:\\m", "t");
    let d = fast_detect("maven", &reg, true).unwrap();
    let plan = ensure_plan(&d, true, &vec!["jdk".to_string()], true);
    assert_eq!(names(&plan), vec!["configure"]);
    assert!(ensure_plan(&d, true, &vec![], false).is_empty());
}

#[test]
fn missing_tool_installs_dependencies_first() {
    let plan = ensure_plan(&DetectResult::NotInstalled, false, &vec!["jdk".to_string()], true);
    assert_eq!(names(&plan), vec!["dep:jdk", "install", "env", "record", "configure"]);
}

#[test]
fn external_tool_taken_over_or_left() {
    let d = DetectResult::InstalledExternal("1.0".to_string());
    assert_eq!(names(&ensure_plan(&d, false, &vec![], true)), vec!["configure"]);
    assert_eq!(
        names(&ensure_plan(&d, true, &vec![], false)),
        vec!["uninstall-external", "install", "env", "record"]
    );
}

#[test]
fn uninstall_reverses_env_actions() {
    let actions = vec![
        EnvAction::AppendPath { path: "X/bin".to_string() },
        EnvAction::SetVar { name: "FOO_HOME".to_string(), value: "X".to_string() },
    ];
    let d = DetectResult::InstalledByHudo("1".to_string());
    let plan = uninstall_plan(&d, &actions).unwrap();
    assert_eq!(plan.len(), 5);
    assert!(matches!(plan[0], UninstallStep::PreUninstall));
    assert!(matches!(&plan[1], UninstallStep::RemoveFromPath(p) if p == "X/bin"));
    assert!(matches!(&plan[2], UninstallStep::DeleteVar(n) if n == "FOO_HOME"));
    assert!(matches!(plan[3], UninstallStep::DeleteInstallDir));
    assert!(matches!(plan[4], UninstallStep::RemoveRecord));

    let path = append_to_path("C:\\Windows", "X/bin");
    assert_eq!(remove_from_path(&path, "X/bin"), "C:\\Windows");

    let mut reg = InstallRegistry::new();
    reg.mark_installed("foo", "1", "X", "t");
    reg.remove("foo");
    let fast = vec![fast_detect("foo", &reg, true)];
    let after = collect_detections(&fast, &vec![Some(DetectResult::NotInstalled)]);
    assert!(matches!(after[0], DetectResult::NotInstalled));
}

#[test]
fn uninstall_skips_tool_not_managed() {
    let actions = vec![EnvAction::AppendPath { path: "X/bin".to_string() }];
    assert!(uninstall_plan(&DetectResult::NotInstalled, &actions).is_none());
    assert!(uninstall_plan(&DetectResult::InstalledExternal("1".to_string()), &actions).is_none());
}

use hudo::config::HudoConfig;
use hudo::installer::{service_state_of, ServiceState};
use hudo::orchestrator::{default_install_path, uninstall_from_system, BatchReport, EnvOverlay, SystemUninstall};

#[test]
fn system_uninstall_strategies() {
    assert!(matches!(uninstall_from_system("git"), Ok(SystemUninstall::RegistryUninstaller(k)) if k == "Git_is1"));
    assert!(matches!(uninstall_from_system("uv"), Ok(SystemUninstall::Uv)));
    match uninstall_from_system("nodejs") {
        Ok(SystemUninstall::Green { binaries, env_vars }) => {
            assert_eq!(binaries, vec!["fnm".to_string(), "node".to_string()]);
            assert_eq!(env_vars, vec!["FNM_DIR".to_string()]);
        }
        _ => panic!("expected the generic removal"),
    }
    let e = uninstall_from_system("gradle").unwrap_err();
    assert_eq!(e.id, "gradle");
}

#[test]
fn install_path_without_record() {
    let c = HudoConfig::with_root("D:\\hudo");
    assert_eq!(default_install_path(&c, "vscode"), "D:\\hudo\\ide\\vscode");
    assert_eq!(default_install_path(&c, "jdk"), "D:\\hudo\\lang\\java");
    assert_eq!(default_install_path(&c, "rust"), "D:\\hudo\\lang\\cargo");
    assert_eq!(default_install_path(&c, "gh"), "D:\\hudo\\tools\\gh");
}

#[test]
fn dependency_overlay_prepends_path() {
    let actions = vec![
        EnvAction::SetVar { name: "JAVA_HOME".to_string(), value: "D:\\java".to_string() },
        EnvAction::AppendPath { path: "D:\\java\\bin".to_string() },
    ];
    let o = EnvOverlay::from_actions(&actions);
    assert_eq!(o.vars, vec![("JAVA_HOME".to_string(), "D:\\java".to_string())]);
    assert_eq!(o.path_value("C:\\Windows"), "D:\\java\\bin;C:\\Windows");
    assert_eq!(o.path_value(""), "D:\\java\\bin");
}

#[test]
fn batch_report_counts() {
    let mut b = BatchReport::new();
    b.record_success();
    b.record_failure("go");
    b.record_success();
    assert_eq!(b.succeeded, 2);
    assert_eq!(b.failed, vec!["go".to_string()]);
    assert!(!b.all_succeeded());
}

#[test]
fn service_states() {
    assert_eq!(service_state_of(false, "RUNNING"), ServiceState::NotFound);
    assert_eq!(service_state_of(true, "STATE : 4 RUNNING"), ServiceState::Running);
    assert_eq!(service_state_of(true, "STATE : 1 STOPPED"), ServiceState::Stopped);
}

use hudo::elevation::{admin_command, ps_quote};

#[test]
fn elevated_command_quotes_arguments() {
    assert_eq!(ps_quote("it's"), "'it''s'");
    assert_eq!(ps_quote(""), "''");
    let cmd = admin_command("sc", &vec!["stop".to_string(), "My SQL".to_string()]);
    assert_eq!(
        cmd,
        "try { $p = Start-Process -FilePath 'sc' -ArgumentList @('stop', 'My SQL') -Verb RunAs -Wait -PassThru -WindowStyle Hidden; if ($p) { exit $p.ExitCode } else { exit 1 } } catch { exit 1 }"
    );
}

use hudo::orchestrator::{dependency_consent, extend_session, missing_dependencies, parent_dir, where_dirs};

#[test]
fn refused_dependency_aborts() {
    assert!(dependency_consent("jdk", true).is_ok());
    assert_eq!(dependency_consent("jdk", false).unwrap_err().id, "jdk");
}

#[test]
fn only_absent_dependencies_are_missing() {
    let deps = vec!["jdk".to_string(), "c".to_string()];
    assert_eq!(missing_dependencies(&deps, &vec![true, false]), vec!["c".to_string()]);
    assert!(missing_dependencies(&deps, &vec![true, true]).is_empty());
}

#[test]
fn session_overlay_stacks_paths() {
    let jdk = EnvOverlay::from_actions(&vec![
        EnvAction::SetVar { name: "JAVA_HOME".to_string(), value: "D:\\java".to_string() },
        EnvAction::AppendPath { path: "D:\\java\\bin".to_string() },
    ]);
    let mut session = Vec::new();
    extend_session(&mut session, &jdk, "C:\\Windows");
    assert_eq!(
        session,
        vec![
            ("JAVA_HOME".to_string(), "D:\\java".to_string()),
            ("PATH".to_string(), "D:\\java\\bin;C:\\Windows".to_string())
        ]
    );
    let gcc = EnvOverlay::from_actions(&vec![EnvAction::AppendPath { path: "D:\\gcc\\bin".to_string() }]);
    extend_session(&mut session, &gcc, "C:\\Windows");
    assert_eq!(session[2], ("PATH".to_string(), "D:\\gcc\\bin;D:\\java\\bin;C:\\Windows".to_string()));
}

#[test]
fn where_output_gives_directories() {
    assert_eq!(
        where_dirs("C:\\a\\node.exe\r\n  D:/b/node.exe \r\n\r\nC:\\node.exe\nnode.exe\n"),
        vec!["C:\\a".to_string(), "D:/b".to_string(), "C:\\".to_string()]
    );
    assert_eq!(parent_dir("x"), None);
}
