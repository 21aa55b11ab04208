use hudo::config::HudoConfig;
use hudo::installer::git::git_version_to_tag;
use hudo::installer::mysql::series_of;
use hudo::installer::{all_installers, find_tool, EnvAction, Installer};
use hudo::installer::gradle::GradleInstaller;
use hudo::installer::go::GoInstaller;

#[test]
fn catalog_order_and_lookup() {
    let all = all_installers();
    assert_eq!(all.len(), 17);
    assert_eq!(all[0].info().id, "git");
    assert_eq!(all[16].info().id, "chrome");
    let i = find_tool(&all, "jdk").unwrap();
    assert_eq!(all[i].info().id, "jdk");
    assert!(find_tool(&all, "nope").is_none());
}

#[test]
fn git_tags() {
    assert_eq!(git_version_to_tag("2.47.1.2"), "v2.47.1.windows.2");
    assert_eq!(git_version_to_tag("2.53.0"), "v2.53.0.windows.1");
}

#[test]
fn downloads_follow_settings() {
    let mut c = HudoConfig::with_root("D:\\hudo");
    let (url, file) = GradleInstaller.resolve_download(&c);
    assert_eq!(file, "gradle-8.12.1-bin.zip");
    assert_eq!(url, "https://services.gradle.org/distributions/gradle-8.12.1-bin.zip");
    c.mirrors.gradle = Some("https://mirror/gradle//".to_string());
    c.versions.gradle = Some("8.0".to_string());
    let (url, _) = GradleInstaller.resolve_download(&c);
    assert_eq!(url, "https://mirror/gradle/gradle-8.0-bin.zip");
    let (url, file) = GoInstaller.resolve_download(&c);
    assert_eq!(file, "go1.24.0.windows-amd64.zip");
    assert_eq!(url, "https://go.dev/dl/go1.24.0.windows-amd64.zip");
    assert_eq!(series_of("8.4.8"), "8.4");
    assert_eq!(series_of("8"), "8");
}

#[test]
fn env_actions_and_dependencies() {
    let c = HudoConfig::with_root("D:\\hudo");
    let acts = GradleInstaller.env_actions("D:\\hudo\\tools\\gradle", &c);
    assert_eq!(acts.len(), 2);
    assert!(matches!(&acts[0], EnvAction::SetVar { name, value } if name == "GRADLE_HOME" && value == "D:\\hudo\\tools\\gradle"));
    assert!(matches!(&acts[1], EnvAction::AppendPath { path } if path == "D:\\hudo\\tools\\gradle\\bin"));
    assert_eq!(GradleInstaller.dependencies(), vec!["jdk".to_string()]);
    let go = GoInstaller.env_actions("D:\\hudo\\lang\\go", &c);
    assert!(matches!(&go[1], EnvAction::SetVar { name, value } if name == "GOPATH" && value == "D:\\hudo\\lang\\gopath"));
}

use hudo::installer::catalog_ids;

#[test]
fn installers_follow_catalog_ids() {
    let ids: Vec<&str> = all_installers().iter().map(|i| i.info().id).collect();
    assert_eq!(ids, catalog_ids());
    assert_eq!(
        catalog_ids(),
        vec![
            "git", "gh", "uv", "miniconda", "nodejs", "bun", "rust", "go", "jdk", "maven", "gradle", "c", "mysql",
            "pgsql", "vscode", "pycharm", "chrome"
        ]
    );
}
