use hudo::config::{cmd_config_set, default_go_version, default_java_version, join_path, HudoConfig};
use hudo::ui::ToolCategory;

#[test]
fn directories_derive_from_root() {
    let c = HudoConfig::with_root("D:\\hudo");
    assert_eq!(c.root_path(), "D:\\hudo");
    assert_eq!(c.tools_dir(), "D:\\hudo\\tools");
    assert_eq!(c.lang_dir(), "D:\\hudo\\lang");
    assert_eq!(c.ide_dir(), "D:\\hudo\\ide");
    assert_eq!(c.cache_dir(), "D:\\hudo\\cache");
    assert_eq!(c.state_path(), "D:\\hudo\\state.json");
    assert_eq!(join_path("D:\\", "x"), "D:\\x");
    assert_eq!(join_path("", "x"), "x");
}

#[test]
fn defaults() {
    assert_eq!(default_java_version(), "21");
    assert_eq!(default_go_version(), "latest");
    let c = HudoConfig::with_root("E:\\h");
    assert_eq!(c.java.version, "21");
    assert_eq!(c.go.version, "latest");
    assert!(c.mirrors.uv.is_none() && c.versions.git.is_none());
}

#[test]
fn config_set_known_and_unknown_keys() {
    let mut c = HudoConfig::with_root("D:\\hudo");
    assert!(cmd_config_set(&mut c, "java.version", "17").is_ok());
    assert_eq!(c.java.version, "17");
    assert!(cmd_config_set(&mut c, "mirrors.go", "https://m/go").is_ok());
    assert_eq!(c.mirrors.go.as_deref(), Some("https://m/go"));
    let e = cmd_config_set(&mut c, "nope", "x").unwrap_err();
    assert_eq!(e.key, "nope");
    assert_eq!(c.root_dir, "D:\\hudo");
}

#[test]
fn drives_mark_system_drive() {
    let d = HudoConfig::scan_drives(&vec![(b'C', 100), (b'D', 5)]);
    assert_eq!(d.len(), 2);
    assert!(d[0].is_system && d[0].letter == b'C' && d[0].free_gb == 100);
    assert!(!d[1].is_system && d[1].free_gb == 5);
}

#[test]
fn categories() {
    assert_eq!(ToolCategory::from_id("git"), ToolCategory::Tool);
    assert_eq!(ToolCategory::from_id("gradle"), ToolCategory::Language);
    assert_eq!(ToolCategory::from_id("pgsql"), ToolCategory::Database);
    assert_eq!(ToolCategory::from_id("chrome"), ToolCategory::Ide);
    assert_eq!(ToolCategory::from_id("unknown"), ToolCategory::Tool);
    assert_eq!(ToolCategory::Ide.icon(), "[E]");
    assert_eq!(ToolCategory::Database.label(), "数据库");
}
