use hudo::registry::InstallRegistry;

#[test]
fn mark_then_get_returns_record() {
    let mut reg = InstallRegistry::new();
    reg.mark_installed("git", "2.47.1", "D:\\hudo\\tools\\git", "2025-01-02 03:04:05");
    let st = reg.get("git").expect("recorded");
    assert_eq!(st.version, "2.47.1");
    assert_eq!(st.install_path, "D:\\hudo\\tools\\git");
    assert_eq!(st.installed_at, "2025-01-02 03:04:05");
    assert!(reg.get("go").is_none());
}

#[test]
fn reinstall_overwrites_single_record() {
    let mut reg = InstallRegistry::new();
    reg.mark_installed("go", "1.23.0", "D:\\a", "t1");
    reg.mark_installed("go", "1.24.0", "D:\\b", "t2");
    assert_eq!(reg.get("go").unwrap().version, "1.24.0");
    assert_eq!(reg.tool_ids(), vec!["go".to_string()]);
}

#[test]
fn remove_forgets_only_that_tool() {
    let mut reg = InstallRegistry::new();
    reg.mark_installed("git", "1", "p1", "t");
    reg.mark_installed("uv", "2", "p2", "t");
    reg.remove("git");
    assert!(reg.get("git").is_none());
    assert_eq!(reg.get("uv").unwrap().version, "2");
    reg.remove("missing");
    assert_eq!(reg.tool_ids(), vec!["uv".to_string()]);
}

#[test]
fn unreadable_ledger_recovers_empty() {
    let reg = InstallRegistry::recover(None);
    assert!(reg.tool_ids().is_empty());
    let mut kept = InstallRegistry::new();
    kept.mark_installed("bun", "1.1", "p", "t");
    let reg = InstallRegistry::recover(Some(kept));
    assert_eq!(reg.get("bun").unwrap().version, "1.1");
}
