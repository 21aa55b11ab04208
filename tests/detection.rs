use hudo::detect::{collect_detections, fast_detect, pending_probes};
use hudo::installer::DetectResult;
use hudo::registry::InstallRegistry;

fn is_managed(d: &DetectResult, v: &str) -> bool {
    matches!(d, DetectResult::InstalledByHudo(x) if x == v)
}

#[test]
fn ledger_answers_when_path_present() {
    let mut reg = InstallRegistry::new();
    reg.mark_installed("git", "2.47.1", "D:\\git", "t");
    assert!(is_managed(&fast_detect("git", &reg, true).unwrap(), "2.47.1"));
    assert!(fast_detect("git", &reg, false).is_none());
    assert!(fast_detect("go", &reg, true).is_none());
}

#[test]
fn probes_only_for_unanswered_tools_in_order() {
    let fast = vec![None, Some(DetectResult::InstalledByHudo("1".to_string())), None];
    assert_eq!(pending_probes(&fast), vec![0, 2]);
}

#[test]
fn failed_probe_counts_as_not_installed() {
    let fast = vec![None, Some(DetectResult::InstalledByHudo("1".to_string())), None];
    let probed = vec![Some(DetectResult::InstalledExternal("9".to_string())), None, None];
    let r = collect_detections(&fast, &probed);
    assert_eq!(r.len(), 3);
    assert!(matches!(&r[0], DetectResult::InstalledExternal(v) if v == "9"));
    assert!(is_managed(&r[1], "1"));
    assert!(matches!(r[2], DetectResult::NotInstalled));
}
