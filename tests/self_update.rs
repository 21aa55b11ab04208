use hudo::updater::{old_exe_path, update_step, version_event, UpdateAction, UpdateEvent, UpdatePhase};

#[test]
fn same_version_is_no_op() {
    let ev = version_event("0.2.0", Some("0.2.0"));
    assert_eq!(update_step(UpdatePhase::Start, ev), (UpdatePhase::Done, UpdateAction::ReportUpToDate));
    let ev = version_event("0.2.0", None);
    assert_eq!(update_step(UpdatePhase::Start, ev), (UpdatePhase::Done, UpdateAction::ReportNoVersion));
}

#[test]
fn failed_second_rename_rolls_back() {
    let ev = version_event("0.2.0", Some("0.3.0"));
    let (p, a) = update_step(UpdatePhase::Start, ev);
    assert_eq!(a, UpdateAction::Download);
    let (p, a) = update_step(p, UpdateEvent::Downloaded);
    assert_eq!(a, UpdateAction::RenameExeAside);
    let (p, a) = update_step(p, UpdateEvent::RenameOk);
    assert_eq!(a, UpdateAction::RenameNewIn);
    let (p, a) = update_step(p, UpdateEvent::RenameFailed);
    assert_eq!(a, UpdateAction::RenameOldBack);
    let (p, a) = update_step(p, UpdateEvent::RenameOk);
    assert_eq!((p, a), (UpdatePhase::Failed, UpdateAction::ReportError));
}

#[test]
fn successful_update_schedules_cleanup() {
    let (p, _) = update_step(UpdatePhase::Start, UpdateEvent::Latest { same: false });
    let (p, _) = update_step(p, UpdateEvent::Downloaded);
    let (p, _) = update_step(p, UpdateEvent::RenameOk);
    assert_eq!(update_step(p, UpdateEvent::RenameOk), (UpdatePhase::Done, UpdateAction::ScheduleOldDeletion));
    assert_eq!(old_exe_path("C:\\bin\\hudo.exe"), "C:\\bin\\hudo.exe.old");
}
