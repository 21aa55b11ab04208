//! Self-update: the running executable is moved aside, the new build is moved
//! into its place, and where that second move fails the old build is moved
//! back before the error is reported.
use vstd::prelude::*;
use crate::text::str_eq;

verus! {

/// Where an update stands.
#[derive(Debug, Clone, Copy, PartialEq, Eq)]
pub enum UpdatePhase {
    /// The latest version is being looked up.
    Start,
    /// The new build is being downloaded to a temporary file.
    Downloading,
    /// The running executable is being renamed aside.
    MovingAside,
    /// The new build is being renamed into the executable's place.
    MovingIn,
    /// The old executable is being renamed back.
    RollingBack,
    /// The update ended without error.
    Done,
    /// The update ended with an error.
    Failed,
}

/// What the caller observed.
#[derive(Debug, Clone, Copy, PartialEq, Eq)]
pub enum UpdateEvent {
    /// The latest published version is known; tells whether it is the
    /// running one.
    Latest { same: bool },
    /// The latest published version could not be had.
    LatestUnknown,
    /// The new build is in the temporary file.
    Downloaded,
    /// The download failed.
    DownloadFailed,
    /// The rename asked for succeeded.
    RenameOk,
    /// The rename asked for failed.
    RenameFailed,
}

/// What the caller is to do next.
#[derive(Debug, Clone, Copy, PartialEq, Eq)]
pub enum UpdateAction {
    /// Report that the running version is the latest; nothing changes.
    ReportUpToDate,
    /// Report that no version information could be had; nothing changes.
    ReportNoVersion,
    /// Download the new build to the temporary file.
    Download,
    /// Rename the running executable to its `.old` name.
    RenameExeAside,
    /// Rename the new build to the executable's name.
    RenameNewIn,
    /// Rename the `.old` file back to the executable's name.
    RenameOldBack,
    /// Start the detached process that deletes the `.old` file, and report success.
    ScheduleOldDeletion,
    /// Report the error.
    ReportError,
    /// Nothing: the event does not apply in this phase.
    Ignore,
}

/// The update's next phase and the caller's next action.
pub open spec fn update_next(phase: UpdatePhase, event: UpdateEvent) -> (UpdatePhase, UpdateAction) {
    match (phase, event) {
        (UpdatePhase::Start, UpdateEvent::Latest { same }) => if same {
            (UpdatePhase::Done, UpdateAction::ReportUpToDate)
        } else {
            (UpdatePhase::Downloading, UpdateAction::Download)
        },
        (UpdatePhase::Start, UpdateEvent::LatestUnknown) => (UpdatePhase::Done, UpdateAction::ReportNoVersion),
        (UpdatePhase::Downloading, UpdateEvent::Downloaded) => (UpdatePhase::MovingAside, UpdateAction::RenameExeAside),
        (UpdatePhase::Downloading, UpdateEvent::DownloadFailed) => (UpdatePhase::Failed, UpdateAction::ReportError),
        (UpdatePhase::MovingAside, UpdateEvent::RenameOk) => (UpdatePhase::MovingIn, UpdateAction::RenameNewIn),
        (UpdatePhase::MovingAside, UpdateEvent::RenameFailed) => (UpdatePhase::Failed, UpdateAction::ReportError),
        (UpdatePhase::MovingIn, UpdateEvent::RenameOk) => (UpdatePhase::Done, UpdateAction::ScheduleOldDeletion),
        (UpdatePhase::MovingIn, UpdateEvent::RenameFailed) => (UpdatePhase::RollingBack, UpdateAction::RenameOldBack),
        (UpdatePhase::RollingBack, UpdateEvent::RenameOk) => (UpdatePhase::Failed, UpdateAction::ReportError),
        (UpdatePhase::RollingBack, UpdateEvent::RenameFailed) => (UpdatePhase::Failed, UpdateAction::ReportError),
        _ => (phase, UpdateAction::Ignore),
    }
}

/// Moves an update on by one event.
pub fn update_step(phase: UpdatePhase, event: UpdateEvent) -> (r: (UpdatePhase, UpdateAction))
    ensures
        r == update_next(phase, event),
{
    match (phase, event) {
        (UpdatePhase::Start, UpdateEvent::Latest { same }) => if same {
            (UpdatePhase::Done, UpdateAction::ReportUpToDate)
        } else {
            (UpdatePhase::Downloading, UpdateAction::Download)
        },
        (UpdatePhase::Start, UpdateEvent::LatestUnknown) => (UpdatePhase::Done, UpdateAction::ReportNoVersion),
        (UpdatePhase::Downloading, UpdateEvent::Downloaded) => (UpdatePhase::MovingAside, UpdateAction::RenameExeAside),
        (UpdatePhase::Downloading, UpdateEvent::DownloadFailed) => (UpdatePhase::Failed, UpdateAction::ReportError),
        (UpdatePhase::MovingAside, UpdateEvent::RenameOk) => (UpdatePhase::MovingIn, UpdateAction::RenameNewIn),
        (UpdatePhase::MovingAside, UpdateEvent::RenameFailed) => (UpdatePhase::Failed, UpdateAction::ReportError),
        (UpdatePhase::MovingIn, UpdateEvent::RenameOk) => (UpdatePhase::Done, UpdateAction::ScheduleOldDeletion),
        (UpdatePhase::MovingIn, UpdateEvent::RenameFailed) => (UpdatePhase::RollingBack, UpdateAction::RenameOldBack),
        (UpdatePhase::RollingBack, UpdateEvent::RenameOk) => (UpdatePhase::Failed, UpdateAction::ReportError),
        (UpdatePhase::RollingBack, UpdateEvent::RenameFailed) => (UpdatePhase::Failed, UpdateAction::ReportError),
        _ => (phase, UpdateAction::Ignore),
    }
}

/// The first event of an update: the running version `current` against the
/// latest published one, where it could be had.
pub fn version_event(current: &str, latest: Option<&str>) -> (r: UpdateEvent)
    ensures
        r == match latest {
            Some(l) => UpdateEvent::Latest { same: l@ == current@ },
            None => UpdateEvent::LatestUnknown,
        },
{
    match latest {
        Some(l) => UpdateEvent::Latest { same: str_eq(l, current) },
        None => UpdateEvent::LatestUnknown,
    }
}

/// The name the running executable `exe` is moved aside to.
pub open spec fn old_name(exe: Seq<char>) -> Seq<char> {
    exe + seq!['.', 'o', 'l', 'd']
}

/// The name the running executable `exe` is moved aside to.
pub fn old_exe_path(exe: &str) -> (r: String)
    ensures
        r@ == old_name(exe@),
{
    proof {
        reveal_strlit(".old");
    }
    String::from_str(exe).concat(".old")
}

/// The files after `from` is renamed to `to`.
pub open spec fn renamed(fs: Map<Seq<char>, Seq<u8>>, from: Seq<char>, to: Seq<char>) -> Map<Seq<char>, Seq<u8>> {
    fs.remove(from).insert(to, fs[from])
}

/// The files after `event` was observed in `phase`: a rename that succeeded
/// has moved its file, a finished download has put the new build at `tmp`.
pub open spec fn update_effect(
    fs: Map<Seq<char>, Seq<u8>>,
    exe: Seq<char>,
    tmp: Seq<char>,
    new_build: Seq<u8>,
    phase: UpdatePhase,
    event: UpdateEvent,
) -> Map<Seq<char>, Seq<u8>> {
    match (phase, event) {
        (UpdatePhase::Downloading, UpdateEvent::Downloaded) => fs.insert(tmp, new_build),
        (UpdatePhase::MovingAside, UpdateEvent::RenameOk) => renamed(fs, exe, old_name(exe)),
        (UpdatePhase::MovingIn, UpdateEvent::RenameOk) => renamed(fs, tmp, exe),
        (UpdatePhase::RollingBack, UpdateEvent::RenameOk) => renamed(fs, old_name(exe), exe),
        _ => fs,
    }
}

/// Phase and files after the events `evs`, from `phase` and `fs`.
pub open spec fn run_update(
    phase: UpdatePhase,
    fs: Map<Seq<char>, Seq<u8>>,
    exe: Seq<char>,
    tmp: Seq<char>,
    new_build: Seq<u8>,
    evs: Seq<UpdateEvent>,
) -> (UpdatePhase, Map<Seq<char>, Seq<u8>>)
    decreases evs.len(),
{
    if evs.len() == 0 {
        (phase, fs)
    } else {
        let (p, f) = run_update(phase, fs, exe, tmp, new_build, evs.drop_last());
        (update_next(p, evs.last()).0, update_effect(f, exe, tmp, new_build, p, evs.last()))
    }
}

/// When the new build cannot be renamed into place after the running
/// executable was moved aside, the old one is renamed back: the executable's
/// path again holds its former bytes, no `.old` file is left, and the update
/// ends in an error.
/// This takes the rename back to succeed, and a temporary path other than
/// the executable's and its `.old` name.
pub proof fn lemma_update_rollback(
    fs: Map<Seq<char>, Seq<u8>>,
    exe: Seq<char>,
    tmp: Seq<char>,
    new_build: Seq<u8>,
)
    requires
        fs.contains_key(exe),
        tmp != exe,
        tmp != old_name(exe),
    ensures
        ({
            let evs = seq![
                UpdateEvent::Latest { same: false },
                UpdateEvent::Downloaded,
                UpdateEvent::RenameOk,
                UpdateEvent::RenameFailed,
                UpdateEvent::RenameOk,
            ];
            let (phase, after) = run_update(UpdatePhase::Start, fs, exe, tmp, new_build, evs);
            &&& phase == UpdatePhase::Failed
            &&& after.contains_key(exe)
            &&& after[exe] == fs[exe]
            &&& !after.contains_key(old_name(exe))
        }),
{
    let evs = seq![
        UpdateEvent::Latest { same: false },
        UpdateEvent::Downloaded,
        UpdateEvent::RenameOk,
        UpdateEvent::RenameFailed,
        UpdateEvent::RenameOk,
    ];
    assert(old_name(exe).len() == exe.len() + 4);
    assert(old_name(exe) != exe);
    let e0 = evs.take(0);
    let e1 = evs.take(1);
    let e2 = evs.take(2);
    let e3 = evs.take(3);
    let e4 = evs.take(4);
    assert(e1.drop_last() =~= e0);
    assert(e2.drop_last() =~= e1);
    assert(e3.drop_last() =~= e2);
    assert(e4.drop_last() =~= e3);
    assert(evs.drop_last() =~= e4);
    assert(e0 =~= Seq::<UpdateEvent>::empty());
    assert(run_update(UpdatePhase::Start, fs, exe, tmp, new_build, e0) == (UpdatePhase::Start, fs));
    assert(e1.last() == UpdateEvent::Latest { same: false });
    assert(e2.last() == UpdateEvent::Downloaded);
    assert(e3.last() == UpdateEvent::RenameOk);
    assert(e4.last() == UpdateEvent::RenameFailed);
    assert(evs.last() == UpdateEvent::RenameOk);
    let s1 = run_update(UpdatePhase::Start, fs, exe, tmp, new_build, e1);
    assert(s1.0 == UpdatePhase::Downloading && s1.1 == fs);
    let s2 = run_update(UpdatePhase::Start, fs, exe, tmp, new_build, e2);
    assert(s2.0 == UpdatePhase::MovingAside && s2.1 == fs.insert(tmp, new_build));
    let s3 = run_update(UpdatePhase::Start, fs, exe, tmp, new_build, e3);
    assert(s3.0 == UpdatePhase::MovingIn);
    assert(s3.1 == renamed(fs.insert(tmp, new_build), exe, old_name(exe)));
    assert(s3.1[old_name(exe)] == fs[exe]);
    let s4 = run_update(UpdatePhase::Start, fs, exe, tmp, new_build, e4);
    assert(s4.0 == UpdatePhase::RollingBack && s4.1 == s3.1);
    let s5 = run_update(UpdatePhase::Start, fs, exe, tmp, new_build, evs);
    assert(s5.1 == renamed(s3.1, old_name(exe), exe));
}

} // verus!
