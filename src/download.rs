//! The download pipeline: a cache hit is a file at the final name; a fetch
//! streams into a temporary name and is renamed into place only once it is
//! complete; an archive that unpacks to a single directory is unwrapped.
use vstd::prelude::*;
use crate::config::{join_path, joined};

verus! {

/// The temporary name that a download of `filename` is written to.
pub open spec fn tmp_name(filename: Seq<char>) -> Seq<char> {
    filename + seq!['.', 't', 'm', 'p']
}

/// The temporary name that a download of `filename` is written to.
pub fn tmp_filename(filename: &str) -> (r: String)
    ensures
        r@ == tmp_name(filename@),
{
    proof {
        reveal_strlit(".tmp");
    }
    String::from_str(filename).concat(".tmp")
}

/// Whether the cache, holding the files `present`, has a finished download of
/// `filename`: only the final name counts.
pub fn cache_hit(present: &Vec<String>, filename: &str) -> (r: bool)
    ensures
        r == exists|i: int| 0 <= i < present@.len() && (#[trigger] present@[i])@ == filename@,
{
    let mut i: usize = 0;
    while i < present.len()
        invariant
            i <= present@.len(),
            forall|j: int| 0 <= j < i ==> (#[trigger] present@[j])@ != filename@,
        decreases present.len() - i,
    {
        if crate::text::str_eq(present[i].as_str(), filename) {
            return true;
        }
        i = i + 1;
    }
    false
}

/// Where a download stands.
#[derive(Debug, Clone, Copy, PartialEq, Eq)]
pub enum DownloadPhase {
    /// Nothing done yet.
    Idle,
    /// The body is being written to the temporary file.
    Streaming,
    /// The final file is in place.
    Finished,
    /// The download failed and its temporary file is gone.
    Failed,
}

/// What the caller observed.
#[derive(Debug, Clone, Copy, PartialEq, Eq)]
pub enum DownloadEvent {
    /// The download was asked for; tells whether the final file exists.
    Begin { cached: bool },
    /// A chunk of the body arrived.
    Chunk,
    /// Reading or writing failed.
    Error,
    /// The body ended.
    End,
}

/// What the caller is to do next.
#[derive(Debug, Clone, Copy, PartialEq, Eq)]
pub enum DownloadAction {
    /// Return the cached file; no request is made.
    UseCache,
    /// Create the cache directory, send the request and create the temporary file.
    OpenTmp,
    /// Append the chunk to the temporary file.
    WriteChunk,
    /// Delete the temporary file and report the error.
    DeleteTmp,
    /// Rename the temporary file to the final name and return it.
    RenameToFinal,
    /// Nothing: the event does not apply in this phase.
    Ignore,
}

/// The download's next phase and the caller's next action.
pub open spec fn download_next(phase: DownloadPhase, event: DownloadEvent) -> (DownloadPhase, DownloadAction) {
    match (phase, event) {
        (DownloadPhase::Idle, DownloadEvent::Begin { cached }) => if cached {
            (DownloadPhase::Finished, DownloadAction::UseCache)
        } else {
            (DownloadPhase::Streaming, DownloadAction::OpenTmp)
        },
        (DownloadPhase::Streaming, DownloadEvent::Chunk) => (DownloadPhase::Streaming, DownloadAction::WriteChunk),
        (DownloadPhase::Streaming, DownloadEvent::Error) => (DownloadPhase::Failed, DownloadAction::DeleteTmp),
        (DownloadPhase::Streaming, DownloadEvent::End) => (DownloadPhase::Finished, DownloadAction::RenameToFinal),
        _ => (phase, DownloadAction::Ignore),
    }
}

/// Moves a download on by one event.
pub fn download_step(phase: DownloadPhase, event: DownloadEvent) -> (r: (DownloadPhase, DownloadAction))
    ensures
        r == download_next(phase, event),
{
    match (phase, event) {
        (DownloadPhase::Idle, DownloadEvent::Begin { cached }) => if cached {
            (DownloadPhase::Finished, DownloadAction::UseCache)
        } else {
            (DownloadPhase::Streaming, DownloadAction::OpenTmp)
        },
        (DownloadPhase::Streaming, DownloadEvent::Chunk) => (DownloadPhase::Streaming, DownloadAction::WriteChunk),
        (DownloadPhase::Streaming, DownloadEvent::Error) => (DownloadPhase::Failed, DownloadAction::DeleteTmp),
        (DownloadPhase::Streaming, DownloadEvent::End) => (DownloadPhase::Finished, DownloadAction::RenameToFinal),
        _ => (phase, DownloadAction::Ignore),
    }
}

/// The names in the cache directory after `action` on a download of `f`.
pub open spec fn apply_action(dir: Set<Seq<char>>, f: Seq<char>, action: DownloadAction) -> Set<Seq<char>> {
    match action {
        DownloadAction::OpenTmp => dir.insert(tmp_name(f)),
        DownloadAction::DeleteTmp => dir.remove(tmp_name(f)),
        DownloadAction::RenameToFinal => dir.remove(tmp_name(f)).insert(f),
        _ => dir,
    }
}

/// Phase and cache directory after the events `evs`, from `phase` and `dir`.
pub open spec fn run_download(phase: DownloadPhase, dir: Set<Seq<char>>, f: Seq<char>, evs: Seq<DownloadEvent>) -> (DownloadPhase, Set<Seq<char>>)
    decreases evs.len(),
{
    if evs.len() == 0 {
        (phase, dir)
    } else {
        let (p, d) = run_download(phase, dir, f, evs.drop_last());
        let (p2, a) = download_next(p, evs.last());
        (p2, apply_action(d, f, a))
    }
}

proof fn lemma_tmp_differs(f: Seq<char>)
    ensures
        tmp_name(f) != f,
{
    assert(tmp_name(f).len() == f.len() + 4);
}

proof fn lemma_no_end_no_final(dir: Set<Seq<char>>, f: Seq<char>, evs: Seq<DownloadEvent>)
    requires
        !dir.contains(f),
        forall|i: int| 0 <= i < evs.len() ==> !(#[trigger] evs[i] is End),
        forall|i: int| 0 <= i < evs.len() ==> !(#[trigger] evs[i] == DownloadEvent::Begin { cached: true }),
    ensures
        !run_download(DownloadPhase::Idle, dir, f, evs).1.contains(f),
        run_download(DownloadPhase::Idle, dir, f, evs).0 != DownloadPhase::Finished,
    decreases evs.len(),
{
    lemma_tmp_differs(f);
    if evs.len() > 0 {
        let init = evs.drop_last();
        assert forall|i: int| 0 <= i < init.len() implies !(#[trigger] init[i] is End) by {
            assert(init[i] == evs[i]);
        }
        assert forall|i: int| 0 <= i < init.len() implies !(#[trigger] init[i] == DownloadEvent::Begin { cached: true }) by {
            assert(init[i] == evs[i]);
        }
        lemma_no_end_no_final(dir, f, init);
        assert(!(evs[evs.len() - 1] is End));
        assert(evs[evs.len() - 1] != DownloadEvent::Begin { cached: true });
    }
}

/// A download that is cut off before its body ends, after any number of
/// chunks were written to the temporary file, leaves no file at the final
/// name; and a later call, which looks for the final name only, does not
/// take the orphaned temporary file for a cache hit.
pub proof fn lemma_interrupted_download(dir: Set<Seq<char>>, f: Seq<char>, chunks: nat, broke: bool)
    requires
        !dir.contains(f),
    ensures
        ({
            let evs = seq![DownloadEvent::Begin { cached: false }] + Seq::new(chunks, |i: int| DownloadEvent::Chunk)
                + if broke { seq![DownloadEvent::Error] } else { Seq::empty() };
            let after = run_download(DownloadPhase::Idle, dir, f, evs).1;
            &&& !after.contains(f)
            &&& download_next(DownloadPhase::Idle, DownloadEvent::Begin { cached: after.contains(f) }).1
                == DownloadAction::OpenTmp
        }),
{
    let evs = seq![DownloadEvent::Begin { cached: false }] + Seq::new(chunks, |i: int| DownloadEvent::Chunk)
        + if broke { seq![DownloadEvent::Error] } else { Seq::empty() };
    assert forall|i: int| 0 <= i < evs.len() implies !(#[trigger] evs[i] is End) by {
        if i == 0 {
        } else if i < 1 + chunks {
            assert(evs[i] == DownloadEvent::Chunk);
        } else {
            assert(evs[i] == DownloadEvent::Error);
        }
    }
    assert forall|i: int| 0 <= i < evs.len() implies !(#[trigger] evs[i] == DownloadEvent::Begin { cached: true }) by {
        if i == 0 {
            assert(evs[0] == DownloadEvent::Begin { cached: false });
        } else if i < 1 + chunks {
            assert(evs[i] == DownloadEvent::Chunk);
        } else {
            assert(evs[i] == DownloadEvent::Error);
        }
    }
    lemma_no_end_no_final(dir, f, evs);
}

/// How many of the top-level entries of an unpacked archive (name, is a
/// directory) are directories.
pub open spec fn count_dirs(entries: Seq<(String, bool)>) -> nat
    decreases entries.len(),
{
    if entries.len() == 0 {
        0
    } else {
        count_dirs(entries.drop_last()) + if entries.last().1 {
            1nat
        } else {
            0nat
        }
    }
}

/// The only directory among `entries`, where exactly one is a directory.
pub open spec fn single_dir(entries: Seq<(String, bool)>) -> Option<Seq<char>> {
    if count_dirs(entries) == 1 {
        Some(entries[choose|i: int| 0 <= i < entries.len() && (#[trigger] entries[i]).1].0@)
    } else {
        None
    }
}

proof fn lemma_count_dirs_push(entries: Seq<(String, bool)>, e: (String, bool))
    ensures
        count_dirs(entries.push(e)) == count_dirs(entries) + if e.1 {
            1nat
        } else {
            0nat
        },
{
    assert(entries.push(e).drop_last() =~= entries);
}

proof fn lemma_count_dirs_zero(entries: Seq<(String, bool)>)
    requires
        count_dirs(entries) == 0,
    ensures
        forall|i: int| 0 <= i < entries.len() ==> !(#[trigger] entries[i]).1,
    decreases entries.len(),
{
    if entries.len() > 0 {
        lemma_count_dirs_zero(entries.drop_last());
        assert forall|i: int| 0 <= i < entries.len() implies !(#[trigger] entries[i]).1 by {
            if i < entries.len() - 1 {
                assert(entries[i] == entries.drop_last()[i]);
            }
        }
    }
}

/// The only top-level directory of an unpacked archive, if there is exactly
/// one; `entries` are the names at the top level, each with whether it is a
/// directory.
pub fn find_single_subdir(entries: &Vec<(String, bool)>) -> (r: Option<String>)
    ensures
        match r {
            Some(s) => single_dir(entries@) == Some(s@),
            None => single_dir(entries@) is None,
        },
{
    let mut count: usize = 0;
    let mut at: usize = 0;
    let mut i: usize = 0;
    while i < entries.len()
        invariant
            i <= entries@.len(),
            count == count_dirs(entries@.take(i as int)),
            count <= i,
            count >= 1 ==> at < i && entries@[at as int].1,
            count == 1 ==> forall|j: int| 0 <= j < i && j != at ==> !(#[trigger] entries@[j]).1,
            count == 0 ==> forall|j: int| 0 <= j < i ==> !(#[trigger] entries@[j]).1,
        decreases entries.len() - i,
    {
        proof {
            lemma_count_dirs_push(entries@.take(i as int), entries@[i as int]);
            assert(entries@.take(i as int).push(entries@[i as int]) =~= entries@.take(i as int + 1));
        }
        if entries[i].1 {
            if count == 0 {
                at = i;
            }
            count = count + 1;
        }
        i = i + 1;
    }
    assert(entries@.take(entries@.len() as int) =~= entries@);
    if count == 1 {
        let ghost k = choose|k: int| 0 <= k < entries@.len() && (#[trigger] entries@[k]).1;
        assert(k == at);
        Some(entries[at].0.clone())
    } else {
        None
    }
}

/// The install root for an archive unpacked to `extract_dir`: its only
/// top-level directory where there is exactly one, else `extract_dir` itself.
pub fn install_root(extract_dir: &str, entries: &Vec<(String, bool)>) -> (r: String)
    ensures
        r@ == match single_dir(entries@) {
            Some(d) => joined(extract_dir@, d),
            None => extract_dir@,
        },
{
    match find_single_subdir(entries) {
        Some(d) => join_path(extract_dir, d.as_str()),
        None => String::from_str(extract_dir),
    }
}

} // verus!
