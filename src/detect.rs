//! The detection engine: the ledger answers for managed tools whose install
//! directory is still there; every other tool is probed, and a probe that
//! fails counts as not installed. Results keep the catalog's order.
use vstd::prelude::*;
use crate::installer::{DetectResult, Detected};
use crate::registry::InstallRegistry;

verus! {

/// The ledger's answer for `id`: managed, with the recorded version, where a
/// record exists and its install path is present on disk.
pub open spec fn fast_detect_spec(
    ledger: Map<Seq<char>, (Seq<char>, Seq<char>, Seq<char>)>,
    id: Seq<char>,
    path_present: bool,
) -> Option<Detected> {
    if ledger.contains_key(id) && path_present {
        Some(Detected::Managed(ledger[id].0))
    } else {
        None
    }
}

/// The result for one tool: the ledger's answer if there was one, else the
/// probe's, else not installed.
pub open spec fn merged(fast: Option<Detected>, probed: Option<Detected>) -> Detected {
    match fast {
        Some(d) => d,
        None => match probed {
            Some(d) => d,
            None => Detected::NotInstalled,
        },
    }
}

pub open spec fn opt_detected(o: Option<DetectResult>) -> Option<Detected> {
    match o {
        Some(d) => Some(d.view()),
        None => None,
    }
}

/// Answers for `id` from the ledger alone. `path_present` tells whether the
/// install path of its record exists.
pub fn fast_detect(id: &str, reg: &InstallRegistry, path_present: bool) -> (r: Option<DetectResult>)
    requires
        reg.wf(),
    ensures
        opt_detected(r) == fast_detect_spec(reg.view(), id@, path_present),
{
    match reg.get(id) {
        Some(state) => {
            if path_present {
                Some(DetectResult::InstalledByHudo(state.version.clone()))
            } else {
                None
            }
        },
        None => None,
    }
}

/// The positions of the tools that the ledger could not answer for, in
/// increasing order: one probe runs for each.
pub fn pending_probes(fast: &Vec<Option<DetectResult>>) -> (r: Vec<usize>)
    ensures
        forall|k: int| 0 <= k < r@.len() ==> r@[k] < fast@.len() && (#[trigger] fast@[r@[k] as int]) is None,
        forall|k: int, l: int| 0 <= k < l < r@.len() ==> r@[k] < r@[l],
        forall|i: int| 0 <= i < fast@.len() && (#[trigger] fast@[i]) is None ==> exists|k: int|
            0 <= k < r@.len() && r@[k] == i,
{
    let mut r: Vec<usize> = Vec::new();
    let mut i: usize = 0;
    while i < fast.len()
        invariant
            i <= fast@.len(),
            forall|k: int| 0 <= k < r@.len() ==> #[trigger] r@[k] < i,
            forall|k: int| 0 <= k < r@.len() ==> (#[trigger] fast@[r@[k] as int]) is None,
            forall|k: int, l: int| 0 <= k < l < r@.len() ==> r@[k] < r@[l],
            forall|j: int| 0 <= j < i && (#[trigger] fast@[j]) is None ==> exists|k: int|
                0 <= k < r@.len() && r@[k] == j,
        decreases fast.len() - i,
    {
        if fast[i].is_none() {
            let ghost before = r@;
            r.push(i);
            assert forall|k: int, l: int| 0 <= k < l < r@.len() implies r@[k] < r@[l] by {
                if l == before.len() {
                    assert(r@[k] == before[k]);
                    assert(before[k] < i);
                } else {
                    assert(r@[k] == before[k] && r@[l] == before[l]);
                }
            }
            assert forall|j: int| 0 <= j < i + 1 && (#[trigger] fast@[j]) is None implies exists|k: int|
                0 <= k < r@.len() && r@[k] == j by {
                if j < i {
                    let k = choose|k: int| 0 <= k < before.len() && before[k] == j;
                    assert(r@[k] == j);
                } else {
                    assert(r@[before.len() as int] == j);
                }
            }
        }
        i = i + 1;
    }
    r
}

/// One result per tool, in catalog order: the ledger's answer where it gave
/// one, else the probe's, and not installed where the probe failed.
pub fn collect_detections(fast: &Vec<Option<DetectResult>>, probed: &Vec<Option<DetectResult>>) -> (r: Vec<DetectResult>)
    requires
        fast@.len() == probed@.len(),
    ensures
        r@.len() == fast@.len(),
        forall|i: int| 0 <= i < r@.len() ==> (#[trigger] r@[i]).view() == merged(opt_detected(fast@[i]), opt_detected(probed@[i])),
{
    let mut r: Vec<DetectResult> = Vec::new();
    let mut i: usize = 0;
    while i < fast.len()
        invariant
            fast@.len() == probed@.len(),
            i <= fast@.len(),
            r@.len() == i,
            forall|j: int| 0 <= j < i ==> (#[trigger] r@[j]).view() == merged(opt_detected(fast@[j]), opt_detected(probed@[j])),
        decreases fast.len() - i,
    {
        let d = match &fast[i] {
            Some(d) => d.duplicate(),
            None => match &probed[i] {
                Some(d) => d.duplicate(),
                None => DetectResult::NotInstalled,
            },
        };
        r.push(d);
        i = i + 1;
    }
    r
}

} // verus!
