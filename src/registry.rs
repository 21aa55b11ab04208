//! The ledger: what this system has installed, where and which version, at
//! most one record per tool.
use vstd::prelude::*;
use crate::text::str_eq;

verus! {

/// The record of one managed tool.
#[derive(Debug, Clone)]
pub struct ToolState {
    pub version: String,
    pub install_path: String,
    pub installed_at: String,
}

impl View for ToolState {
    /// Version, install path and time of installation.
    type V = (Seq<char>, Seq<char>, Seq<char>);

    open spec fn view(&self) -> (Seq<char>, Seq<char>, Seq<char>) {
        (self.version@, self.install_path@, self.installed_at@)
    }
}

/// All records, keyed by tool id.
#[derive(Debug, Clone)]
pub struct InstallRegistry {
    tools: Vec<(String, ToolState)>,
}

/// The entries of `s` have pairwise different keys.
pub open spec fn keys_unique(s: Seq<(String, ToolState)>) -> bool {
    forall|i: int, j: int|
        0 <= i < s.len() && 0 <= j < s.len() && (#[trigger] s[i]).0@ == (#[trigger] s[j]).0@ ==> i == j
}

/// `s` holds an entry with the key `k`.
pub open spec fn has_key(s: Seq<(String, ToolState)>, k: Seq<char>) -> bool {
    exists|i: int| 0 <= i < s.len() && (#[trigger] s[i]).0@ == k
}

/// The entries of `s` as a map from key to record.
pub open spec fn entries_map(s: Seq<(String, ToolState)>) -> Map<Seq<char>, (Seq<char>, Seq<char>, Seq<char>)> {
    Map::new(
        |k: Seq<char>| has_key(s, k),
        |k: Seq<char>| s[choose|i: int| 0 <= i < s.len() && (#[trigger] s[i]).0@ == k].1@,
    )
}

proof fn lemma_entry_value(s: Seq<(String, ToolState)>, i: int)
    requires
        keys_unique(s),
        0 <= i < s.len(),
    ensures
        entries_map(s).contains_key(s[i].0@),
        entries_map(s)[s[i].0@] == s[i].1@,
{
    let k = s[i].0@;
    assert(has_key(s, k));
    let j = choose|j: int| 0 <= j < s.len() && (#[trigger] s[j]).0@ == k;
    assert(j == i);
}

impl InstallRegistry {
    /// The records by tool id.
    pub closed spec fn view(&self) -> Map<Seq<char>, (Seq<char>, Seq<char>, Seq<char>)> {
        entries_map(self.tools@)
    }

    /// At most one record per tool id.
    pub closed spec fn wf(&self) -> bool {
        keys_unique(self.tools@)
    }

    /// A ledger without records.
    pub fn new() -> (r: Self)
        ensures
            r.wf(),
            r.view() == Map::<Seq<char>, (Seq<char>, Seq<char>, Seq<char>)>::empty(),
    {
        let r = InstallRegistry { tools: Vec::new() };
        assert(r.view() =~= Map::<Seq<char>, (Seq<char>, Seq<char>, Seq<char>)>::empty());
        r
    }

    /// The ledger that was read, or an empty one where none could be read
    /// (the file was missing or did not parse).
    pub fn recover(read: Option<InstallRegistry>) -> (r: Self)
        requires
            read is Some ==> read->0.wf(),
        ensures
            r.wf(),
            read is Some ==> r.view() == read->0.view(),
            read is None ==> r.view() == Map::<Seq<char>, (Seq<char>, Seq<char>, Seq<char>)>::empty(),
    {
        match read {
            Some(reg) => reg,
            None => Self::new(),
        }
    }

    /// Where the record of `tool_id` stands, if there is one.
    fn find(&self, tool_id: &str) -> (r: Option<usize>)
        requires
            self.wf(),
        ensures
            r is None ==> !has_key(self.tools@, tool_id@),
            r is Some ==> r->0 < self.tools@.len() && self.tools@[r->0 as int].0@ == tool_id@,
    {
        let mut i: usize = 0;
        while i < self.tools.len()
            invariant
                i <= self.tools@.len(),
                forall|j: int| 0 <= j < i ==> (#[trigger] self.tools@[j]).0@ != tool_id@,
            decreases self.tools.len() - i,
        {
            if str_eq(self.tools[i].0.as_str(), tool_id) {
                return Some(i);
            }
            i = i + 1;
        }
        None
    }

    /// The record of `tool_id`.
    pub fn get(&self, tool_id: &str) -> (r: Option<&ToolState>)
        requires
            self.wf(),
        ensures
            r is Some <==> self.view().contains_key(tool_id@),
            r is Some ==> r->0@ == self.view()[tool_id@],
    {
        match self.find(tool_id) {
            Some(i) => {
                proof {
                    lemma_entry_value(self.tools@, i as int);
                }
                Some(&self.tools[i].1)
            },
            None => None,
        }
    }

    /// Records `tool_id` as installed, replacing an earlier record of it.
    pub fn mark_installed(&mut self, tool_id: &str, version: &str, install_path: &str, installed_at: &str)
        requires
            old(self).wf(),
        ensures
            final(self).wf(),
            final(self).view() == old(self).view().insert(
                tool_id@,
                (version@, install_path@, installed_at@),
            ),
    {
        let state = ToolState {
            version: String::from_str(version),
            install_path: String::from_str(install_path),
            installed_at: String::from_str(installed_at),
        };
        let ghost before = self.tools@;
        match self.find(tool_id) {
            Some(i) => {
                self.tools.set(i, (String::from_str(tool_id), state));
                let ghost after = self.tools@;
                assert(keys_unique(after)) by {
                    assert forall|a: int, b: int|
                        0 <= a < after.len() && 0 <= b < after.len() && (#[trigger] after[a]).0@ == (#[trigger] after[b]).0@ implies a == b by {
                        if a != i && b != i {
                            assert(before[a] == after[a] && before[b] == after[b]);
                        } else if a == i && b != i {
                            assert(before[b] == after[b]);
                        } else if a != i && b == i {
                            assert(before[a] == after[a]);
                        }
                    }
                }
                assert(entries_map(after) =~= entries_map(before).insert(
                    tool_id@,
                    (version@, install_path@, installed_at@),
                )) by {
                    assert forall|k: Seq<char>| #[trigger] has_key(after, k) == (has_key(before, k) || k == tool_id@) by {
                        if has_key(before, k) {
                            let j = choose|j: int| 0 <= j < before.len() && (#[trigger] before[j]).0@ == k;
                            if j != i {
                                assert(after[j] == before[j]);
                            } else {
                                assert(after[i as int].0@ == k);
                            }
                        }
                        if has_key(after, k) {
                            let j = choose|j: int| 0 <= j < after.len() && (#[trigger] after[j]).0@ == k;
                            if j != i {
                                assert(after[j] == before[j]);
                            }
                        }
                        if k == tool_id@ {
                            assert(after[i as int].0@ == k);
                        }
                    }
                    assert forall|k: Seq<char>| #[trigger] has_key(after, k) implies entries_map(after)[k]
                        == entries_map(before).insert(tool_id@, (version@, install_path@, installed_at@))[k] by {
                        let j = choose|j: int| 0 <= j < after.len() && (#[trigger] after[j]).0@ == k;
                        lemma_entry_value(after, j);
                        if j != i {
                            assert(after[j] == before[j]);
                            lemma_entry_value(before, j);
                        }
                    }
                }
            },
            None => {
                self.tools.push((String::from_str(tool_id), state));
                let ghost after = self.tools@;
                assert(keys_unique(after)) by {
                    assert forall|a: int, b: int|
                        0 <= a < after.len() && 0 <= b < after.len() && (#[trigger] after[a]).0@ == (#[trigger] after[b]).0@ implies a == b by {
                        if a < before.len() && b < before.len() {
                            assert(before[a] == after[a] && before[b] == after[b]);
                        } else if a < before.len() {
                            assert(before[a] == after[a]);
                        } else if b < before.len() {
                            assert(before[b] == after[b]);
                        }
                    }
                }
                let ghost n = before.len() as int;
                assert(entries_map(after) =~= entries_map(before).insert(
                    tool_id@,
                    (version@, install_path@, installed_at@),
                )) by {
                    assert forall|k: Seq<char>| #[trigger] has_key(after, k) == (has_key(before, k) || k == tool_id@) by {
                        if has_key(before, k) {
                            let j = choose|j: int| 0 <= j < before.len() && (#[trigger] before[j]).0@ == k;
                            assert(after[j] == before[j]);
                        }
                        if has_key(after, k) {
                            let j = choose|j: int| 0 <= j < after.len() && (#[trigger] after[j]).0@ == k;
                            if j < n {
                                assert(after[j] == before[j]);
                            }
                        }
                        if k == tool_id@ {
                            assert(after[n].0@ == k);
                        }
                    }
                    assert forall|k: Seq<char>| #[trigger] has_key(after, k) implies entries_map(after)[k]
                        == entries_map(before).insert(tool_id@, (version@, install_path@, installed_at@))[k] by {
                        let j = choose|j: int| 0 <= j < after.len() && (#[trigger] after[j]).0@ == k;
                        lemma_entry_value(after, j);
                        if j < n {
                            assert(after[j] == before[j]);
                            lemma_entry_value(before, j);
                        }
                    }
                }
            },
        }
    }

    /// Drops the record of `tool_id`, if there is one.
    pub fn remove(&mut self, tool_id: &str)
        requires
            old(self).wf(),
        ensures
            final(self).wf(),
            final(self).view() == old(self).view().remove(tool_id@),
    {
        let ghost before = self.tools@;
        match self.find(tool_id) {
            Some(i) => {
                self.tools.remove(i);
                let ghost after = self.tools@;
                assert(after =~= before.remove(i as int));
                assert(keys_unique(after)) by {
                    assert forall|a: int, b: int|
                        0 <= a < after.len() && 0 <= b < after.len() && (#[trigger] after[a]).0@ == (#[trigger] after[b]).0@ implies a == b by {
                        let a2 = if a < i { a } else { a + 1 };
                        let b2 = if b < i { b } else { b + 1 };
                        assert(after[a] == before[a2] && after[b] == before[b2]);
                    }
                }
                assert(entries_map(after) =~= entries_map(before).remove(tool_id@)) by {
                    assert forall|k: Seq<char>| #[trigger] has_key(after, k) == (has_key(before, k) && k != tool_id@) by {
                        if has_key(before, k) && k != tool_id@ {
                            let j = choose|j: int| 0 <= j < before.len() && (#[trigger] before[j]).0@ == k;
                            let j2 = if j < i { j } else { j - 1 };
                            assert(after[j2] == before[j]);
                        }
                        if has_key(after, k) {
                            let j = choose|j: int| 0 <= j < after.len() && (#[trigger] after[j]).0@ == k;
                            let j2 = if j < i { j } else { j + 1 };
                            assert(after[j] == before[j2]);
                        }
                    }
                    assert forall|k: Seq<char>| #[trigger] has_key(after, k) implies entries_map(after)[k]
                        == entries_map(before).remove(tool_id@)[k] by {
                        let j = choose|j: int| 0 <= j < after.len() && (#[trigger] after[j]).0@ == k;
                        let j2 = if j < i { j } else { j + 1 };
                        assert(after[j] == before[j2]);
                        lemma_entry_value(after, j);
                        lemma_entry_value(before, j2);
                    }
                }
            },
            None => {
                assert(entries_map(before) =~= entries_map(before).remove(tool_id@));
            },
        }
    }

    /// The tool ids that have a record, each once.
    pub fn tool_ids(&self) -> (r: Vec<String>)
        requires
            self.wf(),
        ensures
            forall|i: int, j: int| 0 <= i < j < r@.len() ==> (#[trigger] r@[i])@ != (#[trigger] r@[j])@,
            forall|k: Seq<char>| self.view().contains_key(k) <==> exists|i: int| 0 <= i < r@.len() && (#[trigger] r@[i])@ == k,
    {
        let mut r: Vec<String> = Vec::new();
        let mut i: usize = 0;
        while i < self.tools.len()
            invariant
                i <= self.tools@.len(),
                r@.len() == i,
                forall|j: int| 0 <= j < i ==> (#[trigger] r@[j])@ == self.tools@[j].0@,
            decreases self.tools.len() - i,
        {
            r.push(self.tools[i].0.clone());
            i = i + 1;
        }
        assert forall|a: int, b: int| 0 <= a < b < r@.len() implies (#[trigger] r@[a])@ != (#[trigger] r@[b])@ by {
            assert(r@[a]@ == self.tools@[a].0@ && r@[b]@ == self.tools@[b].0@);
        }
        assert forall|k: Seq<char>| self.view().contains_key(k) <==> exists|i: int| 0 <= i < r@.len() && (#[trigger] r@[i])@ == k by {
            if self.view().contains_key(k) {
                let j = choose|j: int| 0 <= j < self.tools@.len() && (#[trigger] self.tools@[j]).0@ == k;
                assert(r@[j]@ == k);
            }
            if exists|i: int| 0 <= i < r@.len() && (#[trigger] r@[i])@ == k {
                let j = choose|j: int| 0 <= j < r@.len() && (#[trigger] r@[j])@ == k;
                assert(self.tools@[j].0@ == k);
            }
        }
        r
    }
}

} // verus!
