//! The PATH list of the persistent user environment: entries are separated by
//! `;`, empty entries are ignored, and entries are compared without ASCII case.
use vstd::prelude::*;
use crate::text::{
    chars_eq_ci, chars_of, eq_ci, free_of, join_strs, join_with, lemma_split_append_plain,
    lemma_split_join, lemma_split_nonempty, lemma_split_pieces_free, lemma_split_push_sep,
    split_on, split_str, views,
};

verus! {

/// The separator between PATH entries.
pub open spec fn sep() -> char {
    ';'
}

/// The piece `part` of a PATH stands for the directory `p`.
pub open spec fn entry_matches(part: Seq<char>, p: Seq<char>) -> bool {
    part.len() > 0 && eq_ci(part, p)
}

/// How many of `parts` stand for `p`.
pub open spec fn count_entries(parts: Seq<Seq<char>>, p: Seq<char>) -> nat
    decreases parts.len(),
{
    if parts.len() == 0 {
        0
    } else {
        count_entries(parts.drop_last(), p) + if entry_matches(parts.last(), p) {
            1nat
        } else {
            0nat
        }
    }
}

/// `parts` without those that stand for `p`, in their order.
pub open spec fn without_entry(parts: Seq<Seq<char>>, p: Seq<char>) -> Seq<Seq<char>>
    decreases parts.len(),
{
    if parts.len() == 0 {
        parts
    } else if entry_matches(parts.last(), p) {
        without_entry(parts.drop_last(), p)
    } else {
        without_entry(parts.drop_last(), p).push(parts.last())
    }
}

/// How many entries of the PATH value `path` stand for `p`.
pub open spec fn path_count(path: Seq<char>, p: Seq<char>) -> nat {
    count_entries(split_on(path, sep()), p)
}

/// The PATH value after `p` is appended to `path`: unchanged where `p` is
/// already there; otherwise `p` follows with a single separator.
pub open spec fn appended_path(path: Seq<char>, p: Seq<char>) -> Seq<char> {
    if path_count(path, p) > 0 {
        path
    } else if path.len() == 0 {
        p
    } else if path.last() == sep() {
        path + p
    } else {
        path.push(sep()) + p
    }
}

/// The PATH value after every entry that stands for `p` is taken out; the
/// other pieces keep their order and the separators between them.
pub open spec fn removed_path(path: Seq<char>, p: Seq<char>) -> Seq<char> {
    join_with(without_entry(split_on(path, sep()), p), sep())
}

/// Whether the PATH value `path` has an entry for the directory `dir`.
pub fn path_contains(path: &str, dir: &str) -> (r: bool)
    ensures
        r == (path_count(path@, dir@) > 0),
{
    let parts = split_str(path, ';');
    let want = chars_of(dir);
    let mut found = false;
    let mut i: usize = 0;
    while i < parts.len()
        invariant
            views(parts@) == split_on(path@, sep()),
            want@ == dir@,
            i <= parts.len(),
            found == (count_entries(views(parts@).take(i as int), dir@) > 0),
        decreases parts.len() - i,
    {
        let ghost done = views(parts@).take(i as int);
        assert(views(parts@).take(i as int + 1).drop_last() =~= done);
        let piece = chars_of(parts[i].as_str());
        if piece.len() > 0 && chars_eq_ci(&piece, &want) {
            found = true;
        }
        i = i + 1;
    }
    assert(views(parts@).take(parts.len() as int) =~= views(parts@));
    found
}

/// The PATH value `path` with the directory `dir` appended, unless an entry
/// already stands for it.
pub fn append_to_path(path: &str, dir: &str) -> (r: String)
    ensures
        r@ == appended_path(path@, dir@),
{
    if path_contains(path, dir) {
        return String::from_str(path);
    }
    let n = path.unicode_len();
    if n == 0 {
        String::from_str(dir)
    } else if path.get_char(n - 1) == ';' {
        String::from_str(path).concat(dir)
    } else {
        proof {
            reveal_strlit(";");
        }
        let with_sep = String::from_str(path).concat(";");
        assert(with_sep@ =~= path@.push(sep()));
        with_sep.concat(dir)
    }
}

/// The PATH value `path` without the entries that stand for `dir`.
pub fn remove_from_path(path: &str, dir: &str) -> (r: String)
    ensures
        r@ == removed_path(path@, dir@),
{
    let parts = split_str(path, ';');
    let want = chars_of(dir);
    let mut kept: Vec<String> = Vec::new();
    let mut i: usize = 0;
    while i < parts.len()
        invariant
            views(parts@) == split_on(path@, sep()),
            want@ == dir@,
            i <= parts.len(),
            views(kept@) == without_entry(views(parts@).take(i as int), dir@),
        decreases parts.len() - i,
    {
        let ghost done = views(parts@).take(i as int);
        assert(views(parts@).take(i as int + 1).drop_last() =~= done);
        let piece = chars_of(parts[i].as_str());
        if !(piece.len() > 0 && chars_eq_ci(&piece, &want)) {
            let ghost before = kept@;
            kept.push(parts[i].clone());
            assert(views(kept@) =~= views(before).push(parts@[i as int]@));
        }
        i = i + 1;
    }
    assert(views(parts@).take(parts.len() as int) =~= views(parts@));
    proof {
        reveal_strlit(";");
    }
    join_strs(&kept, ";")
}

proof fn lemma_count_push(parts: Seq<Seq<char>>, x: Seq<char>, p: Seq<char>)
    ensures
        count_entries(parts.push(x), p) == count_entries(parts, p) + if entry_matches(x, p) {
            1nat
        } else {
            0nat
        },
{
    assert(parts.push(x).drop_last() =~= parts);
}

proof fn lemma_without_has_none(parts: Seq<Seq<char>>, p: Seq<char>)
    ensures
        count_entries(without_entry(parts, p), p) == 0,
        forall|i: int|
            0 <= i < without_entry(parts, p).len() ==> exists|j: int|
                0 <= j < parts.len() && #[trigger] without_entry(parts, p)[i] == parts[j],
    decreases parts.len(),
{
    if parts.len() > 0 {
        let init = parts.drop_last();
        lemma_without_has_none(init, p);
        let w = without_entry(init, p);
        if !entry_matches(parts.last(), p) {
            lemma_count_push(w, parts.last(), p);
            assert forall|i: int| 0 <= i < w.push(parts.last()).len() implies exists|j: int|
                0 <= j < parts.len() && #[trigger] w.push(parts.last())[i] == parts[j] by {
                if i == w.len() {
                    assert(w.push(parts.last())[i] == parts[parts.len() - 1]);
                } else {
                    let j = choose|j: int| 0 <= j < init.len() && w[i] == init[j];
                    assert(w.push(parts.last())[i] == parts[j]);
                }
            }
        } else {
            assert forall|i: int| 0 <= i < w.len() implies exists|j: int|
                0 <= j < parts.len() && #[trigger] w[i] == parts[j] by {
                let j = choose|j: int| 0 <= j < init.len() && w[i] == init[j];
                assert(w[i] == parts[j]);
            }
        }
    }
}

/// Appending a directory to PATH twice leaves exactly one entry for it,
/// starting from a PATH that had at most one. The directory is a non-empty
/// name without a separator in it.
pub proof fn lemma_append_twice_single(path: Seq<char>, dir: Seq<char>)
    requires
        dir.len() > 0,
        free_of(dir, sep()),
        path_count(path, dir) <= 1,
    ensures
        path_count(appended_path(appended_path(path, dir), dir), dir) == 1,
{
    let once = appended_path(path, dir);
    if path_count(path, dir) == 0 {
        lemma_split_nonempty(path, sep());
        let parts = split_on(path, sep());
        assert(eq_ci(dir, dir));
        if path.len() == 0 {
            lemma_split_append_plain(path, dir, sep());
            assert(path + dir =~= dir);
            assert(parts =~= seq![Seq::<char>::empty()]);
            assert(Seq::<char>::empty() + dir =~= dir);
            assert(split_on(once, sep()) =~= seq![dir]);
            assert(seq![dir] =~= Seq::<Seq<char>>::empty().push(dir));
            lemma_count_push(Seq::<Seq<char>>::empty(), dir, dir);
        } else if path.last() == sep() {
            lemma_split_append_plain(path, dir, sep());
            let init = split_on(path.drop_last(), sep());
            assert(parts == init.push(Seq::<char>::empty()));
            assert(parts.last() + dir =~= dir);
            assert(split_on(once, sep()) =~= init.push(dir));
            lemma_count_push(init, Seq::<char>::empty(), dir);
            lemma_count_push(init, dir, dir);
        } else {
            lemma_split_push_sep(path, sep());
            lemma_split_append_plain(path.push(sep()), dir, sep());
            assert(Seq::<char>::empty() + dir =~= dir);
            assert(split_on(once, sep()) =~= parts.push(dir));
            lemma_count_push(parts, dir, dir);
        }
    }
}

/// After a directory is removed from PATH, no entry stands for it.
pub proof fn lemma_removed_has_none(path: Seq<char>, dir: Seq<char>)
    ensures
        path_count(removed_path(path, dir), dir) == 0,
{
    let parts = split_on(path, sep());
    let kept = without_entry(parts, dir);
    lemma_without_has_none(parts, dir);
    if kept.len() == 0 {
        assert(removed_path(path, dir) =~= Seq::<char>::empty());
        assert(split_on(Seq::<char>::empty(), sep()) =~= Seq::<Seq<char>>::empty().push(Seq::<char>::empty()));
        lemma_count_push(Seq::<Seq<char>>::empty(), Seq::<char>::empty(), dir);
    } else {
        lemma_split_pieces_free(path, sep());
        assert forall|i: int| 0 <= i < kept.len() implies free_of(#[trigger] kept[i], sep()) by {
            let j = choose|j: int| 0 <= j < parts.len() && kept[i] == parts[j];
            assert(free_of(parts[j], sep()));
        }
        lemma_split_join(kept, sep());
    }
}

proof fn lemma_count_without_le(parts: Seq<Seq<char>>, q: Seq<char>, p: Seq<char>)
    ensures
        count_entries(without_entry(parts, q), p) <= count_entries(parts, p),
    decreases parts.len(),
{
    if parts.len() > 0 {
        lemma_count_without_le(parts.drop_last(), q, p);
        let w = without_entry(parts.drop_last(), q);
        if !entry_matches(parts.last(), q) {
            lemma_count_push(w, parts.last(), p);
        }
    }
}

/// Taking one directory out of PATH adds no entry for any other.
pub proof fn lemma_removed_count_le(path: Seq<char>, dir: Seq<char>, other: Seq<char>)
    ensures
        path_count(removed_path(path, dir), other) <= path_count(path, other),
{
    let parts = split_on(path, sep());
    let kept = without_entry(parts, dir);
    lemma_without_has_none(parts, dir);
    lemma_count_without_le(parts, dir, other);
    if kept.len() == 0 {
        assert(removed_path(path, dir) =~= Seq::<char>::empty());
        assert(split_on(Seq::<char>::empty(), sep()) =~= Seq::<Seq<char>>::empty().push(Seq::<char>::empty()));
        lemma_count_push(Seq::<Seq<char>>::empty(), Seq::<char>::empty(), other);
    } else {
        lemma_split_pieces_free(path, sep());
        assert forall|i: int| 0 <= i < kept.len() implies free_of(#[trigger] kept[i], sep()) by {
            let j = choose|j: int| 0 <= j < parts.len() && kept[i] == parts[j];
            assert(free_of(parts[j], sep()));
        }
        lemma_split_join(kept, sep());
    }
}

} // verus!
