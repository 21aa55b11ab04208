//! Version strings: release tags of Git for Windows and the version text
//! that tools print.
use vstd::prelude::*;
use crate::text::{
    cat, join_strs, join_with, split_on, split_str, split_ws, str_eq, trim_ws, trim_str, views, ws_tokens,
};

verus! {

/// The first position at or after `i` where `parts` holds `w`.
pub open spec fn find_from(parts: Seq<Seq<char>>, w: Seq<char>, i: int) -> Option<int>
    decreases parts.len() - i,
{
    if i < 0 || i >= parts.len() {
        None
    } else if parts[i] == w {
        Some(i)
    } else {
        find_from(parts, w, i + 1)
    }
}

/// The version that a Git for Windows tag such as `v2.47.1.windows.2` names:
/// the numbers before `windows`, and the Windows patch number after them
/// unless it is 1. `None` for a tag of another shape.
pub open spec fn git_tag_version(tag: Seq<char>) -> Option<Seq<char>> {
    if tag.len() == 0 || tag[0] != 'v' {
        None
    } else {
        let parts = split_on(tag.skip(1), '.');
        match find_from(parts, "windows"@, 0) {
            None => None,
            Some(idx) => if idx + 1 >= parts.len() {
                None
            } else {
                let ver = join_with(parts.take(idx), '.');
                let patch = parts[idx + 1];
                if patch == "1"@ {
                    Some(ver)
                } else {
                    Some(ver.push('.') + patch)
                }
            },
        }
    }
}

/// The version named by a Git for Windows release tag:
/// `v2.47.1.windows.2` gives `2.47.1.2`, `v2.53.0.windows.1` gives `2.53.0`.
pub fn parse_git_tag(tag: &str) -> (r: Option<String>)
    ensures
        match r {
            Some(s) => git_tag_version(tag@) == Some(s@),
            None => git_tag_version(tag@) is None,
        },
{
    let n = tag.unicode_len();
    if n == 0 || tag.get_char(0) != 'v' {
        return None;
    }
    let rest = tag.substring_char(1, n);
    assert(rest@ =~= tag@.skip(1));
    let parts = split_str(rest, '.');
    let ghost pv = split_on(tag@.skip(1), '.');
    let mut i: usize = 0;
    let mut found = false;
    while !found && i < parts.len()
        invariant
            views(parts@) == pv,
            i <= parts@.len(),
            find_from(pv, "windows"@, 0) == find_from(pv, "windows"@, i as int),
            found ==> i < parts@.len() && pv[i as int] == "windows"@,
        decreases parts.len() - i + if found { 0int } else { 1int },
    {
        if str_eq(parts[i].as_str(), "windows") {
            found = true;
        } else {
            i = i + 1;
        }
    }
    if !found {
        return None;
    }
    assert(i < parts@.len());
    if parts.len() - i <= 1 {
        return None;
    }
    let mut head: Vec<String> = Vec::new();
    let mut j: usize = 0;
    while j < i
        invariant
            views(parts@) == pv,
            i < parts@.len(),
            j <= i,
            views(head@) == pv.take(j as int),
        decreases i - j,
    {
        let ghost before = head@;
        head.push(parts[j].clone());
        assert(views(head@) =~= views(before).push(parts@[j as int]@));
        assert(pv.take(j as int + 1) =~= pv.take(j as int).push(pv[j as int]));
        j = j + 1;
    }
    proof {
        reveal_strlit(".");
    }
    let ver = join_strs(&head, ".");
    let patch = parts[i + 1].as_str();
    if str_eq(patch, "1") {
        Some(ver)
    } else {
        let with_dot = ver.concat(".");
        assert(with_dot@ =~= join_with(pv.take(i as int), '.').push('.'));
        Some(with_dot.concat(patch))
    }
}

/// What is shown for a tool that runs but whose version could not be read.
pub const INSTALLED_MARK: &'static str = "已安装";

/// The first word of `toks` that starts with an ASCII digit, from position `i` on.
pub open spec fn first_numeric(toks: Seq<Seq<char>>, i: int) -> Option<Seq<char>>
    decreases toks.len() - i,
{
    if i < 0 || i >= toks.len() {
        None
    } else if toks[i].len() > 0 && '0' <= toks[i][0] && toks[i][0] <= '9' {
        Some(toks[i])
    } else {
        first_numeric(toks, i + 1)
    }
}

/// The bare version in text such as `git version 2.47.1`: its first word
/// that starts with a digit, or the whole text, trimmed, where none does.
pub open spec fn bare_version(text: Seq<char>) -> Seq<char> {
    match first_numeric(ws_tokens(text), 0) {
        Some(t) => t,
        None => trim_ws(text),
    }
}

/// The first word of `words` that starts with an ASCII digit.
fn find_numeric(words: &Vec<String>) -> (r: Option<usize>)
    ensures
        match r {
            Some(i) => i < words@.len() && first_numeric(views(words@), 0) == Some(words@[i as int]@),
            None => first_numeric(views(words@), 0) is None,
        },
{
    let ghost w = views(words@);
    let mut i: usize = 0;
    while i < words.len()
        invariant
            w == views(words@),
            i <= words@.len(),
            first_numeric(w, 0) == first_numeric(w, i as int),
        decreases words.len() - i,
    {
        let n = words[i].as_str().unicode_len();
        if n > 0 {
            let c = words[i].as_str().get_char(0);
            if '0' <= c && c <= '9' {
                assert(w[i as int] == words@[i as int]@);
                return Some(i);
            }
        }
        i = i + 1;
    }
    None
}

/// The bare version in version text: `git version 2.47.1` gives `2.47.1`.
pub fn extract_version(text: &str) -> (r: String)
    ensures
        r@ == bare_version(text@),
{
    let words = split_ws(text);
    match find_numeric(&words) {
        Some(i) => words[i].clone(),
        None => trim_str(text),
    }
}

/// The bare version cut to at most `max_len` characters; a longer one keeps
/// its first `max_len - 1` characters and ends in `…`.
pub open spec fn truncated_version(text: Seq<char>, max_len: nat) -> Seq<char> {
    let v = bare_version(text);
    if v.len() <= max_len {
        v
    } else {
        v.take(max_len - 1) + "…"@
    }
}

/// The bare version of `text`, cut to fit `max_len` characters.
pub fn truncate_version(text: &str, max_len: usize) -> (r: String)
    requires
        max_len >= 1,
    ensures
        r@ == truncated_version(text@, max_len as nat),
{
    let v = extract_version(text);
    let n = v.as_str().unicode_len();
    if n <= max_len {
        v
    } else {
        let head = v.as_str().substring_char(0, max_len - 1);
        assert(head@ =~= v@.take(max_len - 1));
        cat(head, "…")
    }
}

/// The first line of `text`, without a `\r` at its end; `None` for empty text.
pub open spec fn first_line(text: Seq<char>) -> Option<Seq<char>> {
    if text.len() == 0 {
        None
    } else {
        let l = split_on(text, '\n')[0];
        if l.len() > 0 && l.last() == '\r' {
            Some(l.drop_last())
        } else {
            Some(l)
        }
    }
}

/// The first line of `text`.
pub fn first_line_of(text: &str) -> (r: Option<String>)
    ensures
        match r {
            Some(l) => first_line(text@) == Some(l@),
            None => first_line(text@) is None,
        },
{
    if text.unicode_len() == 0 {
        return None;
    }
    let parts = split_str(text, '\n');
    proof {
        crate::text::lemma_split_nonempty(text@, '\n');
        assert(views(parts@)[0] == parts@[0]@);
    }
    let l = parts[0].as_str();
    let n = l.unicode_len();
    if n > 0 && l.get_char(n - 1) == '\r' {
        let cut = l.substring_char(0, n - 1);
        assert(cut@ =~= l@.drop_last());
        Some(String::from_str(cut))
    } else {
        Some(String::from_str(l))
    }
}

/// `s` with the prefix `p` taken off, where `s` starts with it.
pub fn strip_prefix_of(s: &str, p: &str) -> (r: Option<String>)
    ensures
        match r {
            Some(t) => p@.len() <= s@.len() && s@.take(p@.len() as int) == p@ && t@ == s@.skip(p@.len() as int),
            None => !(p@.len() <= s@.len() && s@.take(p@.len() as int) == p@),
        },
{
    let n = s.unicode_len();
    let m = p.unicode_len();
    if m > n {
        return None;
    }
    let head = s.substring_char(0, m);
    if !str_eq(head, p) {
        assert(head@ =~= s@.take(m as int));
        return None;
    }
    assert(head@ =~= s@.take(m as int));
    let rest = s.substring_char(m, n);
    assert(rest@ =~= s@.skip(m as int));
    Some(String::from_str(rest))
}

/// The version `gh --version` prints: the first word after `gh version ` on
/// its first line, else the mark for a tool that runs.
pub open spec fn gh_version_of(output: Seq<char>) -> Seq<char> {
    match first_line(output) {
        Some(l) => if "gh version "@.len() <= l.len() && l.take("gh version "@.len() as int) == "gh version "@
            && ws_tokens(l.skip("gh version "@.len() as int)).len() > 0 {
            ws_tokens(l.skip("gh version "@.len() as int))[0]
        } else {
            INSTALLED_MARK@
        },
        None => INSTALLED_MARK@,
    }
}

/// The version in the output of `gh --version`.
pub fn parse_gh_version(output: &str) -> (r: String)
    ensures
        r@ == gh_version_of(output@),
{
    match first_line_of(output) {
        Some(l) => match strip_prefix_of(l.as_str(), "gh version ") {
            Some(rest) => {
                let words = split_ws(rest.as_str());
                if words.len() > 0 {
                    assert(views(words@)[0] == words@[0]@);
                    words[0].clone()
                } else {
                    String::from_str(INSTALLED_MARK)
                }
            },
            None => String::from_str(INSTALLED_MARK),
        },
        None => String::from_str(INSTALLED_MARK),
    }
}

/// The version `psql --version` prints, as in `psql (PostgreSQL) 17.8`: the
/// first word after the first `)`, else the mark for a tool that runs.
pub open spec fn pgsql_version_of(output: Seq<char>) -> Seq<char> {
    let parts = split_on(output, ')');
    if parts.len() > 1 && ws_tokens(parts[1]).len() > 0 {
        ws_tokens(parts[1])[0]
    } else {
        INSTALLED_MARK@
    }
}

/// The version in the output of `psql --version`.
pub fn parse_pgsql_version(output: &str) -> (r: String)
    ensures
        r@ == pgsql_version_of(output@),
{
    let parts = split_str(output, ')');
    if parts.len() > 1 {
        assert(views(parts@)[1] == parts@[1]@);
        let words = split_ws(parts[1].as_str());
        if words.len() > 0 {
            assert(views(words@)[0] == words@[0]@);
            return words[0].clone();
        }
    }
    String::from_str(INSTALLED_MARK)
}

/// The first position at or after `i` where `word` (not empty) starts in `text`.
pub open spec fn find_word(text: Seq<char>, word: Seq<char>, i: int) -> Option<int>
    decreases text.len() - i,
{
    if i < 0 || i + word.len() > text.len() || word.len() == 0 {
        None
    } else if text.subrange(i, i + word.len()) == word {
        Some(i)
    } else {
        find_word(text, word, i + 1)
    }
}

/// Where `word` (not empty) next starts in `text`, from position `from` on.
fn find_word_from(text: &str, word: &str, from: usize) -> (r: Option<usize>)
    requires
        word@.len() > 0,
        from <= text@.len(),
    ensures
        match r {
            Some(i) => find_word(text@, word@, from as int) == Some(i as int) && from <= i && i + word@.len() <= text@.len(),
            None => find_word(text@, word@, from as int) is None,
        },
{
    let n = text.unicode_len();
    let m = word.unicode_len();
    let mut i = from;
    while i <= n && m <= n - i
        invariant
            n == text@.len(),
            m == word@.len(),
            m > 0,
            from <= i <= n,
            find_word(text@, word@, from as int) == find_word(text@, word@, i as int),
        decreases n - i,
    {
        if str_eq(text.substring_char(i, i + m), word) {
            return Some(i);
        }
        i = i + 1;
    }
    None
}

/// The version `mysql --version` prints, as in `mysql  Ver 8.4.8 for Win64`:
/// the first word of the text between the first `Ver ` and the next one,
/// else the mark for a tool that runs.
pub open spec fn mysql_version_of(output: Seq<char>) -> Seq<char> {
    match find_word(output, "Ver "@, 0) {
        Some(a) => {
            let start = a + "Ver "@.len();
            let end = match find_word(output, "Ver "@, start) {
                Some(b) => b,
                None => output.len() as int,
            };
            let toks = ws_tokens(output.subrange(start, end));
            if toks.len() > 0 {
                toks[0]
            } else {
                INSTALLED_MARK@
            }
        },
        None => INSTALLED_MARK@,
    }
}

/// The version in the output of `mysql --version`.
pub fn parse_mysql_version(output: &str) -> (r: String)
    ensures
        r@ == mysql_version_of(output@),
{
    let marker = "Ver ";
    proof {
        reveal_strlit("Ver ");
    }
    assert(marker@.len() == 4);
    let n = output.unicode_len();
    match find_word_from(output, marker, 0) {
        Some(a) => {
            let start = a + 4;
            let end = match find_word_from(output, marker, start) {
                Some(b) => b,
                None => n,
            };
            let words = split_ws(output.substring_char(start, end));
            if words.len() > 0 {
                assert(views(words@)[0] == words@[0]@);
                words[0].clone()
            } else {
                String::from_str(INSTALLED_MARK)
            }
        },
        None => String::from_str(INSTALLED_MARK),
    }
}

} // verus!
