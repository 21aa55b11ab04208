use hudo::env::{append_to_path, path_contains, remove_from_path};

#[test]
fn append_to_empty_path() {
    assert_eq!(append_to_path("", "C:\\x\\bin"), "C:\\x\\bin");
}

#[test]
fn append_adds_one_separator() {
    assert_eq!(append_to_path("C:\\a", "C:\\b"), "C:\\a;C:\\b");
    assert_eq!(append_to_path("C:\\a;", "C:\\b"), "C:\\a;C:\\b");
}

#[test]
fn append_twice_keeps_one_entry() {
    let once = append_to_path("C:\\a;C:\\c", "X/bin");
    let twice = append_to_path(&once, "X/bin");
    assert_eq!(once, twice);
    assert_eq!(twice, "C:\\a;C:\\c;X/bin");
    assert_eq!(twice.split(';').filter(|s| s.eq_ignore_ascii_case("X/bin")).count(), 1);
}

#[test]
fn append_compares_without_case() {
    assert_eq!(append_to_path("c:\\tools\\BIN;D:\\y", "C:\\Tools\\bin"), "c:\\tools\\BIN;D:\\y");
}

#[test]
fn contains_ignores_empty_entries() {
    assert!(path_contains(";;C:\\a;;", "c:\\A"));
    assert!(!path_contains(";;C:\\a;;", ""));
    assert!(!path_contains("C:\\ab", "C:\\a"));
}

#[test]
fn remove_keeps_other_entries_in_order() {
    assert_eq!(remove_from_path("A;X/bin;B", "x/BIN"), "A;B");
    assert_eq!(remove_from_path("X/bin", "X/bin"), "");
    assert_eq!(remove_from_path("A;;X/bin;B;x/bin", "X/bin"), "A;;B");
    assert_eq!(remove_from_path("A;B", "C"), "A;B");
}
