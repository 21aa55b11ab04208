use hudo::download::{
    cache_hit, download_step, find_single_subdir, install_root, tmp_filename, DownloadAction, DownloadEvent,
    DownloadPhase,
};
use hudo::integrity::{check_digest, to_hex, verify_sha256};

#[test]
fn interrupted_download_never_creates_final_name() {
    let (p, a) = download_step(DownloadPhase::Idle, DownloadEvent::Begin { cached: false });
    assert_eq!((p, a), (DownloadPhase::Streaming, DownloadAction::OpenTmp));
    let (p, a) = download_step(p, DownloadEvent::Chunk);
    assert_eq!((p, a), (DownloadPhase::Streaming, DownloadAction::WriteChunk));
    let (p, a) = download_step(p, DownloadEvent::Error);
    assert_eq!((p, a), (DownloadPhase::Failed, DownloadAction::DeleteTmp));
    let orphan = vec![tmp_filename("go1.24.0.windows-amd64.zip")];
    assert_eq!(orphan[0], "go1.24.0.windows-amd64.zip.tmp");
    assert!(!cache_hit(&orphan, "go1.24.0.windows-amd64.zip"));
}

#[test]
fn complete_download_is_renamed_and_then_cached() {
    let (p, _) = download_step(DownloadPhase::Idle, DownloadEvent::Begin { cached: false });
    let (p, a) = download_step(p, DownloadEvent::End);
    assert_eq!((p, a), (DownloadPhase::Finished, DownloadAction::RenameToFinal));
    let (p, a) = download_step(DownloadPhase::Idle, DownloadEvent::Begin { cached: true });
    assert_eq!((p, a), (DownloadPhase::Finished, DownloadAction::UseCache));
    assert!(cache_hit(&vec!["a.zip".to_string()], "a.zip"));
}

#[test]
fn single_top_level_directory_is_unwrapped() {
    let entries = vec![("foo".to_string(), true)];
    assert_eq!(find_single_subdir(&entries), Some("foo".to_string()));
    assert_eq!(install_root("D:\\tmp\\x", &entries), "D:\\tmp\\x\\foo");
}

#[test]
fn several_entries_keep_extraction_root() {
    let entries = vec![("foo".to_string(), true), ("bar".to_string(), true)];
    assert_eq!(find_single_subdir(&entries), None);
    assert_eq!(install_root("D:\\tmp\\x", &entries), "D:\\tmp\\x");
    let files = vec![("readme.txt".to_string(), false), ("lib".to_string(), true)];
    assert_eq!(install_root("D:\\tmp\\x\\", &files), "D:\\tmp\\x\\lib");
    assert_eq!(find_single_subdir(&vec![]), None);
}

#[test]
fn digests_in_lower_hex() {
    assert_eq!(to_hex(&[0x00, 0xab, 0x0f]), "00ab0f");
    assert!(verify_sha256(b"abc", "ba7816bf8f01cfea414140de5dae2223b00361a396177a9cb410ff61f20015ad").is_ok());
}

#[test]
fn digest_mismatch_reports_both() {
    let e = verify_sha256(b"", "00").unwrap_err();
    assert_eq!(e.expected, "00");
    assert_eq!(e.actual, "e3b0c44298fc1c149afbf4c8996fb92427ae41e4649b934ca495991b7852b855");
    let e = check_digest("aa", "bb").unwrap_err();
    assert_eq!((e.expected.as_str(), e.actual.as_str()), ("aa", "bb"));
    assert!(check_digest("aa", "aa").is_ok());
}
