use hudo::version::parse_git_tag;

#[test]
fn test_parse_git_tag_with_patch() {
    assert_eq!(parse_git_tag("v2.47.1.windows.2"), Some("2.47.1.2".to_string()));
}

#[test]
fn test_parse_git_tag_without_patch() {
    assert_eq!(parse_git_tag("v2.53.0.windows.1"), Some("2.53.0".to_string()));
}

#[test]
fn test_parse_git_tag_invalid() {
    assert_eq!(parse_git_tag("invalid"), None);
    assert_eq!(parse_git_tag("2.47.1"), None);
}

#[test]
fn parse_git_tag_needs_patch_after_windows() {
    assert_eq!(parse_git_tag("v2.47.1.windows"), None);
}

use hudo::version::{extract_version, parse_gh_version, parse_pgsql_version, truncate_version};

#[test]
fn extract_version_takes_first_numeric_word() {
    assert_eq!(extract_version("git version 2.47.1.windows.2"), "2.47.1.windows.2");
    assert_eq!(extract_version("  v1.2  "), "v1.2");
    assert_eq!(extract_version("\tno digits here\n"), "no digits here");
    assert_eq!(extract_version(""), "");
}

#[test]
fn truncate_version_marks_cut() {
    assert_eq!(truncate_version("go version go1.24.0 windows/amd64", 12), "go version …");
    assert_eq!(truncate_version("git version 2.47.1", 20), "2.47.1");
    assert_eq!(truncate_version("1.2.3.4.5.6", 5), "1.2.…");
}

#[test]
fn gh_version_from_first_line() {
    assert_eq!(parse_gh_version("gh version 2.87.3 (2025-01-01)\nhttps://x\n"), "2.87.3");
    assert_eq!(parse_gh_version("gh version 2.1.0\r\n"), "2.1.0");
    assert_eq!(parse_gh_version("something else"), "已安装");
    assert_eq!(parse_gh_version(""), "已安装");
}

#[test]
fn pgsql_version_after_parenthesis() {
    assert_eq!(parse_pgsql_version("psql (PostgreSQL) 17.8\n"), "17.8");
    assert_eq!(parse_pgsql_version("psql 17.8"), "已安装");
}

use hudo::version::parse_mysql_version;

#[test]
fn mysql_version_after_ver() {
    assert_eq!(parse_mysql_version("mysql  Ver 8.4.8 for Win64 on x86_64 (MySQL Community Server - GPL)"), "8.4.8");
    assert_eq!(parse_mysql_version("mysql 8.4.8"), "已安装");
    assert_eq!(parse_mysql_version("Ver  Ver 1"), "已安装");
}
