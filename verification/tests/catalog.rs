use std::path::PathBuf;

use ublx::catalog::{
    UBLX_NAMES, UblxSettings, canonicalize_error, created_ns_from_clock, created_ns_from_nanos, dir_check_error,
    get_created_ns, hash_suffix_from_db_stem, home_relative_rest, is_hex_hash16,
    normalize_snapshot_rel_path_str, snapshot_rel_path_buf,
};

#[test]
fn index_db_file_ext_is_dot_ublx() {
    assert_eq!(UBLX_NAMES.index_db_file_ext(), ".ublx");
    assert_eq!(UBLX_NAMES.pkg_name(), "ublx");
}

#[test]
fn hex_hash16_accepts_16_hex_digits() {
    assert!(is_hex_hash16("729a9c26db109730"));
    assert!(!is_hex_hash16("729a9c26db10973"));
    assert!(!is_hex_hash16("729a9c26db1097300"));
    assert!(!is_hex_hash16("g29a9c26db109730"));
}

#[test]
fn hash_suffix_from_db_stem_parses_stem() {
    assert_eq!(
        hash_suffix_from_db_stem("mydir_729a9c26db109730"),
        Some("729a9c26db109730")
    );
    assert_eq!(hash_suffix_from_db_stem("729a9c26db109730"), None);
    assert_eq!(hash_suffix_from_db_stem("no_hash_here"), None);
}

#[test]
fn hex_hash16_accepts_upper_case_digits() {
    assert!(is_hex_hash16("729A9C26DB109730"));
    assert!(!is_hex_hash16(""));
    assert!(!is_hex_hash16("729a9c26db10973é"));
}

#[test]
fn hash_suffix_uses_last_underscore() {
    assert_eq!(
        hash_suffix_from_db_stem("a_b_0123456789abcdef"),
        Some("0123456789abcdef")
    );
    assert_eq!(hash_suffix_from_db_stem("_0123456789abcdef"), Some("0123456789abcdef"));
    assert_eq!(hash_suffix_from_db_stem("a_0123456789abcdef_x"), None);
}

#[test]
fn normalize_strips_dot_prefixes_and_backslashes() {
    assert_eq!(normalize_snapshot_rel_path_str("  ./a/b.txt \n"), "a/b.txt");
    assert_eq!(normalize_snapshot_rel_path_str(".\\dir\\f.rs"), "dir/f.rs");
    assert_eq!(normalize_snapshot_rel_path_str("./.\\x"), "x");
    assert_eq!(normalize_snapshot_rel_path_str(".\\./x"), "./x");
    assert_eq!(normalize_snapshot_rel_path_str("plain"), "plain");
    assert_eq!(normalize_snapshot_rel_path_str(""), "");
    assert_eq!(normalize_snapshot_rel_path_str("../up"), "../up");
}

#[test]
fn snapshot_rel_path_buf_is_normalized_path() {
    assert_eq!(snapshot_rel_path_buf(" ./a\\b "), PathBuf::from("a/b"));
    assert_ne!(snapshot_rel_path_buf(" ./a\\b "), PathBuf::from(" ./a\\b "));
}

#[test]
fn created_ns_saturates() {
    assert_eq!(created_ns_from_nanos(0), 0);
    assert_eq!(created_ns_from_nanos(42), 42);
    assert_eq!(created_ns_from_nanos(i64::MAX as u128), i64::MAX);
    assert_eq!(created_ns_from_nanos(i64::MAX as u128 + 1), i64::MAX);
    assert_eq!(created_ns_from_nanos(u128::MAX), i64::MAX);
}

#[test]
fn created_ns_is_recent() {
    let a = get_created_ns();
    let b = get_created_ns();
    assert!(a > 1_600_000_000_000_000_000);
    assert!(b >= a);
}

#[test]
fn home_rest_only_for_tilde_slash() {
    assert_eq!(home_relative_rest("~/src/proj"), Some("src/proj".to_string()));
    assert_eq!(home_relative_rest("~/"), Some(String::new()));
    assert_eq!(home_relative_rest("~user/x"), None);
    assert_eq!(home_relative_rest("/abs"), None);
}

#[test]
fn dir_errors_follow_checks() {
    assert_eq!(
        dir_check_error("/nope", false, false),
        Some("no such file or directory: /nope".to_string())
    );
    assert_eq!(
        dir_check_error("/f.txt", true, false),
        Some("not a directory: /f.txt".to_string())
    );
    assert_eq!(dir_check_error("/d", true, true), None);
    assert_eq!(
        canonicalize_error("/d", "denied"),
        "cannot canonicalize '/d': denied"
    );
}

#[test]
fn settings_are_plain_data() {
    let s = UblxSettings {
        num_threads: 4,
        drive_type: "ssd".to_string(),
        parallel_walk: true,
        config_source: Some("local".to_string()),
    };
    let t = s.clone();
    assert_eq!(t.num_threads, 4);
    assert_eq!(t.drive_type, "ssd");
    assert!(t.parallel_walk);
    assert_eq!(t.config_source.as_deref(), Some("local"));
}

#[test]
fn clock_before_1970_stamps_zero() {
    assert_eq!(created_ns_from_clock(None), 0);
    assert_eq!(created_ns_from_clock(Some(42)), 42);
    assert_eq!(created_ns_from_clock(Some(u128::MAX)), i64::MAX);
}
