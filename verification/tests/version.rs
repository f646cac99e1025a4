use alpack::version::{parse_version_key, text_lt, VersionKey};

fn key(s: &str) -> VersionKey {
    parse_version_key(s).expect("a version")
}

#[test]
fn parses_plain_version() {
    let k = key("3.19.2");
    assert_eq!(k.major, 3);
    assert_eq!(k.minor, 19);
    assert_eq!(k.patch, 2);
    assert_eq!(k.suffix, "");
}

#[test]
fn parses_suffixed_version() {
    let k = key("3.23.0_alpha20250612");
    assert_eq!((k.major, k.minor, k.patch), (3, 23, 0));
    assert_eq!(k.suffix, "alpha20250612");
    assert_eq!(key("3.10.0-rc1").suffix, "rc1");
    assert_eq!(key("3.10.0rc1").suffix, "rc1");
}

#[test]
fn rejects_what_is_no_version() {
    assert!(parse_version_key("3.19").is_none());
    assert!(parse_version_key("latest").is_none());
    assert!(parse_version_key("3.19.2_").is_none());
    assert!(parse_version_key("3.19.2 ").is_none());
    assert!(parse_version_key("").is_none());
}

#[test]
fn rejects_numbers_beyond_32_bits() {
    assert!(parse_version_key("4294967296.0.0").is_none());
    assert_eq!(key("4294967295.0.0").major, u32::MAX);
}

#[test]
fn numbers_order_before_text() {
    assert!(key("3.9.0").lt(&key("3.10.0")));
    assert!(!key("3.10.0").lt(&key("3.9.0")));
    assert!(key("3.10.0").lt(&key("3.10.0_rc1")));
    assert!(!key("3.10.0_rc1").lt(&key("3.10.0")));
    assert!(key("3.9.0").lt(&key("3.10.0_rc1")));
}

#[test]
fn equal_keys_are_not_before_each_other() {
    assert!(!key("3.10.0_rc1").lt(&key("3.10.0-rc1")));
    assert!(!key("3.10.0-rc1").lt(&key("3.10.0_rc1")));
}

#[test]
fn text_order_is_that_of_strings() {
    let samples = ["", "a", "ab", "b", "rc1", "rc10", "rc2", "Z", "z", "é", "日本", "\u{10000}"];
    for a in samples {
        for b in samples {
            assert_eq!(text_lt(a, b), a < b, "{a:?} {b:?}");
        }
    }
}

#[test]
fn from_groups_reads_groups() {
    let groups = vec![
        Some("1.2.3_x".to_string()),
        Some("1".to_string()),
        Some("2".to_string()),
        Some("3".to_string()),
        Some("x".to_string()),
    ];
    let k = VersionKey::from_groups(&groups).expect("a key");
    assert_eq!((k.major, k.minor, k.patch), (1, 2, 3));
    assert_eq!(k.suffix, "x");
    let short = vec![Some("1".to_string()), Some("1".to_string())];
    assert!(VersionKey::from_groups(&short).is_none());
    let no_suffix = vec![
        Some("1.2.3".to_string()),
        Some("1".to_string()),
        Some("2".to_string()),
        Some("3".to_string()),
        None,
    ];
    assert_eq!(VersionKey::from_groups(&no_suffix).expect("a key").suffix, "");
}
