use alpack::number::parse_decimal;
use alpack::text::{
    byte_length, chars_of, contains, join, join_path, owned, pad_right, pad_right_wide, repeat,
    rest_after, same, starts_with,
};

#[test]
fn helpers_agree_with_std() {
    let samples = ["", "a", "ab", "a=b", "=a", "a=", "é=ü=", "日本語", "--x=1=2", " "];
    for s in samples {
        assert_eq!(chars_of(s), s.chars().collect::<Vec<char>>());
        assert_eq!(byte_length(s), s.len());
        assert_eq!(owned(s), s);
        assert_eq!(contains(s, '='), s.contains('='));
        assert_eq!(rest_after(s, '='), s.split_once('=').map(|p| p.1).unwrap_or(""));
        for t in samples {
            assert_eq!(same(s, t), s == t);
            assert_eq!(starts_with(s, t), s.starts_with(t), "{s:?} {t:?}");
        }
        for w in [0usize, 1, 2, 5, 9] {
            assert_eq!(pad_right(s, w), format!("{s:<w$}"));
            for extra in [0usize, 3, 22] {
                assert_eq!(pad_right_wide(s, w, extra), format!("{:<x$}", s, x = w + extra));
            }
        }
        for n in [0usize, 1, 3] {
            assert_eq!(repeat(s, n), s.repeat(n));
        }
    }
}

#[test]
fn join_agrees_with_std() {
    for parts in [vec![], vec![""], vec!["a"], vec!["a", "b"], vec!["", "", "x"], vec!["é", "ü", ""]] {
        let owned_parts: Vec<String> = parts.iter().map(|p| p.to_string()).collect();
        for sep in [" ", "", ", "] {
            assert_eq!(join(&owned_parts, sep), parts.join(sep));
        }
    }
}

#[test]
fn paths_are_joined_with_one_slash() {
    assert_eq!(join_path("/r", "etc/apk/repositories"), "/r/etc/apk/repositories");
    assert_eq!(join_path("/r/", "etc/apk/repositories"), "/r/etc/apk/repositories");
    assert_eq!(join_path("", "etc/apk/repositories"), "etc/apk/repositories");
    assert_eq!(join_path("/", "etc"), "/etc");
    for dir in ["/r", "/r/", "", "/", "rel/é"] {
        assert_eq!(
            join_path(dir, "etc/apk/repositories"),
            std::path::Path::new(dir).join("etc/apk/repositories").to_str().unwrap()
        );
    }
}

#[test]
fn decimal_numbers_are_read_as_std_reads_them() {
    let samples = [
        "", "0", "00", "7", "+7", "-7", "+", "++7", "7+", "42", "4294967295", "4294967296",
        "18446744073709551615", "18446744073709551616", "99999999999999999999999", " 1", "1 ",
        "1.0", "１２", "0x10", "1e3",
    ];
    for s in samples {
        assert_eq!(parse_decimal(s, u64::MAX), s.parse::<u64>().ok(), "{s:?}");
        assert_eq!(
            parse_decimal(s, u32::MAX as u64),
            s.parse::<u32>().ok().map(|v| v as u64),
            "{s:?}"
        );
    }
    assert_eq!(parse_decimal("10", 9), None);
    assert_eq!(parse_decimal("9", 9), Some(9));
    assert_eq!(parse_decimal("0", 0), Some(0));
    assert_eq!(parse_decimal("1", 0), None);
}
