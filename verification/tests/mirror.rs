use alpack::mirror::Mirror;
use alpack::settings::Settings;

fn settings() -> Settings {
    Settings::default("/home/u")
}

#[test]
fn edge_has_three_repositories() {
    let mut m = Mirror::new(Some("https://m/alpine/".to_string()), Some("edge".to_string()));
    let text = m.get_repository();
    assert_eq!(
        text,
        "https://m/alpine/edge/main\nhttps://m/alpine/edge/community\nhttps://m/alpine/edge/testing"
    );
    assert_eq!(text.lines().count(), 3);
}

#[test]
fn stable_has_two_repositories() {
    let mut m =
        Mirror::new(Some("https://m/alpine/".to_string()), Some("latest-stable".to_string()));
    let text = m.get_repository();
    assert_eq!(
        text,
        "https://m/alpine/latest-stable/main\nhttps://m/alpine/latest-stable/community"
    );
    assert_eq!(text.lines().count(), 2);
    assert_eq!(m.mirror.as_deref(), Some("https://m/alpine/"));
    assert_eq!(m.release.as_deref(), Some("latest-stable"));
}

#[test]
fn run_fills_what_is_open() {
    let mut m = Mirror::new(None, None);
    m.run(&settings());
    assert_eq!(m.mirror.as_deref(), Some("https://dl-cdn.alpinelinux.org/alpine/"));
    assert_eq!(m.release.as_deref(), Some("latest-stable"));
    let mut m = Mirror::new(Some(String::new()), Some(String::new()));
    m.run(&settings());
    assert_eq!(m.mirror.as_deref(), Some("https://dl-cdn.alpinelinux.org/alpine/"));
    assert_eq!(m.release.as_deref(), Some("latest-stable"));
}

#[test]
fn run_keeps_what_was_chosen() {
    let mut m = Mirror::new(Some("http://x/".to_string()), Some("edge".to_string()));
    m.run(&settings());
    assert_eq!(m.mirror.as_deref(), Some("http://x/"));
    assert_eq!(m.release.as_deref(), Some("edge"));
    let mut m = Mirror::new(None, Some("edge".to_string()));
    m.run(&settings());
    assert_eq!(m.mirror.as_deref(), Some("https://dl-cdn.alpinelinux.org/alpine/"));
    assert_eq!(m.release.as_deref(), Some("edge"));
}

#[test]
fn index_address_is_composed() {
    let m = Mirror::new(Some("https://m/alpine/".to_string()), Some("v3.19".to_string()));
    assert_eq!(m.get_mirror("x86_64"), "https://m/alpine/v3.19/releases/x86_64/");
    assert_eq!(m.get_mirror(""), "https://m/alpine/v3.19/releases//");
}
