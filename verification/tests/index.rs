use alpack::index::{
    attributes, candidate, collect_candidates, pick_latest, select_latest, CandidateEntry,
    IndexError, PAGE_LIMIT,
};
use alpack::version::parse_version_key;

fn page(hrefs: &[&str]) -> String {
    let mut html = String::from("<html><head><title>Index</title></head><body><pre>\n");
    for h in hrefs {
        html.push_str(&format!("<a href=\"{h}\">{h}</a>\n"));
    }
    html.push_str("</pre></body></html>");
    html
}

fn entry(version: &str, href: &str) -> CandidateEntry {
    CandidateEntry {
        key: parse_version_key(version).expect("a version"),
        version: version.to_string(),
        href: href.to_string(),
    }
}

#[test]
fn latest_of_two_releases_ignores_unrelated_file() {
    let html = page(&[
        "alpine-minirootfs-3.18.0-x86_64.tar.gz",
        "alpine-minirootfs-3.19.2-x86_64.tar.gz",
        "other-file.tar.gz",
    ]);
    let found = select_latest(&html, "x86_64").expect("a searchable index").expect("a candidate");
    assert_eq!(found.version, "3.19.2");
    assert_eq!(found.href, "alpine-minirootfs-3.19.2-x86_64.tar.gz");
    assert_eq!((found.key.major, found.key.minor, found.key.patch), (3, 19, 2));
    assert_eq!(found.key.suffix, "");
}

#[test]
fn no_candidate_for_other_architecture() {
    let html = page(&[
        "alpine-minirootfs-3.18.0-x86_64.tar.gz",
        "alpine-minirootfs-3.19.2-x86_64.tar.gz",
        "other-file.tar.gz",
    ]);
    assert!(select_latest(&html, "aarch64").expect("a searchable index").is_none());
}

#[test]
fn empty_page_has_no_candidate() {
    assert!(select_latest("", "x86_64").expect("a searchable index").is_none());
    assert!(select_latest("<p>nothing here</p>", "x86_64").expect("a searchable index").is_none());
}

#[test]
fn order_in_the_page_does_not_matter_for_different_keys() {
    let html = page(&[
        "alpine-minirootfs-3.19.2-x86_64.tar.gz",
        "alpine-minirootfs-3.9.0-x86_64.tar.gz",
        "alpine-minirootfs-3.10.0-x86_64.tar.gz",
    ]);
    let found = select_latest(&html, "x86_64").unwrap().unwrap();
    assert_eq!(found.version, "3.19.2");
}

#[test]
fn suffixed_release_is_later_than_plain_one() {
    let html = page(&[
        "alpine-minirootfs-3.10.0_rc1-x86_64.tar.gz",
        "alpine-minirootfs-3.10.0-x86_64.tar.gz",
    ]);
    let found = select_latest(&html, "x86_64").unwrap().unwrap();
    assert_eq!(found.version, "3.10.0_rc1");
    assert_eq!(found.key.suffix, "rc1");
}

#[test]
fn last_of_equal_keys_wins() {
    let html = page(&[
        "alpine-minirootfs-3.10.0_rc1-x86_64.tar.gz",
        "alpine-minirootfs-3.10.0-rc1-x86_64.tar.gz",
        "alpine-minirootfs-3.9.0-x86_64.tar.gz",
    ]);
    let found = select_latest(&html, "x86_64").unwrap().unwrap();
    assert_eq!(found.version, "3.10.0-rc1");
    assert_eq!(found.href, "alpine-minirootfs-3.10.0-rc1-x86_64.tar.gz");
}

#[test]
fn links_without_target_and_other_elements_are_skipped() {
    let html = "<a name=\"top\">top</a>\
        <link href=\"alpine-minirootfs-9.9.9-x86_64.tar.gz\">\
        <a href=\"alpine-minirootfs-3.1.0-x86_64.tar.gz\">x</a>\
        <a>alpine-minirootfs-8.8.8-x86_64.tar.gz</a>";
    let found = select_latest(html, "x86_64").unwrap().unwrap();
    assert_eq!(found.version, "3.1.0");
}

#[test]
fn versions_that_cannot_be_read_are_no_candidates() {
    let html = page(&[
        "alpine-minirootfs-latest-x86_64.tar.gz",
        "alpine-minirootfs-3.19-x86_64.tar.gz",
        "alpine-minirootfs-99999999999.0.0-x86_64.tar.gz",
        "alpine-minirootfs-\u{663}.\u{661}.\u{660}-x86_64.tar.gz",
        "alpine-minirootfs-3.0.1-x86_64.tar.gz",
        "alpine-minirootfs-3.0.2-x86_64.tar.gz.sha256",
        "prefix-alpine-minirootfs-3.0.3-x86_64.tar.gz",
    ]);
    let found = select_latest(&html, "x86_64").unwrap().unwrap();
    assert_eq!(found.version, "3.0.1");
}

#[test]
fn architecture_that_spoils_the_pattern_is_an_error() {
    let html = page(&["alpine-minirootfs-3.18.0-x86_64.tar.gz"]);
    assert_eq!(select_latest(&html, "x86(").unwrap_err(), IndexError::BadArchitecture);
    assert_eq!(select_latest("", "x86(").unwrap_err(), IndexError::BadArchitecture);
}

#[test]
fn candidate_reads_version_and_keeps_href() {
    let pattern = "^alpine-minirootfs-([\\w.\\-]+)-armv7\\.tar\\.gz$";
    let c = candidate(pattern, "alpine-minirootfs-3.21.0_alpha1-armv7.tar.gz").expect("a candidate");
    assert_eq!(c.version, "3.21.0_alpha1");
    assert_eq!(c.href, "alpine-minirootfs-3.21.0_alpha1-armv7.tar.gz");
    assert_eq!(c.key.suffix, "alpha1");
    assert!(candidate(pattern, "alpine-minirootfs-3.21.0-x86_64.tar.gz").is_none());
    assert!(candidate("(", "alpine-minirootfs-3.21.0-armv7.tar.gz").is_none());
}

#[test]
fn collect_keeps_the_order_of_the_list() {
    let pattern = "^alpine-minirootfs-([\\w.\\-]+)-x86\\.tar\\.gz$";
    let hrefs = vec![
        Some("alpine-minirootfs-3.2.0-x86.tar.gz".to_string()),
        None,
        Some("README".to_string()),
        Some("alpine-minirootfs-3.1.0-x86.tar.gz".to_string()),
    ];
    let found = collect_candidates(pattern, &hrefs);
    let versions: Vec<&str> = found.iter().map(|c| c.version.as_str()).collect();
    assert_eq!(versions, vec!["3.2.0", "3.1.0"]);
}

#[test]
fn pick_latest_of_nothing_is_nothing() {
    assert!(pick_latest(Vec::new()).is_none());
}

#[test]
fn pick_latest_takes_greatest_key_and_last_of_equals() {
    let picked = pick_latest(vec![
        entry("3.10.0", "a"),
        entry("3.19.2", "b"),
        entry("3.9.0", "c"),
        entry("3.19.2", "d"),
        entry("3.19.1_rc9", "e"),
    ])
    .expect("a candidate");
    assert_eq!(picked.href, "d");
    let single = pick_latest(vec![entry("1.0.0", "only")]).expect("a candidate");
    assert_eq!(single.href, "only");
}

#[test]
fn attributes_are_read_one_per_match() {
    let html = "<p class=\"x\">one</p><div><p>two</p><p class=\"\">three</p></div><a class=\"y\">no</a>";
    assert_eq!(
        attributes(html, "p", "class").expect("a selector"),
        vec![Some("x".to_string()), None, Some(String::new())]
    );
    assert_eq!(attributes(html, "a, p.x", "class").expect("a selector").len(), 2);
    assert!(attributes("", "a", "href").expect("a selector").is_empty());
}

#[test]
fn selector_that_cannot_be_read_is_an_error() {
    assert_eq!(attributes("<a href=\"x\">x</a>", "a[", "href").unwrap_err(), IndexError::BadSelector);
    assert_eq!(attributes("", "", "href").unwrap_err(), IndexError::BadSelector);
}

#[test]
fn page_beyond_the_limit_is_an_error() {
    assert_eq!(PAGE_LIMIT, 512 * 1024 * 1024);
    let mut page = String::from("<a href=\"alpine-minirootfs-3.18.0-x86_64.tar.gz\">x</a>");
    let room = PAGE_LIMIT + 1 - page.len();
    page.push_str(&" ".repeat(room));
    assert_eq!(page.len(), PAGE_LIMIT + 1);
    assert_eq!(attributes(&page, "a", "href").unwrap_err(), IndexError::TooLong);
    assert_eq!(attributes(&page, "a[", "href").unwrap_err(), IndexError::TooLong);
    assert_eq!(select_latest(&page, "x86_64").unwrap_err(), IndexError::TooLong);
    assert_eq!(select_latest(&page, "x86(").unwrap_err(), IndexError::TooLong);
}

#[test]
fn page_far_below_the_limit_is_searched() {
    let mut page = " ".repeat(1024 * 1024);
    page.push_str("<a href=\"alpine-minirootfs-3.18.0-x86_64.tar.gz\">x</a>");
    page.push_str(&"\0".repeat(4096));
    let found = select_latest(&page, "x86_64").unwrap().unwrap();
    assert_eq!(found.version, "3.18.0");
}
