use alpack::dirs::Access;
use alpack::extract::ExtractStage;
use alpack::fetch::{FetchAction, FetchEvent};
use alpack::provision::{Provision, SetupAction, SetupError, SetupEvent, SetupStage};
use alpack::index::IndexError;
use alpack::settings::Settings;
use alpack::setup::{CheckAction, CheckStage, Setup, TargetCheck};

fn args(list: &[&str]) -> Vec<String> {
    list.iter().map(|s| s.to_string()).collect()
}

fn setup(list: &[&str]) -> Setup {
    Setup::new("ALPack".to_string(), args(list))
}

fn start(list: &[&str]) -> Provision {
    setup(list).run(&Settings::default("/home/u"), None, None, "x86_64").expect("a run")
}

fn page(hrefs: &[&str]) -> String {
    hrefs.iter().map(|h| format!("<a href=\"{h}\">{h}</a>\n")).collect()
}

#[test]
fn options_start_from_the_given_directories() {
    let o = setup(&[]).options("/c".to_string(), "/r".to_string()).unwrap();
    assert_eq!(o.use_mirror, None);
    assert_eq!((o.cache_dir.as_str(), o.rootfs_dir.as_str()), ("/c", "/r"));
    assert!(!o.no_cache && !o.reinstall && !o.edge && !o.minimal);
}

#[test]
fn options_are_read_from_left_to_right() {
    let o = setup(&[
        "--no-cache",
        "-r",
        "--edge",
        "--minimal",
        "--mirror=http://m/",
        "--cache",
        "/c2",
        "-R",
        "/r2",
        "--rootfs=/r3",
    ])
    .options("/c".to_string(), "/r".to_string())
    .unwrap();
    assert!(o.no_cache && o.reinstall && o.edge && o.minimal);
    assert_eq!(o.use_mirror.as_deref(), Some("http://m/"));
    assert_eq!(o.cache_dir, "/c2");
    assert_eq!(o.rootfs_dir, "/r3");
    let o = setup(&["--reinstall", "--mirror", "http://n/", "--cache=/c3", "--rootfs", "/r4"])
        .options("/c".to_string(), "/r".to_string())
        .unwrap();
    assert!(o.reinstall && !o.no_cache);
    assert_eq!(o.use_mirror.as_deref(), Some("http://n/"));
    assert_eq!(o.cache_dir, "/c3");
    assert_eq!(o.rootfs_dir, "/r4");
}

#[test]
fn option_errors_name_the_option() {
    let e = setup(&["--edge", "--mirror"]).options(String::new(), String::new()).unwrap_err();
    assert_eq!(
        e.message("ALPack"),
        "ALPack: setup: --mirror requires a <url> as argument.\nUsage: ALPack setup --mirror <url>"
    );
    let e = setup(&["-R"]).options(String::new(), String::new()).unwrap_err();
    assert_eq!(
        e.message("ALPack"),
        "ALPack: setup: -R requires a <directory> as argument.\nUsage: ALPack setup -R <directory>"
    );
    let e = setup(&["--cache="]).options(String::new(), String::new()).unwrap_err();
    assert_eq!(
        e.message("ALPack"),
        "ALPack: setup: --cache= requires a <directory> as argument.\nUsage: ALPack setup --cache=<directory>"
    );
    let e = setup(&["--frob", "--mirror"]).options(String::new(), String::new()).unwrap_err();
    assert_eq!(
        e.message("ALPack"),
        "ALPack: setup: invalid argument '--frob'\nUse 'ALPack --help' to see available options."
    );
}

#[test]
fn run_prepares_the_pipeline() {
    let mut s = setup(&[]);
    let p = s.run(&Settings::default("/home/u"), None, None, "x86_64").unwrap();
    assert_eq!(s.def_rootfs.as_deref(), Some("/home/u/.ALPack"));
    assert_eq!(p.name, "ALPack");
    assert_eq!(p.arch, "x86_64");
    assert_eq!(p.cache_dir, "/home/u/.cache/ALPack");
    assert_eq!(p.rootfs_dir, "/home/u/.ALPack");
    assert_eq!(p.def_rootfs, "/home/u/.ALPack");
    assert_eq!(
        p.index_url,
        "https://dl-cdn.alpinelinux.org/alpine/latest-stable/releases/x86_64/"
    );
    assert_eq!(p.stage, SetupStage::Validate);
    assert_eq!(p.first(), SetupAction::ValidateTarget);
    assert!(p.entry.is_none());
}

#[test]
fn run_takes_overrides_and_options() {
    let mut s = setup(&["--edge", "--no-cache", "--mirror=http://m/", "-r", "--rootfs=/opt/a", "--minimal"]);
    let p = s
        .run(
            &Settings::default("/home/u"),
            Some("/env/rootfs".to_string()),
            Some("/env/cache".to_string()),
            "aarch64",
        )
        .unwrap();
    assert_eq!(s.def_rootfs.as_deref(), Some("/env/rootfs"));
    assert_eq!(p.def_rootfs, "/env/rootfs");
    assert_eq!(p.cache_dir, "/tmp/ALPack_cache");
    assert_eq!(p.rootfs_dir, "/opt/a");
    assert_eq!(p.index_url, "http://m/edge/releases/aarch64/");
    assert!(p.no_cache && p.minimal && p.reinstall);
    assert_eq!(p.stage, SetupStage::Index);
    assert_eq!(p.first(), SetupAction::FetchIndex);
    let p = setup(&[])
        .run(&Settings::default("/home/u"), None, Some("/env/cache".to_string()), "x86")
        .unwrap();
    assert_eq!(p.cache_dir, "/env/cache");
    assert_eq!(p.rootfs_dir, "/home/u/.ALPack");
}

#[test]
fn run_reports_option_errors() {
    let e = setup(&["--what"]).run(&Settings::default("/home/u"), None, None, "x86_64").unwrap_err();
    assert_eq!(
        e.message("ALPack"),
        "ALPack: setup: invalid argument '--what'\nUse 'ALPack --help' to see available options."
    );
}

#[test]
fn full_run_without_cache() {
    let mut p = start(&["--no-cache"]);
    assert_eq!(p.step(SetupEvent::Validated(true)), SetupAction::FetchIndex);
    let html = page(&[
        "alpine-minirootfs-3.18.0-x86_64.tar.gz",
        "alpine-minirootfs-3.19.2-x86_64.tar.gz",
        "other-file.tar.gz",
    ]);
    assert_eq!(p.step(SetupEvent::Index(html)), SetupAction::Download);
    assert_eq!(p.entry.as_ref().map(|e| e.version.as_str()), Some("3.19.2"));
    assert_eq!(
        p.archive_url(),
        "https://dl-cdn.alpinelinux.org/alpine/latest-stable/releases/x86_64/alpine-minirootfs-3.19.2-x86_64.tar.gz"
    );
    assert_eq!(p.archive_name(), "alpine-minirootfs-3.19.2-x86_64.tar.gz");
    assert_eq!(p.cache_dir, "/tmp/ALPack_cache");
    assert_eq!(p.step(SetupEvent::Downloaded("/tmp/ALPack_cache".to_string())), SetupAction::Extract);
    assert_eq!(p.archive_path(), "/tmp/ALPack_cache/alpine-minirootfs-3.19.2-x86_64.tar.gz");
    assert_eq!(p.step(SetupEvent::Extracted("/home/u/.ALPack".to_string())), SetupAction::RemoveCache);
    assert_eq!(p.step(SetupEvent::Completed), SetupAction::WriteRepositories);
    assert_eq!(p.repositories_path(), "/home/u/.ALPack/etc/apk/repositories");
    assert_eq!(
        p.repositories(),
        "https://dl-cdn.alpinelinux.org/alpine/latest-stable/main\nhttps://dl-cdn.alpinelinux.org/alpine/latest-stable/community"
    );
    assert_eq!(p.step(SetupEvent::Completed), SetupAction::UpdateIndex);
    assert_eq!(p.step(SetupEvent::Completed), SetupAction::InstallToolchain);
    assert_eq!(p.step(SetupEvent::Completed), SetupAction::Finish);
    assert_eq!(p.stage, SetupStage::Done);
    assert_eq!(p.step(SetupEvent::Completed), SetupAction::Finish);
}

#[test]
fn minimal_run_with_cache_skips_cleanup_and_toolchain() {
    let mut p = start(&["--minimal", "--edge", "-r"]);
    assert_eq!(p.first(), SetupAction::FetchIndex);
    let html = page(&["alpine-minirootfs-20240101-x86_64.tar.gz", "alpine-minirootfs-3.20.0_rc2-x86_64.tar.gz"]);
    assert_eq!(p.step(SetupEvent::Index(html)), SetupAction::Download);
    assert_eq!(p.step(SetupEvent::Downloaded("/c".to_string())), SetupAction::Extract);
    assert_eq!(p.step(SetupEvent::Extracted("/r/".to_string())), SetupAction::WriteRepositories);
    assert_eq!(p.repositories_path(), "/r/etc/apk/repositories");
    assert_eq!(p.repositories().lines().count(), 3);
    assert_eq!(p.step(SetupEvent::Completed), SetupAction::UpdateIndex);
    assert_eq!(p.step(SetupEvent::Completed), SetupAction::Finish);
    assert_eq!(p.stage, SetupStage::Done);
}

#[test]
fn index_without_image_is_fatal_and_nothing_is_downloaded() {
    let mut p = setup(&[]).run(&Settings::default("/home/u"), None, None, "aarch64").unwrap();
    p.step(SetupEvent::Validated(true));
    let html = page(&["alpine-minirootfs-3.18.0-x86_64.tar.gz", "other-file.tar.gz"]);
    assert_eq!(p.step(SetupEvent::Index(html)), SetupAction::Abort(SetupError::NoImage));
    assert_eq!(p.stage, SetupStage::Failed);
    assert!(p.entry.is_none());
    for event in [
        SetupEvent::Completed,
        SetupEvent::Downloaded("/c".to_string()),
        SetupEvent::Index(page(&["alpine-minirootfs-3.18.0-aarch64.tar.gz"])),
        SetupEvent::Validated(true),
    ] {
        assert_eq!(p.step(event), SetupAction::Abort(SetupError::OutOfTurn));
        assert_eq!(p.stage, SetupStage::Failed);
    }
}

#[test]
fn provisioned_target_is_fatal() {
    let mut p = start(&[]);
    assert_eq!(
        p.step(SetupEvent::Validated(false)),
        SetupAction::Abort(SetupError::AlreadyProvisioned)
    );
    assert_eq!(p.stage, SetupStage::Failed);
}

#[test]
fn architecture_that_spoils_the_pattern_is_fatal() {
    let mut p = setup(&["-r"]).run(&Settings::default("/home/u"), None, None, "x86(").unwrap();
    assert_eq!(
        p.step(SetupEvent::Index(String::new())),
        SetupAction::Abort(SetupError::Index(IndexError::BadArchitecture))
    );
}

#[test]
fn failure_at_any_stage_is_fatal() {
    let stages = [
        SetupStage::Validate,
        SetupStage::Index,
        SetupStage::Download,
        SetupStage::Extract,
        SetupStage::Cleanup,
        SetupStage::Manifest,
        SetupStage::Update,
        SetupStage::Toolchain,
    ];
    for stage in stages {
        let mut p = start(&[]);
        p.stage = stage;
        assert_eq!(p.step(SetupEvent::Failed), SetupAction::Abort(SetupError::Step(stage)));
        assert_eq!(p.stage, SetupStage::Failed);
    }
}

#[test]
fn reports_out_of_turn_end_the_run() {
    let mut p = start(&[]);
    assert_eq!(p.step(SetupEvent::Completed), SetupAction::Abort(SetupError::OutOfTurn));
    assert_eq!(p.stage, SetupStage::Failed);
    let mut p = start(&["-r"]);
    assert_eq!(p.step(SetupEvent::Validated(true)), SetupAction::Abort(SetupError::OutOfTurn));
}

fn check(parent: Option<&str>) -> TargetCheck {
    let mut s = setup(&[]);
    s.run(&Settings::default("/home/u"), None, None, "x86_64").unwrap();
    s.test_valid_directory("/opt/rootfs", parent.map(|p| p.to_string()))
}

#[test]
fn existing_target_is_rejected() {
    let mut c = check(Some("/opt"));
    assert_eq!(c.stage, CheckStage::Target);
    assert_eq!(c.fallback, "/home/u/.ALPack");
    assert_eq!(c.step(true), CheckAction::Reject);
    assert_eq!(c.stage, CheckStage::Rejected);
    assert_eq!(c.step(false), CheckAction::Reject);
    assert_eq!(
        c.already_available(),
        "Rootfs directory /opt/rootfs is already available.\nUse [-r|--reinstall] to reinstall it."
    );
}

#[test]
fn writable_parent_accepts_the_target() {
    let mut c = check(Some("/opt"));
    assert_eq!(c.step(false), CheckAction::ProbeParent);
    assert_eq!(c.step(true), CheckAction::TryWrite);
    assert_eq!(c.step(true), CheckAction::RemoveProbe);
    assert_eq!(c.step(true), CheckAction::Accept);
    assert_eq!(c.stage, CheckStage::Accepted);
}

#[test]
fn probe_that_cannot_be_removed_fails_the_check() {
    let mut c = check(Some("/opt"));
    c.step(false);
    c.step(true);
    c.step(true);
    assert_eq!(c.step(false), CheckAction::Abort);
    assert_eq!(c.stage, CheckStage::Failed);
}

#[test]
fn unwritable_parent_leads_to_the_fallback() {
    let mut c = check(Some("/opt"));
    c.step(false);
    c.step(true);
    assert_eq!(c.step(false), CheckAction::WarnAndProbeFallback);
    assert_eq!(
        c.write_denied_warning(),
        "\x1b[1;33mWarning\x1b[0m: Write access denied for '/opt/rootfs'. Falling back to the default location..."
    );
    assert_eq!(c.step(true), CheckAction::Reject);
    let mut c = check(Some("/opt"));
    c.step(false);
    assert_eq!(c.step(false), CheckAction::ProbeFallback);
    assert_eq!(c.step(false), CheckAction::Accept);
    let mut c = check(None);
    assert_eq!(c.step(false), CheckAction::ProbeFallback);
    assert_eq!(c.step(true), CheckAction::Reject);
}

#[test]
fn setup_starts_its_machines_with_the_rootfs_as_fallback() {
    let mut s = setup(&[]);
    s.run(&Settings::default("/home/u"), Some("/env/rootfs".to_string()), None, "x86_64").unwrap();
    let d = s.create_dir_with_fallback("/opt/x".to_string());
    assert_eq!((d.target.as_str(), d.fallback.as_str(), d.on_fallback), ("/opt/x", "/env/rootfs", false));
    let mut f = s.download_file("http://u/f".to_string(), "/c".to_string(), "f".to_string());
    assert_eq!(f.step(FetchEvent::Directory(Access::Denied)), FetchAction::RetryDir);
    assert_eq!(f.save_file(), "/env/rootfs/f");
    let x = s.extract_tar_gz("/c/f".to_string(), "/opt/x".to_string());
    assert_eq!(x.stage, ExtractStage::Directory);
    assert_eq!(x.dir.fallback, "/env/rootfs");
    let k = s.parse_version_key("3.19.2_rc1").expect("a version");
    assert_eq!((k.major, k.minor, k.patch, k.suffix.as_str()), (3, 19, 2, "rc1"));
    assert!(s.parse_version_key("3.19").is_none());
}

#[test]
fn run_starts_from_the_stored_cache_directory() {
    let sett = Settings {
        default_mirror: "http://m/".to_string(),
        cache_dir: "/var/cache/alpack".to_string(),
        rootfs_dir: "/srv/rootfs".to_string(),
        cmd_rootfs: "proot".to_string(),
        release: "v3.19".to_string(),
        output_dir: String::new(),
    };
    let p = setup(&[]).run(&sett, None, None, "x86_64").unwrap();
    assert_eq!(p.cache_dir, "/var/cache/alpack");
    assert_eq!(p.rootfs_dir, "/srv/rootfs");
    assert_eq!(p.def_rootfs, "/srv/rootfs");
    assert_eq!(p.index_url, "http://m/v3.19/releases/x86_64/");
    let p = setup(&[]).run(&sett, None, Some("/env/cache".to_string()), "x86_64").unwrap();
    assert_eq!(p.cache_dir, "/env/cache");
    let p = setup(&["--cache=/opt/c"]).run(&sett, None, Some("/env/cache".to_string()), "x86_64").unwrap();
    assert_eq!(p.cache_dir, "/opt/c");
    let p = setup(&["--cache=/opt/c", "--no-cache"]).run(&sett, None, None, "x86_64").unwrap();
    assert_eq!(p.cache_dir, "/tmp/ALPack_cache");
}

#[test]
fn index_page_beyond_the_limit_is_fatal() {
    let mut p = start(&["-r"]);
    let page = " ".repeat(alpack::index::PAGE_LIMIT + 1);
    assert_eq!(
        p.step(SetupEvent::Index(page)),
        SetupAction::Abort(SetupError::Index(IndexError::TooLong))
    );
    assert_eq!(p.stage, SetupStage::Failed);
    assert!(p.entry.is_none());
}
