use alpack::error::UsageError;
use alpack::utils::{
    _parse_key_value, binary_url, check_rootfs_exists, finish_msg_setup, get_arch, get_cmd_box,
    is_x86_64, local_bin_dir, separator_line, suggest, verify_and_download_rootfs_command,
    HandlerPlan,
};

#[test]
fn inline_value_is_what_follows_the_first_equals_sign() {
    let v = _parse_key_value("setup", "directory", "--cache=/tmp".to_string(), None).unwrap();
    assert_eq!(v, Some("/tmp".to_string()));
    let v = _parse_key_value("setup", "url", "--mirror=http://x/?a=b".to_string(), None).unwrap();
    assert_eq!(v, Some("http://x/?a=b".to_string()));
    let v = _parse_key_value("setup", "url", "=é=".to_string(), None).unwrap();
    assert_eq!(v, Some("é=".to_string()));
}

#[test]
fn following_argument_is_the_value() {
    let v = _parse_key_value("setup", "directory", "--cache".to_string(), Some("/tmp".to_string()))
        .unwrap();
    assert_eq!(v, Some("/tmp".to_string()));
    let v = _parse_key_value("setup", "directory", "--cache=/a".to_string(), Some("/b".to_string()))
        .unwrap();
    assert_eq!(v, Some("/b".to_string()));
}

#[test]
fn missing_inline_value_is_an_error() {
    for arg in ["--cache=", "--cache"] {
        let e = _parse_key_value("setup", "directory", arg.to_string(), None).unwrap_err();
        match &e {
            UsageError::MissingValue { sub, arg: a, val, spaced } => {
                assert_eq!((sub.as_str(), a.as_str(), val.as_str(), *spaced), ("setup", arg, "directory", false));
            }
            other => panic!("{other:?}"),
        }
        assert_eq!(
            e.message("ALPack"),
            format!("ALPack: setup: {arg} requires a <directory> as argument.\nUsage: ALPack setup {arg}<directory>")
        );
    }
}

#[test]
fn missing_following_value_is_an_error() {
    let e = _parse_key_value("config", "mirror", "--default-mirror".to_string(), Some(String::new()))
        .unwrap_err();
    assert_eq!(
        e.message("alp"),
        "alp: config: --default-mirror requires a <mirror> as argument.\nUsage: alp config --default-mirror <mirror>"
    );
}

#[test]
fn other_usage_messages() {
    assert_eq!(
        UsageError::InvalidArgument { sub: "setup".to_string(), arg: "--x".to_string() }.message("ALPack"),
        "ALPack: setup: invalid argument '--x'\nUse 'ALPack --help' to see available options."
    );
    assert_eq!(
        UsageError::NoCommand { sub: "apk".to_string() }.message("ALPack"),
        "ALPack: apk: no command specified\nUse 'ALPack --help' to see available options."
    );
    assert_eq!(
        UsageError::InvalidCommand { arg: "frob".to_string() }.message("ALPack"),
        "ALPack: invalid argument 'frob'\nUse 'ALPack --help' to see available options."
    );
}

#[test]
fn architecture_prefers_the_programs_own_override() {
    assert_eq!(get_arch(Some("riscv64".to_string()), Some("armv7".to_string()), "x86_64"), "riscv64");
    assert_eq!(get_arch(None, Some("armv7".to_string()), "x86_64"), "armv7");
    assert_eq!(get_arch(None, None, "x86_64"), "x86_64");
}

#[test]
fn separator_is_sixty_strokes() {
    let s = separator_line();
    assert_eq!(s, "═".repeat(60));
    assert_eq!(s.chars().count(), 60);
}

#[test]
fn command_box_default_width() {
    let b = get_cmd_box("$ ALPack setup".to_string(), None, None);
    let expected = format!(
        "╔{}╗\n║ $ ALPack setup{}║\n╚{}╝",
        "═".repeat(48),
        " ".repeat(50 - 3 - 14),
        "═".repeat(48)
    );
    assert_eq!(b, expected);
    for line in b.lines() {
        assert_eq!(line.chars().count(), 50);
    }
}

#[test]
fn command_box_indented_and_sized() {
    let b = get_cmd_box("ab".to_string(), Some(2), Some(7));
    assert_eq!(b, "  ╔═════╗\n  ║ ab  ║\n  ╚═════╝");
    let b = get_cmd_box("ab".to_string(), Some(0), Some(5));
    assert_eq!(b, "╔═══╗\n║ ab║\n╚═══╝");
    let b = get_cmd_box(String::new(), None, Some(3));
    assert_eq!(b, "╔═╗\n║ ║\n╚═╝");
}

#[test]
fn command_box_measures_the_name_in_bytes() {
    let b = get_cmd_box("é".to_string(), None, Some(8));
    assert_eq!(b, "╔══════╗\n║ é   ║\n╚══════╝");
}

#[test]
fn finish_message_frames_the_run_command() {
    let s = "═".repeat(60);
    let b = format!(
        "  ╔{}╗\n  ║ $ ALPack run{}║\n  ╚{}╝",
        "═".repeat(48),
        " ".repeat(50 - 3 - 12),
        "═".repeat(48)
    );
    assert_eq!(
        finish_msg_setup("ALPack".to_string()),
        format!("{s}\n  Installation completed successfully!\n\n  To start the environment, run:\n{b}\n{s}")
    );
}

#[test]
fn present_rootfs_is_accepted() {
    assert_eq!(check_rootfs_exists("ALPack".to_string(), "/srv/rootfs".to_string(), true), Ok(()));
    let long = "x".repeat(500);
    assert_eq!(check_rootfs_exists(long, "/srv/rootfs".to_string(), true), Ok(()));
}

#[test]
fn missing_rootfs_is_explained() {
    let s = "═".repeat(60);
    let b = format!(
        "  ╔{}╗\n  ║ $ ALPack setup{}║\n  ╚{}╝",
        "═".repeat(48),
        " ".repeat(50 - 3 - 14),
        "═".repeat(48)
    );
    assert_eq!(
        check_rootfs_exists("ALPack".to_string(), "/srv/rootfs".to_string(), false),
        Err(format!(
            "{s}\n  Error: rootfs directory not found.\n\n  Expected location:\n    -> /srv/rootfs\n\n  Please run the following command to set it up:\n{b}\n{s}"
        ))
    );
}

#[test]
fn handler_binaries_are_offered_for_two_handlers() {
    assert_eq!(
        binary_url("proot"),
        Some("https://github.com/LinuxDicasPro/StaticHub/releases/download/proot/proot")
    );
    assert_eq!(
        binary_url("bwrap"),
        Some("https://github.com/LinuxDicasPro/StaticHub/releases/download/bwrap/bwrap")
    );
    assert_eq!(binary_url("docker"), None);
    assert_eq!(binary_url(""), None);
    assert!(is_x86_64("x86_64"));
    assert!(!is_x86_64("aarch64"));
}

#[test]
fn local_binaries_live_below_home() {
    assert_eq!(local_bin_dir(Some("/home/u".to_string())), "/home/u/.local/bin");
    assert_eq!(local_bin_dir(None), "./.local/bin");
}

fn plan(installed: Option<&str>, local_exists: bool, cmd: &str, arch: &str) -> HandlerPlan {
    verify_and_download_rootfs_command(
        cmd,
        installed.map(|p| p.to_string()),
        "/home/u/.local/bin".to_string(),
        format!("/home/u/.local/bin/{cmd}"),
        local_exists,
        arch,
    )
}

#[test]
fn installed_handler_is_used() {
    match plan(Some("/usr/bin/proot"), true, "proot", "aarch64") {
        HandlerPlan::Use(p) => assert_eq!(p, "/usr/bin/proot"),
        other => panic!("{other:?}"),
    }
    match plan(None, true, "proot", "aarch64") {
        HandlerPlan::Use(p) => assert_eq!(p, "/home/u/.local/bin/proot"),
        other => panic!("{other:?}"),
    }
}

#[test]
fn absent_handler_is_downloaded_on_x86_64_only() {
    match plan(None, false, "bwrap", "x86_64") {
        HandlerPlan::Download { url, dir, name } => {
            assert_eq!(url, "https://github.com/LinuxDicasPro/StaticHub/releases/download/bwrap/bwrap");
            assert_eq!(dir, "/home/u/.local/bin");
            assert_eq!(name, "bwrap");
        }
        other => panic!("{other:?}"),
    }
    match plan(None, false, "bwrap", "aarch64") {
        HandlerPlan::Unsupported(text) => assert_eq!(
            text,
            "bwrap not found in the system and no binary is available for this architecture"
        ),
        other => panic!("{other:?}"),
    }
    assert!(matches!(plan(None, false, "docker", "x86_64"), HandlerPlan::Invalid));
    assert!(matches!(plan(None, false, "docker", "arm"), HandlerPlan::Unsupported(_)));
}

#[test]
fn suggestion_is_a_prompt_line() {
    assert_eq!(suggest("ALPack", "setup"), "$ ALPack setup");
    assert_eq!(suggest("", ""), "$  ");
}
