use alpack::dirs::{denied_warning, resolve_or_fallback, Access, DirFallback, DirStep};
use alpack::utils::create_dir_with_fallback;

#[test]
fn granted_target_is_used() {
    let mut d = create_dir_with_fallback("/opt/rootfs".to_string(), "/home/u/.ALPack".to_string());
    assert_eq!(d.path(), "/opt/rootfs");
    assert_eq!(d.step(Access::Granted), DirStep::Resolved);
    let r = d.resolved();
    assert_eq!(r.path, "/opt/rootfs");
    assert!(!r.used_fallback);
}

#[test]
fn denied_target_falls_back_and_is_not_tried_again() {
    let mut d = DirFallback::new("/opt/rootfs".to_string(), "/home/u/.ALPack".to_string());
    assert_eq!(d.step(Access::Denied), DirStep::Retry);
    assert_eq!(d.path(), "/home/u/.ALPack");
    assert!(d.on_fallback);
    assert_eq!(d.step(Access::Granted), DirStep::Resolved);
    let r = d.resolved();
    assert_eq!(r.path, "/home/u/.ALPack");
    assert!(r.used_fallback);
    for outcome in [Access::Granted, Access::Denied, Access::Failed] {
        let step = d.step(outcome);
        assert_ne!(step, DirStep::Retry);
        assert_eq!(d.path(), "/home/u/.ALPack");
    }
}

#[test]
fn denied_fallback_is_final() {
    let mut d = DirFallback::new("/a".to_string(), "/b".to_string());
    assert_eq!(d.step(Access::Denied), DirStep::Retry);
    assert_eq!(d.step(Access::Denied), DirStep::Failed);
    assert_eq!(d.path(), "/b");
}

#[test]
fn other_failure_is_final_at_once() {
    let mut d = DirFallback::new("/a".to_string(), "/b".to_string());
    assert_eq!(d.step(Access::Failed), DirStep::Failed);
    assert_eq!(d.path(), "/a");
    assert!(!d.on_fallback);
    let mut d = DirFallback::new("/a".to_string(), "/b".to_string());
    assert_eq!(d.step(Access::Denied), DirStep::Retry);
    assert_eq!(d.step(Access::Failed), DirStep::Failed);
}

#[test]
fn denied_warning_names_the_directory() {
    assert_eq!(
        denied_warning("/opt/x"),
        "\x1b[1;33mWarning\x1b[0m: Permission denied to create '/opt/x', using default directory instead..."
    );
}

#[test]
fn single_look_resolution() {
    let r = resolve_or_fallback("/cur".to_string(), "/home/u", Access::Granted).expect("a dir");
    assert_eq!((r.path.as_str(), r.used_fallback), ("/cur", false));
    let r = resolve_or_fallback("/cur".to_string(), "/home/u", Access::Denied).expect("a dir");
    assert_eq!((r.path.as_str(), r.used_fallback), ("/home/u", true));
    assert!(resolve_or_fallback("/cur".to_string(), "/home/u", Access::Failed).is_none());
}
