use opencodeserver::failure::FailureKind;
use opencodeserver::paths::{
    ensure_private_directory, is_absolute, join_path, resolve_support_directory, same_path,
    AppPaths,
};

fn fixture_home() -> String {
    "/fixture-home".to_owned()
}

fn default_support_directory() -> String {
    "/fixture-home/Library/Application Support/OpenCodeServer".to_owned()
}

#[test]
fn derives_expected_paths() {
    let paths = AppPaths::from_support_dir("/tmp/ocs-test".to_owned());
    assert_eq!(paths.config_file, "/tmp/ocs-test/config.plist");
    assert_eq!(paths.control_socket, "/tmp/ocs-test/run/control.sock");
    assert_eq!(
        paths.config_fingerprint_key,
        "/tmp/ocs-test/.config-fingerprint.key"
    );
}

#[test]
fn absent_support_directory_override_uses_application_support() {
    assert_eq!(
        resolve_support_directory(None, Some(fixture_home())).expect("resolve absent override"),
        default_support_directory()
    );
}

#[test]
fn empty_support_directory_override_uses_application_support() {
    assert_eq!(
        resolve_support_directory(Some(String::new()), Some(fixture_home()))
            .expect("resolve empty override"),
        default_support_directory()
    );
}

#[test]
fn whitespace_support_directory_override_uses_application_support() {
    assert_eq!(
        resolve_support_directory(Some(" \t\n".to_owned()), Some(fixture_home()))
            .expect("resolve whitespace override"),
        default_support_directory()
    );
}

#[test]
fn relative_support_directory_override_is_rejected() {
    let error = resolve_support_directory(Some("relative/support".to_owned()), Some(fixture_home()))
        .expect_err("reject relative override");
    assert_eq!(error.kind, FailureKind::InvalidInput);
}

#[test]
fn absolute_support_directory_override_is_used_verbatim() {
    assert_eq!(
        resolve_support_directory(Some("/fixture-support".to_owned()), Some(fixture_home()))
            .expect("resolve absolute override"),
        "/fixture-support"
    );
}

#[test]
fn a_missing_home_is_reported() {
    let error = resolve_support_directory(None, None).expect_err("no home");
    assert_eq!(error.kind, FailureKind::NotFound);
}

#[test]
fn directories_are_private_directories() {
    let paths = AppPaths::from_support_dir("/tmp/ocs-test".to_owned());
    assert_eq!(
        paths.ensure_directories(),
        vec!["/tmp/ocs-test".to_owned(), "/tmp/ocs-test/run".to_owned()]
    );
    assert!(ensure_private_directory("/tmp/ocs-test", true, false).is_ok());
    assert!(ensure_private_directory("/tmp/ocs-test", true, true).is_err());
    assert!(ensure_private_directory("/tmp/ocs-test", false, false).is_err());
}

#[test]
fn joining_keeps_absolute_components() {
    assert_eq!(join_path("/a", "b"), "/a/b");
    assert_eq!(join_path("/a/", "b"), "/a/b");
    assert_eq!(join_path("/a", "/b"), "/b");
    assert_eq!(join_path("", "b"), "b");
    assert!(is_absolute("/a"));
    assert!(!is_absolute("a"));
}

#[test]
fn paths_are_the_same_by_their_components() {
    for spelling in ["/a/b", "/a//b", "/a/./b", "/a/b/", "//a/b/.", "/./a/b"] {
        assert!(same_path(spelling, "/a/b"), "{}", spelling);
        assert!(same_path("/a/b", spelling), "{}", spelling);
    }
    for other in ["a/b", "./a/b", "/a", "/a/b/c", "/a/../a/b", "/a/b.", "/A/b", "", "/"] {
        assert!(!same_path(other, "/a/b"), "{}", other);
    }
    assert!(same_path("a/.", "a"));
    assert!(!same_path("./a", "a"));
    assert!(same_path("./a", ".//a"));
    assert!(same_path(".", "./"));
    assert!(same_path("/", "/."));
    assert!(!same_path("", "."));
    assert!(!same_path("..", "."));
}
