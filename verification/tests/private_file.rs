use opencodeserver::failure::FailureKind;
use opencodeserver::private_file::{read_private_file, validate_descriptor, FileFacts};

fn facts() -> FileFacts {
    FileFacts {
        is_symlink: false,
        is_file: true,
        len: 4,
        uid: 501,
        mode: 0o100600,
        device: 1,
        inode: 1,
    }
}

#[test]
fn regular_current_user0600_file_reads() {
    assert_eq!(
        read_private_file(&facts(), b"data".to_vec(), 501, 16).expect("read"),
        b"data".to_vec()
    );
}

#[test]
fn symlink_is_rejected_before_following() {
    let mut linked = facts();
    linked.is_symlink = true;
    let error = validate_descriptor(&linked, 501, 16).expect_err("symlink");
    assert_eq!(error.kind, FailureKind::InvalidData);
}

#[test]
fn directory_is_not_a_private_file() {
    let mut directory = facts();
    directory.is_file = false;
    let error = validate_descriptor(&directory, 501, 16).expect_err("directory");
    assert_eq!(error.kind, FailureKind::InvalidData);
}

#[test]
fn oversized_file_is_rejected() {
    let mut long = facts();
    long.len = 17;
    let error = validate_descriptor(&long, 501, 16).expect_err("too long");
    assert_eq!(error.kind, FailureKind::InvalidData);
    assert!(read_private_file(&facts(), vec![0; 17], 501, 16).is_err());
}

#[test]
fn group_readable_file_is_rejected() {
    let mut shared = facts();
    shared.mode = 0o100640;
    let error = validate_descriptor(&shared, 501, 16).expect_err("shared");
    assert_eq!(error.kind, FailureKind::PermissionDenied);
    let error = validate_descriptor(&facts(), 502, 16).expect_err("foreign");
    assert_eq!(error.kind, FailureKind::PermissionDenied);
}
