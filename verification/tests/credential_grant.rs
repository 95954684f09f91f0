use opencodeserver::credential_grant::{
    team_evidence_matches, write_marker, CredentialGrant, Grant, MarkerWriteProgress,
    MarkerWriteStage,
};
use opencodeserver::failure::{Failure, FailureKind};
use opencodeserver::paths::AppPaths;
use opencodeserver::private_file::{read_private_file, FileFacts};

fn store() -> CredentialGrant {
    CredentialGrant::new(&AppPaths::from_support_dir("/tmp/ocs-grant-test".to_owned()))
}

fn marker(contents: &[u8]) -> Option<Grant> {
    CredentialGrant::load(Ok(contents.to_vec()))
}

fn recorded(account: &str, version: &str, team: &str) -> Option<Grant> {
    marker(store().record(account, version, team).contents.as_bytes())
}

fn facts(len: u64) -> FileFacts {
    FileFacts {
        is_symlink: false,
        is_file: true,
        len,
        uid: 501,
        mode: 0o100600,
        device: 1,
        inode: 1,
    }
}

fn read(facts: FileFacts, contents: &[u8]) -> Option<Grant> {
    CredentialGrant::load(read_private_file(&facts, contents.to_vec(), 501, 16 * 1024))
}

#[test]
fn absent_marker_covers_nothing() {
    let grant = CredentialGrant::load(Err(Failure::new(FailureKind::NotFound, "no such file")));
    assert!(!CredentialGrant::covers(&grant, "opencode", "44"));
    assert_eq!(grant, None);
    assert_eq!(CredentialGrant::team_evidence(&grant, "opencode"), None);
}

#[test]
fn a_symlink_marker_is_not_grant_evidence() {
    let mut linked = facts(17);
    linked.is_symlink = true;
    let grant = read(linked, b"opencode\n44\nTEAM\n");
    assert_eq!(grant, None);
    assert!(!CredentialGrant::covers(&grant, "opencode", "44"));
    assert_eq!(CredentialGrant::team_evidence(&grant, "opencode"), None);
}

#[test]
fn an_oversized_marker_is_not_grant_evidence() {
    let contents = vec![b'a'; 16 * 1024 + 1];
    let grant = read(facts(16 * 1024 + 1), &contents);
    assert_eq!(grant, None);
    assert!(!CredentialGrant::covers(&grant, "opencode", "44"));
}

#[test]
fn a_group_readable_marker_is_not_grant_evidence() {
    let mut shared = facts(17);
    shared.mode = 0o100640;
    let grant = read(shared, b"opencode\n44\nTEAM\n");
    assert_eq!(grant, None);
    assert!(!CredentialGrant::covers(&grant, "opencode", "44"));
}

#[test]
fn record_then_covers_same_account_and_version_only() {
    let grant = recorded("opencode", "44", "TESTTEAMID");
    assert!(CredentialGrant::covers(&grant, "opencode", "44"));
    assert!(!CredentialGrant::covers(&grant, "other", "44"));
    assert!(!CredentialGrant::covers(&grant, "opencode", "45"));
    assert_eq!(
        grant,
        Some(Grant {
            account: "opencode".to_owned(),
            version: "44".to_owned(),
            team: "TESTTEAMID".to_owned(),
        })
    );
}

#[test]
fn team_evidence_is_scoped_to_the_account() {
    let grant = recorded("opencode", "44", "TESTTEAMID");
    assert_eq!(
        CredentialGrant::team_evidence(&grant, "opencode"),
        Some("TESTTEAMID".to_owned())
    );
    assert_eq!(CredentialGrant::team_evidence(&grant, "other"), None);
}

#[test]
fn legacy_two_line_marker_is_absent_evidence() {
    let grant = marker(b"opencode\n44\n");
    assert_eq!(grant, None);
    assert!(!CredentialGrant::covers(&grant, "opencode", "44"));
    assert_eq!(CredentialGrant::team_evidence(&grant, "opencode"), None);
}

#[test]
fn an_empty_team_line_loads_but_yields_no_team_evidence() {
    let grant = recorded("opencode", "44", "");
    assert_eq!(
        grant,
        Some(Grant {
            account: "opencode".to_owned(),
            version: "44".to_owned(),
            team: String::new(),
        })
    );
    assert!(CredentialGrant::covers(&grant, "opencode", "44"));
    assert_eq!(CredentialGrant::team_evidence(&grant, "opencode"), None);
}

#[test]
fn non_current_marker_shape_is_not_a_grant() {
    let grant = marker(b"opencode\n");
    assert_eq!(grant, None);
    assert!(!CredentialGrant::covers(&grant, "opencode", "44"));
    let grant = marker(b"opencode\n44\nTESTTEAMID\nextra\n");
    assert_eq!(grant, None);
    assert!(!CredentialGrant::covers(&grant, "opencode", "44"));
    assert_eq!(CredentialGrant::team_evidence(&grant, "opencode"), None);
}

#[test]
fn clear_for_removes_matching_account_regardless_of_version() {
    let mut grant = recorded("opencode", "44", "TESTTEAMID");
    if CredentialGrant::clear_for(&grant, "other") {
        grant = None;
    }
    assert!(CredentialGrant::covers(&grant, "opencode", "44"));
    if CredentialGrant::clear_for(&grant, "opencode") {
        grant = None;
    }
    assert!(!CredentialGrant::covers(&grant, "opencode", "44"));
    assert!(!CredentialGrant::clear_for(&grant, "opencode"));
}

#[test]
fn an_unreadable_marker_is_treated_as_absent() {
    let mut directory = facts(0);
    directory.is_file = false;
    let grant = read(directory, b"");
    assert_eq!(grant, None);
    assert!(!CredentialGrant::covers(&grant, "opencode", "44"));
}

#[test]
fn a_blank_account_line_is_not_a_grant() {
    let grant = marker(b"\n44\nTESTTEAMID\n");
    assert_eq!(grant, None);
    assert!(!CredentialGrant::covers(&grant, "", "44"));
    assert!(!CredentialGrant::covers(&grant, "opencode", "44"));
    assert_eq!(CredentialGrant::team_evidence(&grant, ""), None);
}

#[test]
fn a_marker_that_is_not_text_is_not_a_grant() {
    assert_eq!(marker(b"opencode\n44\n\xff\xfe\n"), None);
}

#[test]
fn a_marker_is_staged_beside_its_place() {
    let write = store().record("opencode", "44", "TEAM");
    assert_eq!(write.contents, "opencode\n44\nTEAM\n");
    assert!(write.staging != write.path);
    assert!(write.path.starts_with("/tmp/ocs-grant-test/"));
}

#[test]
fn teams_match_only_when_both_are_known() {
    let ours = Some("TEAM".to_owned());
    assert!(team_evidence_matches(&ours, &Some("TEAM".to_owned())));
    assert!(!team_evidence_matches(&ours, &Some("OTHER".to_owned())));
    assert!(!team_evidence_matches(&None, &ours));
    assert!(!team_evidence_matches(&ours, &None));
}

/// A directory that refuses to be written to from some step on.
struct Disk {
    marker: Option<Vec<u8>>,
    staging: Option<Vec<u8>>,
    refuses: Option<MarkerWriteStage>,
}

impl Disk {
    fn record(&mut self, account: &str, version: &str, team: &str) -> Result<(), Failure> {
        let write = store().record(account, version, team);
        let mut stage = MarkerWriteStage::RemoveStaging;
        loop {
            let result = if self.refuses == Some(stage) {
                Err(Failure::new(FailureKind::PermissionDenied, "read only"))
            } else {
                match stage {
                    MarkerWriteStage::RemoveStaging => match self.staging.take() {
                        Some(_) => Ok(()),
                        None => Err(Failure::new(FailureKind::NotFound, "no such file")),
                    },
                    MarkerWriteStage::CreateStaging => {
                        assert!(self.staging.is_none());
                        self.staging = Some(Vec::new());
                        Ok(())
                    }
                    MarkerWriteStage::WriteStaging => {
                        self.staging = Some(write.contents.as_bytes().to_vec());
                        Ok(())
                    }
                    MarkerWriteStage::SyncStaging => Ok(()),
                    MarkerWriteStage::Rename => {
                        self.marker = self.staging.take();
                        Ok(())
                    }
                }
            };
            match write_marker(stage, result) {
                MarkerWriteProgress::Perform(next) => stage = next,
                MarkerWriteProgress::Finished { outcome, remove_staging } => {
                    if remove_staging {
                        self.staging = None;
                    }
                    return outcome;
                }
            }
        }
    }

    fn load(&self) -> Option<Grant> {
        match &self.marker {
            Some(bytes) => marker(bytes),
            None => CredentialGrant::load(Err(Failure::new(FailureKind::NotFound, "no such file"))),
        }
    }
}

#[test]
fn an_unwritable_marker_reports_the_error_and_proves_no_grant() {
    let mut disk = Disk {
        marker: None,
        staging: None,
        refuses: Some(MarkerWriteStage::CreateStaging),
    };
    let result = disk.record("opencode", "44", "TESTTEAMID");
    assert!(result.is_err(), "an unwritable marker must report the error");
    assert!(
        !CredentialGrant::covers(&disk.load(), "opencode", "44"),
        "a failed write must not leave anything that reads as a grant"
    );
    assert_eq!(disk.load(), None);
}

#[test]
fn a_failed_record_keeps_the_earlier_marker() {
    for refuses in [
        MarkerWriteStage::RemoveStaging,
        MarkerWriteStage::CreateStaging,
        MarkerWriteStage::WriteStaging,
        MarkerWriteStage::SyncStaging,
        MarkerWriteStage::Rename,
    ] {
        let mut disk = Disk { marker: None, staging: None, refuses: None };
        assert_eq!(disk.record("opencode", "44", "TEAM"), Ok(()));
        let before = disk.load();
        assert!(CredentialGrant::covers(&before, "opencode", "44"));
        disk.refuses = Some(refuses);
        assert!(disk.record("opencode", "45", "TEAM").is_err());
        assert_eq!(disk.load(), before);
        assert_eq!(disk.staging, None);
    }
}

#[test]
fn a_stale_staging_file_is_replaced() {
    let mut disk = Disk {
        marker: None,
        staging: Some(b"stale".to_vec()),
        refuses: None,
    };
    assert_eq!(disk.record("opencode", "44", ""), Ok(()));
    assert!(CredentialGrant::covers(&disk.load(), "opencode", "44"));
    assert_eq!(disk.staging, None);
}
