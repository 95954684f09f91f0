use opencodeserver::keychain::{
    classify, probe_item, read_password, signing_team_identifier, CodeSignature, KeychainProbe,
    KeychainRead, STATUS_AUTH_FAILED, STATUS_INTERACTION_NOT_ALLOWED, STATUS_ITEM_NOT_FOUND,
    STATUS_MISSING_ENTITLEMENT, STATUS_SUCCESS, STATUS_USER_CANCELED,
};

#[test]
fn probe_reports_missing_item_as_not_configured() {
    assert_eq!(probe_item(STATUS_ITEM_NOT_FOUND), KeychainProbe::NotConfigured);
}

#[test]
fn probe_reports_existing_item_as_exists() {
    assert_eq!(probe_item(STATUS_SUCCESS), KeychainProbe::Exists);
}

#[test]
fn missing_item_reports_not_configured() {
    assert!(read_password(Err(STATUS_ITEM_NOT_FOUND)) == KeychainRead::NotConfigured);
}

#[test]
fn round_trip_reads_written_password() {
    let result = read_password(Ok("s3cret-测试".as_bytes().to_vec()));
    assert!(result == KeychainRead::Found("s3cret-测试".to_string()));
}

#[test]
fn ad_hoc_test_binary_has_no_team_identifier() {
    let signature = CodeSignature {
        code_status: 0,
        information_status: 0,
        team: None,
    };
    assert_eq!(signing_team_identifier(signature), None);
}

#[test]
fn a_team_counts_only_where_the_signature_was_read() {
    let signed = CodeSignature {
        code_status: 0,
        information_status: 0,
        team: Some("TEAMID1234".to_owned()),
    };
    assert_eq!(signing_team_identifier(signed), Some("TEAMID1234".to_owned()));
    let unread = CodeSignature {
        code_status: 0,
        information_status: -1,
        team: Some("TEAMID1234".to_owned()),
    };
    assert_eq!(signing_team_identifier(unread), None);
    let uncoded = CodeSignature {
        code_status: -1,
        information_status: 0,
        team: Some("TEAMID1234".to_owned()),
    };
    assert_eq!(signing_team_identifier(uncoded), None);
}

#[test]
fn keychain_debug_formatting_never_renders_the_password() {
    let secret = "unit-test-password-that-must-not-appear";
    let rendered = KeychainRead::Found(secret.to_owned()).debug_text();
    assert!(!rendered.contains(secret));
    assert!(rendered.contains("<redacted>"));
    assert_eq!(
        KeychainRead::NotConfigured.debug_text(),
        "KeychainRead::NotConfigured"
    );
    assert_eq!(
        KeychainRead::Failed(-25308).debug_text(),
        "KeychainRead::Failed(-25308)"
    );
}

#[test]
fn refusals_of_access_are_told_from_failures() {
    for status in [STATUS_AUTH_FAILED, STATUS_INTERACTION_NOT_ALLOWED, STATUS_USER_CANCELED] {
        assert!(classify(status) == KeychainRead::AccessPending);
    }
    assert!(classify(-50) == KeychainRead::Failed(-50));
    assert!(classify(STATUS_ITEM_NOT_FOUND) == KeychainRead::NotConfigured);
    assert_eq!(probe_item(-50), KeychainProbe::Failed(-50));
    assert!(STATUS_MISSING_ENTITLEMENT < 0);
}
