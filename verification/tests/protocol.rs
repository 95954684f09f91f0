use opencodeserver::protocol::{
    ActionCapabilities, Command, DesiredState, FdaState, HealthState, PasswordState, Request,
    Response, ServerState, Status, StatusFingerprint, PROTOCOL_VERSION,
};

fn status() -> Status {
    Status {
        protocol_version: 6,
        agent_version: "test".to_owned(),
        agent_uptime_seconds: 10,
        desired_state: DesiredState::Running,
        server_state: ServerState::Healthy,
        health: HealthState::Healthy,
        fda: FdaState::Verified,
        uptime_seconds: Some(5),
        endpoint: "127.0.0.1:4096".to_owned(),
        username: "opencode".to_owned(),
        password_state: PasswordState::Configured,
        authentication_enabled: false,
        action_capabilities: ActionCapabilities {
            start: false,
            stop: true,
            restart: true,
            continue_stop: false,
            force_stop: false,
        },
        installed_version: Some("1.0.0".to_owned()),
        running_version: Some("1.0.0".to_owned()),
        version_pending: false,
        config_pending: false,
        config_error: None,
        last_error: None,
        pid: Some(42),
        stop_grace_remaining_seconds: Some(3),
        notification: None,
        process_started_at_unix_seconds: Some(100),
        bundle_version: "57".to_owned(),
    }
}

#[test]
fn fingerprint_ignores_volatile_counters() {
    let base = status();
    assert_eq!(
        base.action_capabilities,
        ActionCapabilities {
            start: false,
            stop: true,
            restart: true,
            continue_stop: false,
            force_stop: false,
        }
    );
    let mut later = status();
    later.agent_uptime_seconds = 11;
    later.uptime_seconds = Some(6);
    later.stop_grace_remaining_seconds = Some(2);
    assert_eq!(
        StatusFingerprint::from(&base),
        StatusFingerprint::from(&later)
    );

    let mut changed = status();
    changed.server_state = ServerState::Stopping;
    assert_ne!(
        StatusFingerprint::from(&base),
        StatusFingerprint::from(&changed)
    );
    assert!(!StatusFingerprint::from(&base).same_as(&StatusFingerprint::from(&changed)));

    let mut capability_changed = status();
    capability_changed.action_capabilities.start = true;
    assert_ne!(
        StatusFingerprint::from(&base),
        StatusFingerprint::from(&capability_changed)
    );
}

#[test]
fn every_message_carries_the_protocol_version() {
    assert_eq!(PROTOCOL_VERSION, 6);
    assert_eq!(
        Request::new(Command::Start),
        Request { version: 6, command: Command::Start }
    );
    let refused = Response::error("no".to_owned(), None);
    assert_eq!((refused.version, refused.ok), (6, false));
    assert_eq!(refused.error.as_deref(), Some("no"));
    let fine = Response::success(status());
    assert!(fine.ok && fine.error.is_none() && fine.validation.is_none());
    assert_eq!(fine.status, Some(status()));
}
