use opencodeserver::config::{ConfigFile, ValidatedConfig};
use opencodeserver::config_fingerprint::{ConfigFingerprint, ConfigFingerprintKey};
use opencodeserver::credential_grant::{team_evidence_matches, CredentialGrant, Grant};
use opencodeserver::failure::{Failure, FailureKind};
use opencodeserver::health::{HealthError, HealthResult};
use opencodeserver::keychain::{KeychainProbe, KeychainRead};
use opencodeserver::process::{ExitReason, ManagedProcess, RecordIdentity, SpawnError};
use opencodeserver::protocol::{
    ActionCapabilities, Command, DesiredState, FdaState, HealthState, NotificationKind,
    PasswordState, Response, ServerState, Status,
};
use opencodeserver::runtime_state::{
    LaunchPending, ProcessRecord, RuntimeState, RuntimeStateSaveOutcome,
};
use opencodeserver::supervisor::credential::{
    CredentialFacts, CredentialRefreshInFlight, CredentialState, WorkerMessage,
    CREDENTIAL_REFRESH_OVERDUE,
};
use opencodeserver::supervisor::full_disk_access::{
    fda_state_for_version, parse_product_major_version, TargetProbe, FDA_PROBE_OS_MAJOR_VERSION,
    FDA_PROBE_TARGETS,
};
use opencodeserver::supervisor::health::unauthorized_credential_message;
use opencodeserver::supervisor::notification::{format_event_id, new_notification_event_id};
use opencodeserver::supervisor::status::future_deadline;
use opencodeserver::supervisor::version::{VersionQueryInFlight, VersionQueryResult};
use opencodeserver::supervisor::{
    Effect, HealthAnswer, Reply, StopSignal, Supervisor, Task, TickStage,
    DEFAULT_VERSION_QUERY_TIMEOUT, PORT_RELEASE_RETRY_BUDGET, RESTART_BACKOFF, SECOND,
    STABLE_RUN_INTERVAL,
};
use opencodeserver::{bundle_version, BUNDLE_VERSION};

const EXECUTABLE: &str = "/opt/homebrew/bin/opencode";
const TEST_TEAM: &str = "TEAMID1234";
const OTHER_TEAM: &str = "TEAMID5678";

/// Stands for the machine: it answers what the supervisor asks.
struct World {
    now: u64,
    config: ValidatedConfig,
    probe: KeychainProbe,
    marker: Option<Grant>,
    own_team: Option<String>,
    /// The reads that were started, and not answered.
    reads: usize,
    read: Option<WorkerMessage<KeychainRead>>,
    version: Option<WorkerMessage<VersionQueryResult>>,
    version_queries: usize,
    health: Option<WorkerMessage<Result<HealthResult, HealthError>>>,
    identity: Result<RecordIdentity, ()>,
    saved: Vec<RuntimeStateSaveOutcome>,
    saves: usize,
    spawn_failure: Option<FailureKind>,
    running: Option<u32>,
    spawned: usize,
    exit: Option<ExitReason>,
    signals: Vec<StopSignal>,
}

fn world(username: &str) -> World {
    World {
        now: 1_000 * SECOND,
        config: ValidatedConfig {
            source: ConfigFile {
                username: username.to_owned(),
                executable_path: EXECUTABLE.to_owned(),
                ..ConfigFile::default()
            },
            configured_executable: EXECUTABLE.to_owned(),
            canonical_executable: EXECUTABLE.to_owned(),
            effective_username: username.to_owned(),
        },
        probe: KeychainProbe::NotConfigured,
        marker: None,
        own_team: None,
        reads: 0,
        read: None,
        version: None,
        version_queries: 0,
        health: None,
        identity: Ok(RecordIdentity::Current),
        saved: Vec::new(),
        saves: 0,
        spawn_failure: None,
        running: None,
        spawned: 0,
        exit: None,
        signals: Vec::new(),
    }
}

impl World {
    fn boot(&mut self, runtime: RuntimeState) -> Supervisor {
        let mut supervisor = Supervisor::new(
            ConfigFingerprintKey::from_bytes([7; 32]),
            self.now,
            Ok(runtime),
            Ok(self.config.clone()),
            FdaState::UnableToDetermine,
        );
        self.drive(&mut supervisor);
        supervisor
    }

    fn stopped(&mut self) -> Supervisor {
        self.boot(RuntimeState {
            desired_state: DesiredState::Stopped,
            ..RuntimeState::default()
        })
    }

    fn record(&mut self, account: &str, version: &str, team: &str) {
        self.marker = Some(Grant {
            account: account.to_owned(),
            version: version.to_owned(),
            team: team.to_owned(),
        });
    }

    fn facts(&self, account: &str) -> CredentialFacts {
        CredentialFacts {
            probe: self.probe,
            covered: CredentialGrant::covers(&self.marker, account, BUNDLE_VERSION),
            team_matches: team_evidence_matches(
                &CredentialGrant::team_evidence(&self.marker, account),
                &self.own_team,
            ),
        }
    }

    fn perform(&mut self, supervisor: &Supervisor, effect: Effect) -> Reply {
        let account = supervisor.hand.account.as_str();
        match effect {
            Effect::Idle | Effect::Continue => Reply::Nothing,
            Effect::SaveRuntime => {
                self.saves += 1;
                Reply::Saved(if self.saved.is_empty() {
                    RuntimeStateSaveOutcome::Durable
                } else {
                    self.saved.remove(0)
                })
            }
            Effect::LoadConfig => Reply::Config(Ok(self.config.clone())),
            Effect::ProbeCredential => Reply::Credential(self.facts(account)),
            Effect::CompareTeams => Reply::Team(self.facts(account).team_matches),
            Effect::Credentials(actions) => {
                if actions.clear_grant && CredentialGrant::clear_for(&self.marker, account) {
                    self.marker = None;
                }
                if actions.record_grant {
                    let team = self.own_team.clone().unwrap_or_default();
                    let account = account.to_owned();
                    self.record(&account, BUNDLE_VERSION, &team);
                }
                if actions.start_read {
                    self.reads += 1;
                }
                if actions.start_read {
                    Reply::Started(true)
                } else {
                    Reply::Nothing
                }
            }
            Effect::InspectIdentity(_) => Reply::Identity(self.identity),
            Effect::ObserveGroup(_) => Reply::Group(Ok(self.running.is_some())),
            Effect::Spawn => {
                assert!(self.running.is_none(), "two processes at once");
                match self.spawn_failure {
                    Some(kind) => Reply::Spawned(Err(SpawnError::without_process(Failure::new(
                        kind,
                        "spawn failed",
                    )))),
                    None => {
                        self.spawned += 1;
                        self.running = Some(4242);
                        let launch = supervisor.hand.launch.as_ref().expect("launch");
                        Reply::Spawned(Ok(ManagedProcess::Child {
                            record: ProcessRecord {
                                config_fingerprint: launch.fingerprint.clone(),
                                ..record(4242)
                            },
                            cleanup: None,
                            identity_failed: false,
                        }))
                    }
                }
            }
            Effect::Signal(signal) => {
                self.signals.push(signal);
                Reply::Signaled(Ok(()))
            }
            Effect::SnapshotChild => Reply::Snapshot {
                snapshot: Err(Failure::new(FailureKind::NotFound, "not seen")),
                same_executable: false,
            },
            Effect::PollExit => {
                let exit = self.exit.take();
                if exit.is_some() {
                    self.running = None;
                }
                Reply::Exit {
                    cleanup: None,
                    exit: Ok(exit),
                }
            }
            Effect::NewEventId => Reply::EventId(new_notification_event_id().ok()),
            Effect::CheckHealth => Reply::Health(HealthAnswer::Healthy("1.2.3".to_owned())),
            Effect::StartHealthCheck => Reply::Started(true),
            Effect::PollHealthCheck => {
                Reply::HealthMessage(self.health.take().unwrap_or(WorkerMessage::Empty))
            }
            Effect::StartVersionQuery => {
                self.version_queries += 1;
                Reply::Started(true)
            }
            Effect::PollVersionQuery => {
                Reply::VersionMessage(self.version.take().unwrap_or(WorkerMessage::Empty))
            }
            Effect::PollCredentialRead => {
                Reply::CredentialMessage(self.read.take().unwrap_or(WorkerMessage::Empty))
            }
            Effect::ProbeFda => Reply::Fda(FdaState::Verified),
        }
    }

    /// Runs the supervisor until it has nothing left to do.
    fn drive(&mut self, supervisor: &mut Supervisor) {
        let mut reply = Reply::Nothing;
        for _ in 0..1_000 {
            assert!(supervisor.accepts(&reply));
            let effect = supervisor.step(self.now, reply);
            if effect == Effect::Idle {
                assert!(supervisor.is_idle());
                return;
            }
            reply = self.perform(supervisor, effect);
        }
        panic!("the supervisor does not come to rest");
    }

    fn handle(&mut self, supervisor: &mut Supervisor, command: Command) -> Response {
        supervisor.handle(command);
        self.drive(supervisor);
        supervisor.response(self.now, 1_700_000_000, BUNDLE_VERSION)
    }

    fn tick(&mut self, supervisor: &mut Supervisor) {
        supervisor.tick(self.now);
        self.drive(supervisor);
    }

    fn run(&mut self, supervisor: &mut Supervisor, task: Task) {
        supervisor.tasks.push(task);
        self.drive(supervisor);
    }

    fn poll_credential_refresh(&mut self, supervisor: &mut Supervisor) {
        self.run(supervisor, Task::Tick(TickStage::Credential));
    }

    /// Loads a configuration anew, as it stands on disk: without a password.
    fn merge(&mut self, supervisor: &mut Supervisor) -> String {
        supervisor.refresh_config_now();
        self.drive(supervisor);
        password(supervisor)
    }

    fn state(&self, supervisor: &Supervisor) -> Status {
        supervisor.status(self.now, 1_700_000_000, BUNDLE_VERSION)
    }
}

fn password(supervisor: &Supervisor) -> String {
    supervisor
        .latest_config
        .as_ref()
        .expect("latest config")
        .source
        .password
        .clone()
}

fn set_password(supervisor: &mut Supervisor, password: &str) {
    supervisor
        .latest_config
        .as_mut()
        .expect("latest config")
        .source
        .password = password.to_owned();
}

fn record(pid: u32) -> ProcessRecord {
    ProcessRecord {
        pid,
        process_group_id: pid,
        start_seconds: 1,
        start_microseconds: u64::from(pid),
        executable: "/tmp/opencode".to_owned(),
        started_at_unix_seconds: 1,
        running_version: None,
        config_fingerprint: ConfigFingerprint {
            version: 1,
            hmac_sha256: "a".repeat(64),
        },
        identity_unconfirmed: false,
    }
}

#[test]
fn restart_policy_is_bounded_and_expected() {
    assert_eq!(
        RESTART_BACKOFF.map(|delay| delay / SECOND),
        [1, 2, 5, 15, 30]
    );
}

#[test]
fn notification_event_ids_are_unique_uuid_v4_values() {
    let first = new_notification_event_id().expect("first notification event ID");
    let second = new_notification_event_id().expect("second notification event ID");
    assert_ne!(first, second);
    assert_eq!(first.len(), 36);
    assert_eq!(&first[8..9], "-");
    assert_eq!(&first[13..14], "-");
    assert_eq!(&first[18..19], "-");
    assert_eq!(&first[23..24], "-");
    assert_eq!(&first[14..15], "4");
    assert!(matches!(&first[19..20], "8" | "9" | "a" | "b"));
    assert!(first
        .chars()
        .all(|character| character == '-' || character.is_ascii_hexdigit()));
}

#[test]
fn event_ids_mark_their_version_and_variant() {
    assert_eq!(
        format_event_id(&vec![0xff; 16]),
        "ffffffff-ffff-4fff-bfff-ffffffffffff"
    );
    assert_eq!(
        format_event_id(&(0..16).collect::<Vec<u8>>()),
        "00010203-0405-4607-8809-0a0b0c0d0e0f"
    );
}

#[test]
fn past_deadlines_never_schedule_a_zero_wait() {
    let now = 1_000 * SECOND;
    assert_eq!(future_deadline(now, now), None);
    assert_eq!(future_deadline(now - 300 * SECOND, now), None);
    let later = now + SECOND;
    assert_eq!(future_deadline(later, now), Some(later));
}

#[test]
fn lifecycle_deadlines_are_scheduled_when_health_is_unavailable() {
    let mut world = world("deadline");
    let mut supervisor = world.stopped();
    supervisor.process = Some(ManagedProcess::attach(record(4242)));
    supervisor.active_config = supervisor.latest_config.clone();
    supervisor.server.state = ServerState::Stopping;
    let now = world.now;
    let stop_deadline = now + 2 * SECOND;
    supervisor.timers.stop_deadline = Some(stop_deadline);
    supervisor.timers.last_config_check = now + 100 * SECOND;
    supervisor.version_queries.last_version_attempt = Some(now);
    let deadline = supervisor
        .next_deadline(now, false)
        .expect("stop deadline must wake the supervisor");
    assert!(deadline <= stop_deadline);

    // The stable-run reset is a deadline of its own, also where no health
    // check is possible.
    supervisor.server.state = ServerState::Failed;
    supervisor.timers.stop_deadline = None;
    supervisor.active_config = None;
    supervisor.server.stale_config_process = false;
    let stable_deadline = now + 2 * SECOND;
    supervisor.timers.process_started = Some(stable_deadline - STABLE_RUN_INTERVAL);
    let deadline = supervisor
        .next_deadline(now, false)
        .expect("stable-run deadline must wake the supervisor");
    assert_eq!(deadline, stable_deadline);
}

#[test]
fn restart_renews_an_expired_port_release_retry_budget() {
    let mut world = world("restart-budget");
    let mut supervisor = world.stopped();
    world.spawn_failure = Some(FailureKind::AddrInUse);
    let first = world.handle(&mut supervisor, Command::Restart);
    assert!(first.ok);
    assert_eq!(
        first.status.expect("first status").server_state,
        ServerState::WaitingToRestart,
        "an occupied endpoint must begin the bounded port-release retry"
    );

    supervisor.timers.port_release_deadline = Some(world.now - SECOND / 1_000);
    let restarted_at = world.now;
    let second = world.handle(&mut supervisor, Command::Restart);
    assert!(second.ok);
    let status = second.status.expect("second status");
    assert_eq!(
        status.server_state,
        ServerState::WaitingToRestart,
        "a new Restart must receive a fresh port-release retry budget"
    );
    assert_eq!(status.last_error, None);
    assert!(supervisor
        .timers
        .port_release_deadline
        .is_some_and(|deadline| deadline >= restarted_at + PORT_RELEASE_RETRY_BUDGET));
}

#[test]
fn no_remote_authentication_requirement_overrides_native_behavior() {
    let mut world = world("remote");
    world.config.source.hostname = "10.0.0.254".to_owned();
    let mut supervisor = world.stopped();
    assert!(!world.config.authentication_enabled());
    assert!(world.handle(&mut supervisor, Command::Start).ok);
    assert_eq!(world.spawned, 1);
}

#[test]
fn unauthorized_message_distinguishes_removed_item_from_mismatch() {
    assert!(
        unauthorized_credential_message(CredentialState::NotConfigured)
            .contains("removed from Keychain")
    );
    assert!(
        unauthorized_credential_message(CredentialState::Available)
            .contains("rejected the stored password")
    );
    assert!(
        unauthorized_credential_message(CredentialState::AccessPending)
            .contains("rejected the stored password")
    );
}

#[test]
fn force_stop_and_continue_stop_require_a_stop_in_progress() {
    let mut world = world("stop-gating");
    let mut supervisor = world.stopped();
    assert_eq!(world.state(&supervisor).server_state, ServerState::Stopped);

    for state in [ServerState::Stopped, ServerState::Healthy] {
        supervisor.server.state = state;

        let response = world.handle(&mut supervisor, Command::ForceStop);
        assert!(!response.ok, "Force Stop must be refused while {state:?}");
        assert_eq!(
            response.error.as_deref(),
            Some("force stop is available only after a stop or restart request")
        );
        assert_eq!(
            supervisor.hand.failure.as_ref().expect("refused").kind,
            FailureKind::InvalidInput
        );

        let response = world.handle(&mut supervisor, Command::ContinueStop);
        assert!(!response.ok, "Continue Waiting must be refused while {state:?}");
        assert_eq!(
            response.error.as_deref(),
            Some("OpenCode is not waiting after a graceful-stop timeout")
        );
        assert_eq!(
            supervisor.hand.failure.as_ref().expect("refused").kind,
            FailureKind::InvalidInput
        );

        assert_eq!(
            world.state(&supervisor).server_state,
            state,
            "a refused command must not change the server state"
        );
    }

    supervisor.server.state = ServerState::Stopping;
    world.handle(&mut supervisor, Command::ForceStop);
    assert_eq!(
        supervisor.hand.failure.as_ref().expect("no process").kind,
        FailureKind::NotFound
    );
    assert!(world.signals.is_empty());
}

#[test]
fn action_capabilities_follow_authoritative_lifecycle_facts() {
    let none = ActionCapabilities {
        start: false,
        stop: false,
        restart: false,
        continue_stop: false,
        force_stop: false,
    };
    let mut world = world("action-capabilities");
    let mut supervisor = world.stopped();
    assert_eq!(
        world.state(&supervisor).action_capabilities,
        ActionCapabilities {
            start: true,
            stop: false,
            restart: true,
            continue_stop: false,
            force_stop: false,
        }
    );

    supervisor.process = Some(ManagedProcess::attach(record(42_424)));
    supervisor.runtime.desired_state = DesiredState::Running;
    for state in [
        ServerState::Starting,
        ServerState::Healthy,
        ServerState::Unhealthy,
        ServerState::Failed,
    ] {
        supervisor.server.state = state;
        let capabilities = world.state(&supervisor).action_capabilities;
        assert!(!capabilities.start, "{state:?}");
        assert!(capabilities.stop, "{state:?}");
        assert!(capabilities.restart, "{state:?}");
        assert!(!capabilities.continue_stop);
        assert!(!capabilities.force_stop);
    }

    supervisor.process = None;
    supervisor.server.state = ServerState::WaitingToRestart;
    let waiting = world.state(&supervisor).action_capabilities;
    assert!(waiting.start);
    assert!(waiting.stop);
    assert!(waiting.restart);
    assert!(!waiting.continue_stop);
    assert!(!waiting.force_stop);

    // An unverified record is neither proof of absence nor a signal target.
    supervisor.runtime.process = Some(record(42_424));
    supervisor.server.unverified_process_record = true;
    supervisor.server.state = ServerState::Failed;
    assert_eq!(world.state(&supervisor).action_capabilities, none);

    // An item that awaits authorization blocks only what can start OpenCode.
    supervisor.runtime.process = None;
    supervisor.server.unverified_process_record = false;
    supervisor.credentials.credential_state = CredentialState::AccessPending;
    supervisor.server.state = ServerState::Failed;
    assert_eq!(
        world.state(&supervisor).action_capabilities,
        ActionCapabilities {
            start: false,
            stop: true,
            restart: false,
            continue_stop: false,
            force_stop: false,
        }
    );
    supervisor.credentials.credential_state = CredentialState::NotConfigured;

    supervisor.process = Some(ManagedProcess::attach(record(42_424)));
    supervisor.server.state = ServerState::Stopping;
    assert!(!world.state(&supervisor).action_capabilities.force_stop);
    assert!(!world.state(&supervisor).action_capabilities.continue_stop);
    supervisor.server.state = ServerState::StopTimedOut;
    let timed_out = world.state(&supervisor).action_capabilities;
    assert!(timed_out.continue_stop);
    assert!(timed_out.force_stop);

    supervisor.process = None;
    supervisor.runtime.launch_pending = Some(LaunchPending {
        executable: "/tmp/opencode".to_owned(),
        config_fingerprint: ConfigFingerprint {
            version: 1,
            hmac_sha256: "b".repeat(64),
        },
    });
    supervisor.server.state = ServerState::Failed;
    assert_eq!(world.state(&supervisor).action_capabilities, none);
    supervisor.runtime.launch_pending = None;
    supervisor.durable.retry_pending = true;
    assert_eq!(world.state(&supervisor).action_capabilities, none);
}

#[test]
fn fda_probe_targets_are_versioned_by_adr_0002() {
    assert_eq!(
        FDA_PROBE_TARGETS.to_vec(),
        vec![
            "Library/Safari/History.db",
            "Library/Mail/V10",
            "Library/Suggestions",
        ]
    );
}

#[test]
fn parse_product_major_version_covers_release_shapes() {
    assert_eq!(parse_product_major_version("26.6.1"), Some(26));
    assert_eq!(parse_product_major_version("27"), Some(27));
    assert_eq!(parse_product_major_version("10.15.7"), Some(10));
    assert_eq!(parse_product_major_version(""), None);
    assert_eq!(parse_product_major_version("not-a-version"), None);
}

#[test]
fn fda_probe_gates_on_os_major_version() {
    let probes = vec![TargetProbe::Opened; 3];
    assert_eq!(
        fda_state_for_version(None, &probes),
        FdaState::UnableToDetermine
    );
    assert_eq!(
        fda_state_for_version(Some(FDA_PROBE_OS_MAJOR_VERSION + 1), &probes),
        FdaState::UnableToDetermine
    );
    assert_eq!(
        fda_state_for_version(Some(28), &probes),
        FdaState::UnableToDetermine
    );
    assert_eq!(fda_state_for_version(Some(26), &probes), FdaState::Verified);
}

#[test]
fn fda_probe_verified_when_all_existing_targets_open() {
    let all = vec![TargetProbe::Opened; 3];
    assert_eq!(fda_state_for_version(Some(26), &all), FdaState::Verified);
    let partial = vec![
        TargetProbe::Opened,
        TargetProbe::Missing,
        TargetProbe::Opened,
    ];
    assert_eq!(fda_state_for_version(Some(26), &partial), FdaState::Verified);
}

#[test]
fn fda_probe_unable_when_no_targets_exist() {
    assert_eq!(
        fda_state_for_version(Some(26), &vec![TargetProbe::Missing; 3]),
        FdaState::UnableToDetermine
    );
}

#[test]
fn fda_probe_not_verified_when_every_existing_target_denies() {
    assert_eq!(
        fda_state_for_version(Some(26), &vec![TargetProbe::Denied; 3]),
        FdaState::NotVerified
    );
}

#[test]
fn fda_probe_unable_on_mixed_accessibility() {
    let mixed = vec![
        TargetProbe::Opened,
        TargetProbe::Denied,
        TargetProbe::Denied,
    ];
    assert_eq!(
        fda_state_for_version(Some(26), &mixed),
        FdaState::UnableToDetermine
    );
    assert_eq!(
        fda_state_for_version(Some(26), &vec![TargetProbe::Opened, TargetProbe::Failed]),
        FdaState::UnableToDetermine
    );
}

#[test]
fn a_started_process_is_recorded_and_stopped_once() {
    let mut world = world("opencode");
    let mut supervisor = world.stopped();
    let started = world.handle(&mut supervisor, Command::Start);
    assert!(started.ok);
    assert_eq!(world.spawned, 1);
    assert_eq!(supervisor.process_pid(), Some(4242));
    assert!(supervisor.runtime.process.is_some());
    assert!(supervisor.runtime.launch_pending.is_none());

    // A second start leaves the process alone.
    assert!(world.handle(&mut supervisor, Command::Start).ok);
    assert_eq!(world.spawned, 1);

    assert!(world.handle(&mut supervisor, Command::Stop).ok);
    assert_eq!(world.signals, vec![StopSignal::Terminate]);
    assert_eq!(world.state(&supervisor).server_state, ServerState::Stopping);
    world.now += 16 * SECOND;
    world.tick(&mut supervisor);
    assert_eq!(world.state(&supervisor).server_state, ServerState::StopTimedOut);
    assert!(world.handle(&mut supervisor, Command::ForceStop).ok);
    assert_eq!(world.signals, vec![StopSignal::Terminate, StopSignal::Kill]);
    world.exit = Some(ExitReason::Signaled(9));
    world.tick(&mut supervisor);
    assert_eq!(world.state(&supervisor).server_state, ServerState::Stopped);
    assert!(supervisor.runtime.process.is_none());
    world.now += 600 * SECOND;
    world.tick(&mut supervisor);
    assert_eq!(world.spawned, 1, "a requested stop stays stopped");
}

#[test]
fn recovery_gives_up_after_its_attempts() {
    let mut world = world("opencode");
    let mut supervisor = world.stopped();
    assert!(world.handle(&mut supervisor, Command::Start).ok);
    for _ in 0..20 {
        if world.running.is_some() {
            world.exit = Some(ExitReason::Exited(1));
        }
        world.tick(&mut supervisor);
        world.now += 31 * SECOND;
    }
    assert_eq!(world.spawned, 1 + RESTART_BACKOFF.len());
    let status = world.state(&supervisor);
    assert_eq!(status.server_state, ServerState::Failed);
    assert_eq!(
        status.notification.expect("notification").kind,
        NotificationKind::FinalFailure
    );
}

#[test]
fn nothing_is_started_without_a_durable_marker() {
    let mut world = world("opencode");
    let mut supervisor = world.stopped();
    // The desired state is written, the marker is not.
    world.saved = vec![
        RuntimeStateSaveOutcome::Durable,
        RuntimeStateSaveOutcome::Failed(Failure::other("disk full")),
    ];
    world.handle(&mut supervisor, Command::Start);
    assert_eq!(world.spawned, 0);
    assert_eq!(world.state(&supervisor).server_state, ServerState::Failed);
}

#[test]
fn a_command_whose_intent_cannot_be_written_changes_nothing() {
    let mut world = world("opencode");
    let mut supervisor = world.stopped();
    world.saved = vec![RuntimeStateSaveOutcome::Failed(Failure::other("disk full"))];
    let response = world.handle(&mut supervisor, Command::Start);
    assert!(!response.ok);
    assert_eq!(supervisor.runtime.desired_state, DesiredState::Stopped);
    assert_eq!(world.spawned, 0);
}

#[test]
fn a_recorded_process_is_taken_over_instead_of_started() {
    let mut world = world("opencode");
    let fingerprint =
        ConfigFingerprintKey::from_bytes([7; 32]).fingerprint(&world.config);
    world.running = Some(4242);
    let supervisor = world.boot(RuntimeState {
        desired_state: DesiredState::Running,
        process: Some(ProcessRecord {
            config_fingerprint: fingerprint,
            ..record(4242)
        }),
        ..RuntimeState::default()
    });
    assert_eq!(world.spawned, 0);
    assert_eq!(supervisor.process_pid(), Some(4242));
    let status = world.state(&supervisor);
    assert_eq!(status.server_state, ServerState::Healthy);
    assert_eq!(status.running_version.as_deref(), Some("1.2.3"));
}

#[test]
fn an_uninspectable_record_bars_starts_and_signals() {
    let mut world = world("opencode");
    world.identity = Err(());
    world.running = Some(4242);
    let mut supervisor = world.boot(RuntimeState {
        desired_state: DesiredState::Running,
        process: Some(record(4242)),
        ..RuntimeState::default()
    });
    assert!(supervisor.process.is_none());
    assert!(!world.handle(&mut supervisor, Command::Start).ok);
    world.handle(&mut supervisor, Command::Restart);
    world.handle(&mut supervisor, Command::ForceStop);
    assert_eq!(world.spawned, 0);
    assert!(world.signals.is_empty());
}

#[test]
fn a_healthy_answer_makes_the_server_healthy() {
    let mut world = world("opencode");
    let mut supervisor = world.stopped();
    world.handle(&mut supervisor, Command::Start);
    world.now += 2 * SECOND;
    world.tick(&mut supervisor);
    assert!(supervisor.health_checks.in_flight());
    world.health = Some(WorkerMessage::Ready(Ok(HealthResult {
        healthy: true,
        version: "7.7.7".to_owned(),
    })));
    world.now += SECOND;
    world.tick(&mut supervisor);
    let status = world.state(&supervisor);
    assert_eq!(status.server_state, ServerState::Healthy);
    assert_eq!(status.health, HealthState::Healthy);
    assert_eq!(status.running_version.as_deref(), Some("7.7.7"));
}

/// A query in flight for an executable, with its answer.
fn seed_query(
    world: &mut World,
    supervisor: &mut Supervisor,
    executable: &str,
    answer: Option<VersionQueryResult>,
) {
    supervisor.version_queries.version_query = Some(VersionQueryInFlight {
        dispatched: world.now,
        executable: executable.to_owned(),
    });
    world.version = answer.map(WorkerMessage::Ready);
}

fn poll_version(world: &mut World, supervisor: &mut Supervisor) {
    supervisor.timers.tick_at = world.now;
    world.run(supervisor, Task::PollVersion);
}

#[test]
fn due_uses_retry_interval_until_a_version_is_installed() {
    let mut world = world("vq-interval");
    let mut supervisor = world.stopped();
    let now = world.now;
    supervisor.version_queries.last_version_attempt = None;
    assert!(supervisor.version_query_due(now));

    supervisor.version_queries.last_version_attempt = Some(now - 30 * SECOND);
    assert!(supervisor.version_query_due(now));
    supervisor.texts.installed_version = Some("1.0.0".to_owned());
    assert!(!supervisor.version_query_due(now));
    supervisor.version_queries.last_version_attempt = Some(now - 70 * SECOND);
    assert!(supervisor.version_query_due(now));

    supervisor.latest_config = None;
    assert!(!supervisor.version_query_due(now));
}

#[test]
fn quarantined_executable_blocks_due_until_config_moves() {
    let mut world = world("vq-breaker");
    let mut supervisor = world.stopped();
    let now = world.now;
    supervisor.version_queries.last_version_attempt = None;

    supervisor.version_queries.version_query_quarantined_executable =
        Some("/not/the/configured/executable".to_owned());
    assert!(supervisor.version_query_due(now));

    supervisor.version_queries.version_query_quarantined_executable =
        Some(EXECUTABLE.to_owned());
    assert!(!supervisor.version_query_due(now));

    supervisor
        .latest_config
        .as_mut()
        .expect("latest config")
        .configured_executable = "/some/other/path".to_owned();
    assert!(supervisor.version_query_due(now));
}

#[test]
fn poll_applies_available_version_and_backfills_running() {
    let mut world = world("vq-available");
    let mut supervisor = world.stopped();
    seed_query(
        &mut world,
        &mut supervisor,
        EXECUTABLE,
        Some(VersionQueryResult::Available("9.8.7".to_owned())),
    );

    poll_version(&mut world, &mut supervisor);

    assert_eq!(supervisor.texts.installed_version.as_deref(), Some("9.8.7"));
    assert_eq!(supervisor.texts.running_version.as_deref(), Some("9.8.7"));
    assert!(supervisor.version_queries.last_version_attempt.is_some());
    assert!(supervisor.version_queries.version_query_quarantined_executable.is_none());
    assert!(!supervisor.version_queries.in_flight());
}

#[test]
fn poll_applies_unavailable_without_touching_versions() {
    let mut world = world("vq-unavailable");
    let mut supervisor = world.stopped();
    seed_query(
        &mut world,
        &mut supervisor,
        EXECUTABLE,
        Some(VersionQueryResult::Unavailable),
    );

    poll_version(&mut world, &mut supervisor);

    assert!(supervisor.texts.installed_version.is_none());
    assert!(supervisor.texts.running_version.is_none());
    assert!(supervisor.version_queries.last_version_attempt.is_some());
    assert!(!supervisor.version_queries.in_flight());
}

#[test]
fn poll_quarantined_clears_installed_and_opens_the_breaker() {
    let mut world = world("vq-quarantined");
    let mut supervisor = world.stopped();
    supervisor.texts.installed_version = Some("1.0.0".to_owned());
    seed_query(
        &mut world,
        &mut supervisor,
        EXECUTABLE,
        Some(VersionQueryResult::Quarantined),
    );

    poll_version(&mut world, &mut supervisor);

    assert_eq!(supervisor.texts.installed_version, None);
    assert_eq!(
        supervisor
            .version_queries
            .version_query_quarantined_executable
            .as_deref(),
        Some(EXECUTABLE)
    );
    assert!(supervisor.version_queries.last_version_attempt.is_some());
    assert!(!supervisor.version_query_due(world.now));
}

#[test]
fn poll_discards_a_result_when_the_executable_changed() {
    let mut world = world("vq-stale-executable");
    let mut supervisor = world.stopped();
    seed_query(
        &mut world,
        &mut supervisor,
        "/the/old/configured/executable",
        Some(VersionQueryResult::Available("2.0.0".to_owned())),
    );

    poll_version(&mut world, &mut supervisor);

    assert_eq!(supervisor.texts.installed_version, None);
    assert!(supervisor.version_queries.last_version_attempt.is_some());
    assert!(!supervisor.version_queries.in_flight());
}

#[test]
fn poll_handles_a_disconnected_worker() {
    let mut world = world("vq-disconnected");
    let mut supervisor = world.stopped();
    supervisor.version_queries.version_query_overdue_logged = true;
    seed_query(&mut world, &mut supervisor, EXECUTABLE, None);
    world.version = Some(WorkerMessage::Disconnected);

    poll_version(&mut world, &mut supervisor);

    assert!(!supervisor.version_queries.in_flight());
    assert!(supervisor.version_queries.last_version_attempt.is_some());
    assert!(!supervisor.version_queries.version_query_overdue_logged);
}

#[test]
fn overdue_latch_fires_once_per_query() {
    let mut world = world("vq-overdue");
    let mut supervisor = world.stopped();
    seed_query(&mut world, &mut supervisor, EXECUTABLE, None);
    world.now += DEFAULT_VERSION_QUERY_TIMEOUT + 60 * SECOND;

    poll_version(&mut world, &mut supervisor);
    assert!(supervisor.version_queries.in_flight());
    assert!(supervisor.version_queries.version_query_overdue_logged);
    poll_version(&mut world, &mut supervisor);
    assert!(supervisor.version_queries.version_query_overdue_logged);

    world.version = Some(WorkerMessage::Ready(VersionQueryResult::Unavailable));
    poll_version(&mut world, &mut supervisor);
    assert!(!supervisor.version_queries.version_query_overdue_logged);
}

#[test]
fn single_flight_prevents_a_second_spawn_while_in_flight() {
    let mut world = world("vq-single-flight");
    let mut supervisor = world.stopped();
    supervisor.version_queries.last_version_attempt = None;
    seed_query(&mut world, &mut supervisor, EXECUTABLE, None);
    let started = world.version_queries;

    poll_version(&mut world, &mut supervisor);

    assert!(supervisor.version_queries.in_flight());
    assert_eq!(world.version_queries, started);
    world.version = Some(WorkerMessage::Ready(VersionQueryResult::Available(
        "4.5.6".to_owned(),
    )));
    poll_version(&mut world, &mut supervisor);
    assert_eq!(supervisor.texts.installed_version.as_deref(), Some("4.5.6"));
}

#[test]
fn shutdown_drains_the_in_flight_query() {
    let mut world = world("vq-shutdown-drain");
    let mut supervisor = world.stopped();
    seed_query(
        &mut world,
        &mut supervisor,
        EXECUTABLE,
        Some(VersionQueryResult::Available("3.2.1".to_owned())),
    );

    while supervisor.finish_version_query_for_shutdown(world.now) {
        world.drive(&mut supervisor);
    }

    assert!(!supervisor.version_queries.in_flight());
    assert_eq!(supervisor.texts.installed_version.as_deref(), Some("3.2.1"));
}

/// A read in flight for the configured account, with its answer.
fn seed_read(world: &mut World, supervisor: &mut Supervisor, read: Option<KeychainRead>) {
    supervisor.credentials.credential_refresh = Some(CredentialRefreshInFlight {
        dispatched: world.now,
        account: world.config.effective_username.clone(),
    });
    world.read = read.map(WorkerMessage::Ready);
}

fn marker(account: &str, version: &str, team: &str) -> Option<Grant> {
    Some(Grant {
        account: account.to_owned(),
        version: version.to_owned(),
        team: team.to_owned(),
    })
}

#[test]
fn mark_credential_changed_spends_the_grant_and_goes_access_pending() {
    let mut world = world("cc-changed");
    let mut supervisor = world.stopped();
    world.record("cc-changed", BUNDLE_VERSION, "");
    supervisor.credentials.credential_state = CredentialState::Available;
    supervisor.credentials.credential_explicitly_removed = true;

    let response = world.handle(&mut supervisor, Command::CredentialChanged);

    assert!(response.ok);
    assert_eq!(
        response.status.expect("status").password_state,
        PasswordState::AccessPending
    );
    assert_eq!(supervisor.credentials.state(), CredentialState::AccessPending);
    assert!(supervisor.credentials.credential_stale);
    assert!(!supervisor.credentials.credential_explicitly_removed);
    assert_eq!(world.marker, None);
    assert!(!supervisor.credentials.refresh_in_flight());
}

#[test]
fn mark_credential_removed_leaves_a_pending_refresh_to_be_discarded() {
    let mut world = world("cc-removed-pending");
    let mut supervisor = world.stopped();
    supervisor.credentials.credential_state = CredentialState::Available;
    seed_read(&mut world, &mut supervisor, None);

    let response = world.handle(&mut supervisor, Command::CredentialRemoved);

    assert!(response.ok);
    assert_eq!(supervisor.credentials.state(), CredentialState::NotConfigured);
    assert!(supervisor.credentials.credential_explicitly_removed);
    assert!(
        supervisor.credentials.refresh_in_flight(),
        "removal does not cancel a read already in flight"
    );
    world.read = Some(WorkerMessage::Ready(KeychainRead::Found(
        "resurrected-password".to_owned(),
    )));
    world.poll_credential_refresh(&mut supervisor);
    assert_eq!(supervisor.credentials.state(), CredentialState::NotConfigured);
    assert!(!supervisor.credentials.refresh_in_flight());
    assert_eq!(password(&supervisor), "");
}

#[test]
fn applied_found_password_records_the_grant_and_keeps_active_config() {
    let mut world = world("cc-found");
    let mut supervisor = world.stopped();
    seed_read(
        &mut world,
        &mut supervisor,
        Some(KeychainRead::Found("decrypted-password".to_owned())),
    );

    world.poll_credential_refresh(&mut supervisor);

    assert_eq!(supervisor.credentials.state(), CredentialState::Available);
    assert!(!supervisor.credentials.credential_stale);
    assert_eq!(world.marker, marker("cc-found", BUNDLE_VERSION, ""));
    assert_eq!(password(&supervisor), "decrypted-password");
    assert!(supervisor.process.is_none());
    assert!(supervisor.active_config.is_none());
}

#[test]
fn applied_not_configured_read_clears_password_and_grant() {
    let mut world = world("cc-not-configured");
    let mut supervisor = world.stopped();
    world.record("cc-not-configured", BUNDLE_VERSION, "");
    supervisor.credentials.credential_state = CredentialState::AccessPending;
    supervisor.credentials.credential_stale = true;
    set_password(&mut supervisor, "previous-password");
    seed_read(&mut world, &mut supervisor, Some(KeychainRead::NotConfigured));

    world.poll_credential_refresh(&mut supervisor);

    assert_eq!(supervisor.credentials.state(), CredentialState::NotConfigured);
    assert!(!supervisor.credentials.credential_stale);
    assert_eq!(world.marker, None);
    assert_eq!(password(&supervisor), "");
}

#[test]
fn applied_access_pending_read_clears_the_grant_but_keeps_the_password() {
    let mut world = world("cc-declined");
    let mut supervisor = world.stopped();
    world.record("cc-declined", BUNDLE_VERSION, "");
    supervisor.credentials.credential_state = CredentialState::Available;
    set_password(&mut supervisor, "carried-password");
    seed_read(&mut world, &mut supervisor, Some(KeychainRead::AccessPending));

    world.poll_credential_refresh(&mut supervisor);

    assert_eq!(supervisor.credentials.state(), CredentialState::AccessPending);
    assert_eq!(world.marker, None, "a declined prompt spends the grant marker");
    assert_eq!(password(&supervisor), "carried-password");
}

#[test]
fn applied_failed_read_reports_access_pending_and_keeps_the_grant() {
    let mut world = world("cc-failed");
    let mut supervisor = world.stopped();
    world.record("cc-failed", BUNDLE_VERSION, "");
    supervisor.credentials.credential_state = CredentialState::Available;
    seed_read(&mut world, &mut supervisor, Some(KeychainRead::Failed(-50)));

    world.poll_credential_refresh(&mut supervisor);

    assert_eq!(supervisor.credentials.state(), CredentialState::AccessPending);
    assert_eq!(world.marker, marker("cc-failed", BUNDLE_VERSION, ""));
}

#[test]
fn refresh_request_is_a_noop_while_a_read_is_in_flight() {
    let mut world = world("cc-single-flight");
    let mut supervisor = world.stopped();
    supervisor.credentials.credential_state = CredentialState::NotConfigured;
    supervisor.credentials.credential_explicitly_removed = true;
    seed_read(&mut world, &mut supervisor, None);

    world.handle(&mut supervisor, Command::RefreshCredentials);

    assert_eq!(world.reads, 0);
    assert!(
        supervisor.credentials.credential_explicitly_removed,
        "a no-op request must not clear the removal barrier"
    );
    world.read = Some(WorkerMessage::Ready(KeychainRead::NotConfigured));
    world.poll_credential_refresh(&mut supervisor);
    assert!(!supervisor.credentials.refresh_in_flight());
    assert_eq!(supervisor.credentials.state(), CredentialState::NotConfigured);
}

#[test]
fn overdue_latch_fires_once_and_resets_on_completion() {
    let mut world = world("cc-overdue");
    let mut supervisor = world.stopped();
    seed_read(&mut world, &mut supervisor, None);
    world.now += CREDENTIAL_REFRESH_OVERDUE + SECOND;
    supervisor.timers.tick_at = world.now;

    world.poll_credential_refresh(&mut supervisor);
    assert!(supervisor.credentials.refresh_in_flight());
    assert!(supervisor.credentials.credential_refresh_overdue_logged);
    world.poll_credential_refresh(&mut supervisor);
    assert!(supervisor.credentials.credential_refresh_overdue_logged);

    world.read = Some(WorkerMessage::Ready(KeychainRead::AccessPending));
    world.poll_credential_refresh(&mut supervisor);
    assert!(!supervisor.credentials.credential_refresh_overdue_logged);
}

#[test]
fn disconnected_worker_leaves_no_in_flight_read() {
    let mut world = world("cc-disconnected");
    let mut supervisor = world.stopped();
    supervisor.credentials.credential_state = CredentialState::AccessPending;
    supervisor.credentials.credential_refresh_overdue_logged = true;
    seed_read(&mut world, &mut supervisor, None);
    world.read = Some(WorkerMessage::Disconnected);

    world.poll_credential_refresh(&mut supervisor);

    assert!(!supervisor.credentials.refresh_in_flight());
    assert!(!supervisor.credentials.credential_refresh_overdue_logged);
    assert_eq!(supervisor.credentials.state(), CredentialState::AccessPending);
}

#[test]
fn merge_carried_password_stays_available() {
    let mut world = world("cc-carry");
    let mut supervisor = world.stopped();
    world.probe = KeychainProbe::Exists;
    set_password(&mut supervisor, "carried-password");

    assert_eq!(world.merge(&mut supervisor), "carried-password");
    assert_eq!(supervisor.credentials.state(), CredentialState::Available);
}

#[test]
fn merge_stale_config_carries_password_to_access_pending() {
    let mut world = world("cc-stale-merge");
    let mut supervisor = world.stopped();
    world.probe = KeychainProbe::Exists;
    supervisor.credentials.credential_stale = true;
    set_password(&mut supervisor, "carried-password");

    assert_eq!(
        world.merge(&mut supervisor),
        "carried-password",
        "the running process keeps its credential"
    );
    assert_eq!(supervisor.credentials.state(), CredentialState::AccessPending);
    assert!(supervisor.credentials.credential_stale);
}

#[test]
fn merge_unproven_grant_yields_empty_password_and_access_pending() {
    let mut world = world("cc-unproven");
    let mut supervisor = world.stopped();
    world.probe = KeychainProbe::Exists;
    world.own_team = Some(TEST_TEAM.to_owned());
    assert_eq!(password(&supervisor), "");

    assert_eq!(world.merge(&mut supervisor), "");
    assert_eq!(supervisor.credentials.state(), CredentialState::AccessPending);
    assert!(!supervisor.credentials.refresh_in_flight());
    assert_eq!(world.reads, 0);
}

#[test]
fn merge_matching_grant_dispatches_a_background_read() {
    let mut world = world("cc-matching-grant");
    let mut supervisor = world.stopped();
    world.probe = KeychainProbe::Exists;
    world.record("cc-matching-grant", BUNDLE_VERSION, "");

    assert_eq!(world.merge(&mut supervisor), "");
    assert_eq!(supervisor.credentials.state(), CredentialState::AccessPending);
    assert!(supervisor.credentials.refresh_in_flight());
}

#[test]
fn merge_not_configured_clears_password_and_grant() {
    let mut world = world("cc-not-configured-merge");
    let mut supervisor = world.stopped();
    world.record("cc-not-configured-merge", BUNDLE_VERSION, "");
    supervisor.credentials.credential_stale = true;
    world.config.source.password = "stale-password".to_owned();

    assert_eq!(world.merge(&mut supervisor), "");
    assert_eq!(supervisor.credentials.state(), CredentialState::NotConfigured);
    assert!(!supervisor.credentials.credential_stale);
    assert_eq!(world.marker, None);
}

#[test]
fn explicit_refresh_request_clears_removal_and_dispatches() {
    let mut world = world("cc-explicit-refresh");
    let mut supervisor = world.stopped();
    supervisor.credentials.credential_explicitly_removed = true;

    world.handle(&mut supervisor, Command::RefreshCredentials);

    assert!(!supervisor.credentials.credential_explicitly_removed);
    assert!(supervisor.credentials.refresh_in_flight());
    world.read = Some(WorkerMessage::Ready(KeychainRead::NotConfigured));
    world.poll_credential_refresh(&mut supervisor);
    assert!(!supervisor.credentials.refresh_in_flight());
    assert_eq!(supervisor.credentials.state(), CredentialState::NotConfigured);
}

#[test]
fn merge_version_mismatched_marker_with_matching_team_dispatches_a_silent_read() {
    let account = "cc-team-upgrade";
    let mut world = world(account);
    let mut supervisor = world.stopped();
    world.probe = KeychainProbe::Exists;
    world.own_team = Some(TEST_TEAM.to_owned());
    world.record(account, "previous-build", TEST_TEAM);

    assert_eq!(world.merge(&mut supervisor), "");
    assert_eq!(supervisor.credentials.state(), CredentialState::AccessPending);
    assert!(supervisor.credentials.refresh_in_flight());
    assert!(supervisor.credentials.automatic_read_attempted.contains(account));

    world.read = Some(WorkerMessage::Ready(KeychainRead::Found(
        "fixture-password".to_owned(),
    )));
    world.poll_credential_refresh(&mut supervisor);
    assert_eq!(supervisor.credentials.state(), CredentialState::Available);
    assert_eq!(world.marker, marker(account, BUNDLE_VERSION, TEST_TEAM));
    assert_eq!(password(&supervisor), "fixture-password");
}

#[test]
fn merge_version_mismatched_marker_without_matching_team_never_dispatches() {
    for (tag, recorded_team, own_team) in [
        ("team-mismatch", OTHER_TEAM, Some(TEST_TEAM)),
        ("team-adhoc-marker", "", Some(TEST_TEAM)),
        ("team-adhoc-self", TEST_TEAM, None),
    ] {
        let account = format!("cc-{tag}");
        let mut world = world(&account);
        let mut supervisor = world.stopped();
        world.probe = KeychainProbe::Exists;
        world.own_team = own_team.map(str::to_owned);
        world.record(&account, "previous-build", recorded_team);

        assert_eq!(world.merge(&mut supervisor), "", "{tag}");
        assert_eq!(
            supervisor.credentials.state(),
            CredentialState::AccessPending,
            "{tag}"
        );
        assert!(!supervisor.credentials.refresh_in_flight(), "{tag}");
        assert_eq!(
            world.marker,
            marker(&account, "previous-build", recorded_team),
            "{tag}: the marker is left untouched"
        );
    }
}

#[test]
fn credential_changed_with_matching_team_keeps_the_grant_and_re_reads_silently() {
    let account = "cc-team-changed";
    let mut world = world(account);
    let mut supervisor = world.stopped();
    world.own_team = Some(TEST_TEAM.to_owned());
    world.record(account, BUNDLE_VERSION, TEST_TEAM);
    supervisor.credentials.credential_state = CredentialState::Available;
    set_password(&mut supervisor, "old-password");

    let response = world.handle(&mut supervisor, Command::CredentialChanged);

    assert!(response.ok);
    assert_eq!(supervisor.credentials.state(), CredentialState::AccessPending);
    assert!(supervisor.credentials.credential_stale);
    assert_eq!(world.marker, marker(account, BUNDLE_VERSION, TEST_TEAM));
    assert!(supervisor.credentials.refresh_in_flight());
    assert_eq!(password(&supervisor), "old-password");

    world.read = Some(WorkerMessage::Ready(KeychainRead::Found(
        "new-password".to_owned(),
    )));
    world.poll_credential_refresh(&mut supervisor);
    assert_eq!(supervisor.credentials.state(), CredentialState::Available);
    assert!(!supervisor.credentials.credential_stale);
    assert_eq!(password(&supervisor), "new-password");
}

#[test]
fn credential_changed_with_mismatched_team_spends_the_grant_and_waits_for_the_click() {
    let account = "cc-team-mismatch-changed";
    let mut world = world(account);
    let mut supervisor = world.stopped();
    world.own_team = Some(TEST_TEAM.to_owned());
    world.record(account, BUNDLE_VERSION, OTHER_TEAM);
    supervisor.credentials.credential_state = CredentialState::Available;

    let response = world.handle(&mut supervisor, Command::CredentialChanged);

    assert!(response.ok);
    assert_eq!(supervisor.credentials.state(), CredentialState::AccessPending);
    assert!(supervisor.credentials.credential_stale);
    assert_eq!(world.marker, None);
    assert!(!supervisor.credentials.refresh_in_flight());
}

#[test]
fn automatic_silent_read_runs_once_per_account_until_a_fresh_grant() {
    let account = "cc-team-guard";
    let mut world = world(account);
    let mut supervisor = world.stopped();
    world.probe = KeychainProbe::Exists;
    world.own_team = Some(TEST_TEAM.to_owned());
    world.record(account, "previous-build", TEST_TEAM);

    world.merge(&mut supervisor);
    assert!(supervisor.credentials.refresh_in_flight());
    assert!(supervisor.credentials.automatic_read_attempted.contains(account));

    // A transient failure keeps the marker; the spent budget alone stops the
    // next merge from reading again.
    world.read = Some(WorkerMessage::Ready(KeychainRead::Failed(-50)));
    world.poll_credential_refresh(&mut supervisor);
    assert_eq!(world.marker, marker(account, "previous-build", TEST_TEAM));
    world.merge(&mut supervisor);
    assert!(!supervisor.credentials.refresh_in_flight());

    // A successful read that a person asked for renews the budget.
    world.handle(&mut supervisor, Command::RefreshCredentials);
    world.read = Some(WorkerMessage::Ready(KeychainRead::Found(
        "fixture-password".to_owned(),
    )));
    world.poll_credential_refresh(&mut supervisor);
    assert_eq!(supervisor.credentials.state(), CredentialState::Available);
    assert!(!supervisor.credentials.automatic_read_attempted.contains(account));

    world.record(account, "previous-build", TEST_TEAM);
    set_password(&mut supervisor, "");
    world.merge(&mut supervisor);
    assert!(supervisor.credentials.refresh_in_flight());
}

#[test]
fn credential_read_result_for_previous_username_is_discarded() {
    let mut world = world("credential-race-before");
    let mut supervisor = world.stopped();
    supervisor.credentials.credential_state = CredentialState::AccessPending;
    set_password(&mut supervisor, "current-account-password");
    seed_read(
        &mut world,
        &mut supervisor,
        Some(KeychainRead::Found("stale-account-password".to_owned())),
    );
    let config = supervisor.latest_config.as_mut().expect("loaded config");
    config.source.username = "credential-race-after".to_owned();
    config.effective_username = "credential-race-after".to_owned();

    world.poll_credential_refresh(&mut supervisor);

    let config = supervisor.latest_config.as_ref().expect("loaded config");
    assert_eq!(config.effective_username, "credential-race-after");
    assert_eq!(config.source.password, "current-account-password");
    assert_eq!(supervisor.credentials.state(), CredentialState::AccessPending);
    assert!(!supervisor.credentials.refresh_in_flight());
    assert_eq!(world.marker, None);
}

#[test]
fn first_credential_notice_moves_not_configured_to_fail_closed_access_pending() {
    let mut world = world("credential-created");
    let mut supervisor = world.stopped();
    supervisor.credentials.credential_state = CredentialState::NotConfigured;
    assert!(supervisor.action_capabilities().start);

    let response = world.handle(&mut supervisor, Command::CredentialChanged);

    assert!(response.ok);
    assert_eq!(
        response.status.expect("status").password_state,
        PasswordState::AccessPending
    );
    assert!(!supervisor.action_capabilities().start);
    let refused = world.handle(&mut supervisor, Command::Start);
    assert!(!refused.ok);
    assert_eq!(world.spawned, 0);
}

#[test]
fn explicit_credential_removal_converges_without_a_keychain_read() {
    let account = "credential-removed";
    let mut world = world(account);
    let mut supervisor = world.stopped();
    set_password(&mut supervisor, "carried-running-password");
    supervisor.active_config = supervisor.latest_config.clone();
    supervisor.credentials.credential_state = CredentialState::Available;
    supervisor.credentials.credential_stale = true;
    world.record(account, BUNDLE_VERSION, "");

    let response = world.handle(&mut supervisor, Command::CredentialRemoved);

    assert!(response.ok);
    assert_eq!(
        response.status.expect("status").password_state,
        PasswordState::NotConfigured
    );
    assert_eq!(supervisor.credentials.state(), CredentialState::NotConfigured);
    assert!(!supervisor.credentials.credential_stale);
    assert!(supervisor.credentials.credential_explicitly_removed);
    assert!(!supervisor.credentials.refresh_in_flight());
    assert_eq!(world.reads, 0);
    assert_eq!(world.marker, None);
    assert_eq!(password(&supervisor), "");
    assert_eq!(
        supervisor
            .active_config
            .as_ref()
            .expect("active config")
            .source
            .password,
        "carried-running-password",
        "the credential of the running process stays until it is restarted"
    );

    seed_read(
        &mut world,
        &mut supervisor,
        Some(KeychainRead::Found("stale-decrypt-result".to_owned())),
    );
    world.poll_credential_refresh(&mut supervisor);
    assert_eq!(supervisor.credentials.state(), CredentialState::NotConfigured);
    assert_eq!(world.marker, None);
    assert_eq!(password(&supervisor), "");
}

#[test]
fn a_quarantined_executable_is_known_by_its_components() {
    let mut world = world("vq-spelling");
    let mut supervisor = world.stopped();
    let now = world.now;
    supervisor.version_queries.last_version_attempt = None;
    supervisor.version_queries.version_query_quarantined_executable =
        Some("/opt//homebrew/./bin/opencode".to_owned());
    assert!(!supervisor.version_query_due(now));
}

#[test]
fn respelling_the_executable_leaves_nothing_pending() {
    let mut world = world("spelling");
    let mut supervisor = world.stopped();
    supervisor.active_config = Some(world.config.clone());
    let mut latest = world.config.clone();
    latest.configured_executable = "/opt/homebrew//bin/opencode".to_owned();
    supervisor.latest_config = Some(latest);
    assert!(!supervisor.status(world.now, 0, BUNDLE_VERSION).config_pending);

    let mut moved = world.config.clone();
    moved.configured_executable = "/usr/local/bin/opencode".to_owned();
    supervisor.latest_config = Some(moved);
    assert!(supervisor.status(world.now, 0, BUNDLE_VERSION).config_pending);
}

#[test]
fn a_blank_bundle_version_is_none() {
    assert_eq!(bundle_version(Some("57")), "57");
    assert_eq!(bundle_version(Some(" 57\n")), "57");
    assert_eq!(bundle_version(Some("")), "development");
    assert_eq!(bundle_version(Some("  ")), "development");
    assert_eq!(bundle_version(None), BUNDLE_VERSION);
}

#[test]
fn a_version_is_one_line_of_text() {
    let read = |bytes: &[u8]| VersionQueryResult::from_output(bytes.to_vec());
    assert_eq!(read(b" 1.2.3\n"), VersionQueryResult::Available("1.2.3".to_owned()));
    assert_eq!(read(b""), VersionQueryResult::Unavailable);
    assert_eq!(read(b" \n"), VersionQueryResult::Unavailable);
    assert_eq!(read(b"1.2\n1.3"), VersionQueryResult::Unavailable);
    assert_eq!(read(&[0x31, 0xff]), VersionQueryResult::Unavailable);
    assert_eq!(read(&[b'1'; 4096]), VersionQueryResult::Available("1".repeat(4096)));
    assert_eq!(read(&[b'1'; 4097]), VersionQueryResult::Unavailable);
}
