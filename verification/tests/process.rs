use opencodeserver::config::{ConfigFile, ValidatedConfig};
use opencodeserver::config_fingerprint::ConfigFingerprint;
use opencodeserver::failure::{Failure, FailureKind};
use opencodeserver::platform::{ChildExitObservation, ProcessSnapshot};
use opencodeserver::process::{
    ensure_endpoint_available, identity_probe, inspect_record_identity, paths_equal,
    signal_attached, ExitReason, GroupSignal, IdentityProbe, ManagedProcess, RecordIdentity,
    SignalEvidence, SnapshotStep, SnapshotWait, SpawnError, SpawnPlan,
};
use opencodeserver::process_cleanup::{
    after_inspect, after_peek, after_reap, after_signal, classify_child_exit, classify_exit,
    poll_owned_child, poll_pending_group, shutdown_unregistered_child, ChildPoll,
    PendingGroupCleanup, PollOrigin, PollStep, StopFact, StopStep, UnregisteredChildShutdown,
    UnregisteredStop,
};
use opencodeserver::process_group::{
    observe_owned, signal_owned, GroupFacts, GroupObservation, SignalFacts,
};
use opencodeserver::process_start::{SpawnFact, SpawnRest, SpawnStage, SpawnStep};
use opencodeserver::runtime_state::ProcessRecord;

const UID: u32 = 501;

fn record_fixture() -> ProcessRecord {
    ProcessRecord {
        pid: 4242,
        process_group_id: 4242,
        start_seconds: 1_700_000_000,
        start_microseconds: 123_456,
        executable: "/opt/fixture/bin/opencode".to_owned(),
        started_at_unix_seconds: 1_700_000_000,
        running_version: None,
        config_fingerprint: ConfigFingerprint {
            version: 1,
            hmac_sha256: "00".repeat(32),
        },
        identity_unconfirmed: false,
    }
}

fn snapshot_fixture(record: &ProcessRecord) -> ProcessSnapshot {
    ProcessSnapshot {
        pid: record.pid,
        parent_pid: 1,
        process_group_id: record.process_group_id,
        effective_uid: UID,
        start_seconds: record.start_seconds,
        start_microseconds: record.start_microseconds,
        executable: Some(record.executable.clone()),
    }
}

fn probe(snapshot: &ProcessSnapshot, record: &ProcessRecord) -> IdentityProbe {
    let same = match &snapshot.executable {
        Some(path) => paths_equal(path, &record.executable, &None, &None),
        None => false,
    };
    identity_probe(snapshot, record, UID, same)
}

fn config(hostname: &str, password: &str) -> ValidatedConfig {
    ValidatedConfig {
        source: ConfigFile {
            hostname: hostname.to_owned(),
            password: password.to_owned(),
            mdns: true,
            ..ConfigFile::default()
        },
        configured_executable: "/opt/opencode".to_owned(),
        canonical_executable: "/opt/opencode".to_owned(),
        effective_username: "opencode".to_owned(),
    }
}

fn gone() -> Failure {
    Failure::new(FailureKind::NoSuchProcess, "no such process")
}

#[test]
fn identical_snapshot_is_a_full_match() {
    let record = record_fixture();
    let snapshot = snapshot_fixture(&record);
    assert_eq!(probe(&snapshot, &record), IdentityProbe::Match);
}

#[test]
fn matching_process_identity_with_a_new_group_is_group_escape() {
    let record = record_fixture();
    let mut snapshot = snapshot_fixture(&record);
    snapshot.process_group_id += 1;
    assert_eq!(probe(&snapshot, &record), IdentityProbe::GroupEscaped);
}

#[test]
fn vanished_executable_still_identifies_the_process() {
    let record = record_fixture();
    let mut snapshot = snapshot_fixture(&record);
    snapshot.executable = None;
    assert_eq!(probe(&snapshot, &record), IdentityProbe::ExecutableVanished);
}

#[test]
fn a_different_executable_path_is_an_executable_mismatch() {
    let record = record_fixture();
    let mut snapshot = snapshot_fixture(&record);
    snapshot.executable = Some("/opt/other/bin/opencode".to_owned());
    assert_eq!(probe(&snapshot, &record), IdentityProbe::ExecutableMismatch);
}

#[test]
fn a_vanished_executable_does_not_rescue_a_reused_pid() {
    let record = record_fixture();
    let mut snapshot = snapshot_fixture(&record);
    snapshot.executable = None;
    snapshot.start_seconds += 1;
    assert_eq!(probe(&snapshot, &record), IdentityProbe::Mismatch);
    let mut snapshot = snapshot_fixture(&record);
    snapshot.executable = None;
    snapshot.start_microseconds += 1;
    assert_eq!(probe(&snapshot, &record), IdentityProbe::Mismatch);
}

#[test]
fn inspections_tell_missing_from_failed() {
    let record = record_fixture();
    assert_eq!(
        inspect_record_identity(Err(gone()), &record, UID, true),
        Ok(RecordIdentity::Missing)
    );
    let denied = Failure::new(FailureKind::PermissionDenied, "denied");
    assert!(inspect_record_identity(Err(denied), &record, UID, true).is_err());
    assert_eq!(
        inspect_record_identity(Ok(snapshot_fixture(&record)), &record, UID, true),
        Ok(RecordIdentity::Current)
    );
}

#[test]
fn canonical_paths_decide_where_they_are_known() {
    let real = Some("/real/opencode".to_owned());
    assert!(paths_equal("/a", "/b", &real, &Some("/real/opencode".to_owned())));
    assert!(!paths_equal("/a", "/b", &None, &None));
    assert!(paths_equal("/a", "/a", &None, &None));
}

#[test]
fn classifies_normal_exit() {
    assert_eq!(classify_exit(Some(0), None), ExitReason::Exited(0));
    assert_eq!(classify_exit(None, Some(15)), ExitReason::Signaled(15));
    assert_eq!(classify_exit(None, None), ExitReason::Disappeared);
}

#[test]
fn classifies_waitid_exit_observations() {
    assert_eq!(
        classify_child_exit(ChildExitObservation {
            code: Some(7),
            signal: None,
        }),
        ExitReason::Exited(7)
    );
    assert_eq!(
        classify_child_exit(ChildExitObservation {
            code: None,
            signal: Some(libc::SIGTERM),
        }),
        ExitReason::Signaled(libc::SIGTERM)
    );
}

#[test]
fn live_listener_fails_the_endpoint_probe() {
    let busy = Err(Failure::new(FailureKind::AddrInUse, "address in use"));
    let error = ensure_endpoint_available(&config("127.0.0.1", ""), Ok(1), busy)
        .expect_err("occupied endpoint");
    assert_eq!(error.kind, FailureKind::AddrInUse);
}

#[test]
fn stale_time_wait_does_not_fail_the_endpoint_probe() {
    assert!(ensure_endpoint_available(&config("127.0.0.1", ""), Ok(1), Ok(())).is_ok());
}

#[test]
fn a_plan_carries_the_password_in_the_environment_only() {
    let plan = SpawnPlan::new(&config("127.0.0.1", "secret"));
    assert_eq!(plan.program, "/opt/opencode");
    assert_eq!(plan.arguments[0], "serve");
    assert!(plan.arguments.iter().all(|argument| !argument.contains("secret")));
    assert_eq!(
        plan.credentials,
        Some(("opencode".to_owned(), "secret".to_owned()))
    );
    assert_eq!(SpawnPlan::new(&config("127.0.0.1", "")).credentials, None);
}

#[test]
fn a_child_is_confirmed_once_its_snapshot_settles() {
    let record = record_fixture();
    let mut wait = SnapshotWait::new();
    let first = wait.wait_for_snapshot_with(Ok(snapshot_fixture(&record)), true);
    assert!(matches!(first, SnapshotStep::Settle));
    let second = wait.wait_for_snapshot_with(Ok(snapshot_fixture(&record)), true);
    assert!(matches!(second, SnapshotStep::Accept(_)));
}

#[test]
fn an_unseen_child_is_given_up_after_its_attempts() {
    let mut wait = SnapshotWait::new();
    let mut looks = 0;
    loop {
        looks += 1;
        match wait.wait_for_snapshot_with(Err(gone()), false) {
            SnapshotStep::GiveUp { .. } => break,
            SnapshotStep::Accept(_) => panic!("nothing was seen"),
            _ => {}
        }
        assert!(looks < 100);
    }
    assert_eq!(looks, 20);
}

#[test]
fn an_exit_waits_for_its_group() {
    let observed = ChildExitObservation { code: Some(0), signal: None };
    assert_eq!(
        poll_owned_child(None, false, false),
        ChildPoll::Peek { identity_unconfirmed: false }
    );
    let inspected = match after_peek(false, Ok(Some(observed))) {
        PollStep::Continue(ChildPoll::Inspect { observed }) => observed,
        other => panic!("unexpected {other:?}"),
    };
    let pending = match after_inspect(inspected, Ok(None)) {
        PollStep::Continue(ChildPoll::Observe { pending, .. }) => pending,
        other => panic!("unexpected {other:?}"),
    };
    let step = poll_pending_group(pending, PollOrigin::Fresh, Ok(GroupObservation::HasMembers));
    let pending = match step {
        PollStep::Continue(ChildPoll::Signal { pending }) => pending,
        other => panic!("unexpected {other:?}"),
    };
    let pending = match after_signal(pending, Ok(())) {
        PollStep::Finished { cleanup: Some(cleanup), exit: Ok(None) } => cleanup,
        other => panic!("unexpected {other:?}"),
    };
    assert!(pending.terminate_requested());
    let step = poll_pending_group(pending, PollOrigin::Pending, Ok(GroupObservation::Empty));
    let (pending, origin) = match step {
        PollStep::Continue(ChildPoll::Reap { pending, origin }) => (pending, origin),
        other => panic!("unexpected {other:?}"),
    };
    assert_eq!(
        after_reap(pending, origin, Ok(ExitReason::Exited(0))),
        PollStep::Finished { cleanup: None, exit: Ok(Some(ExitReason::Exited(0))) }
    );
}

#[test]
fn a_refused_cleanup_sends_no_signal() {
    let mut pending = PendingGroupCleanup::new(ExitReason::Exited(0));
    pending.refuse_signals();
    let step = poll_pending_group(pending, PollOrigin::Pending, Ok(GroupObservation::HasMembers));
    assert!(!matches!(step, PollStep::Continue(ChildPoll::Signal { .. })));
}

#[test]
fn an_unregistered_child_is_reaped_or_kept() {
    let gone = shutdown_unregistered_child(
        UnregisteredStop::Reap { pending: PendingGroupCleanup::new(ExitReason::Exited(1)) },
        StopFact::Reaped(Ok(ExitReason::Exited(1))),
    );
    assert_eq!(
        gone,
        Some(StopStep::Ended(UnregisteredChildShutdown::Reaped(ExitReason::Exited(1))))
    );
    let kept = shutdown_unregistered_child(
        UnregisteredStop::Rest { cleanup: None, terminate_requested: true },
        StopFact::Rested(true),
    );
    assert_eq!(
        kept,
        Some(StopStep::Ended(UnregisteredChildShutdown::Survived { cleanup: None }))
    );
}

#[test]
fn a_lost_identity_bars_every_signal() {
    let mut process = ManagedProcess::Child {
        record: record_fixture(),
        cleanup: None,
        identity_failed: false,
    };
    assert!(process.signal_authorized());
    assert!(process.signal_gate().is_ok());
    process.mark_identity_failed();
    assert!(!process.signal_authorized());
    assert!(process.signal_gate().is_err());
}

#[test]
fn an_attached_process_is_signaled_only_while_it_matches() {
    let record = record_fixture();
    assert_eq!(signal_attached(&record, Ok(true), 99), Ok(4242));
    assert!(signal_attached(&record, Ok(false), 99).is_err());
    assert!(signal_attached(&record, Ok(true), 4242).is_err());
}

#[test]
fn one_foreign_member_bars_the_group() {
    let record = record_fixture();
    let mut foreign = snapshot_fixture(&record);
    foreign.pid = 5000;
    foreign.effective_uid = 0;
    let facts = GroupFacts {
        members: Ok(vec![4242, 5000]),
        snapshots: vec![Ok(snapshot_fixture(&record)), Ok(foreign)],
    };
    assert!(observe_owned(&record, 4242, &facts, UID, 99).is_err());
    let signal = SignalFacts {
        leader_exited: false,
        leader: Ok(snapshot_fixture(&record)),
        peek: Ok(None),
        group: facts,
    };
    assert!(signal_owned(&record, 4242, signal, UID, 99).is_err());
}

#[test]
fn an_owned_group_is_signaled_as_a_whole() {
    let record = record_fixture();
    let signal = SignalFacts {
        leader_exited: false,
        leader: Ok(snapshot_fixture(&record)),
        peek: Ok(None),
        group: GroupFacts {
            members: Ok(vec![4242]),
            snapshots: vec![Ok(snapshot_fixture(&record))],
        },
    };
    assert_eq!(signal_owned(&record, 4242, signal, UID, 99), Ok(4242));
}

#[test]
fn a_survivor_is_handed_back_with_its_record() {
    let survived = SpawnError::terminate_unconfirmed_child(
        Failure::other("identity was not confirmed"),
        record_fixture(),
        UnregisteredChildShutdown::Survived { cleanup: None },
    );
    let (_, survivor) = survived.into_parts();
    assert!(survivor.expect("survivor").record() == &record_fixture());
    let reaped = SpawnError::terminate_unconfirmed_child(
        Failure::other("identity was not confirmed"),
        record_fixture(),
        UnregisteredChildShutdown::Reaped(ExitReason::Exited(0)),
    );
    assert!(reaped.into_parts().1.is_none());
    assert_eq!(
        SpawnError::without_process(Failure::new(FailureKind::AddrInUse, "busy")).kind(),
        FailureKind::AddrInUse
    );
}

#[test]
fn exits_are_worded() {
    assert_eq!(ExitReason::Exited(3).text(), "exited with status 3");
    assert_eq!(ExitReason::Signaled(9).text(), "terminated by signal 9");
}

fn next(stage: SpawnStage, fact: SpawnFact) -> SpawnStep {
    ManagedProcess::spawn(
        stage,
        fact,
        &config("127.0.0.1", ""),
        &Some("1.2.3".to_owned()),
        &record_fixture().config_fingerprint,
        77,
    )
    .expect("the fact answers the stage")
}

fn confirming(step: SpawnStep) -> (SpawnStage, SpawnRest) {
    match step {
        SpawnStep::Continue { stage, rest } => (stage, rest),
        SpawnStep::Finished(_) => panic!("the start is not over"),
    }
}

#[test]
fn a_start_checks_starts_and_confirms() {
    let record = record_fixture();
    let look = || SpawnFact::Looked {
        look: Ok(snapshot_fixture(&record)),
        same_executable: true,
    };
    let (stage, _) = confirming(next(SpawnStage::Endpoint, SpawnFact::Endpoint(Ok(()))));
    assert!(matches!(stage, SpawnStage::Start));
    let (stage, _) = confirming(next(stage, SpawnFact::Started(Ok(4242))));
    let (stage, rest) = confirming(next(stage, look()));
    assert_eq!(rest, SpawnRest::Settle);
    match next(stage, look()) {
        SpawnStep::Finished(Ok(process)) => {
            assert!(process.is_owned_child());
            assert_eq!(process.record().pid, 4242);
            assert_eq!(process.record().running_version.as_deref(), Some("1.2.3"));
            assert_eq!(process.record().started_at_unix_seconds, 77);
            assert!(!process.record().identity_unconfirmed);
        }
        _ => panic!("the start succeeded"),
    }
}

#[test]
fn an_occupied_endpoint_starts_nothing() {
    let taken = Failure::new(FailureKind::AddrInUse, "taken");
    match next(SpawnStage::Endpoint, SpawnFact::Endpoint(Err(taken))) {
        SpawnStep::Finished(Err(failed)) => {
            assert_eq!(failed.kind(), FailureKind::AddrInUse);
            assert!(failed.survivor.is_none());
        }
        _ => panic!("the start failed"),
    }
}

#[test]
fn a_child_outside_its_group_is_stopped_and_kept_where_it_survives() {
    let record = record_fixture();
    let mut elsewhere = snapshot_fixture(&record);
    elsewhere.process_group_id = 99;
    let look = |snapshot: &ProcessSnapshot| SpawnFact::Looked {
        look: Ok(snapshot.clone()),
        same_executable: true,
    };
    let (stage, _) = confirming(next(SpawnStage::Start, SpawnFact::Started(Ok(4242))));
    let (stage, _) = confirming(next(stage, look(&elsewhere)));
    let (stage, rest) = confirming(next(stage, look(&elsewhere)));
    assert_eq!(rest, SpawnRest::AtOnce);
    let shutdown = UnregisteredChildShutdown::Survived { cleanup: None };
    match next(stage, SpawnFact::Stopped(shutdown)) {
        SpawnStep::Finished(Err(failed)) => {
            assert_eq!(
                failed.error.message,
                "OpenCode did not enter its dedicated process group"
            );
            let survivor = failed.survivor.expect("the child is kept");
            assert!(survivor.record().identity_unconfirmed);
            assert_eq!(survivor.record().start_seconds, 0);
        }
        _ => panic!("the start failed"),
    }
}

#[test]
fn an_unseen_child_that_was_reaped_leaves_nothing_behind() {
    let (mut stage, _) = confirming(next(SpawnStage::Start, SpawnFact::Started(Ok(4242))));
    let mut looks = 0;
    while matches!(stage, SpawnStage::Confirm { .. }) {
        looks += 1;
        let unseen = SpawnFact::Looked { look: Err(gone()), same_executable: false };
        stage = confirming(next(stage, unseen)).0;
    }
    assert_eq!(looks, 20);
    let reaped = UnregisteredChildShutdown::Reaped(ExitReason::Exited(0));
    match next(stage, SpawnFact::Stopped(reaped)) {
        SpawnStep::Finished(Err(failed)) => {
            assert_eq!(failed.error, gone());
            assert!(failed.survivor.is_none());
        }
        _ => panic!("the start failed"),
    }
}

#[test]
fn a_fact_about_another_stage_is_not_taken() {
    let step = ManagedProcess::spawn(
        SpawnStage::Start,
        SpawnFact::Endpoint(Ok(())),
        &config("127.0.0.1", ""),
        &None,
        &record_fixture().config_fingerprint,
        77,
    );
    assert!(step.is_none());
}

#[test]
fn signals_address_the_group_of_an_authorized_process() {
    let record = record_fixture();
    let evidence = || SignalEvidence::Child {
        leader_pid: 4242,
        facts: SignalFacts {
            leader_exited: false,
            leader: Ok(snapshot_fixture(&record)),
            peek: Ok(None),
            group: GroupFacts {
                members: Ok(vec![4242]),
                snapshots: vec![Ok(snapshot_fixture(&record))],
            },
        },
    };
    let mut process = ManagedProcess::Child {
        record: record_fixture(),
        cleanup: None,
        identity_failed: false,
    };
    assert_eq!(
        process.send_terminate(evidence(), UID, 99),
        Ok(GroupSignal { process_group_id: 4242, signal: 15 })
    );
    assert_eq!(
        process.send_kill(evidence(), UID, 99),
        Ok(GroupSignal { process_group_id: 4242, signal: 9 })
    );
    assert!(process.send_kill(evidence(), UID, 4242).is_err());
    process.mark_identity_failed();
    assert!(process.send_terminate(evidence(), UID, 99).is_err());
    let attached = ManagedProcess::attach(record_fixture());
    assert_eq!(
        attached.send_terminate(SignalEvidence::Attached { identity: Ok(true) }, UID, 99),
        Ok(GroupSignal { process_group_id: 4242, signal: 15 })
    );
    assert!(attached
        .send_terminate(SignalEvidence::Attached { identity: Ok(false) }, UID, 99)
        .is_err());
}

#[test]
fn paths_without_canonical_forms_are_compared_by_components() {
    assert!(paths_equal("/opt//bin/opencode", "/opt/bin/./opencode", &None, &None));
    assert!(!paths_equal("/opt/bin/opencode", "opt/bin/opencode", &None, &None));
    assert!(paths_equal(
        "/usr/bin/a",
        "/opt/bin/b",
        &Some("/real".to_owned()),
        &Some("/real/".to_owned())
    ));
    assert!(!paths_equal(
        "/usr/bin/a",
        "/usr/bin/a",
        &Some("/real".to_owned()),
        &Some("/other".to_owned())
    ));
    assert!(paths_equal("/a", "/a/", &Some("/real".to_owned()), &None));
}
