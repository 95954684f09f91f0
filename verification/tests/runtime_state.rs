use opencodeserver::failure::{Failure, FailureKind};
use opencodeserver::private_file::FileFacts;
use opencodeserver::protocol::DesiredState;
use opencodeserver::runtime_state::{
    fail_runtime_state_directory_sync_after_for_tests, fail_runtime_state_save_after_for_tests,
    fail_runtime_state_saves_for_tests, test_directory_sync_failure_requested,
    test_save_failure_requested, write_json_atomically, FaultTable, RuntimeState,
    RuntimeStateSaveOutcome, WriteProgress, WriteStage,
};

fn facts() -> FileFacts {
    FileFacts {
        is_symlink: false,
        is_file: true,
        len: 90,
        uid: 501,
        mode: 0o100600,
        device: 1,
        inode: 1,
    }
}

fn broken() -> Failure {
    Failure::new(FailureKind::Other, "disk full")
}

#[test]
fn default_desires_running() {
    assert_eq!(RuntimeState::default().desired_state, DesiredState::Running);
    assert_eq!(RuntimeState::default().schema_version, 2);
}

#[test]
fn state_round_trips_without_credentials() {
    let loaded = RuntimeState::load(Ok(facts()), 501, Ok(RuntimeState::default()))
        .ok()
        .expect("load");
    assert!(loaded == RuntimeState::default());
    assert!(RuntimeState::save(RuntimeStateSaveOutcome::Durable).is_ok());
    assert!(RuntimeState::save(RuntimeStateSaveOutcome::Uncertain(broken())).is_err());
    assert!(RuntimeState::save(RuntimeStateSaveOutcome::Failed(broken())).is_err());
}

#[test]
fn state_file_accessible_by_group_or_other_is_rejected() {
    let mut shared = facts();
    shared.mode = 0o100644;
    let error = RuntimeState::load(Ok(shared), 501, Ok(RuntimeState::default()))
        .err()
        .expect("must be rejected");
    assert_eq!(error.kind, FailureKind::PermissionDenied);
}

#[test]
fn dangling_runtime_state_symlink_is_not_first_run() {
    let mut linked = facts();
    linked.is_symlink = true;
    linked.is_file = false;
    let error = RuntimeState::load(
        Ok(linked),
        501,
        Err(Failure::new(FailureKind::NotFound, "no such file")),
    )
    .err()
    .expect("dangling symlink must fail closed");
    assert_eq!(error.kind, FailureKind::InvalidData);
}

#[test]
fn runtime_state_load_propagates_non_not_found_path_errors() {
    let error = RuntimeState::load(
        Err(Failure::new(FailureKind::Other, "not a directory")),
        501,
        Ok(RuntimeState::default()),
    )
    .err()
    .expect("path errors must not look like first run");
    assert_eq!(error.kind, FailureKind::Other);
    let first = RuntimeState::load(
        Err(Failure::new(FailureKind::NotFound, "no such file")),
        501,
        Ok(RuntimeState::default()),
    )
    .ok()
    .expect("first run");
    assert!(first == RuntimeState::default());
}

#[test]
fn current_runtime_schema_without_launch_marker_remains_readable() {
    let stopped = RuntimeState {
        desired_state: DesiredState::Stopped,
        ..RuntimeState::default()
    };
    let state = RuntimeState::load(Ok(facts()), 501, Ok(stopped))
        .ok()
        .expect("load current state fixture");
    assert_eq!(state.desired_state, DesiredState::Stopped);
    assert!(state.launch_pending.is_none());
}

#[test]
fn previous_runtime_schema_is_rejected_without_migration() {
    let old = RuntimeState {
        schema_version: 1,
        ..RuntimeState::default()
    };
    assert!(RuntimeState::load(Ok(facts()), 501, Ok(old)).is_err());
}

#[test]
fn a_write_is_durable_only_after_its_directory_is_synced() {
    let mut stage = match RuntimeState::save_with_durability(false) {
        WriteProgress::Perform(stage) => stage,
        WriteProgress::Finished { .. } => panic!("nothing was written"),
    };
    let mut performed = vec![stage];
    let outcome = loop {
        match write_json_atomically(stage, Ok(())) {
            WriteProgress::Perform(next) => {
                performed.push(next);
                stage = next;
            }
            WriteProgress::Finished { outcome, remove_temporary } => {
                assert!(!remove_temporary);
                break outcome;
            }
        }
    };
    assert_eq!(outcome, RuntimeStateSaveOutcome::Durable);
    assert_eq!(performed.last(), Some(&WriteStage::SyncParent));

    match write_json_atomically(WriteStage::SyncParent, Err(broken())) {
        WriteProgress::Finished { outcome, .. } => {
            assert_eq!(outcome, RuntimeStateSaveOutcome::Uncertain(broken()));
        }
        WriteProgress::Perform(_) => panic!("a failed sync ends the write"),
    }
    match write_json_atomically(WriteStage::Rename, Err(broken())) {
        WriteProgress::Finished { outcome, remove_temporary } => {
            assert_eq!(outcome, RuntimeStateSaveOutcome::Failed(broken()));
            assert!(remove_temporary);
        }
        WriteProgress::Perform(_) => panic!("a failed rename ends the write"),
    }
}

#[test]
fn injected_faults_strike_after_their_successes() {
    let mut table = FaultTable::new();
    let guard = fail_runtime_state_save_after_for_tests(&mut table, "/state.json", 1);
    assert!(!test_save_failure_requested(&mut table, "/state.json"));
    assert!(test_save_failure_requested(&mut table, "/state.json"));
    assert!(!test_save_failure_requested(&mut table, "/other.json"));
    guard.release(&mut table);
    assert!(!test_save_failure_requested(&mut table, "/state.json"));

    let always = fail_runtime_state_saves_for_tests(&mut table, "/state.json");
    assert!(test_save_failure_requested(&mut table, "/state.json"));
    assert!(test_save_failure_requested(&mut table, "/state.json"));
    always.release(&mut table);

    let sync = fail_runtime_state_directory_sync_after_for_tests(&mut table, "/state.json", 0);
    assert!(test_directory_sync_failure_requested(&mut table, "/state.json"));
    sync.release(&mut table);
}

#[test]
fn an_injected_fault_is_found_by_the_components_of_its_path() {
    let mut table = FaultTable::new();
    let guard = fail_runtime_state_saves_for_tests(&mut table, "/tmp//state.json");
    assert!(test_save_failure_requested(&mut table, "/tmp/./state.json"));
    assert!(!test_save_failure_requested(&mut table, "tmp/state.json"));
    guard.release(&mut table);
    assert!(!test_save_failure_requested(&mut table, "/tmp/state.json"));
}
