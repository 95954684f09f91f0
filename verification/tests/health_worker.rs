use opencodeserver::config_fingerprint::ConfigFingerprint;
use opencodeserver::health::HealthResult;
use opencodeserver::runtime_state::ProcessRecord;
use opencodeserver::supervisor::credential::WorkerMessage;
use opencodeserver::supervisor::health_worker::{HealthCheckCoordinator, HealthCheckKey};
use opencodeserver::supervisor::SECOND;

fn record(pid: u32) -> ProcessRecord {
    ProcessRecord {
        pid,
        process_group_id: pid,
        start_seconds: 1,
        start_microseconds: u64::from(pid),
        executable: "/tmp/opencode".to_owned(),
        started_at_unix_seconds: 1,
        running_version: None,
        config_fingerprint: ConfigFingerprint {
            version: 1,
            hmac_sha256: format!("{pid:064x}"),
        },
        identity_unconfirmed: false,
    }
}

fn healthy() -> HealthResult {
    HealthResult {
        healthy: true,
        version: "fixture".to_owned(),
    }
}

#[test]
fn health_worker_is_single_flight_and_drops_a_b_a_stale_result() {
    let mut coordinator = HealthCheckCoordinator::new(SECOND);
    let first_key = HealthCheckKey::from_record(
        &record(11),
        ConfigFingerprint {
            version: 1,
            hmac_sha256: "a".repeat(64),
        },
    )
    .with_generation(1);
    let returned_key = first_key.clone().with_generation(3);
    let now = 100 * SECOND;
    assert!(coordinator.dispatch(now, first_key, true));
    assert!(!coordinator.dispatch(now, returned_key.clone(), true));

    // A -> B -> A is represented by generation 1 -> 2 -> 3. The final
    // A fingerprint alone is not enough to accept the old generation-1
    // answer.
    let current = Some(returned_key);
    let overdue_at = now + 2 * SECOND;
    assert!(coordinator.poll(overdue_at, &current, WorkerMessage::Empty).is_none());
    assert!(coordinator.overdue_logged());
    assert!(coordinator.in_flight());
    assert!(coordinator
        .poll(overdue_at, &current, WorkerMessage::Ready(Ok(healthy())))
        .is_none());
    assert!(!coordinator.in_flight());
    assert!(!coordinator.overdue_logged());
}

#[test]
fn an_answer_of_the_current_generation_is_handed_over() {
    let mut coordinator = HealthCheckCoordinator::new(SECOND);
    let record = record(11);
    let key = HealthCheckKey::from_record(&record, record.config_fingerprint.clone())
        .with_generation(2);
    assert!(coordinator.dispatch(0, key.clone(), true));
    let completion = coordinator
        .poll(1, &Some(key.clone()), WorkerMessage::Ready(Ok(healthy())))
        .expect("the answer counts");
    assert!(completion.key == key);
    assert!(completion.result == Ok(healthy()));
}

#[test]
fn a_check_that_could_not_start_leaves_nothing_in_flight() {
    let mut coordinator = HealthCheckCoordinator::new(SECOND);
    let record = record(11);
    let key = HealthCheckKey::from_record(&record, record.config_fingerprint.clone());
    assert!(!coordinator.dispatch(0, key, false));
    assert!(!coordinator.in_flight());
}
