use opencodeserver::failure::{Failure, FailureKind};
use opencodeserver::platform::{
    classify_event, list_process_group_ids, next_process_group_capacity, peek_child_exit,
    process_exists, process_group_member_ids, process_snapshot, send_process_group_signal,
    signal_process, snapshot_target, Event, EventFilter, GroupListing, LogLevel, ProcessSnapshot,
    WaitReport, WaitState, INITIAL_PROCESS_GROUP_CAPACITY, MAX_PROCESS_GROUP_CAPACITY,
    PENDING_READ_TAG, USER_SIGNAL_IDENT,
};

#[test]
fn signal_process_refuses_broad_or_system_targets() {
    assert_eq!(
        signal_process(0).expect_err("PID 0 must be refused").kind,
        FailureKind::InvalidInput
    );
    assert_eq!(
        signal_process(1).expect_err("PID 1 must be refused").kind,
        FailureKind::InvalidInput
    );
    assert_eq!(
        signal_process(u32::MAX).expect_err("out-of-range PID must be refused").kind,
        FailureKind::InvalidInput
    );
    assert_eq!(signal_process(4242).expect("ordinary PID"), 4242);
}

#[test]
fn groups_are_addressed_by_a_negative_number() {
    assert!(send_process_group_signal(1).is_err());
    assert_eq!(send_process_group_signal(4242).expect("ordinary group"), -4242);
    assert!(process_group_member_ids(0).is_err());
}

#[test]
fn process_existence_queries_are_signal_free() {
    assert!(process_exists(4242, true, false));
    assert!(process_exists(1, false, true));
    assert!(!process_exists(0, true, false));
    assert!(!process_exists(u32::MAX, true, false));
    assert!(!process_exists(4242, false, false));
}

#[test]
fn process_group_capacity_growth_is_bounded() {
    assert_eq!(
        next_process_group_capacity(INITIAL_PROCESS_GROUP_CAPACITY, 16).expect("grow"),
        32
    );
    assert_eq!(
        next_process_group_capacity(32, 100).expect("grow past reported count"),
        100
    );
    assert!(
        next_process_group_capacity(MAX_PROCESS_GROUP_CAPACITY, MAX_PROCESS_GROUP_CAPACITY).is_err(),
        "an exactly full hard-cap result is ambiguous and must fail closed"
    );
    assert!(
        next_process_group_capacity(16, MAX_PROCESS_GROUP_CAPACITY + 1).is_err(),
        "the process-group observation must not allocate from an unbounded count"
    );
}

#[test]
fn pending_and_subscriber_read_events_use_distinct_namespaces() {
    assert_eq!(
        classify_event(EventFilter::Read, 5, 5, PENDING_READ_TAG, Some(3)),
        Some(Event::PendingReadable(5))
    );
    assert_eq!(
        classify_event(EventFilter::Read, 5, 5, 0, Some(3)),
        Some(Event::Stream(5))
    );
    assert_eq!(
        classify_event(EventFilter::Read, 3, 3, 0, Some(3)),
        Some(Event::Listener)
    );
}

#[test]
fn writable_stream_events_are_reported_separately() {
    assert_eq!(
        classify_event(EventFilter::Write, 5, 5, 0, Some(3)),
        Some(Event::StreamWritable(5))
    );
}

#[test]
fn waker_produces_signal_wake_event() {
    assert_eq!(
        classify_event(EventFilter::User, USER_SIGNAL_IDENT, 0, 0, None),
        Some(Event::SignalWake)
    );
    assert_eq!(classify_event(EventFilter::User, 99, 0, 0, None), None);
}

#[test]
fn child_exit_event_reports_pid() {
    assert_eq!(
        classify_event(EventFilter::Process, 4242, 0, 0, None),
        Some(Event::ChildExit(4242))
    );
    assert_eq!(
        classify_event(EventFilter::Vnode, 4, 4, 0, None),
        Some(Event::ConfigChanged)
    );
    assert_eq!(classify_event(EventFilter::Unknown, 4, 4, 0, None), None);
}

#[test]
fn exits_are_peeked_without_reaping() {
    let exited = WaitReport { pid: 42, state: WaitState::Exited, status: 7 };
    let seen = peek_child_exit(42, exited).expect("exit").expect("seen");
    assert_eq!((seen.code, seen.signal), (Some(7), None));
    let killed = WaitReport { pid: 42, state: WaitState::Killed, status: 9 };
    let seen = peek_child_exit(42, killed).expect("exit").expect("seen");
    assert_eq!((seen.code, seen.signal), (None, Some(9)));
    let nothing = WaitReport { pid: 0, state: WaitState::Other(0), status: 0 };
    assert_eq!(peek_child_exit(42, nothing).expect("no exit"), None);
    let foreign = WaitReport { pid: 43, state: WaitState::Exited, status: 0 };
    assert!(peek_child_exit(42, foreign).is_err());
}

#[test]
fn log_levels_have_distinct_codes() {
    let codes = [
        LogLevel::Notice.code(),
        LogLevel::Info.code(),
        LogLevel::Error.code(),
        LogLevel::Fault.code(),
    ];
    for (index, code) in codes.iter().enumerate() {
        assert!(!codes[..index].contains(code));
    }
}

#[test]
fn a_full_listing_is_never_taken_for_the_whole_group() {
    assert_eq!(
        list_process_group_ids(&vec![4, 5, 0, 0], 2),
        Ok(GroupListing::Complete(vec![4, 5]))
    );
    assert_eq!(
        list_process_group_ids(&vec![4, 5, 6, 7], 4),
        Ok(GroupListing::Grow(8))
    );
    assert_eq!(
        list_process_group_ids(&vec![4, -5, 0], 2),
        Err(Failure::other("process-group listing returned an invalid PID"))
    );
    assert_eq!(
        list_process_group_ids(&vec![1; 4096], 4096),
        Err(Failure::other(
            "process group membership exceeds the safe observation bound"
        ))
    );
}

#[test]
fn a_deleted_executable_leaves_only_the_path_unknown() {
    let seen = ProcessSnapshot {
        pid: 9,
        parent_pid: 1,
        process_group_id: 9,
        effective_uid: 501,
        start_seconds: 3,
        start_microseconds: 4,
        executable: None,
    };
    let named = process_snapshot(seen.clone(), Ok("/bin/x".to_owned())).expect("named");
    assert_eq!(named.executable.as_deref(), Some("/bin/x"));
    assert_eq!(named.start_microseconds, 4);
    assert_eq!(
        process_snapshot(seen.clone(), Err((2, Failure::other("gone")))),
        Ok(seen.clone())
    );
    assert_eq!(
        process_snapshot(seen, Err((13, Failure::other("denied")))),
        Err(Failure::other("denied"))
    );
}

#[test]
fn a_snapshot_needs_a_pid_in_range() {
    assert_eq!(snapshot_target(42), Ok(42));
    assert_eq!(
        snapshot_target(u32::MAX),
        Err(Failure::new(FailureKind::InvalidInput, "PID is out of range"))
    );
}
