use opencodeserver::agent::{
    dispatch_event, dispatch_pending_request, drain_signals, signal_wait_ends, Agent, Answer,
    EventAction, WatchChange, MAX_WAIT, SUBSCRIBER_HEARTBEAT,
};
use opencodeserver::agent_loop::{AgentLoop, Fact, Work};
use opencodeserver::config::ValidationReport;
use opencodeserver::control::{
    accept_response, ensure_only_flags, first_command, parse_arguments, print_status,
    response_status, valid_configuration, wait_for_restart, wait_for_stop, Invocation, WaitStep,
    RESTART_BLOCKED, RESTART_FAILED, STOP_TIMED_OUT,
};
use opencodeserver::ipc::{PendingRequest, ResponseDisposition};
use opencodeserver::platform::{ControlSignal, Event};
use opencodeserver::protocol::{
    ActionCapabilities, Command, DesiredState, FdaState, HealthState, PasswordState, Response,
    ServerState, Status,
};
use opencodeserver::test_events::{clean_field, emit};

fn words(text: &str) -> Vec<String> {
    text.split_whitespace().map(str::to_owned).collect()
}

fn status() -> Status {
    Status {
        protocol_version: 6,
        agent_version: "0.1.0".to_owned(),
        agent_uptime_seconds: 1,
        desired_state: DesiredState::Running,
        server_state: ServerState::Unhealthy,
        health: HealthState::Unhealthy,
        fda: FdaState::NotVerified,
        uptime_seconds: None,
        endpoint: "http://127.0.0.1:4096".to_owned(),
        username: "opencode".to_owned(),
        password_state: PasswordState::NotConfigured,
        authentication_enabled: false,
        action_capabilities: ActionCapabilities {
            start: false,
            stop: true,
            restart: true,
            continue_stop: false,
            force_stop: false,
        },
        installed_version: None,
        running_version: Some("1.2.3".to_owned()),
        version_pending: false,
        config_pending: false,
        config_error: None,
        last_error: None,
        pid: Some(42),
        stop_grace_remaining_seconds: None,
        notification: None,
        process_started_at_unix_seconds: None,
        bundle_version: "development".to_owned(),
    }
}

#[test]
fn arguments_name_a_command_and_its_flag() {
    assert_eq!(
        parse_arguments(&words("status --json")),
        Ok(Invocation::Status { json: true })
    );
    assert_eq!(
        parse_arguments(&words("stop")),
        Ok(Invocation::Stop { force: false })
    );
    assert_eq!(
        parse_arguments(&words("restart --force --force")),
        Ok(Invocation::Restart { force: true })
    );
    assert_eq!(parse_arguments(&words("-h")), Ok(Invocation::Help));
    assert_eq!(
        parse_arguments(&Vec::new()),
        Err("a command is required".to_owned())
    );
    assert_eq!(
        parse_arguments(&words("start --force")),
        Err("unexpected argument: --force".to_owned())
    );
    assert_eq!(
        parse_arguments(&words("explode")),
        Err("unknown command: explode".to_owned())
    );
    assert!(ensure_only_flags(&words("stop --force"), Some("--force")).is_ok());
    assert!(ensure_only_flags(&words("stop --force"), None).is_err());
}

#[test]
fn only_some_invocations_reach_the_agent() {
    assert_eq!(
        first_command(Invocation::Stop { force: true }),
        Some(Command::Stop)
    );
    assert_eq!(first_command(Invocation::Logs), None);
    assert_eq!(first_command(Invocation::Version), None);
}

#[test]
fn a_refused_request_is_its_error() {
    let refused = Response::error("not now".to_owned(), None);
    assert_eq!(accept_response(refused), Err("not now".to_owned()));
    let silent = Response {
        error: None,
        ..Response::error(String::new(), None)
    };
    assert_eq!(
        accept_response(silent),
        Err("OpenCodeServerAgent rejected the request".to_owned())
    );
    assert!(accept_response(Response::success(status())).is_ok());
    assert_eq!(
        response_status(Response::error(String::new(), None)),
        Err("OpenCodeServerAgent returned no status".to_owned())
    );
    assert_eq!(response_status(Response::success(status())), Ok(status()));
}

#[test]
fn waits_end_with_the_server() {
    assert!(matches!(wait_for_stop(ServerState::Stopped, false), WaitStep::Done));
    assert!(matches!(wait_for_stop(ServerState::Stopping, true), WaitStep::GoOn));
    assert!(matches!(
        wait_for_stop(ServerState::StopTimedOut, true),
        WaitStep::ForceStop
    ));
    assert!(matches!(
        wait_for_stop(ServerState::StopTimedOut, false),
        WaitStep::Fail(message) if message == STOP_TIMED_OUT
    ));
    assert!(matches!(wait_for_restart(ServerState::Healthy, false), WaitStep::Done));
    assert!(matches!(
        wait_for_restart(ServerState::StopTimedOut, false),
        WaitStep::Fail(message) if message == RESTART_BLOCKED
    ));
    assert!(matches!(
        wait_for_restart(ServerState::Failed, true),
        WaitStep::Fail(message) if message == RESTART_FAILED
    ));
}

#[test]
fn a_status_is_described_line_by_line() {
    assert_eq!(
        print_status(&status()),
        vec![
            "OpenCode:           Running, unhealthy",
            "Endpoint:           http://127.0.0.1:4096",
            "OpenCode:           running 1.2.3 / installed unknown",
            "Full Disk Access:   NotVerified",
            "Username:           opencode",
            "Authentication:     Not enabled",
        ]
    );
    let mut busy = status();
    busy.uptime_seconds = Some(90);
    busy.config_pending = true;
    busy.config_error = Some("broken".to_owned());
    busy.last_error = Some("older".to_owned());
    assert_eq!(
        print_status(&busy)[6..],
        [
            "Uptime:             90s",
            "Configuration:      Pending restart",
            "Detail:             broken",
        ]
    );
}

#[test]
fn a_valid_configuration_names_its_executable() {
    let mut report = ValidationReport {
        valid: true,
        issues: Vec::new(),
        selected_executable: Some("/opt/opencode".to_owned()),
        candidates: Vec::new(),
    };
    assert_eq!(
        valid_configuration(&report),
        "Configuration is valid. OpenCode: /opt/opencode"
    );
    report.selected_executable = None;
    assert_eq!(
        valid_configuration(&report),
        "Configuration is valid. OpenCode: automatic"
    );
}

#[test]
fn the_agent_pushes_changes_and_heartbeats() {
    let mut agent = Agent::new(&status(), true, 0);
    assert!(!agent.note_status(&status(), 1));
    let mut changed = status();
    changed.server_state = ServerState::Healthy;
    assert!(agent.note_status(&changed, 2));
    assert!(!agent.note_status(&changed, 3));
    assert!(agent.note_status(&changed, 2 + SUBSCRIBER_HEARTBEAT));
}

#[test]
fn the_agent_watches_the_supervised_process() {
    let mut agent = Agent::new(&status(), true, 0);
    assert_eq!(
        agent.sync_watch(Some(7)),
        WatchChange { unwatch: None, watch: Some(7) }
    );
    assert_eq!(
        agent.sync_watch(Some(7)),
        WatchChange { unwatch: None, watch: None }
    );
    assert_eq!(
        agent.sync_watch(None),
        WatchChange { unwatch: Some(7), watch: None }
    );
}

#[test]
fn the_agent_sleeps_until_the_next_deadline() {
    let agent = Agent::new(&status(), true, 0);
    assert_eq!(agent.wait_timeout(None, None, 0), SUBSCRIBER_HEARTBEAT);
    assert_eq!(agent.wait_timeout(Some(5), Some(3), 1), 2);
    assert_eq!(agent.wait_timeout(Some(5), None, 9), 0);
    assert!(agent.wait_timeout(None, None, 0) <= MAX_WAIT);
}

#[test]
fn signals_reload_or_end_the_agent() {
    let plan = drain_signals(&vec![
        ControlSignal::Hangup,
        ControlSignal::Terminate,
        ControlSignal::Hangup,
    ]);
    assert_eq!((plan.refreshes, plan.exit), (2, true));
    let plan = drain_signals(&vec![ControlSignal::Hangup]);
    assert_eq!((plan.refreshes, plan.exit), (1, false));
    assert!(signal_wait_ends(ControlSignal::Interrupt, true));
    assert!(signal_wait_ends(ControlSignal::Hangup, false));
    assert!(!signal_wait_ends(ControlSignal::Hangup, true));
}

#[test]
fn events_and_requests_are_dispatched() {
    assert_eq!(
        dispatch_event(Event::PendingReadable(4)),
        EventAction::ReadRequest(4)
    );
    assert_eq!(dispatch_event(Event::ChildExit(9)), EventAction::PollProcess);
    assert_eq!(dispatch_event(Event::SignalWake), EventAction::Nothing);
    let dispatch = dispatch_pending_request(PendingRequest::OneShot {
        fd: 4,
        command: Command::Stop,
    });
    assert_eq!((dispatch.fd, dispatch.disposition), (4, ResponseDisposition::Close));
    assert!(matches!(dispatch.answer, Answer::Handle(Command::Stop)));
    let dispatch = dispatch_pending_request(PendingRequest::Subscribe { fd: 5 });
    assert_eq!((dispatch.fd, dispatch.disposition), (5, ResponseDisposition::Subscribe));
    assert!(matches!(dispatch.answer, Answer::Status));
}

#[test]
fn traces_keep_their_fields_apart() {
    assert_eq!(clean_field("a\tb\nc\rd\0e"), "a b c d e");
    assert_eq!(
        emit("123", 42, "closed", "by\nhand"),
        "123\t42\tclosed\tby hand\n"
    );
}

fn quiet_round(agent: &mut AgentLoop, pid: Option<u32>) {
    assert_eq!(agent.run(Fact::Pid(pid)), Some(Work::DrainSignals));
    assert_eq!(agent.run(Fact::Signals(vec![])), Some(Work::Tick));
    assert_eq!(agent.run(Fact::Done), Some(Work::ReadStatus));
    let fact = Fact::Status { status: status(), now: 1 };
    assert_eq!(agent.run(fact), Some(Work::PrepareWait));
    assert_eq!(agent.run(Fact::Done), Some(Work::ReadDeadlines));
    let fact = Fact::Deadlines { supervisor: Some(5), server: None, now: 2 };
    assert_eq!(agent.run(fact), Some(Work::Wait(3)));
}

#[test]
fn a_batch_is_served_before_connections_are_accepted() {
    let (mut agent, work) = AgentLoop::new(Agent::new(&status(), true, 0));
    assert_eq!(work, Work::ReadPid);
    quiet_round(&mut agent, None);
    let events = vec![
        Event::Listener,
        Event::PendingReadable(8),
        Event::SignalWake,
        Event::ConfigChanged,
        Event::Stream(9),
    ];
    assert_eq!(agent.run(Fact::Events(events)), Some(Work::ReadRequest(8)));
    assert_eq!(agent.run(Fact::Done), Some(Work::RefreshConfig));
    assert_eq!(agent.run(Fact::Done), Some(Work::WatchConfig));
    assert_eq!(agent.run(Fact::Watched(true)), Some(Work::ReadSubscriber(9)));
    assert_eq!(
        agent.run(Fact::Done),
        Some(Work::FinishBatch { listener_ready: true })
    );
    assert_eq!(agent.run(Fact::Done), Some(Work::ReadPid));
    quiet_round(&mut agent, None);
    assert_eq!(
        agent.run(Fact::Events(vec![])),
        Some(Work::FinishBatch { listener_ready: false })
    );
}

#[test]
fn a_process_that_cannot_be_watched_is_polled() {
    let (mut agent, _) = AgentLoop::new(Agent::new(&status(), true, 0));
    assert_eq!(agent.run(Fact::Pid(Some(7))), Some(Work::Watch(7)));
    assert_eq!(agent.run(Fact::Watched(false)), Some(Work::PollProcess));
    assert_eq!(agent.run(Fact::Done), Some(Work::DrainSignals));
}

#[test]
fn signals_reload_before_they_end_the_agent() {
    let (mut agent, _) = AgentLoop::new(Agent::new(&status(), true, 0));
    assert_eq!(agent.run(Fact::Pid(None)), Some(Work::DrainSignals));
    let signals = vec![
        ControlSignal::Hangup,
        ControlSignal::Terminate,
        ControlSignal::Hangup,
    ];
    assert_eq!(agent.run(Fact::Signals(signals)), Some(Work::RefreshConfig));
    assert_eq!(agent.run(Fact::Done), Some(Work::RefreshConfig));
    assert_eq!(agent.run(Fact::Done), Some(Work::FinishVersionQuery));
    assert_eq!(agent.run(Fact::Done), Some(Work::Exit));
    assert_eq!(agent.run(Fact::Done), None);
}

#[test]
fn a_lost_watch_on_the_configuration_is_renewed() {
    let (mut agent, _) = AgentLoop::new(Agent::new(&status(), false, 0));
    assert_eq!(agent.run(Fact::Pid(None)), Some(Work::DrainSignals));
    assert_eq!(agent.run(Fact::Signals(vec![])), Some(Work::Tick));
    assert_eq!(agent.run(Fact::Done), Some(Work::ReadStatus));
    let fact = Fact::Status { status: status(), now: SUBSCRIBER_HEARTBEAT };
    assert_eq!(agent.run(fact), Some(Work::Push));
    assert_eq!(agent.run(Fact::Done), Some(Work::WatchConfig));
    assert_eq!(agent.run(Fact::Watched(false)), Some(Work::PrepareWait));
    assert!(!agent.agent.config_watched);
}
