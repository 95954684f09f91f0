//! The agent's loop: what it watches, when it pushes a status, how long it
//! sleeps, and what each event and each request leads to.

#[allow(unused_imports)]
use vstd::prelude::*;
use crate::ipc::pending::{PendingRequest, ResponseDisposition};
use crate::platform::{ControlSignal, Event};
use crate::protocol::{Command, Status, StatusFingerprint};
#[allow(unused_imports)]
use crate::protocol::{fingerprint_of, StatusFingerprintView};

verus! {

/// How often subscribers hear from the agent even when nothing changed, in
/// nanoseconds.
pub const SUBSCRIBER_HEARTBEAT: u64 = 10_000_000_000;

/// The longest that the loop sleeps, in nanoseconds.
pub const MAX_WAIT: u64 = 30_000_000_000;

/// What the loop carries from one round to the next.
pub struct Agent {
    /// The process whose exit is watched for.
    pub watched_pid: Option<u32>,
    pub last_fingerprint: StatusFingerprint,
    pub last_heartbeat: u64,
    /// The configuration file is watched for changes.
    pub config_watched: bool,
}

/// The mathematical content of an [`Agent`].
pub struct AgentView {
    pub watched_pid: Option<u32>,
    pub last_fingerprint: StatusFingerprintView,
    pub last_heartbeat: u64,
    pub config_watched: bool,
}

impl View for Agent {
    type V = AgentView;

    open spec fn view(&self) -> AgentView {
        AgentView {
            watched_pid: self.watched_pid,
            last_fingerprint: self.last_fingerprint.deep_view(),
            last_heartbeat: self.last_heartbeat,
            config_watched: self.config_watched,
        }
    }
}

/// A change of the watched process: what is no longer watched, and then what
/// is watched instead.
#[derive(Clone, Copy, Debug, PartialEq, Eq, Structural)]
pub struct WatchChange {
    pub unwatch: Option<u32>,
    pub watch: Option<u32>,
}

/// What the signals that arrived ask for.
#[derive(Clone, Copy, Debug, PartialEq, Eq, Structural)]
pub struct SignalPlan {
    /// How often the configuration is reloaded.
    pub refreshes: usize,
    pub exit: bool,
}

/// Whether a signal ends the agent.
pub open spec fn ends_agent(signal: ControlSignal) -> bool {
    signal is Terminate || signal is Interrupt
}

/// How many of the signals ask for a reload.
pub open spec fn hangups(signals: Seq<ControlSignal>) -> nat
    decreases signals.len(),
{
    if signals.len() == 0 {
        0
    } else {
        hangups(signals.drop_last()) + (if signals.last() is Hangup {
            1nat
        } else {
            0nat
        })
    }
}

/// Whether the thread that waits for signals stops after one: it cannot hand
/// the signal over, or the agent ends.
pub fn signal_wait_ends(signal: ControlSignal, handed_over: bool) -> (ends: bool)
    ensures
        ends == (!handed_over || ends_agent(signal)),
{
    let ending = match signal {
        ControlSignal::Terminate => true,
        ControlSignal::Interrupt => true,
        ControlSignal::Hangup => false,
    };
    !handed_over || ending
}

/// Sums up the signals that arrived.
pub fn drain_signals(signals: &Vec<ControlSignal>) -> (plan: SignalPlan)
    ensures
        plan.refreshes == hangups(signals@),
        plan.exit == exists|i: int| 0 <= i < signals@.len() && ends_agent(#[trigger] signals@[i]),
{
    let mut refreshes: usize = 0;
    let mut exit = false;
    let mut index: usize = 0;
    while index < signals.len()
        invariant
            index <= signals@.len(),
            refreshes == hangups(signals@.take(index as int)),
            refreshes <= index,
            exit == exists|i: int| 0 <= i < index && ends_agent(#[trigger] signals@[i]),
        decreases signals@.len() - index,
    {
        assert(signals@.take(index as int + 1).drop_last() =~= signals@.take(index as int));
        match signals[index] {
            ControlSignal::Hangup => {
                refreshes = refreshes + 1;
            },
            _ => {
                exit = true;
                assert(ends_agent(signals@[index as int]));
            },
        }
        index = index + 1;
    }
    assert(signals@.take(index as int) =~= signals@);
    SignalPlan { refreshes, exit }
}

/// How long it is from `now` until `instant`; nothing where it has passed.
pub open spec fn until(instant: u64, now: u64) -> u64 {
    if instant > now {
        (instant - now) as u64
    } else {
        0
    }
}

/// The smaller of two waits.
pub open spec fn shorter(a: u64, b: u64) -> u64 {
    if b < a {
        b
    } else {
        a
    }
}

/// A wait cut short by a deadline, if there is one.
pub open spec fn cut(wait: u64, deadline: Option<u64>, now: u64) -> u64 {
    match deadline {
        Some(instant) => shorter(wait, until(instant, now)),
        None => wait,
    }
}

/// When the next heartbeat is due.
pub open spec fn next_heartbeat(last_heartbeat: u64) -> u64 {
    if last_heartbeat + SUBSCRIBER_HEARTBEAT <= u64::MAX {
        (last_heartbeat + SUBSCRIBER_HEARTBEAT) as u64
    } else {
        u64::MAX
    }
}

/// How long the loop sleeps.
pub open spec fn sleep(
    last_heartbeat: u64,
    supervisor: Option<u64>,
    server: Option<u64>,
    now: u64,
) -> u64 {
    shorter(
        cut(cut(until(next_heartbeat(last_heartbeat), now), supervisor, now), server, now),
        MAX_WAIT,
    )
}

fn cut_short(wait: u64, deadline: Option<u64>, now: u64) -> (shorter: u64)
    ensures
        shorter == cut(wait, deadline, now),
{
    match deadline {
        Some(instant) => {
            let left: u64 = instant.saturating_sub(now);
            if left < wait {
                left
            } else {
                wait
            }
        },
        None => wait,
    }
}

/// What an event leads to.
#[derive(Clone, Copy, Debug, PartialEq, Eq, Structural)]
pub enum EventAction {
    /// Accept connections once the batch is done.
    NoteListener,
    ReadRequest(i32),
    WriteResponse(i32),
    ReadSubscriber(i32),
    PollProcess,
    /// Reload the configuration, and watch the file that replaced it.
    RefreshConfig,
    Nothing,
}

/// What an event leads to. Signals are looked at when the next round starts.
pub fn dispatch_event(event: Event) -> (action: EventAction)
    ensures
        action == (match event {
            Event::Listener => EventAction::NoteListener,
            Event::PendingReadable(fd) => EventAction::ReadRequest(fd),
            Event::StreamWritable(fd) => EventAction::WriteResponse(fd),
            Event::Stream(fd) => EventAction::ReadSubscriber(fd),
            Event::ChildExit(_) => EventAction::PollProcess,
            Event::ConfigChanged => EventAction::RefreshConfig,
            Event::SignalWake => EventAction::Nothing,
        }),
{
    match event {
        Event::Listener => EventAction::NoteListener,
        Event::PendingReadable(fd) => EventAction::ReadRequest(fd),
        Event::StreamWritable(fd) => EventAction::WriteResponse(fd),
        Event::Stream(fd) => EventAction::ReadSubscriber(fd),
        Event::ChildExit(_) => EventAction::PollProcess,
        Event::ConfigChanged => EventAction::RefreshConfig,
        Event::SignalWake => EventAction::Nothing,
    }
}

/// What a request is answered with.
#[derive(Clone, Copy, Debug)]
pub enum Answer {
    /// What the supervisor says to the command.
    Handle(Command),
    /// The current status.
    Status,
    /// A refusal, with the current status.
    Refuse(&'static str),
}

/// How a request is answered, and what becomes of its connection.
#[derive(Clone, Copy, Debug)]
pub struct Dispatch {
    pub fd: i32,
    pub answer: Answer,
    pub disposition: ResponseDisposition,
}

/// Decides how a request is answered.
pub fn dispatch_pending_request(request: PendingRequest) -> (dispatch: Dispatch)
    ensures
        dispatch == (match request {
            PendingRequest::OneShot { fd, command } => Dispatch {
                fd,
                answer: Answer::Handle(command),
                disposition: ResponseDisposition::Close,
            },
            PendingRequest::Subscribe { fd } => Dispatch {
                fd,
                answer: Answer::Status,
                disposition: ResponseDisposition::Subscribe,
            },
            PendingRequest::Reject { fd, message } => Dispatch {
                fd,
                answer: Answer::Refuse(message),
                disposition: ResponseDisposition::Close,
            },
        }),
{
    match request {
        PendingRequest::OneShot { fd, command } => Dispatch {
            fd,
            answer: Answer::Handle(command),
            disposition: ResponseDisposition::Close,
        },
        PendingRequest::Subscribe { fd } => Dispatch {
            fd,
            answer: Answer::Status,
            disposition: ResponseDisposition::Subscribe,
        },
        PendingRequest::Reject { fd, message } => Dispatch {
            fd,
            answer: Answer::Refuse(message),
            disposition: ResponseDisposition::Close,
        },
    }
}

impl Agent {
    /// The loop before its first round.
    pub fn new(status: &Status, config_watched: bool, now: u64) -> (agent: Agent)
        ensures
            agent@ == (AgentView {
                watched_pid: None,
                last_fingerprint: fingerprint_of(*status).deep_view(),
                last_heartbeat: now,
                config_watched,
            }),
    {
        Agent {
            watched_pid: None,
            last_fingerprint: StatusFingerprint::from(status),
            last_heartbeat: now,
            config_watched,
        }
    }

    /// Keeps the watch on the supervised process. A process that cannot be
    /// watched is polled at once.
    pub fn sync_watch(&mut self, pid: Option<u32>) -> (change: WatchChange)
        ensures
            final(self)@ == (AgentView { watched_pid: pid, ..old(self)@ }),
            change == (if pid == old(self)@.watched_pid {
                WatchChange { unwatch: None, watch: None }
            } else {
                WatchChange { unwatch: old(self)@.watched_pid, watch: pid }
            }),
    {
        if pid == self.watched_pid {
            return WatchChange { unwatch: None, watch: None };
        }
        let previous = self.watched_pid;
        self.watched_pid = pid;
        WatchChange { unwatch: previous, watch: pid }
    }

    /// Decides whether subscribers are sent a status: whenever it changed, and
    /// when a heartbeat is due.
    pub fn note_status(&mut self, status: &Status, now: u64) -> (push: bool)
        ensures
            push == (fingerprint_of(*status).deep_view() != old(self)@.last_fingerprint || now - old(
                self,
            )@.last_heartbeat >= SUBSCRIBER_HEARTBEAT),
            final(self)@ == (AgentView {
                last_fingerprint: fingerprint_of(*status).deep_view(),
                last_heartbeat: if push {
                    now
                } else {
                    old(self)@.last_heartbeat
                },
                ..old(self)@
            }),
    {
        let fingerprint = StatusFingerprint::from(status);
        let changed = !fingerprint.same_as(&self.last_fingerprint);
        if changed {
            self.last_fingerprint = fingerprint;
        }
        if changed || now.saturating_sub(self.last_heartbeat) >= SUBSCRIBER_HEARTBEAT {
            self.last_heartbeat = now;
            return true;
        }
        false
    }

    /// Notes whether the configuration file is being watched.
    pub fn note_config_watch(&mut self, watched: bool)
        ensures
            final(self)@ == (AgentView { config_watched: watched, ..old(self)@ }),
    {
        self.config_watched = watched;
    }

    /// How long the loop sleeps, given when the supervisor and the handshakes
    /// need it next.
    pub fn wait_timeout(&self, supervisor: Option<u64>, server: Option<u64>, now: u64) -> (timeout:
        u64)
        ensures
            timeout == sleep(self@.last_heartbeat, supervisor, server, now),
    {
        let heartbeat: u64 = self.last_heartbeat.saturating_add(SUBSCRIBER_HEARTBEAT);
        let mut timeout: u64 = heartbeat.saturating_sub(now);
        timeout = cut_short(timeout, supervisor, now);
        timeout = cut_short(timeout, server, now);
        if timeout > MAX_WAIT {
            timeout = MAX_WAIT;
        }
        timeout
    }
}

/// The loop never sleeps past a heartbeat, a supervisor deadline or a
/// handshake deadline, and never longer than its bound.
pub proof fn sleeps_end_in_time(
    last_heartbeat: u64,
    supervisor: Option<u64>,
    server: Option<u64>,
    now: u64,
)
    ensures
        sleep(last_heartbeat, supervisor, server, now) <= MAX_WAIT,
        sleep(last_heartbeat, supervisor, server, now) <= until(
            next_heartbeat(last_heartbeat),
            now,
        ),
        supervisor matches Some(instant) ==> sleep(last_heartbeat, supervisor, server, now)
            <= until(instant, now),
        server matches Some(instant) ==> sleep(last_heartbeat, supervisor, server, now) <= until(
            instant,
            now,
        ),
{
}

/// The loop sleeps until the first thing that is due and no shorter: the next
/// heartbeat 10 seconds after the last, a deadline, or its bound of 30 seconds.
pub proof fn sleeps_last_until_something_is_due(
    last_heartbeat: u64,
    supervisor: Option<u64>,
    server: Option<u64>,
    now: u64,
)
    requires
        last_heartbeat <= now,
        now + 10_000_000_000 <= u64::MAX,
    ensures
        ({
            let wait = sleep(last_heartbeat, supervisor, server, now);
            let wakes = now + wait;
            let beat = last_heartbeat + 10_000_000_000;
            &&& wait <= 30_000_000_000
            &&& wakes <= beat || wait == 0
            &&& wait > 0 ==> wakes == beat || supervisor == Some(wakes as u64) || server == Some(
                wakes as u64,
            ) || wait == 30_000_000_000
            &&& wait == 0 ==> beat <= now || (supervisor is Some && supervisor->0 <= now) || (
            server is Some && server->0 <= now)
        }),
{
}

/// A request to terminate and an interrupt end the agent; a hangup does not,
/// and each one reloads the configuration once.
pub proof fn hangups_reload(signals: Seq<ControlSignal>, signal: ControlSignal)
    ensures
        ends_agent(signal) <==> signal is Terminate || signal is Interrupt,
        hangups(Seq::empty()) == 0,
        signal is Hangup ==> hangups(signals.push(signal)) == hangups(signals) + 1,
        !(signal is Hangup) ==> hangups(signals.push(signal)) == hangups(signals),
{
    assert(signals.push(signal).drop_last() =~= signals);
}

} // verus!
