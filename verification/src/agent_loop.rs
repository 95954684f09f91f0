//! One round of the agent after another: the order in which it watches the
//! process, takes signals, ticks, pushes, sleeps and serves what woke it.

#[allow(unused_imports)]
use vstd::prelude::*;
use crate::agent::{dispatch_event, drain_signals, Agent, EventAction, SignalPlan, WatchChange};
#[allow(unused_imports)]
use crate::agent::{ends_agent, hangups, sleep, AgentView, SUBSCRIBER_HEARTBEAT};
use crate::platform::{ControlSignal, Event};
use crate::protocol::Status;
#[allow(unused_imports)]
use crate::protocol::fingerprint_of;

verus! {

/// What the agent waits for.
#[derive(Clone, Copy, Debug, PartialEq, Eq, Structural)]
pub enum Stage {
    Pid,
    /// The earlier process is no longer watched; this one is next.
    Unwatching { watch: Option<u32> },
    Watching,
    PollingUnwatched,
    Signals,
    Refreshing { left: usize, exit: bool },
    Ticking,
    Status,
    Pushing,
    ArmingConfig,
    Preparing,
    Deadlines,
    Waiting,
    /// Something that woke the agent is being served.
    Serving,
    ServingConfig,
    RearmingConfig,
    Finishing,
    Ending,
    Ended,
}

/// What is to be done next.
#[derive(Clone, Copy, Debug, PartialEq, Eq, Structural)]
pub enum Work {
    /// Tell which process is supervised.
    ReadPid,
    Unwatch(u32),
    /// Watch for the exit of a process, and tell whether that worked.
    Watch(u32),
    PollProcess,
    /// Hand over the signals that arrived.
    DrainSignals,
    RefreshConfig,
    Tick,
    /// Hand over the status and the time.
    ReadStatus,
    /// Send the status to the subscribers.
    Push,
    /// Watch the configuration file, and tell whether that worked.
    WatchConfig,
    PrepareWait,
    /// Hand over the deadlines and the time.
    ReadDeadlines,
    /// Sleep for at most so long, and hand over what happened.
    Wait(u64),
    ReadRequest(i32),
    WriteResponse(i32),
    ReadSubscriber(i32),
    /// Accept connections, where there are any, and tidy up.
    FinishBatch { listener_ready: bool },
    /// End the query for the installed version.
    FinishVersionQuery,
    Exit,
}

/// The answer to [`Work`].
pub enum Fact {
    Done,
    Pid(Option<u32>),
    /// Whether the watch was set up.
    Watched(bool),
    Signals(Vec<ControlSignal>),
    Status { status: Status, now: u64 },
    Deadlines { supervisor: Option<u64>, server: Option<u64>, now: u64 },
    Events(Vec<Event>),
}

/// The agent between two pieces of work.
pub struct AgentLoop {
    pub agent: Agent,
    pub stage: Stage,
    /// What woke the agent.
    pub events: Vec<Event>,
    /// How much of it was taken up.
    pub taken: usize,
    pub listener_ready: bool,
}

/// The mathematical content of an [`AgentLoop`].
pub struct LoopView {
    pub agent: AgentView,
    pub stage: Stage,
    pub events: Seq<Event>,
    pub taken: int,
    pub listener_ready: bool,
}

impl View for AgentLoop {
    type V = LoopView;

    open spec fn view(&self) -> LoopView {
        LoopView {
            agent: self.agent@,
            stage: self.stage,
            events: self.events@,
            taken: self.taken as int,
            listener_ready: self.listener_ready,
        }
    }
}

impl LoopView {
    /// Connections wait exactly if the part of the batch that was taken up
    /// said so.
    pub open spec fn inv(self) -> bool {
        &&& 0 <= self.taken <= self.events.len()
        &&& self.listener_ready == says_connections(self.events.take(self.taken))
    }

    pub open spec fn at(self, stage: Stage) -> LoopView {
        LoopView { stage, ..self }
    }
}

/// Some event of a batch says that connections wait.
pub open spec fn says_connections(events: Seq<Event>) -> bool {
    exists|i: int| 0 <= i < events.len() && #[trigger] events[i] is Listener
}

/// An event that is only noted.
pub open spec fn is_noted(event: Event) -> bool {
    event is Listener || event is SignalWake
}

/// Where the next event that calls for work stands, from `from` on.
pub open spec fn next_call(events: Seq<Event>, from: int) -> int
    decreases events.len() - from,
{
    if from < 0 || from >= events.len() {
        events.len() as int
    } else if is_noted(events[from]) {
        next_call(events, from + 1)
    } else {
        from
    }
}

/// What an event calls for.
pub open spec fn call_of(event: Event) -> (Stage, Work) {
    match event {
        Event::PendingReadable(fd) => (Stage::Serving, Work::ReadRequest(fd)),
        Event::StreamWritable(fd) => (Stage::Serving, Work::WriteResponse(fd)),
        Event::Stream(fd) => (Stage::Serving, Work::ReadSubscriber(fd)),
        Event::ChildExit(_) => (Stage::Serving, Work::PollProcess),
        _ => (Stage::ServingConfig, Work::RefreshConfig),
    }
}

/// Goes on with the batch. Connections are accepted once all of it was served,
/// so that no event of it can meet a descriptor that was handed out anew.
pub open spec fn serving(s: LoopView) -> (LoopView, Work) {
    let call = next_call(s.events, s.taken);
    if call < s.events.len() {
        let taken = call + 1;
        let (stage, work) = call_of(s.events[call]);
        (
            LoopView {
                stage,
                taken,
                listener_ready: says_connections(s.events.take(taken)),
                ..s
            },
            work,
        )
    } else {
        let listener_ready = says_connections(s.events);
        (
            LoopView { stage: Stage::Finishing, taken: s.events.len() as int, listener_ready, ..s },
            Work::FinishBatch { listener_ready },
        )
    }
}

/// Watches a process, or goes on to the signals.
pub open spec fn watching(s: LoopView, watch: Option<u32>) -> (LoopView, Work) {
    match watch {
        Some(pid) => (s.at(Stage::Watching), Work::Watch(pid)),
        None => (s.at(Stage::Signals), Work::DrainSignals),
    }
}

/// Reloads as often as asked, and then ends or ticks.
pub open spec fn signaled(s: LoopView, refreshes: nat, exit: bool) -> (LoopView, Work) {
    if refreshes > 0 {
        (
            s.at(Stage::Refreshing { left: (refreshes - 1) as usize, exit }),
            Work::RefreshConfig,
        )
    } else if exit {
        (s.at(Stage::Ending), Work::FinishVersionQuery)
    } else {
        (s.at(Stage::Ticking), Work::Tick)
    }
}

/// Renews a watch on the configuration that was lost, and goes to sleep.
pub open spec fn settling(s: LoopView) -> (LoopView, Work) {
    if s.agent.config_watched {
        (s.at(Stage::Preparing), Work::PrepareWait)
    } else {
        (s.at(Stage::ArmingConfig), Work::WatchConfig)
    }
}

/// The state with the watch on the configuration noted.
pub open spec fn config_noted(s: LoopView, watched: bool) -> LoopView {
    LoopView { agent: AgentView { config_watched: watched, ..s.agent }, ..s }
}

/// What follows a piece of work; nothing where the answer is not to it.
pub open spec fn followed(s: LoopView, fact: Fact) -> Option<(LoopView, Work)> {
    match (s.stage, fact) {
        (Stage::Pid, Fact::Pid(pid)) => {
            let watched = LoopView { agent: AgentView { watched_pid: pid, ..s.agent }, ..s };
            if pid == s.agent.watched_pid {
                Some(watching(watched, None))
            } else {
                match s.agent.watched_pid {
                    Some(previous) => Some(
                        (watched.at(Stage::Unwatching { watch: pid }), Work::Unwatch(previous)),
                    ),
                    None => Some(watching(watched, pid)),
                }
            }
        },
        (Stage::Unwatching { watch }, Fact::Done) => Some(watching(s, watch)),
        (Stage::Watching, Fact::Watched(true)) => Some(watching(s, None)),
        (Stage::Watching, Fact::Watched(false)) => Some(
            (s.at(Stage::PollingUnwatched), Work::PollProcess),
        ),
        (Stage::PollingUnwatched, Fact::Done) => Some(watching(s, None)),
        (Stage::Signals, Fact::Signals(signals)) => Some(
            signaled(
                s,
                hangups(signals@),
                exists|i: int| 0 <= i < signals@.len() && ends_agent(#[trigger] signals@[i]),
            ),
        ),
        (Stage::Refreshing { left, exit }, Fact::Done) => Some(signaled(s, left as nat, exit)),
        (Stage::Ending, Fact::Done) => Some((s.at(Stage::Ended), Work::Exit)),
        (Stage::Ticking, Fact::Done) => Some((s.at(Stage::Status), Work::ReadStatus)),
        (Stage::Status, Fact::Status { status, now }) => {
            let fingerprint = fingerprint_of(status).deep_view();
            let push = fingerprint != s.agent.last_fingerprint || now - s.agent.last_heartbeat
                >= SUBSCRIBER_HEARTBEAT;
            let told = LoopView {
                agent: AgentView {
                    last_fingerprint: fingerprint,
                    last_heartbeat: if push {
                        now
                    } else {
                        s.agent.last_heartbeat
                    },
                    ..s.agent
                },
                ..s
            };
            if push {
                Some((told.at(Stage::Pushing), Work::Push))
            } else {
                Some(settling(told))
            }
        },
        (Stage::Pushing, Fact::Done) => Some(settling(s)),
        (Stage::ArmingConfig, Fact::Watched(watched)) => Some(
            (config_noted(s, watched).at(Stage::Preparing), Work::PrepareWait),
        ),
        (Stage::Preparing, Fact::Done) => Some((s.at(Stage::Deadlines), Work::ReadDeadlines)),
        (Stage::Deadlines, Fact::Deadlines { supervisor, server, now }) => Some(
            (
                s.at(Stage::Waiting),
                Work::Wait(sleep(s.agent.last_heartbeat, supervisor, server, now)),
            ),
        ),
        (Stage::Waiting, Fact::Events(events)) => Some(
            serving(LoopView { events: events@, taken: 0, listener_ready: false, ..s }),
        ),
        (Stage::Serving, Fact::Done) => Some(serving(s)),
        (Stage::ServingConfig, Fact::Done) => Some(
            (s.at(Stage::RearmingConfig), Work::WatchConfig),
        ),
        (Stage::RearmingConfig, Fact::Watched(watched)) => Some(
            serving(config_noted(s, watched)),
        ),
        (Stage::Finishing, Fact::Done) => Some((s.at(Stage::Pid), Work::ReadPid)),
        _ => None,
    }
}

impl AgentLoop {
    /// The agent before its first round.
    pub fn new(agent: Agent) -> (made: (AgentLoop, Work))
        ensures
            made.0@ == (LoopView {
                agent: agent@,
                stage: Stage::Pid,
                events: Seq::empty(),
                taken: 0,
                listener_ready: false,
            }),
            made.0@.inv(),
            made.1 is ReadPid,
    {
        let fresh = AgentLoop {
            agent,
            stage: Stage::Pid,
            events: Vec::new(),
            taken: 0,
            listener_ready: false,
        };
        (fresh, Work::ReadPid)
    }

    fn serve(&mut self) -> (work: Work)
        requires
            old(self)@.inv(),
        ensures
            (final(self)@, work) == serving(old(self)@),
            final(self)@.inv(),
    {
        let ghost events = self.events@;
        let ghost start = self.taken as int;
        while self.taken < self.events.len()
            invariant
                self@.inv(),
                self.events@ == events,
                self.agent@ == old(self)@.agent,
                self.stage == old(self)@.stage,
                old(self)@.events == events,
                old(self)@.taken == start,
                next_call(events, start) == next_call(events, self.taken as int),
            decreases self.events@.len() - self.taken,
        {
            let event = self.events[self.taken];
            let ghost before = events.take(self.taken as int);
            let ghost after = events.take(self.taken as int + 1);
            self.taken = self.taken + 1;
            proof {
                assert(after.drop_last() =~= before);
                assert(after.last() == event);
                assert(says_connections(after) == (says_connections(before) || event is Listener))
                    by {
                    if says_connections(before) {
                        let i = choose|i: int|
                            0 <= i < before.len() && #[trigger] before[i] is Listener;
                        assert(after[i] is Listener);
                    }
                    if event is Listener {
                        assert(after[after.len() - 1] is Listener);
                    }
                    if says_connections(after) && !(event is Listener) {
                        let i = choose|i: int|
                            0 <= i < after.len() && #[trigger] after[i] is Listener;
                        assert(before[i] is Listener);
                    }
                }
            }
            match dispatch_event(event) {
                EventAction::NoteListener => {
                    self.listener_ready = true;
                },
                EventAction::Nothing => {},
                EventAction::ReadRequest(fd) => {
                    self.stage = Stage::Serving;
                    return Work::ReadRequest(fd);
                },
                EventAction::WriteResponse(fd) => {
                    self.stage = Stage::Serving;
                    return Work::WriteResponse(fd);
                },
                EventAction::ReadSubscriber(fd) => {
                    self.stage = Stage::Serving;
                    return Work::ReadSubscriber(fd);
                },
                EventAction::PollProcess => {
                    self.stage = Stage::Serving;
                    return Work::PollProcess;
                },
                EventAction::RefreshConfig => {
                    self.stage = Stage::ServingConfig;
                    return Work::RefreshConfig;
                },
            }
        }
        proof {
            assert(events.take(self.taken as int) =~= events);
        }
        self.stage = Stage::Finishing;
        Work::FinishBatch { listener_ready: self.listener_ready }
    }

    fn watch(&mut self, pid: Option<u32>) -> (work: Work)
        requires
            old(self)@.inv(),
        ensures
            (final(self)@, work) == watching(old(self)@, pid),
            final(self)@.inv(),
    {
        match pid {
            Some(pid) => {
                self.stage = Stage::Watching;
                Work::Watch(pid)
            },
            None => {
                self.stage = Stage::Signals;
                Work::DrainSignals
            },
        }
    }

    fn heed(&mut self, refreshes: usize, exit: bool) -> (work: Work)
        requires
            old(self)@.inv(),
        ensures
            (final(self)@, work) == signaled(old(self)@, refreshes as nat, exit),
            final(self)@.inv(),
    {
        if refreshes > 0 {
            self.stage = Stage::Refreshing { left: refreshes - 1, exit };
            Work::RefreshConfig
        } else if exit {
            self.stage = Stage::Ending;
            Work::FinishVersionQuery
        } else {
            self.stage = Stage::Ticking;
            Work::Tick
        }
    }

    fn settle(&mut self) -> (work: Work)
        requires
            old(self)@.inv(),
        ensures
            (final(self)@, work) == settling(old(self)@),
            final(self)@.inv(),
    {
        if self.agent.config_watched {
            self.stage = Stage::Preparing;
            Work::PrepareWait
        } else {
            self.stage = Stage::ArmingConfig;
            Work::WatchConfig
        }
    }

    fn to(&mut self, stage: Stage, work: Work) -> (same: Work)
        requires
            old(self)@.inv(),
        ensures
            final(self)@ == old(self)@.at(stage),
            final(self)@.inv(),
            same == work,
    {
        self.stage = stage;
        work
    }

    fn follow_pid(&mut self, pid: Option<u32>) -> (work: Work)
        requires
            old(self)@.inv(),
            old(self)@.stage is Pid,
        ensures
            followed(old(self)@, Fact::Pid(pid)) == Some((final(self)@, work)),
            final(self)@.inv(),
    {
        let change: WatchChange = self.agent.sync_watch(pid);
        match change.unwatch {
            Some(previous) => self.to(
                Stage::Unwatching { watch: change.watch },
                Work::Unwatch(previous),
            ),
            None => self.watch(change.watch),
        }
    }

    fn follow_status(&mut self, status: Status, now: u64) -> (work: Work)
        requires
            old(self)@.inv(),
            old(self)@.stage is Status,
        ensures
            followed(old(self)@, Fact::Status { status, now }) == Some((final(self)@, work)),
            final(self)@.inv(),
    {
        if self.agent.note_status(&status, now) {
            self.to(Stage::Pushing, Work::Push)
        } else {
            self.settle()
        }
    }

    /// Takes the answer to a piece of work, and tells what is to be done next;
    /// nothing where the answer is to something else.
    pub fn run(&mut self, fact: Fact) -> (work: Option<Work>)
        requires
            old(self)@.inv(),
        ensures
            final(self)@.inv(),
            match followed(old(self)@, fact) {
                Some((next, due)) => work == Some(due) && final(self)@ == next,
                None => work is None && final(self)@ == old(self)@,
            },
    {
        match (self.stage, fact) {
            (Stage::Pid, Fact::Pid(pid)) => Some(self.follow_pid(pid)),
            (Stage::Unwatching { watch }, Fact::Done) => Some(self.watch(watch)),
            (Stage::Watching, Fact::Watched(watched)) => if watched {
                Some(self.watch(None))
            } else {
                Some(self.to(Stage::PollingUnwatched, Work::PollProcess))
            },
            (Stage::PollingUnwatched, Fact::Done) => Some(self.watch(None)),
            (Stage::Signals, Fact::Signals(signals)) => {
                let plan: SignalPlan = drain_signals(&signals);
                Some(self.heed(plan.refreshes, plan.exit))
            },
            (Stage::Refreshing { left, exit }, Fact::Done) => Some(self.heed(left, exit)),
            (Stage::Ending, Fact::Done) => Some(self.to(Stage::Ended, Work::Exit)),
            (Stage::Ticking, Fact::Done) => Some(self.to(Stage::Status, Work::ReadStatus)),
            (Stage::Status, Fact::Status { status, now }) => Some(self.follow_status(status, now)),
            (Stage::Pushing, Fact::Done) => Some(self.settle()),
            (Stage::ArmingConfig, Fact::Watched(watched)) => {
                self.agent.note_config_watch(watched);
                Some(self.to(Stage::Preparing, Work::PrepareWait))
            },
            (Stage::Preparing, Fact::Done) => Some(self.to(Stage::Deadlines, Work::ReadDeadlines)),
            (Stage::Deadlines, Fact::Deadlines { supervisor, server, now }) => {
                let timeout: u64 = self.agent.wait_timeout(supervisor, server, now);
                Some(self.to(Stage::Waiting, Work::Wait(timeout)))
            },
            (Stage::Waiting, Fact::Events(events)) => {
                self.events = events;
                self.taken = 0;
                self.listener_ready = false;
                proof {
                    assert(self.events@.take(0) =~= Seq::<Event>::empty());
                }
                Some(self.serve())
            },
            (Stage::Serving, Fact::Done) => Some(self.serve()),
            (Stage::ServingConfig, Fact::Done) => Some(
                self.to(Stage::RearmingConfig, Work::WatchConfig),
            ),
            (Stage::RearmingConfig, Fact::Watched(watched)) => {
                self.agent.note_config_watch(watched);
                Some(self.serve())
            },
            (Stage::Finishing, Fact::Done) => Some(self.to(Stage::Pid, Work::ReadPid)),
            _ => None,
        }
    }
}

/// Connections are accepted only once the whole batch was taken up, and
/// exactly if some event of it asked for that.
pub proof fn connections_are_accepted_after_the_batch(s: LoopView, fact: Fact)
    requires
        s.inv(),
    ensures
        followed(s, fact) matches Some((next, Work::FinishBatch { listener_ready })) ==> {
            &&& next.taken == next.events.len()
            &&& listener_ready == says_connections(next.events)
        },
{
}

/// Every event that calls for work gets it, in order: going on with a batch
/// takes up the events up to and including the next one that calls for work,
/// and all others that it takes up are such as are only noted.
pub proof fn no_event_is_lost(s: LoopView, i: int)
    requires
        s.inv(),
        s.taken <= i < s.events.len(),
    ensures
        ({
            let (next, work) = serving(s);
            &&& i < next.taken && !is_noted(s.events[i]) ==> i == next.taken - 1 && (
                next.stage,
                work,
            ) == call_of(s.events[i])
            &&& work is FinishBatch ==> is_noted(s.events[i])
        }),
{
    if i < next_call(s.events, s.taken) {
        passed_events_are_noted(s.events, s.taken, i);
    }
}

proof fn passed_events_are_noted(events: Seq<Event>, from: int, i: int)
    requires
        0 <= from <= i < next_call(events, from),
    ensures
        is_noted(events[i]),
    decreases events.len() - from,
{
    if from < i {
        passed_events_are_noted(events, from + 1, i);
    }
}

/// An agent that was asked to end does not tick again.
pub proof fn ending_agents_tick_no_more(s: LoopView, fact: Fact)
    requires
        s.inv(),
        ({
            ||| s.stage matches Stage::Refreshing { exit: true, .. }
            ||| s.stage is Ending
            ||| s.stage is Ended
            ||| s.stage is Signals && fact is Signals && exists|i: int|
                0 <= i < fact->Signals_0@.len() && ends_agent(#[trigger] fact->Signals_0@[i])
        }),
    ensures
        followed(s, fact) matches Some((next, work)) ==> {
            &&& !(work is Tick)
            &&& {
                ||| next.stage matches Stage::Refreshing { exit: true, .. }
                ||| next.stage is Ending
                ||| next.stage is Ended
            }
        },
{
}

/// A process whose exit cannot be watched for is polled at once.
pub proof fn unwatched_processes_are_polled(s: LoopView)
    requires
        s.stage is Watching,
    ensures
        followed(s, Fact::Watched(false)) matches Some((_, Work::PollProcess)),
{
}

/// One round of the loop: after a look at the process come the signals, the
/// tick, the status and the sleep, and after what woke the agent the next
/// round. A process that is watched for anew replaces the earlier one.
pub proof fn rounds_go_on(s: LoopView, fact: Fact)
    ensures
        ({
            let after = followed(s, fact);
            let (next, work) = after->0;
            &&& s.stage is Pid ==> (fact matches Fact::Pid(pid) ==> {
                &&& after is Some
                &&& next.agent.watched_pid == pid
                &&& pid == s.agent.watched_pid ==> work is DrainSignals
                &&& pid != s.agent.watched_pid && s.agent.watched_pid is Some ==> work
                    == Work::Unwatch(s.agent.watched_pid->0)
                &&& s.agent.watched_pid is None ==> (pid matches Some(fresh) ==> work
                    == Work::Watch(fresh))
            })
            &&& s.stage matches Stage::Unwatching { watch } ==> (fact is Done ==> (match watch {
                Some(pid) => work == Work::Watch(pid),
                None => work is DrainSignals,
            }))
            &&& s.stage is Watching && fact == Fact::Watched(true) ==> work is DrainSignals
            &&& s.stage is Signals ==> (fact matches Fact::Signals(signals) ==> (signals@.len()
                == 0 ==> work is Tick))
            &&& s.stage is Ticking && fact is Done ==> work is ReadStatus
            &&& s.stage is Pushing && fact is Done && s.agent.config_watched ==> work
                is PrepareWait
            &&& s.stage is Pushing && fact is Done && !s.agent.config_watched ==> work
                is WatchConfig
            &&& s.stage is Preparing && fact is Done ==> work is ReadDeadlines
            &&& s.stage is Deadlines && fact is Deadlines ==> work is Wait
            &&& s.stage is Finishing && fact is Done ==> work is ReadPid
            &&& s.stage is Ending && fact is Done ==> work is Exit
            &&& s.stage is ServingConfig && fact is Done ==> work is WatchConfig
        }),
{
    if s.stage is Signals && fact is Signals && fact->Signals_0@.len() == 0 {
        assert(hangups(fact->Signals_0@) == 0);
    }
}

/// The subscribers are told of a status exactly where it looks different from
/// the last one, or where 10 seconds have passed since they were told last.
pub proof fn changed_statuses_are_pushed(s: LoopView, status: Status, now: u64)
    requires
        s.stage is Status,
    ensures
        ({
            let after = followed(s, Fact::Status { status, now });
            let (next, work) = after->0;
            let changed = fingerprint_of(status).deep_view() != s.agent.last_fingerprint;
            let late = now - s.agent.last_heartbeat >= 10_000_000_000;
            &&& after is Some
            &&& work is Push <==> changed || late
            &&& next.agent.last_fingerprint == fingerprint_of(status).deep_view()
            &&& changed || late ==> next.agent.last_heartbeat == now
            &&& !changed && !late ==> next.agent.last_heartbeat == s.agent.last_heartbeat
        }),
{
}

/// An event leads to the work that it calls for, on the connection or process
/// that it is about.
pub proof fn events_lead_to_their_work(fd: i32, pid: u32)
    ensures
        call_of(Event::PendingReadable(fd)).1 == Work::ReadRequest(fd),
        call_of(Event::StreamWritable(fd)).1 == Work::WriteResponse(fd),
        call_of(Event::Stream(fd)).1 == Work::ReadSubscriber(fd),
        call_of(Event::ChildExit(pid)).1 is PollProcess,
        call_of(Event::ConfigChanged).1 is RefreshConfig,
        is_noted(Event::Listener) && is_noted(Event::SignalWake),
        !is_noted(Event::PendingReadable(fd)) && !is_noted(Event::StreamWritable(fd)),
        !is_noted(Event::Stream(fd)) && !is_noted(Event::ChildExit(pid)),
        !is_noted(Event::ConfigChanged),
{
}

} // verus!
