//! Starting, stopping and restarting.

#[allow(unused_imports)]
use vstd::prelude::*;
use crate::failure::{Failure, FailureKind};
#[allow(unused_imports)]
use crate::failure::{failure, FailureView};
use crate::process::{ManagedProcess, SpawnError};
#[allow(unused_imports)]
use crate::process::ManagedProcessView;
use crate::protocol::{HealthState, ServerState};
use crate::text::{clone_text, join};
use super::credential::CredentialState;
#[allow(unused_imports)]
use super::launch_transaction::{aborting, beginning, committing};
#[allow(unused_imports)]
use super::process_exit::{recovery_exhausted, restart_scheduled};
#[allow(unused_imports)]
use super::runtime_durability::{
    deferring_convergence, deferring_intent, ready, showing_readiness, stopped,
};
use super::{
    after, Effect, Launch, PendingDurableConvergence, PendingLifecycleIntent, RuntimePersistence,
    SaveThen, StartTrigger, StopSignal, Supervisor, Task, GRACEFUL_STOP, PORT_RELEASE_RETRY_BUDGET,
    PORT_RELEASE_RETRY_INTERVAL,
};
#[allow(unused_imports)]
use super::{
    go_on, later, DurabilityView, HandView, LaunchView, Next, Server, SupervisorView, TextsView,
    Timers,
};

verus! {

/// Why a requested start cannot proceed, if so. An unverified record claims
/// the endpoint, and a password that cannot be read yet must not be dropped.
pub open spec fn refusal(s: SupervisorView) -> Option<Seq<char>> {
    if s.server.unverified_process_record && s.process is None {
        Some(
            "An unverified OpenCode process is still running — quit it manually, then start again"@,
        )
    } else if s.credentials.state is AccessPending {
        Some(
            "Keychain access not granted — open Settings, choose “Allow Keychain Access…”, then start"@,
        )
    } else {
        None
    }
}

/// A newer command takes the place of what was waiting.
pub open spec fn superseding(s: SupervisorView) -> SupervisorView {
    SupervisorView {
        durable: DurabilityView { pending_exit: None, pending_convergence: None, ..s.durable },
        ..s
    }
}

/// The state after a requested start was refused.
pub open spec fn start_refused(s: SupervisorView, reason: Seq<char>) -> SupervisorView {
    SupervisorView {
        server: Server { state: ServerState::Failed, ..s.server },
        ..s
    }.saying(reason).refusing(failure(FailureKind::PermissionDenied, reason))
}

/// The state before a fresh series of attempts to start.
pub open spec fn fresh_attempts(s: SupervisorView) -> SupervisorView {
    SupervisorView {
        server: Server { restart_attempt_index: 0, ..s.server },
        timers: Timers { next_restart: None, ..s.timers },
        ..s
    }
}

/// Acts on a start. A process that runs already is left alone.
pub open spec fn starting(s: SupervisorView) -> SupervisorView {
    let base = superseding(s);
    if s.process is Some {
        base
    } else {
        match refusal(s) {
            Some(reason) => start_refused(base, reason),
            None => fresh_attempts(base).without_retries().with_task(Task::StartApplied).with_task(
                Task::StartNow(StartTrigger::Cold),
            ),
        }
    }
}

/// Acts on a stop.
pub open spec fn stopping_for_good(s: SupervisorView) -> SupervisorView {
    let base = superseding(s).without_retries();
    SupervisorView {
        server: Server {
            restart_after_stop: false,
            group_cleanup_recovery: false,
            ..base.server
        },
        timers: Timers { next_restart: None, ..base.timers },
        ..base
    }.with_task(Task::StopApplied).with_task(Task::BeginStop { restarting: false })
}

/// Acts on a restart.
pub open spec fn restarting(s: SupervisorView) -> SupervisorView {
    let base = fresh_attempts(superseding(s)).without_retries();
    let cleared = SupervisorView {
        server: Server {
            group_cleanup_recovery: false,
            restart_after_stop: s.process is Some && refusal(s) is None,
            ..base.server
        },
        ..base
    };
    match refusal(s) {
        Some(reason) => start_refused(cleared, reason),
        None => if s.process is Some {
            cleared.with_task(Task::BeginStop { restarting: true })
        } else {
            cleared.with_task(Task::StartApplied).with_task(
                Task::StartNow(StartTrigger::AfterStop),
            )
        },
    }
}

/// Acts on a command.
pub open spec fn applying(s: SupervisorView, intent: PendingLifecycleIntent) -> SupervisorView {
    match intent {
        PendingLifecycleIntent::Start => starting(s),
        PendingLifecycleIntent::Stop => stopping_for_good(s),
        PendingLifecycleIntent::Restart => restarting(s),
    }
}

/// The failure of a start whose process could not be made durable.
pub open spec fn start_applied(s: SupervisorView) -> SupervisorView {
    match s.durable.error {
        Some(error) => s.refusing(failure(FailureKind::Other, error)),
        None => s,
    }
}

/// The failure of a stop that cannot claim anything.
pub open spec fn stop_applied(s: SupervisorView) -> SupervisorView {
    if s.runtime.launch_pending is Some || s.durable.clear_requested {
        s.refusing(
            failure(
                FailureKind::Other,
                "An earlier OpenCode launch was not durably finalized; Stop cannot claim it was stopped"@,
            ),
        )
    } else {
        s
    }
}

/// A stop waits where a launch is unfinished.
pub open spec fn stop_deferred(s: SupervisorView, now: u64, restarting: bool) -> SupervisorView {
    if !s.durable.clear_requested {
        s
    } else if s.process is Some {
        deferring_intent(
            s,
            now,
            if restarting {
                PendingLifecycleIntent::Restart
            } else {
                PendingLifecycleIntent::Stop
            },
        )
    } else {
        deferring_convergence(
            s,
            now,
            if restarting {
                PendingDurableConvergence::Start(StartTrigger::AfterStop)
            } else {
                PendingDurableConvergence::Stop
            },
        )
    }
}

/// Begins a stop. Nothing is signaled, and no stop is claimed, while a launch
/// is unfinished or a process could not be verified.
pub open spec fn stop_begun(s: SupervisorView, now: u64, restarting: bool) -> Next {
    if s.runtime.launch_pending is Some || s.durable.clear_requested {
        go_on(
            stop_deferred(s, now, restarting).failing().saying(
                "An earlier OpenCode launch was not durably finalized — stop the possible process manually, then repair runtime state"@,
            ),
        )
    } else if s.process is Some {
        Next {
            state: s.with_task(Task::Terminated { restarting }),
            effect: Effect::Signal(StopSignal::Terminate),
        }
    } else if s.server.unverified_process_record {
        go_on(
            SupervisorView {
                server: Server { state: ServerState::Failed, ..s.server },
                ..s
            }.saying(
                "The existing OpenCode identity was never confirmed — stop it manually, then start again"@,
            ),
        )
    } else if restarting {
        go_on(s.with_task(Task::StartNow(StartTrigger::AfterStop)))
    } else {
        go_on(stopped(s))
    }
}

/// What follows the request to terminate.
pub open spec fn terminated(
    s: SupervisorView,
    now: u64,
    restarting: bool,
    sent: Result<(), FailureView>,
) -> SupervisorView {
    match sent {
        Ok(()) => SupervisorView {
            server: Server {
                state: ServerState::Stopping,
                health: HealthState::Unknown,
                restart_after_stop: restarting,
                ..s.server
            },
            timers: Timers { stop_deadline: Some(later(now, GRACEFUL_STOP)), ..s.timers },
            ..s
        }.silent(),
        Err(error) => SupervisorView {
            server: Server { state: ServerState::Failed, ..s.server },
            ..s
        }.saying(error.message),
    }
}

/// Extends the graceful interval after it ran out.
pub open spec fn waiting_on(s: SupervisorView, now: u64) -> SupervisorView {
    if s.server.state is StopTimedOut {
        SupervisorView {
            server: Server { state: ServerState::Stopping, ..s.server },
            timers: Timers { stop_deadline: Some(later(now, GRACEFUL_STOP)), ..s.timers },
            ..s
        }.silent()
    } else {
        s.refusing(
            failure(
                FailureKind::InvalidInput,
                "OpenCode is not waiting after a graceful-stop timeout"@,
            ),
        )
    }
}

/// Kills a process that is being stopped. Nothing else is ever killed.
pub open spec fn forcing(s: SupervisorView) -> Next {
    if !s.stopping() {
        go_on(
            s.refusing(
                failure(
                    FailureKind::InvalidInput,
                    "force stop is available only after a stop or restart request"@,
                ),
            ),
        )
    } else if s.process is None {
        go_on(s.refusing(failure(FailureKind::NotFound, "OpenCode is not running"@)))
    } else {
        Next { state: s.with_task(Task::Killed), effect: Effect::Signal(StopSignal::Kill) }
    }
}

/// What follows the request to kill.
pub open spec fn killed(s: SupervisorView, sent: Result<(), FailureView>) -> SupervisorView {
    match sent {
        Ok(()) => SupervisorView {
            server: Server { state: ServerState::Stopping, ..s.server },
            timers: Timers { stop_deadline: None, ..s.timers },
            ..s
        }.silent(),
        Err(error) => s.refusing(error),
    }
}

/// Attempts a start: the configuration is read again first.
pub open spec fn start_attempted(s: SupervisorView, now: u64, trigger: StartTrigger) -> SupervisorView {
    let shown = showing_readiness(s);
    if ready(s) {
        shown.with_task(Task::Launch(trigger)).with_task(Task::RefreshConfig)
    } else {
        deferring_convergence(shown, now, PendingDurableConvergence::Start(trigger)).failing()
    }
}

/// A failed attempt is repeated only where it was part of a recovery.
pub open spec fn repeating(s: SupervisorView, now: u64, trigger: StartTrigger) -> SupervisorView {
    if trigger is Recovery {
        restart_scheduled(s, now)
    } else {
        s
    }
}

/// Launches under the latest configuration. Without one, or while its
/// password cannot be read, nothing is started.
pub open spec fn launching(s: SupervisorView, now: u64, trigger: StartTrigger) -> Next {
    match s.latest_config {
        None => go_on(
            repeating(
                SupervisorView {
                    server: Server { state: ServerState::Failed, ..s.server },
                    texts: TextsView { last_error: s.texts.config_error, ..s.texts },
                    ..s
                },
                now,
                trigger,
            ),
        ),
        Some(config) => if s.credentials.state is AccessPending {
            if s.credentials.refresh is Some {
                go_on(s)
            } else {
                go_on(
                    repeating(
                        s.failing().saying(
                            "Keychain access not granted — open Settings, choose “Allow Keychain Access…”, then start"@,
                        ),
                        now,
                        trigger,
                    ),
                )
            }
        } else {
            beginning(s, trigger, config)
        },
    }
}

/// What a start gave, without its outside handle.
pub open spec fn spawn_view(outcome: Result<ManagedProcess, SpawnError>) -> Result<
    ManagedProcessView,
    (FailureView, Option<ManagedProcessView>),
> {
    match outcome {
        Ok(process) => Ok(process.deep_view()),
        Err(error) => Err((error.error.deep_view(), error.survivor.deep_view())),
    }
}

/// What follows the creation of a process. One that outlived its failed
/// confirmation stays under supervision.
pub open spec fn spawned(
    s: SupervisorView,
    trigger: StartTrigger,
    outcome: Result<ManagedProcessView, (FailureView, Option<ManagedProcessView>)>,
) -> Next {
    match outcome {
        Ok(process) => committing(s, process, SaveThen::Committed),
        Err((error, Some(survivor))) => committing(s, survivor, SaveThen::SurvivorCommitted),
        Err((error, None)) => aborting(
            SupervisorView { hand: HandView { spawn_error: Some(error), ..s.hand }, ..s },
            trigger,
        ),
    }
}

/// The state once a started process was recorded, or could not be: it stays
/// under supervision either way.
#[verifier::opaque]
pub open spec fn committed(s: SupervisorView, now: u64, persistence: RuntimePersistence) -> SupervisorView {
    let base = s.without_retries();
    let running = SupervisorView {
        active_config: match s.hand.launch {
            Some(launch) => Some(launch.config),
            None => None,
        },
        hand: HandView { launch: None, ..s.hand },
        texts: TextsView { running_version: None, ..s.texts },
        server: Server {
            state: ServerState::Starting,
            health: HealthState::Unknown,
            health_failures: 0,
            group_cleanup_recovery: false,
            ..base.server
        },
        timers: Timers { last_health_check: None, process_started: Some(now), ..base.timers },
        ..base
    };
    if persistence is Durable {
        running.silent()
    } else {
        running.failing()
    }
}

/// The state once a survivor was recorded, or could not be.
#[verifier::opaque]
pub open spec fn survivor_committed(
    s: SupervisorView,
    now: u64,
    persistence: RuntimePersistence,
) -> SupervisorView {
    let base = SupervisorView {
        active_config: None,
        hand: HandView { launch: None, ..s.hand },
        timers: Timers { process_started: Some(now), ..s.timers },
        ..s
    }.failing();
    if persistence is Durable {
        base.saying(
            "OpenCode failed identity confirmation after launch — it remains running under supervision"@,
        )
    } else {
        base
    }
}

/// When the wait for the endpoint ends.
pub open spec fn port_deadline(s: SupervisorView, now: u64) -> u64 {
    match s.timers.port_release_deadline {
        Some(deadline) => deadline,
        None => later(now, PORT_RELEASE_RETRY_BUDGET),
    }
}

/// When the wait for the address ends.
pub open spec fn network_deadline(s: SupervisorView, now: u64) -> u64 {
    match s.timers.network_wait_deadline {
        Some(deadline) => deadline,
        None => later(now, s.options.network_wait_budget),
    }
}

/// A start waits a moment and is tried again.
pub open spec fn retry_scheduled(s: SupervisorView, now: u64) -> SupervisorView {
    SupervisorView {
        server: Server {
            state: ServerState::WaitingToRestart,
            health: HealthState::Unknown,
            ..s.server
        },
        timers: Timers {
            next_port_retry: Some(later(now, PORT_RELEASE_RETRY_INTERVAL)),
            ..s.timers
        },
        ..s
    }.silent()
}

/// Waits for the endpoint that our own process may still hold.
pub open spec fn awaiting_port(s: SupervisorView, now: u64) -> SupervisorView {
    retry_scheduled(
        SupervisorView {
            timers: Timers {
                port_release_deadline: Some(port_deadline(s, now)),
                ..s.timers
            },
            ..s
        },
        now,
    )
}

/// Waits for the configured address to be assigned.
pub open spec fn awaiting_network(s: SupervisorView, now: u64, trigger: StartTrigger) -> SupervisorView {
    retry_scheduled(
        SupervisorView {
            timers: Timers {
                network_wait_deadline: Some(network_deadline(s, now)),
                ..s.timers
            },
            server: Server { pending_start_trigger: Some(trigger), ..s.server },
            ..s
        },
        now,
    )
}

/// What a failed start shows.
pub open spec fn start_failure_text(launch: Option<LaunchView>, error: FailureView) -> Seq<char> {
    if error.kind is AddrInUse {
        "Port conflict: endpoint "@ + (match launch {
            Some(prepared) => prepared.config.endpoint(),
            None => Seq::empty(),
        }) + " is already in use — no process was terminated"@
    } else {
        "OpenCode could not be started: "@ + error.message
    }
}

/// The state once a start has failed for good.
pub open spec fn start_failed(
    s: SupervisorView,
    now: u64,
    trigger: StartTrigger,
    in_use: bool,
    text: Seq<char>,
) -> SupervisorView {
    let base = s.without_retries().failing().saying(text);
    if trigger is Recovery {
        if in_use {
            recovery_exhausted(base)
        } else {
            restart_scheduled(base, now)
        }
    } else {
        base
    }
}

/// What follows a failed start that left no marker. An endpoint that our own
/// process may still hold, and an address that is not assigned yet, are
/// waited for.
#[verifier::opaque]
pub open spec fn start_settled(
    s: SupervisorView,
    now: u64,
    trigger: StartTrigger,
    launch: Option<LaunchView>,
    error: FailureView,
) -> SupervisorView {
    if error.kind is AddrInUse && trigger is AfterStop && now < port_deadline(s, now) {
        awaiting_port(s, now)
    } else if error.kind is AddrNotAvailable && now < network_deadline(s, now) {
        awaiting_network(s, now, trigger)
    } else {
        start_failed(s, now, trigger, error.kind is AddrInUse, start_failure_text(launch, error))
    }
}

/// What follows the clear of the marker after a failed start. While the
/// marker may still be there, nothing is tried again.
pub open spec fn aborted(
    s: SupervisorView,
    now: u64,
    trigger: StartTrigger,
    persistence: RuntimePersistence,
) -> SupervisorView {
    let dropped = SupervisorView {
        hand: HandView { launch: None, spawn_error: None, ..s.hand },
        ..s
    };
    match s.hand.spawn_error {
        None => dropped,
        Some(error) => if persistence is Durable {
            start_settled(dropped, now, trigger, s.hand.launch, error)
        } else {
            dropped.failing().without_retries()
        },
    }
}

impl Supervisor {
    /// Why a requested start cannot proceed, if so.
    pub(super) fn start_refusal(&self) -> (reason: Option<&'static str>)
        ensures
            match reason {
                Some(text) => refusal(self.model()) == Some(text@),
                None => refusal(self.model()) is None,
            },
    {
        if self.server.unverified_process_record && self.process.is_none() {
            return Some(
                "An unverified OpenCode process is still running — quit it manually, then start again",
            );
        }
        if self.credentials.state() == CredentialState::AccessPending {
            return Some(
                "Keychain access not granted — open Settings, choose “Allow Keychain Access…”, then start",
            );
        }
        None
    }

    fn supersede(&mut self)
        ensures
            final(self).model() == superseding(old(self).model()),
    {
        self.durable.pending_exit = None;
        self.durable.pending_convergence = None;
    }

    fn refuse_start(&mut self, reason: &str)
        ensures
            final(self).model() == start_refused(old(self).model(), reason@),
    {
        self.texts.last_error = Some(reason.to_owned());
        self.server.state = ServerState::Failed;
        self.hand.failure = Some(Failure::new(FailureKind::PermissionDenied, reason));
    }

    fn apply_start(&mut self)
        ensures
            final(self).model() == starting(old(self).model()),
    {
        let refused = self.start_refusal();
        self.supersede();
        if self.process.is_some() {
            return;
        }
        match refused {
            Some(reason) => self.refuse_start(reason),
            None => {
                self.server.restart_attempt_index = 0;
                self.timers.next_restart = None;
                self.drop_retries();
                self.push(Task::StartApplied);
                self.push(Task::StartNow(StartTrigger::Cold));
            },
        }
    }

    fn apply_stop(&mut self)
        ensures
            final(self).model() == stopping_for_good(old(self).model()),
    {
        self.supersede();
        self.drop_retries();
        self.server.restart_after_stop = false;
        self.server.group_cleanup_recovery = false;
        self.timers.next_restart = None;
        self.push(Task::StopApplied);
        self.push(Task::BeginStop { restarting: false });
    }

    fn apply_restart(&mut self)
        ensures
            final(self).model() == restarting(old(self).model()),
    {
        let refused = self.start_refusal();
        self.supersede();
        self.drop_retries();
        self.server.group_cleanup_recovery = false;
        self.server.restart_after_stop = self.process.is_some() && refused.is_none();
        self.server.restart_attempt_index = 0;
        self.timers.next_restart = None;
        match refused {
            Some(reason) => self.refuse_start(reason),
            None => {
                if self.process.is_some() {
                    self.push(Task::BeginStop { restarting: true });
                } else {
                    self.push(Task::StartApplied);
                    self.push(Task::StartNow(StartTrigger::AfterStop));
                }
            },
        }
    }

    /// Acts on a command whose desired state is durable.
    pub(super) fn apply_lifecycle_intent(&mut self, intent: PendingLifecycleIntent)
        ensures
            final(self).model() == applying(old(self).model(), intent),
    {
        match intent {
            PendingLifecycleIntent::Start => self.apply_start(),
            PendingLifecycleIntent::Stop => self.apply_stop(),
            PendingLifecycleIntent::Restart => self.apply_restart(),
        }
    }

    /// Fails a start whose process could not be made durable.
    pub(super) fn finish_start(&mut self)
        ensures
            final(self).model() == start_applied(old(self).model()),
    {
        if let Some(error) = clone_text(&self.durable.error) {
            self.hand.failure = Some(Failure::other(error.as_str()));
        }
    }

    /// Fails a stop that cannot claim anything.
    pub(super) fn finish_stop(&mut self)
        ensures
            final(self).model() == stop_applied(old(self).model()),
    {
        if self.runtime.launch_pending.is_some() || self.durable.clear_requested {
            self.hand.failure = Some(
                Failure::other(
                    "An earlier OpenCode launch was not durably finalized; Stop cannot claim it was stopped",
                ),
            );
        }
    }

    fn defer_stop(&mut self, now: u64, restarting: bool)
        ensures
            final(self).model() == stop_deferred(old(self).model(), now, restarting),
    {
        if self.durable.clear_requested {
            if self.process.is_some() {
                self.defer_lifecycle_intent(
                    now,
                    if restarting {
                        PendingLifecycleIntent::Restart
                    } else {
                        PendingLifecycleIntent::Stop
                    },
                );
            } else {
                self.defer_durable_convergence(
                    now,
                    if restarting {
                        PendingDurableConvergence::Start(StartTrigger::AfterStop)
                    } else {
                        PendingDurableConvergence::Stop
                    },
                );
            }
        }
    }

    /// Begins a stop, or a restart.
    pub(super) fn begin_stop(&mut self, now: u64, restarting: bool) -> (effect: Effect)
        ensures
            (Next { state: final(self).model(), effect }) == stop_begun(
                old(self).model(),
                now,
                restarting,
            ),
    {
        if self.runtime.launch_pending.is_some() || self.durable.clear_requested {
            self.defer_stop(now, restarting);
            self.fail();
            self.say(
                "An earlier OpenCode launch was not durably finalized — stop the possible process manually, then repair runtime state",
            );
            return Effect::Continue;
        }
        if self.process.is_some() {
            self.push(Task::Terminated { restarting });
            return Effect::Signal(StopSignal::Terminate);
        }
        if self.server.unverified_process_record {
            self.server.state = ServerState::Failed;
            self.say(
                "The existing OpenCode identity was never confirmed — stop it manually, then start again",
            );
        } else if restarting {
            self.push(Task::StartNow(StartTrigger::AfterStop));
        } else {
            self.server.state = ServerState::Stopped;
            self.server.health = HealthState::Unknown;
            self.texts.last_error = None;
        }
        Effect::Continue
    }

    /// Goes on after the request to terminate.
    pub(super) fn stop_signaled(&mut self, now: u64, restarting: bool, sent: Result<(), Failure>)
        ensures
            final(self).model() == terminated(
                old(self).model(),
                now,
                restarting,
                signal_view(sent),
            ),
    {
        match sent {
            Ok(()) => {
                self.server.state = ServerState::Stopping;
                self.server.health = HealthState::Unknown;
                self.server.restart_after_stop = restarting;
                self.timers.stop_deadline = Some(after(now, GRACEFUL_STOP));
                self.texts.last_error = None;
            },
            Err(error) => {
                self.server.state = ServerState::Failed;
                self.texts.last_error = Some(error.message);
            },
        }
    }

    /// Extends the graceful interval after it ran out.
    pub(super) fn continue_stop(&mut self, now: u64)
        ensures
            final(self).model() == waiting_on(old(self).model(), now),
    {
        if self.server.state != ServerState::StopTimedOut {
            self.hand.failure = Some(
                Failure::new(
                    FailureKind::InvalidInput,
                    "OpenCode is not waiting after a graceful-stop timeout",
                ),
            );
            return;
        }
        self.server.state = ServerState::Stopping;
        self.timers.stop_deadline = Some(after(now, GRACEFUL_STOP));
        self.texts.last_error = None;
    }

    /// Kills a process that is being stopped.
    pub(super) fn force_stop(&mut self) -> (effect: Effect)
        ensures
            (Next { state: final(self).model(), effect }) == forcing(old(self).model()),
    {
        if !self.is_stopping() {
            self.hand.failure = Some(
                Failure::new(
                    FailureKind::InvalidInput,
                    "force stop is available only after a stop or restart request",
                ),
            );
            return Effect::Continue;
        }
        if self.process.is_none() {
            self.hand.failure = Some(
                Failure::new(FailureKind::NotFound, "OpenCode is not running"),
            );
            return Effect::Continue;
        }
        self.push(Task::Killed);
        Effect::Signal(StopSignal::Kill)
    }

    /// Goes on after the request to kill.
    pub(super) fn kill_signaled(&mut self, sent: Result<(), Failure>)
        ensures
            final(self).model() == killed(old(self).model(), signal_view(sent)),
    {
        match sent {
            Ok(()) => {
                self.server.state = ServerState::Stopping;
                self.timers.stop_deadline = None;
                self.texts.last_error = None;
            },
            Err(error) => {
                self.hand.failure = Some(error);
            },
        }
    }

    /// Attempts a start.
    pub(super) fn start_now(&mut self, now: u64, trigger: StartTrigger)
        ensures
            final(self).model() == start_attempted(old(self).model(), now, trigger),
    {
        if !self.runtime_state_ready() {
            self.defer_durable_convergence(now, PendingDurableConvergence::Start(trigger));
            self.fail();
            return;
        }
        self.push(Task::Launch(trigger));
        self.push(Task::RefreshConfig);
    }

    fn repeat_recovery(&mut self, now: u64, trigger: StartTrigger)
        ensures
            final(self).model() == repeating(old(self).model(), now, trigger),
    {
        if trigger == StartTrigger::Recovery {
            self.schedule_next_restart(now);
        }
    }

    /// Launches under the latest configuration.
    pub(super) fn launch(&mut self, now: u64, trigger: StartTrigger) -> (effect: Effect)
        ensures
            (Next { state: final(self).model(), effect }) == launching(
                old(self).model(),
                now,
                trigger,
            ),
    {
        let config = match &self.latest_config {
            Some(config) => config.clone(),
            None => {
                self.server.state = ServerState::Failed;
                self.texts.last_error = clone_text(&self.texts.config_error);
                self.repeat_recovery(now, trigger);
                return Effect::Continue;
            },
        };
        if self.credentials.state() == CredentialState::AccessPending {
            if !self.credentials.refresh_in_flight() {
                self.fail();
                self.say(
                    "Keychain access not granted — open Settings, choose “Allow Keychain Access…”, then start",
                );
                self.repeat_recovery(now, trigger);
            }
            return Effect::Continue;
        }
        self.begin_launch(trigger, config)
    }

    /// Goes on after the creation of a process.
    pub(super) fn process_spawned(
        &mut self,
        trigger: StartTrigger,
        outcome: Result<ManagedProcess, SpawnError>,
    ) -> (effect: Effect)
        ensures
            (Next { state: final(self).model(), effect }) == spawned(
                old(self).model(),
                trigger,
                spawn_view(outcome),
            ),
    {
        match outcome {
            Ok(process) => self.commit_spawned_process(process, SaveThen::Committed),
            Err(spawn_error) => {
                let (error, survivor) = spawn_error.into_parts();
                match survivor {
                    Some(child) => self.commit_spawned_process(child, SaveThen::SurvivorCommitted),
                    None => {
                        self.hand.spawn_error = Some(error);
                        self.abort_launch(trigger)
                    },
                }
            },
        }
    }

    /// Goes on after the record of a started process was written.
    pub(super) fn process_committed(&mut self, now: u64, persistence: RuntimePersistence)
        ensures
            final(self).model() == committed(old(self).model(), now, persistence),
    {
        proof {
            reveal(committed);
        }
        self.drop_retries();
        self.active_config = match self.hand.launch.take() {
            Some(launch) => Some(launch.config),
            None => None,
        };
        self.texts.running_version = None;
        self.server.state = ServerState::Starting;
        self.server.health = HealthState::Unknown;
        self.server.health_failures = 0;
        self.server.group_cleanup_recovery = false;
        self.timers.last_health_check = None;
        self.timers.process_started = Some(now);
        match persistence {
            RuntimePersistence::Durable => {
                self.texts.last_error = None;
            },
            _ => {
                self.server.state = ServerState::Failed;
            },
        }
    }

    /// Goes on after the record of a survivor was written.
    pub(super) fn survivor_recorded(&mut self, now: u64, persistence: RuntimePersistence)
        ensures
            final(self).model() == survivor_committed(old(self).model(), now, persistence),
    {
        proof {
            reveal(survivor_committed);
        }
        self.active_config = None;
        self.hand.launch = None;
        self.timers.process_started = Some(now);
        self.server.state = ServerState::Failed;
        self.server.health = HealthState::Unknown;
        if persistence == RuntimePersistence::Durable {
            self.say(
                "OpenCode failed identity confirmation after launch — it remains running under supervision",
            );
        }
    }

    fn schedule_retry(&mut self, now: u64)
        ensures
            final(self).model() == retry_scheduled(old(self).model(), now),
    {
        self.timers.next_port_retry = Some(after(now, PORT_RELEASE_RETRY_INTERVAL));
        self.server.state = ServerState::WaitingToRestart;
        self.server.health = HealthState::Unknown;
        self.texts.last_error = None;
    }

    /// Waits for the endpoint that our own process may still hold, while the
    /// budget lasts.
    fn schedule_port_release_retry(&mut self, now: u64) -> (scheduled: bool)
        ensures
            scheduled == (now < port_deadline(old(self).model(), now)),
            final(self).model() == (if scheduled {
                awaiting_port(old(self).model(), now)
            } else {
                old(self).model()
            }),
    {
        let deadline: u64 = match self.timers.port_release_deadline {
            Some(deadline) => deadline,
            None => after(now, PORT_RELEASE_RETRY_BUDGET),
        };
        if now >= deadline {
            return false;
        }
        self.timers.port_release_deadline = Some(deadline);
        self.schedule_retry(now);
        true
    }

    /// Waits for the configured address to be assigned, while the budget
    /// lasts.
    fn schedule_network_wait_retry(&mut self, now: u64, trigger: StartTrigger) -> (scheduled: bool)
        ensures
            scheduled == (now < network_deadline(old(self).model(), now)),
            final(self).model() == (if scheduled {
                awaiting_network(old(self).model(), now, trigger)
            } else {
                old(self).model()
            }),
    {
        let deadline: u64 = match self.timers.network_wait_deadline {
            Some(deadline) => deadline,
            None => after(now, self.options.network_wait_budget),
        };
        if now >= deadline {
            return false;
        }
        self.timers.network_wait_deadline = Some(deadline);
        self.server.pending_start_trigger = Some(trigger);
        self.schedule_retry(now);
        true
    }

    fn fail_start(&mut self, now: u64, trigger: StartTrigger, in_use: bool, text: String)
        ensures
            final(self).model() == start_failed(old(self).model(), now, trigger, in_use, text@),
    {
        self.drop_retries();
        self.fail();
        self.texts.last_error = Some(text);
        if trigger == StartTrigger::Recovery {
            if in_use {
                self.finish_recovery_failure();
            } else {
                self.schedule_next_restart(now);
            }
        }
    }

    fn settle_failed_start(
        &mut self,
        now: u64,
        trigger: StartTrigger,
        launch: Option<Launch>,
        error: Failure,
    )
        ensures
            final(self).model() == start_settled(
                old(self).model(),
                now,
                trigger,
                launch.deep_view(),
                error.deep_view(),
            ),
    {
        proof {
            reveal(start_settled);
        }
        let in_use = error.kind == FailureKind::AddrInUse;
        if in_use && trigger == StartTrigger::AfterStop && self.schedule_port_release_retry(now) {
            return;
        }
        if error.kind == FailureKind::AddrNotAvailable && self.schedule_network_wait_retry(
            now,
            trigger,
        ) {
            return;
        }
        let text = Self::start_failure(&launch, &error);
        self.fail_start(now, trigger, in_use, text);
    }

    fn start_failure(launch: &Option<Launch>, error: &Failure) -> (text: String)
        ensures
            text@ == start_failure_text(launch.deep_view(), error.deep_view()),
    {
        if error.kind == FailureKind::AddrInUse {
            let endpoint = match launch {
                Some(prepared) => prepared.config.endpoint(),
                None => String::new(),
            };
            proof {
                if launch is None {
                    assert(endpoint@ =~= Seq::<char>::empty());
                }
            }
            let start = join("Port conflict: endpoint ", endpoint.as_str());
            join(start.as_str(), " is already in use — no process was terminated")
        } else {
            join("OpenCode could not be started: ", error.message.as_str())
        }
    }

    /// Goes on after the marker of a failed start was cleared.
    pub(super) fn launch_aborted(
        &mut self,
        now: u64,
        trigger: StartTrigger,
        persistence: RuntimePersistence,
    )
        ensures
            final(self).model() == aborted(old(self).model(), now, trigger, persistence),
    {
        let launch = self.hand.launch.take();
        let failed = self.hand.spawn_error.take();
        match failed {
            None => {},
            Some(error) => {
                if persistence == RuntimePersistence::Durable {
                    self.settle_failed_start(now, trigger, launch, error);
                } else {
                    self.fail();
                    self.drop_retries();
                }
            },
        }
    }
}

/// The content of a sent signal.
pub open spec fn signal_view(sent: Result<(), Failure>) -> Result<(), FailureView> {
    match sent {
        Ok(()) => Ok(()),
        Err(error) => Err(error.deep_view()),
    }
}

/// A start is refused while a process could not be verified, and while the
/// password cannot be read: neither leads to any work.
pub proof fn refused_starts_do_nothing(s: SupervisorView)
    requires
        s.process is None,
        s.server.unverified_process_record || s.credentials.state is AccessPending,
    ensures
        starting(s).tasks == s.tasks,
        starting(s).hand.failure is Some,
        starting(s).server.state is Failed,
        restarting(s).tasks == s.tasks,
        restarting(s).hand.failure is Some,
{
}

/// A process that runs is not started a second time.
pub proof fn running_processes_are_not_started_again(s: SupervisorView)
    requires
        s.process is Some,
    ensures
        starting(s).tasks == s.tasks,
        starting(s).process == s.process,
{
}

/// Nothing is killed except a process that is being stopped on request.
pub proof fn only_stopping_processes_are_killed(s: SupervisorView)
    ensures
        forcing(s).effect == Effect::Signal(StopSignal::Kill) <==> s.stopping()
            && s.process is Some,
{
}

/// A start without the stored password never happens: while it cannot be
/// read, nothing is launched.
pub proof fn pending_passwords_bar_launches(s: SupervisorView, now: u64, trigger: StartTrigger)
    requires
        s.credentials.state is AccessPending,
    ensures
        launching(s, now, trigger).effect is Continue,
        launching(s, now, trigger).state.runtime == s.runtime,
        launching(s, now, trigger).state.process == s.process,
{
    reveal(super::process_exit::restart_scheduled);
}

} // verus!
