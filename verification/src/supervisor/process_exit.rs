//! What follows the exit of the process, and automatic recovery. The process
//! and its record stay managed until its group is empty and the cleared record
//! is durable.

#[allow(unused_imports)]
use vstd::prelude::*;
use crate::failure::Failure;
#[allow(unused_imports)]
use crate::failure::FailureView;
use crate::platform::ProcessSnapshot;
use crate::process::ExitReason;
#[allow(unused_imports)]
use crate::process::{confirmed_record, confirms};
use crate::process_cleanup::PendingGroupCleanup;
use crate::protocol::{DesiredState, HealthState, ServerState};
use crate::runtime_state::ProcessRecord;
#[allow(unused_imports)]
use crate::runtime_state::ProcessRecordView;
use crate::text::{decimal, join};
#[allow(unused_imports)]
use crate::text::decimal_text;
#[allow(unused_imports)]
use super::runtime_durability::persisting;
use super::{
    after, Effect, Notice, RuntimePersistence, SaveThen, StartTrigger, Subject, Supervisor, Task,
    GRACEFUL_STOP, RESTART_BACKOFF, SECOND, UNVERIFIED_CHECK_INTERVAL,
};
#[allow(unused_imports)]
use super::{
    go_on, later, DurabilityView, HandView, Next, Server, SupervisorView, TextsView, Timers,
};

verus! {

/// How many automatic recovery attempts there are.
pub const RESTART_ATTEMPTS: usize = 5;

/// The announcement of an attempt.
pub open spec fn attempt_text(attempt: int, delay: u64) -> Seq<char> {
    "Automatic recovery attempt "@ + decimal_text(attempt as nat) + " of "@ + decimal_text(
        RESTART_ATTEMPTS as nat,
    ) + " will start in "@ + decimal_text((delay / SECOND) as nat) + " seconds"@
}

/// Recovery is given up, which is told once.
pub open spec fn recovery_exhausted(s: SupervisorView) -> SupervisorView {
    let failed = SupervisorView {
        timers: Timers { next_restart: None, ..s.timers },
        server: Server {
            state: ServerState::Failed,
            recovery_incident_active: false,
            ..s.server
        },
        ..s
    }.saying("OpenCode automatic recovery stopped after five bounded attempts"@);
    if s.server.recovery_incident_active {
        failed.with_task(Task::Notify(Notice::RecoveryExhausted))
    } else {
        failed
    }
}

/// The next recovery attempt is scheduled, while there is one left.
#[verifier::opaque]
pub open spec fn restart_scheduled(s: SupervisorView, now: u64) -> SupervisorView {
    let index = s.server.restart_attempt_index;
    if index >= RESTART_ATTEMPTS {
        recovery_exhausted(s)
    } else {
        let delay = RESTART_BACKOFF@[index as int];
        SupervisorView {
            server: Server {
                state: ServerState::WaitingToRestart,
                restart_attempt_index: (index + 1) as usize,
                ..s.server
            },
            timers: Timers { next_restart: Some(later(now, delay)), ..s.timers },
            ..s
        }.saying(attempt_text(index + 1, delay))
    }
}

impl Supervisor {
    /// Schedules the next recovery attempt, while there is one left.
    pub(super) fn schedule_next_restart(&mut self, now: u64)
        ensures
            final(self).model() == restart_scheduled(old(self).model(), now),
    {
        proof {
            reveal(restart_scheduled);
        }
        let index: usize = self.server.restart_attempt_index;
        if index >= RESTART_ATTEMPTS {
            self.finish_recovery_failure();
            return;
        }
        let delay: u64 = RESTART_BACKOFF[index];
        let attempt: usize = index + 1;
        let text = join("Automatic recovery attempt ", decimal(attempt as u64).as_str());
        let text = join(text.as_str(), " of ");
        let text = join(text.as_str(), decimal(RESTART_ATTEMPTS as u64).as_str());
        let text = join(text.as_str(), " will start in ");
        let text = join(text.as_str(), decimal(delay / SECOND).as_str());
        let text = join(text.as_str(), " seconds");
        self.server.restart_attempt_index = attempt;
        self.server.state = ServerState::WaitingToRestart;
        self.timers.next_restart = Some(after(now, delay));
        self.texts.last_error = Some(text);
    }

    /// Gives recovery up.
    pub(super) fn finish_recovery_failure(&mut self)
        ensures
            final(self).model() == recovery_exhausted(old(self).model()),
    {
        let told = self.server.recovery_incident_active;
        self.timers.next_restart = None;
        self.server.state = ServerState::Failed;
        self.server.recovery_incident_active = false;
        self.texts.last_error = Some(
            "OpenCode automatic recovery stopped after five bounded attempts".to_owned(),
        );
        if told {
            self.push(Task::Notify(Notice::RecoveryExhausted));
        }
    }
}

/// The process under supervision is polled, after a child that was never
/// confirmed got another chance.
pub open spec fn polling(s: SupervisorView) -> Next {
    match s.process {
        Some(process) => if process.owned() && process.record().identity_unconfirmed {
            Next { state: s.with_task(Task::IdentitySeen), effect: Effect::SnapshotChild }
        } else {
            go_on(s.with_task(Task::PollExit))
        },
        None => go_on(s),
    }
}

/// What a look at an unconfirmed child leads to. A confirmed one is recorded
/// before anything else.
pub open spec fn identity_seen(
    s: SupervisorView,
    snapshot: Result<ProcessSnapshot, Failure>,
    same_executable: bool,
) -> Next {
    match s.process {
        Some(process) => if snapshot is Ok && confirms(process, snapshot->Ok_0, same_executable) {
            let record = confirmed_record(process.record(), snapshot->Ok_0);
            persisting(
                SupervisorView { process: Some(process.with_record(record)), ..s }.recording(
                    Some(record),
                ),
                true,
                SaveThen::IdentityUpgraded,
            )
        } else {
            go_on(s.with_task(Task::PollExit))
        },
        None => go_on(s),
    }
}

/// What follows the record of a confirmed child.
pub open spec fn identity_upgraded(s: SupervisorView, persistence: RuntimePersistence) -> SupervisorView {
    if persistence is Durable {
        s.with_task(Task::PollExit)
    } else {
        s.failing()
    }
}

/// Asks for the exit of the process. An exit while it is being stopped
/// follows a request.
pub open spec fn exit_asked(s: SupervisorView) -> Next {
    if s.process is Some {
        Next {
            state: s.with_task(Task::ExitPolled { explicit: s.stopping() }),
            effect: Effect::PollExit,
        }
    } else {
        go_on(s)
    }
}

/// The state after the poll itself: the cleanup moved on, and a failure to
/// look is shown.
pub open spec fn exit_observed(
    s: SupervisorView,
    cleanup: Option<PendingGroupCleanup>,
    error: Option<FailureView>,
) -> SupervisorView {
    let moved = SupervisorView {
        process: match s.process {
            Some(process) => Some(process.with_cleanup(cleanup)),
            None => None,
        },
        ..s
    };
    match error {
        Some(fault) => moved.saying("OpenCode process inspection failed: "@ + fault.message),
        None => moved,
    }
}

/// The leader is gone but its group remains. While the group may be signaled
/// it is given the graceful interval; otherwise nothing more is attempted.
#[verifier::opaque]
pub open spec fn group_pending(s: SupervisorView, now: u64, explicit: bool) -> Next {
    if !s.process->0.cleanup_authorized() {
        persisting(
            SupervisorView {
                timers: Timers { stop_deadline: None, ..s.timers },
                server: Server { state: ServerState::Failed, ..s.server },
                ..s
            }.saying(
                "OpenCode exited but its process-group identity could not be verified — no signal or restart was attempted"@,
            ),
            true,
            SaveThen::Nothing,
        )
    } else {
        let unexpected = !explicit && !s.server.group_cleanup_recovery;
        let noted = SupervisorView {
            server: Server {
                group_cleanup_recovery: s.server.group_cleanup_recovery || unexpected,
                restart_after_stop: s.server.restart_after_stop && !unexpected,
                ..s.server
            },
            ..s
        };
        if s.stopping() {
            go_on(noted)
        } else {
            persisting(
                SupervisorView {
                    server: Server {
                        state: ServerState::Stopping,
                        health: HealthState::Unknown,
                        ..noted.server
                    },
                    timers: Timers { stop_deadline: Some(later(now, GRACEFUL_STOP)), ..s.timers },
                    ..noted
                }.saying(
                    "OpenCode exited; waiting for its authorized process group to finish stopping"@,
                ),
                true,
                SaveThen::Nothing,
            )
        }
    }
}

/// A record that authorizes no signal any more.
pub open spec fn disowned(record: ProcessRecordView) -> ProcessRecordView {
    ProcessRecordView {
        identity_unconfirmed: true,
        start_seconds: 0,
        start_microseconds: 0,
        ..record
    }
}

/// A process that cannot be verified is left alone: its record stays and bars
/// every start until it is provably gone.
pub open spec fn unverified(s: SupervisorView, now: u64, record: ProcessRecordView) -> Next {
    persisting(
        SupervisorView {
            server: Server {
                unverified_process_record: true,
                state: ServerState::Failed,
                ..s.server
            },
            timers: Timers {
                unverified_check_at: Some(later(now, UNVERIFIED_CHECK_INTERVAL)),
                ..s.timers
            },
            ..s
        }.recording(Some(record)).saying(
            "Existing OpenCode could not be reattached safely — it was left running and not signaled"@,
        ),
        true,
        SaveThen::Nothing,
    )
}

/// The configuration of the process no longer counts.
pub open spec fn detached(s: SupervisorView) -> SupervisorView {
    SupervisorView {
        active_config: None,
        texts: TextsView { running_version: None, ..s.texts },
        server: Server {
            stale_config_process: false,
            health: HealthState::Unknown,
            ..s.server
        },
        ..s
    }
}

/// The process is no longer itself. An owned child stays so that it can be
/// reaped, but nothing is signaled any more.
#[verifier::opaque]
pub open spec fn identity_lost(s: SupervisorView, now: u64) -> Next {
    let process = s.process->0;
    let kept = SupervisorView {
        process: if process.owned() {
            Some(process.with_identity_failed())
        } else {
            None
        },
        ..detached(s)
    };
    unverified(kept, now, disowned(process.record()))
}

/// The leader of a reattached process is gone.
pub open spec fn leader_gone(
    s: SupervisorView,
    now: u64,
    explicit: bool,
    members: Result<bool, ()>,
) -> Next {
    match s.process {
        None => go_on(s),
        Some(process) => if members == Ok::<bool, ()>(false) {
            exit_completed(s, explicit, ExitReason::Disappeared)
        } else {
            let dropped = detached(s);
            let released = SupervisorView {
                process: None,
                timers: Timers {
                    stop_deadline: None,
                    process_started: None,
                    next_restart: None,
                    ..s.timers
                },
                server: Server {
                    restart_after_stop: false,
                    group_cleanup_recovery: false,
                    ..dropped.server
                },
                ..dropped
            };
            unverified(released, now, disowned(process.record()))
        },
    }
}

/// Nothing runs any more, as far as memory is concerned.
pub open spec fn released(s: SupervisorView) -> SupervisorView {
    let dropped = detached(s);
    SupervisorView {
        process: None,
        timers: Timers {
            stop_deadline: None,
            process_started: None,
            unverified_check_at: None,
            ..s.timers
        },
        server: Server { unverified_process_record: false, ..dropped.server },
        ..dropped
    }
}

/// The process ended: its record is cleared before anything follows.
#[verifier::opaque]
pub open spec fn exit_completed(s: SupervisorView, explicit: bool, exit: ExitReason) -> Next {
    let record = match s.runtime.process {
        Some(record) => Some(record),
        None => match s.process {
            Some(process) => Some(process.record()),
            None => None,
        },
    };
    let cleared = released(s).recording(None);
    persisting(
        SupervisorView { hand: HandView { evidence: record, ..s.hand }, ..cleared },
        false,
        SaveThen::RecordCleared { explicit, exit },
    )
}

/// What a poll of the process leads to.
pub open spec fn exit_polled(
    s: SupervisorView,
    now: u64,
    explicit: bool,
    cleanup: Option<PendingGroupCleanup>,
    exit: Result<Option<ExitReason>, FailureView>,
) -> Next {
    let seen = exit_observed(
        s,
        cleanup,
        match exit {
            Ok(_) => None,
            Err(error) => Some(error),
        },
    );
    match seen.process {
        None => go_on(seen),
        Some(process) => if process.group_exit_pending() {
            group_pending(seen, now, explicit)
        } else {
            match exit {
                Err(_) => go_on(seen),
                Ok(None) => go_on(seen),
                Ok(Some(ExitReason::IdentityChanged)) => identity_lost(seen, now),
                Ok(Some(ExitReason::Disappeared)) => if process.owned() {
                    exit_completed(seen, explicit, ExitReason::Disappeared)
                } else {
                    Next {
                        state: seen.with_task(Task::LeaderGone { explicit }),
                        effect: Effect::ObserveGroup(Subject::Managed),
                    }
                },
                Ok(Some(reason)) => exit_completed(seen, explicit, reason),
            }
        },
    }
}

/// Nothing is scheduled to start.
pub open spec fn start_cancelled(s: SupervisorView) -> SupervisorView {
    SupervisorView {
        timers: Timers {
            next_restart: None,
            next_port_retry: None,
            port_release_deadline: None,
            ..s.timers
        },
        server: Server { pending_start_trigger: None, ..s.server },
        ..s
    }
}

/// What follows the clear of the record. Recovery waits until it is durable;
/// a failed clear brings the record back as one that could not be verified.
pub open spec fn record_cleared(
    s: SupervisorView,
    now: u64,
    explicit: bool,
    exit: ExitReason,
    persistence: RuntimePersistence,
) -> SupervisorView {
    let dropped = SupervisorView { hand: HandView { evidence: None, ..s.hand }, ..s };
    match persistence {
        RuntimePersistence::Durable => exit_followed(dropped, explicit, exit, now),
        RuntimePersistence::Failed => {
            let barred = start_cancelled(dropped).failing().recording(s.hand.evidence);
            SupervisorView {
                server: Server { unverified_process_record: true, ..barred.server },
                timers: Timers {
                    unverified_check_at: Some(later(now, UNVERIFIED_CHECK_INTERVAL)),
                    ..barred.timers
                },
                ..barred
            }
        },
        RuntimePersistence::Uncertain => {
            let barred = start_cancelled(dropped).failing();
            SupervisorView {
                durable: DurabilityView {
                    pending_exit: Some((explicit, exit)),
                    ..barred.durable
                },
                ..barred
            }
        },
    }
}

/// The server is stopped as requested.
pub open spec fn stopped_as_asked(s: SupervisorView) -> SupervisorView {
    SupervisorView { server: Server { state: ServerState::Stopped, ..s.server }, ..s }.silent()
}

/// What follows an exit whose cleared record is durable. A requested stop
/// stands over any earlier recovery; an unexpected exit is recovered from
/// while OpenCode is meant to run.
#[verifier::opaque]
pub open spec fn exit_followed(
    s: SupervisorView,
    explicit: bool,
    exit: ExitReason,
    now: u64,
) -> SupervisorView {
    if explicit {
        if s.runtime.desired_state is Stopped {
            stopped_as_asked(
                SupervisorView {
                    server: Server {
                        group_cleanup_recovery: false,
                        restart_after_stop: false,
                        ..s.server
                    },
                    timers: Timers { next_restart: None, ..s.timers },
                    ..s
                },
            )
        } else if s.server.group_cleanup_recovery {
            restart_scheduled(
                SupervisorView {
                    server: Server { group_cleanup_recovery: false, ..s.server },
                    ..s
                },
                now,
            )
        } else if s.server.restart_after_stop {
            SupervisorView {
                server: Server { restart_after_stop: false, ..s.server },
                ..s
            }.with_task(Task::StartNow(StartTrigger::AfterStop))
        } else {
            stopped_as_asked(s)
        }
    } else if s.runtime.desired_state is Running {
        let told = s.saying(
            "OpenCode "@ + exit.wording() + "; automatic recovery is pending"@,
        ).with_task(Task::ScheduleRestart);
        if s.server.recovery_incident_active {
            told
        } else {
            SupervisorView {
                server: Server { recovery_incident_active: true, ..told.server },
                ..told
            }.with_task(Task::Notify(Notice::UnexpectedStop))
        }
    } else {
        SupervisorView { server: Server { state: ServerState::Stopped, ..s.server }, ..s }
    }
}

/// The content of a polled exit.
pub open spec fn exit_view(exit: Result<Option<ExitReason>, Failure>) -> Result<
    Option<ExitReason>,
    FailureView,
> {
    match exit {
        Ok(reason) => Ok(reason),
        Err(error) => Err(error.deep_view()),
    }
}

impl Supervisor {
    /// Polls the process under supervision.
    pub(super) fn poll_process(&mut self) -> (effect: Effect)
        ensures
            (Next { state: final(self).model(), effect }) == polling(old(self).model()),
    {
        let unconfirmed = match &self.process {
            Some(process) => process.is_owned_child() && process.record().identity_unconfirmed,
            None => return Effect::Continue,
        };
        if unconfirmed {
            self.push(Task::IdentitySeen);
            return Effect::SnapshotChild;
        }
        self.push(Task::PollExit);
        Effect::Continue
    }

    /// Goes on after a look at an unconfirmed child.
    pub(super) fn upgrade_unconfirmed_identity(
        &mut self,
        snapshot: Result<ProcessSnapshot, Failure>,
        same_executable: bool,
    ) -> (effect: Effect)
        ensures
            (Next { state: final(self).model(), effect }) == identity_seen(
                old(self).model(),
                snapshot,
                same_executable,
            ),
    {
        match self.process.take() {
            None => Effect::Continue,
            Some(process) => {
                let mut process = process;
                let confirmed = process.confirm_unconfirmed_identity(&snapshot, same_executable);
                if !confirmed {
                    self.process = Some(process);
                    self.push(Task::PollExit);
                    return Effect::Continue;
                }
                self.runtime.process = Some(process.record().clone());
                self.process = Some(process);
                self.persist_runtime(true, SaveThen::IdentityUpgraded)
            },
        }
    }

    /// Goes on after the record of a confirmed child.
    pub(super) fn identity_recorded(&mut self, persistence: RuntimePersistence)
        ensures
            final(self).model() == identity_upgraded(old(self).model(), persistence),
    {
        if persistence == RuntimePersistence::Durable {
            self.push(Task::PollExit);
        } else {
            self.fail();
        }
    }

    /// Asks for the exit of the process.
    pub(super) fn poll_process_exit(&mut self) -> (effect: Effect)
        ensures
            (Next { state: final(self).model(), effect }) == exit_asked(old(self).model()),
    {
        if self.process.is_none() {
            return Effect::Continue;
        }
        let explicit = self.is_stopping();
        self.push(Task::ExitPolled { explicit });
        Effect::PollExit
    }

    fn note_exit_poll(&mut self, cleanup: Option<PendingGroupCleanup>, error: Option<Failure>)
        ensures
            final(self).model() == exit_observed(
                old(self).model(),
                cleanup,
                error.deep_view(),
            ),
    {
        if let Some(process) = self.process.take() {
            let mut process = process;
            process.set_cleanup(cleanup);
            self.process = Some(process);
        }
        if let Some(fault) = error {
            self.texts.last_error = Some(
                join("OpenCode process inspection failed: ", fault.message.as_str()),
            );
        }
    }

    fn handle_pending_group_cleanup(&mut self, now: u64, explicit: bool, authorized: bool) -> (effect:
        Effect)
        requires
            old(self).model().process is Some,
            authorized == old(self).model().process->0.cleanup_authorized(),
        ensures
            (Next { state: final(self).model(), effect }) == group_pending(
                old(self).model(),
                now,
                explicit,
            ),
    {
        proof {
            reveal(group_pending);
        }
        if !authorized {
            self.timers.stop_deadline = None;
            self.server.state = ServerState::Failed;
            self.say(
                "OpenCode exited but its process-group identity could not be verified — no signal or restart was attempted",
            );
            return self.persist_runtime(true, SaveThen::Nothing);
        }
        if !explicit && !self.server.group_cleanup_recovery {
            self.server.group_cleanup_recovery = true;
            self.server.restart_after_stop = false;
        }
        if self.is_stopping() {
            return Effect::Continue;
        }
        self.server.state = ServerState::Stopping;
        self.server.health = HealthState::Unknown;
        self.timers.stop_deadline = Some(after(now, GRACEFUL_STOP));
        self.say(
            "OpenCode exited; waiting for its authorized process group to finish stopping",
        );
        self.persist_runtime(true, SaveThen::Nothing)
    }

    /// Leaves a process that cannot be verified alone.
    pub(super) fn mark_unverified_process(&mut self, now: u64, record: ProcessRecord) -> (effect:
        Effect)
        ensures
            (Next { state: final(self).model(), effect }) == unverified(
                old(self).model(),
                now,
                record.deep_view(),
            ),
    {
        self.runtime.process = Some(record);
        self.server.unverified_process_record = true;
        self.server.state = ServerState::Failed;
        self.timers.unverified_check_at = Some(after(now, UNVERIFIED_CHECK_INTERVAL));
        self.say(
            "Existing OpenCode could not be reattached safely — it was left running and not signaled",
        );
        self.persist_runtime(true, SaveThen::Nothing)
    }

    fn detach_config(&mut self)
        ensures
            final(self).model() == detached(old(self).model()),
    {
        self.active_config = None;
        self.texts.running_version = None;
        self.server.stale_config_process = false;
        self.server.health = HealthState::Unknown;
    }

    fn disown(record: &ProcessRecord) -> (copy: ProcessRecord)
        ensures
            copy.deep_view() == disowned(record.deep_view()),
    {
        let mut copy = record.clone();
        copy.identity_unconfirmed = true;
        copy.start_seconds = 0;
        copy.start_microseconds = 0;
        copy
    }

    fn handle_identity_changed(&mut self, now: u64) -> (effect: Effect)
        requires
            old(self).model().process is Some,
        ensures
            (Next { state: final(self).model(), effect }) == identity_lost(
                old(self).model(),
                now,
            ),
    {
        proof {
            reveal(identity_lost);
        }
        match self.process.take() {
            None => Effect::Continue,
            Some(process) => {
                let mut process = process;
                let record = Self::disown(process.record());
                self.detach_config();
                if process.is_owned_child() {
                    process.mark_identity_failed();
                    self.process = Some(process);
                }
                self.mark_unverified_process(now, record)
            },
        }
    }

    /// Goes on after the group of a reattached process without a leader was
    /// looked at.
    pub(super) fn handle_attached_leader_disappearance(
        &mut self,
        now: u64,
        explicit: bool,
        members: Result<bool, ()>,
    ) -> (effect: Effect)
        ensures
            (Next { state: final(self).model(), effect }) == leader_gone(
                old(self).model(),
                now,
                explicit,
                members,
            ),
    {
        let record = match &self.process {
            Some(process) => Self::disown(process.record()),
            None => return Effect::Continue,
        };
        let empty = match members {
            Ok(found) => !found,
            Err(_) => false,
        };
        if empty {
            return self.complete_process_exit(explicit, ExitReason::Disappeared);
        }
        self.detach_config();
        self.process = None;
        self.timers.stop_deadline = None;
        self.timers.process_started = None;
        self.timers.next_restart = None;
        self.server.restart_after_stop = false;
        self.server.group_cleanup_recovery = false;
        self.mark_unverified_process(now, record)
    }

    fn clear_live_process_state(&mut self)
        ensures
            final(self).model() == released(old(self).model()),
    {
        self.detach_config();
        self.process = None;
        self.timers.stop_deadline = None;
        self.timers.process_started = None;
        self.timers.unverified_check_at = None;
        self.server.unverified_process_record = false;
    }

    fn complete_process_exit(&mut self, explicit: bool, exit: ExitReason) -> (effect: Effect)
        ensures
            (Next { state: final(self).model(), effect }) == exit_completed(
                old(self).model(),
                explicit,
                exit,
            ),
    {
        proof {
            reveal(exit_completed);
        }
        let evidence = match &self.runtime.process {
            Some(record) => Some(record.clone()),
            None => match &self.process {
                Some(process) => Some(process.record().clone()),
                None => None,
            },
        };
        self.clear_live_process_state();
        self.runtime.process = None;
        self.hand.evidence = evidence;
        self.persist_runtime(false, SaveThen::RecordCleared { explicit, exit })
    }

    /// Goes on after the process was polled.
    pub(super) fn process_exit_polled(
        &mut self,
        now: u64,
        explicit: bool,
        cleanup: Option<PendingGroupCleanup>,
        exit: Result<Option<ExitReason>, Failure>,
    ) -> (effect: Effect)
        ensures
            (Next { state: final(self).model(), effect }) == exit_polled(
                old(self).model(),
                now,
                explicit,
                cleanup,
                exit_view(exit),
            ),
    {
        let seen: Option<ExitReason>;
        match exit {
            Ok(reason) => {
                self.note_exit_poll(cleanup, None);
                seen = reason;
            },
            Err(error) => {
                self.note_exit_poll(cleanup, Some(error));
                seen = None;
            },
        }
        let pending;
        let authorized;
        let owned;
        match &self.process {
            None => return Effect::Continue,
            Some(process) => {
                pending = process.pending_group_exit().is_some();
                authorized = process.pending_group_authorized();
                owned = process.is_owned_child();
            },
        }
        if pending {
            return self.handle_pending_group_cleanup(now, explicit, authorized);
        }
        match seen {
            None => Effect::Continue,
            Some(ExitReason::IdentityChanged) => self.handle_identity_changed(now),
            Some(ExitReason::Disappeared) => {
                if owned {
                    return self.complete_process_exit(explicit, ExitReason::Disappeared);
                }
                self.push(Task::LeaderGone { explicit });
                Effect::ObserveGroup(Subject::Managed)
            },
            Some(reason) => self.complete_process_exit(explicit, reason),
        }
    }

    fn cancel_start(&mut self)
        ensures
            final(self).model() == start_cancelled(old(self).model()),
    {
        self.timers.next_restart = None;
        self.timers.next_port_retry = None;
        self.timers.port_release_deadline = None;
        self.server.pending_start_trigger = None;
    }

    /// Goes on after the record of an ended process was cleared.
    pub(super) fn clear_process_record_durably(
        &mut self,
        now: u64,
        explicit: bool,
        exit: ExitReason,
        persistence: RuntimePersistence,
    )
        ensures
            final(self).model() == record_cleared(
                old(self).model(),
                now,
                explicit,
                exit,
                persistence,
            ),
    {
        let evidence = self.hand.evidence.take();
        match persistence {
            RuntimePersistence::Durable => {
                self.resume_after_process_exit(now, explicit, exit);
            },
            RuntimePersistence::Failed => {
                self.cancel_start();
                self.runtime.process = evidence;
                self.server.unverified_process_record = true;
                self.timers.unverified_check_at = Some(after(now, UNVERIFIED_CHECK_INTERVAL));
                self.fail();
            },
            RuntimePersistence::Uncertain => {
                self.cancel_start();
                self.durable.pending_exit = Some((explicit, exit));
                self.fail();
            },
        }
    }

    fn resume_after_stop(&mut self, now: u64)
        ensures
            final(self).model() == exit_followed(
                old(self).model(),
                true,
                ExitReason::Disappeared,
                now,
            ),
    {
        proof {
            reveal(exit_followed);
        }
        if self.runtime.desired_state == DesiredState::Stopped {
            self.server.group_cleanup_recovery = false;
            self.server.restart_after_stop = false;
            self.timers.next_restart = None;
            self.server.state = ServerState::Stopped;
            self.texts.last_error = None;
        } else if self.server.group_cleanup_recovery {
            self.server.group_cleanup_recovery = false;
            self.schedule_next_restart(now);
        } else if self.server.restart_after_stop {
            self.server.restart_after_stop = false;
            self.push(Task::StartNow(StartTrigger::AfterStop));
        } else {
            self.server.state = ServerState::Stopped;
            self.texts.last_error = None;
        }
    }

    /// Goes on after an exit whose cleared record is durable.
    pub(super) fn resume_after_process_exit(&mut self, now: u64, explicit: bool, exit: ExitReason)
        ensures
            final(self).model() == exit_followed(old(self).model(), explicit, exit, now),
    {
        proof {
            reveal(exit_followed);
        }
        if explicit {
            self.resume_after_stop(now);
            return;
        }
        if self.runtime.desired_state == DesiredState::Running {
            let text = join("OpenCode ", exit.text().as_str());
            self.texts.last_error = Some(
                join(text.as_str(), "; automatic recovery is pending"),
            );
            self.push(Task::ScheduleRestart);
            if !self.server.recovery_incident_active {
                self.server.recovery_incident_active = true;
                self.push(Task::Notify(Notice::UnexpectedStop));
            }
        } else {
            self.server.state = ServerState::Stopped;
        }
    }
}

/// Recovery makes at most five attempts: every one that is scheduled counts,
/// and after the last one nothing is scheduled.
pub proof fn recovery_is_bounded(s: SupervisorView, now: u64)
    ensures
        s.server.restart_attempt_index < RESTART_ATTEMPTS ==> {
            let next = restart_scheduled(s, now);
            &&& next.server.restart_attempt_index == s.server.restart_attempt_index + 1
            &&& next.timers.next_restart is Some
            &&& next.server.state is WaitingToRestart
        },
        s.server.restart_attempt_index >= RESTART_ATTEMPTS ==> {
            let next = restart_scheduled(s, now);
            &&& next.timers.next_restart is None
            &&& next.server.state is Failed
        },
{
    reveal(restart_scheduled);
}

/// A stop that was requested is never undone by recovery: the exit that
/// follows it leaves the server stopped and schedules nothing.
pub proof fn requested_stops_stay_stopped(s: SupervisorView, exit: ExitReason, now: u64)
    requires
        s.runtime.desired_state is Stopped,
    ensures
        exit_followed(s, true, exit, now).server.state is Stopped,
        exit_followed(s, true, exit, now).timers.next_restart is None,
        exit_followed(s, true, exit, now).tasks == s.tasks,
        exit_followed(s, false, exit, now).server.state is Stopped,
        exit_followed(s, false, exit, now).tasks == s.tasks,
{
    reveal(exit_followed);
}

/// Recovery waits for a durable clear: an exit whose record could not be
/// cleared, or may not have been, leads to no start.
pub proof fn recovery_needs_a_durable_clear(
    s: SupervisorView,
    now: u64,
    explicit: bool,
    exit: ExitReason,
    persistence: RuntimePersistence,
)
    requires
        !(persistence is Durable),
    ensures
        ({
            let next = record_cleared(s, now, explicit, exit, persistence);
            &&& next.tasks == s.tasks
            &&& next.timers.next_restart is None
            &&& next.timers.next_port_retry is None
            &&& next.server.state is Failed
            &&& persistence is Failed ==> next.server.unverified_process_record
                && next.runtime.process == s.hand.evidence
            &&& persistence is Uncertain ==> next.durable.pending_exit == Some((explicit, exit))
        }),
{
}

/// A process that lost its identity is never signaled again: it is unmanaged,
/// or kept without any authority.
pub proof fn lost_identities_bar_signals(s: SupervisorView, now: u64)
    requires
        s.process is Some,
    ensures
        ({
            let next = identity_lost(s, now).state;
            &&& next.process is Some ==> !next.process->0.signalable()
            &&& next.runtime.process is Some
            &&& next.runtime.process->0.identity_unconfirmed
            &&& next.server.unverified_process_record
        }),
{
    reveal(identity_lost);
}

} // verus!
