//! Writing the runtime state, and what waits for a write to be durable.

#[allow(unused_imports)]
use vstd::prelude::*;
use crate::failure::Failure;
#[allow(unused_imports)]
use crate::failure::{failure, FailureKind, FailureView};
use crate::protocol::{DesiredState, HealthState, ServerState};
use crate::runtime_state::RuntimeStateSaveOutcome;
#[allow(unused_imports)]
use crate::runtime_state::{RuntimeStateView, SaveOutcomeView};
use crate::text::{clone_text, join, same_optional_text};
use super::{
    after, Effect, PendingDurableConvergence, PendingLifecycleIntent, RuntimePersistence,
    SaveThen, Supervisor, Task, RUNTIME_STATE_RETRY_INTERVAL,
};
#[allow(unused_imports)]
use super::{go_on, later, DurabilityView, Next, Server, SupervisorView};

verus! {

/// How a write ended, without its message.
pub open spec fn persistence_of(outcome: SaveOutcomeView) -> RuntimePersistence {
    match outcome {
        SaveOutcomeView::Durable => RuntimePersistence::Durable,
        SaveOutcomeView::Failed(_) => RuntimePersistence::Failed,
        SaveOutcomeView::Uncertain(_) => RuntimePersistence::Uncertain,
    }
}

/// The state after a write that did not become durable: lifecycle actions are
/// barred until a later write does.
pub open spec fn save_failed(s: SupervisorView, now: u64, error: FailureView) -> SupervisorView {
    let message = "Runtime state could not be saved: "@ + error.message;
    SupervisorView {
        durable: DurabilityView {
            reliable: false,
            retry_pending: true,
            retry_at: Some(later(now, RUNTIME_STATE_RETRY_INTERVAL)),
            error: Some(message),
            ..s.durable
        },
        ..s
    }.saying(message)
}

/// The state after a write. A durable one lifts the bar, takes back the error
/// that it had shown, and completes the clear of a launch marker.
pub open spec fn saved(s: SupervisorView, now: u64, outcome: SaveOutcomeView) -> SupervisorView {
    match outcome {
        SaveOutcomeView::Durable => {
            let lifted = SupervisorView {
                durable: DurabilityView {
                    error: None,
                    reliable: true,
                    retry_pending: false,
                    retry_at: None,
                    clear_requested: s.durable.clear_requested && s.runtime.launch_pending is Some,
                    ..s.durable
                },
                ..s
            };
            if s.texts.last_error == s.durable.error {
                lifted.silent()
            } else {
                lifted
            }
        },
        SaveOutcomeView::Failed(error) => save_failed(s, now, error),
        SaveOutcomeView::Uncertain(error) => save_failed(s, now, error),
    }
}

/// A write is not even attempted. An unreadable state file is never
/// overwritten, and incidental writes leave the retry of a failed one alone.
pub open spec fn save_barred(s: SupervisorView, incidental: bool) -> bool {
    !s.durable.loaded || (incidental && s.durable.retry_pending)
}

/// Writes the state for a purpose.
pub open spec fn persisting(s: SupervisorView, incidental: bool, purpose: SaveThen) -> Next {
    if save_barred(s, incidental) {
        go_on(
            s.with_task(Task::Persisted { purpose, persistence: RuntimePersistence::Failed }),
        )
    } else {
        Next { state: s.with_task(Task::AwaitSave(purpose)), effect: Effect::SaveRuntime }
    }
}

/// The failure of a command whose desired state could not be made durable.
pub open spec fn unavailable(durable: DurabilityView) -> FailureView {
    failure(
        FailureKind::Other,
        match durable.error {
            Some(error) => error,
            None => "Runtime state is not durably available"@,
        },
    )
}

/// Another desired state.
pub open spec fn meaning(s: SupervisorView, wanted: DesiredState) -> SupervisorView {
    SupervisorView { runtime: RuntimeStateView { desired_state: wanted, ..s.runtime }, ..s }
}

/// Begins a command by writing its desired state.
pub open spec fn desiring(
    s: SupervisorView,
    wanted: DesiredState,
    intent: PendingLifecycleIntent,
) -> Next {
    if !s.durable.loaded {
        go_on(s.refusing(unavailable(s.durable)))
    } else {
        persisting(
            meaning(s, wanted),
            false,
            SaveThen::DesiredState { intent, previous: s.runtime.desired_state },
        )
    }
}

/// What follows the write of a desired state. Only a durable one is acted on;
/// a failed one leaves the earlier intent in force, and an uncertain one
/// waits.
pub open spec fn desired(
    s: SupervisorView,
    intent: PendingLifecycleIntent,
    previous: DesiredState,
    persistence: RuntimePersistence,
) -> SupervisorView {
    match persistence {
        RuntimePersistence::Durable => SupervisorView {
            durable: DurabilityView {
                pending_intent: None,
                pending_convergence: None,
                ..s.durable
            },
            ..s
        }.with_task(Task::Apply(intent)),
        RuntimePersistence::Failed => meaning(s, previous).refusing(unavailable(s.durable)),
        RuntimePersistence::Uncertain => SupervisorView {
            durable: DurabilityView {
                pending_intent: Some(intent),
                pending_convergence: None,
                ..s.durable
            },
            ..s
        }.refusing(unavailable(s.durable)),
    }
}

/// The runtime state permits a start.
pub open spec fn ready(s: SupervisorView) -> bool {
    &&& s.durable.error is None
    &&& s.runtime.launch_pending is None
    &&& !s.durable.clear_requested
    &&& s.durable.loaded
    &&& s.durable.reliable
}

/// The state with the reason shown why no start is permitted, if so.
pub open spec fn showing_readiness(s: SupervisorView) -> SupervisorView {
    if s.durable.error is Some {
        s.saying(s.durable.error->0)
    } else if ready(s) {
        s
    } else {
        let message = if s.runtime.launch_pending is Some || s.durable.clear_requested {
            "An OpenCode launch transaction is not durably finalized; lifecycle start is blocked"@
        } else {
            "Runtime state is not durably available"@
        };
        SupervisorView {
            durable: DurabilityView { error: Some(message), ..s.durable },
            ..s
        }.saying(message)
    }
}

/// A convergence waits for a durable retry, where one is to come.
pub open spec fn deferring_convergence(
    s: SupervisorView,
    now: u64,
    convergence: PendingDurableConvergence,
) -> SupervisorView {
    if s.durable.clear_requested || (s.durable.retry_pending && s.durable.retry_at is Some) {
        SupervisorView {
            durable: DurabilityView {
                pending_convergence: Some(convergence),
                retry_pending: true,
                retry_at: Some(later(now, RUNTIME_STATE_RETRY_INTERVAL)),
                ..s.durable
            },
            ..s
        }
    } else {
        s
    }
}

/// A command waits for the durable clear of the launch marker, where one is
/// to come.
pub open spec fn deferring_intent(
    s: SupervisorView,
    now: u64,
    intent: PendingLifecycleIntent,
) -> SupervisorView {
    if s.durable.clear_requested {
        SupervisorView {
            durable: DurabilityView {
                pending_intent: Some(intent),
                retry_pending: true,
                retry_at: Some(later(now, RUNTIME_STATE_RETRY_INTERVAL)),
                ..s.durable
            },
            ..s
        }
    } else {
        s
    }
}

/// A waiting convergence may be acted on.
pub open spec fn may_converge(s: SupervisorView) -> bool {
    &&& s.durable.loaded
    &&& s.durable.reliable
    &&& !s.durable.retry_pending
    &&& s.runtime.launch_pending is None
    &&& !s.durable.clear_requested
}

/// The server is stopped, and there is nothing to complain about.
pub open spec fn stopped(s: SupervisorView) -> SupervisorView {
    SupervisorView {
        server: Server { state: ServerState::Stopped, health: HealthState::Unknown, ..s.server },
        ..s
    }.silent()
}

/// Acts on a waiting convergence, once.
pub open spec fn converging(s: SupervisorView) -> SupervisorView {
    if !may_converge(s) {
        s
    } else {
        let taken = SupervisorView {
            durable: DurabilityView { pending_convergence: None, ..s.durable },
            ..s
        };
        match s.durable.pending_convergence {
            Some(PendingDurableConvergence::Start(trigger)) => if s.runtime.desired_state is Running
                && s.process is None && !s.server.unverified_process_record {
                taken.with_task(Task::StartNow(trigger))
            } else {
                taken
            },
            Some(PendingDurableConvergence::Stop) => if s.runtime.desired_state is Stopped
                && !s.server.unverified_process_record {
                if s.process is Some {
                    taken.with_task(Task::BeginStop { restarting: false })
                } else {
                    stopped(taken)
                }
            } else {
                taken
            },
            None => taken,
        }
    }
}

/// A failed write is due to be tried again.
pub open spec fn retry_due(s: SupervisorView, now: u64) -> bool {
    &&& s.durable.loaded
    &&& s.durable.retry_pending
    &&& s.durable.retry_at matches Some(at) && now >= at
}

/// Tries a failed write again, if that is due.
pub open spec fn retrying(s: SupervisorView, now: u64) -> Next {
    if retry_due(s, now) {
        persisting(
            SupervisorView { durable: DurabilityView { retry_at: None, ..s.durable }, ..s },
            false,
            SaveThen::Retry,
        )
    } else {
        go_on(s)
    }
}

impl Supervisor {
    /// Takes the outcome of a write into account.
    pub(super) fn note_save(&mut self, now: u64, outcome: RuntimeStateSaveOutcome) -> (persistence:
        RuntimePersistence)
        ensures
            final(self).model() == saved(old(self).model(), now, outcome.deep_view()),
            persistence == persistence_of(outcome.deep_view()),
    {
        match outcome {
            RuntimeStateSaveOutcome::Durable => {
                let shown = same_optional_text(&self.texts.last_error, &self.durable.error);
                self.durable.error = None;
                self.durable.reliable = true;
                self.durable.retry_pending = false;
                self.durable.retry_at = None;
                if self.runtime.launch_pending.is_none() {
                    self.durable.clear_requested = false;
                }
                if shown {
                    self.texts.last_error = None;
                }
                RuntimePersistence::Durable
            },
            RuntimeStateSaveOutcome::Failed(error) => {
                self.record_runtime_state_failure(now, error);
                RuntimePersistence::Failed
            },
            RuntimeStateSaveOutcome::Uncertain(error) => {
                self.record_runtime_state_failure(now, error);
                RuntimePersistence::Uncertain
            },
        }
    }

    fn record_runtime_state_failure(&mut self, now: u64, error: Failure)
        ensures
            final(self).model() == save_failed(old(self).model(), now, error.deep_view()),
    {
        let message = join("Runtime state could not be saved: ", error.message.as_str());
        self.durable.reliable = false;
        self.durable.retry_pending = true;
        self.durable.retry_at = Some(after(now, RUNTIME_STATE_RETRY_INTERVAL));
        self.durable.error = Some(message.clone());
        self.texts.last_error = Some(message);
    }

    /// Writes the runtime state for a purpose. An incidental write does not
    /// use up the retry of a failed one.
    pub(super) fn persist_runtime(&mut self, incidental: bool, purpose: SaveThen) -> (effect: Effect)
        ensures
            (Next { state: final(self).model(), effect }) == persisting(
                old(self).model(),
                incidental,
                purpose,
            ),
    {
        if !self.durable.loaded || (incidental && self.durable.retry_pending) {
            self.push(
                Task::Persisted { purpose, persistence: RuntimePersistence::Failed },
            );
            return Effect::Continue;
        }
        self.push(Task::AwaitSave(purpose));
        Effect::SaveRuntime
    }

    fn runtime_state_unavailable_error(&self) -> (error: Failure)
        ensures
            error.deep_view() == unavailable(self.durable.model()),
    {
        match &self.durable.error {
            Some(error) => Failure::other(error.as_str()),
            None => Failure::other("Runtime state is not durably available"),
        }
    }

    /// Begins a command by writing its desired state.
    pub(super) fn persist_desired_state(
        &mut self,
        desired_state: DesiredState,
        intent: PendingLifecycleIntent,
    ) -> (effect: Effect)
        ensures
            (Next { state: final(self).model(), effect }) == desiring(
                old(self).model(),
                desired_state,
                intent,
            ),
    {
        if !self.durable.loaded {
            self.hand.failure = Some(self.runtime_state_unavailable_error());
            return Effect::Continue;
        }
        let previous = self.runtime.desired_state;
        self.runtime.desired_state = desired_state;
        self.persist_runtime(false, SaveThen::DesiredState { intent, previous })
    }

    /// Goes on after the write of a desired state.
    pub(super) fn desired_state_persisted(
        &mut self,
        intent: PendingLifecycleIntent,
        previous: DesiredState,
        persistence: RuntimePersistence,
    )
        ensures
            final(self).model() == desired(old(self).model(), intent, previous, persistence),
    {
        match persistence {
            RuntimePersistence::Durable => {
                self.durable.pending_intent = None;
                self.durable.pending_convergence = None;
                self.push(Task::Apply(intent));
            },
            RuntimePersistence::Failed => {
                self.hand.failure = Some(self.runtime_state_unavailable_error());
                self.runtime.desired_state = previous;
            },
            RuntimePersistence::Uncertain => {
                self.hand.failure = Some(self.runtime_state_unavailable_error());
                self.durable.pending_intent = Some(intent);
                self.durable.pending_convergence = None;
            },
        }
    }

    /// Whether the runtime state permits a start; if not, why not is shown.
    pub(super) fn runtime_state_ready(&mut self) -> (permitted: bool)
        ensures
            permitted == ready(old(self).model()),
            final(self).model() == showing_readiness(old(self).model()),
    {
        if self.durable.error.is_some() {
            self.texts.last_error = clone_text(&self.durable.error);
            return false;
        }
        let message = if self.runtime.launch_pending.is_some() || self.durable.clear_requested {
            "An OpenCode launch transaction is not durably finalized; lifecycle start is blocked"
        } else {
            if self.durable.loaded && self.durable.reliable {
                return true;
            }
            "Runtime state is not durably available"
        };
        self.durable.error = Some(message.to_owned());
        self.texts.last_error = Some(message.to_owned());
        false
    }

    /// Lets a convergence wait for a durable retry, where one is to come.
    pub(super) fn defer_durable_convergence(
        &mut self,
        now: u64,
        convergence: PendingDurableConvergence,
    )
        ensures
            final(self).model() == deferring_convergence(old(self).model(), now, convergence),
    {
        let retry_scheduled = self.durable.retry_pending && self.durable.retry_at.is_some();
        if self.durable.clear_requested || retry_scheduled {
            self.durable.pending_convergence = Some(convergence);
            self.durable.retry_pending = true;
            self.durable.retry_at = Some(after(now, RUNTIME_STATE_RETRY_INTERVAL));
        }
    }

    /// Lets a command wait for the durable clear of the launch marker.
    pub(super) fn defer_lifecycle_intent(&mut self, now: u64, intent: PendingLifecycleIntent)
        ensures
            final(self).model() == deferring_intent(old(self).model(), now, intent),
    {
        if self.durable.clear_requested {
            self.durable.pending_intent = Some(intent);
            self.durable.retry_pending = true;
            self.durable.retry_at = Some(after(now, RUNTIME_STATE_RETRY_INTERVAL));
        }
    }

    /// Acts on a waiting convergence, once.
    pub(super) fn resume_pending_durable_convergence(&mut self)
        ensures
            final(self).model() == converging(old(self).model()),
    {
        if !self.durable.loaded || !self.durable.reliable || self.durable.retry_pending
            || self.runtime.launch_pending.is_some() || self.durable.clear_requested {
            return;
        }
        let convergence = self.durable.pending_convergence;
        self.durable.pending_convergence = None;
        match convergence {
            Some(PendingDurableConvergence::Start(trigger)) => {
                if self.runtime.desired_state == DesiredState::Running && self.process.is_none()
                    && !self.server.unverified_process_record {
                    self.push(Task::StartNow(trigger));
                }
            },
            Some(PendingDurableConvergence::Stop) => {
                if self.runtime.desired_state == DesiredState::Stopped
                    && !self.server.unverified_process_record {
                    if self.process.is_some() {
                        self.push(Task::BeginStop { restarting: false });
                    } else {
                        self.server.state = ServerState::Stopped;
                        self.server.health = HealthState::Unknown;
                        self.texts.last_error = None;
                    }
                }
            },
            None => {},
        }
    }

    /// Tries a failed write again, if that is due.
    pub(super) fn retry_runtime_state_if_due(&mut self, now: u64) -> (effect: Effect)
        ensures
            (Next { state: final(self).model(), effect }) == retrying(old(self).model(), now),
    {
        let due = match self.durable.retry_at {
            Some(at) => now >= at,
            None => false,
        };
        if !self.durable.loaded || !self.durable.retry_pending || !due {
            return Effect::Continue;
        }
        self.durable.retry_at = None;
        self.persist_runtime(false, SaveThen::Retry)
    }
}

/// A command whose desired state certainly was not written leaves the desired
/// state, the waiting intent and the waiting convergence as they were, starts
/// nothing, and fails.
pub proof fn failed_commands_change_no_intent(
    before: SupervisorView,
    now: u64,
    wanted: DesiredState,
    intent: PendingLifecycleIntent,
    error: FailureView,
)
    requires
        before.durable.loaded,
    ensures
        ({
            let told = saved(meaning(before, wanted), now, SaveOutcomeView::Failed(error));
            let ended = desired(
                told,
                intent,
                before.runtime.desired_state,
                RuntimePersistence::Failed,
            );
            &&& desiring(before, wanted, intent).effect is SaveRuntime
            &&& ended.runtime == before.runtime
            &&& ended.durable.pending_intent == before.durable.pending_intent
            &&& ended.durable.pending_convergence == before.durable.pending_convergence
            &&& ended.tasks == before.tasks
            &&& ended.hand.failure is Some
        }),
{
}

/// A command whose desired state may have been written keeps it, fails, and
/// waits: it is acted on only after a durable retry.
pub proof fn uncertain_commands_wait(
    before: SupervisorView,
    now: u64,
    wanted: DesiredState,
    intent: PendingLifecycleIntent,
    error: FailureView,
)
    requires
        before.durable.loaded,
    ensures
        ({
            let told = saved(meaning(before, wanted), now, SaveOutcomeView::Uncertain(error));
            let ended = desired(
                told,
                intent,
                before.runtime.desired_state,
                RuntimePersistence::Uncertain,
            );
            &&& ended.runtime.desired_state == wanted
            &&& ended.durable.pending_intent == Some(intent)
            &&& ended.tasks == before.tasks
            &&& ended.hand.failure is Some
            &&& retry_due(ended, later(now, RUNTIME_STATE_RETRY_INTERVAL))
        }),
{
}

/// No start is permitted while a write is known to have failed, a launch is
/// unfinished, or the state file could not be read.
pub proof fn starts_need_durable_state(s: SupervisorView, now: u64, error: FailureView)
    ensures
        !ready(saved(s, now, SaveOutcomeView::Failed(error))),
        !ready(saved(s, now, SaveOutcomeView::Uncertain(error))),
        s.runtime.launch_pending is Some ==> !ready(s),
        !s.durable.loaded ==> !ready(s),
{
}

} // verus!
