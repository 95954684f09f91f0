//! Taking over a process that an earlier agent started.

#[allow(unused_imports)]
use vstd::prelude::*;
use crate::config::clone_config;
#[allow(unused_imports)]
use crate::config::ValidatedConfigView;
#[allow(unused_imports)]
use crate::config_fingerprint::{fingerprint_under, verified_under};
use crate::process::{ManagedProcess, RecordIdentity};
#[allow(unused_imports)]
use crate::process::ManagedProcessView;
use crate::protocol::{DesiredState, HealthState, ServerState};
use crate::runtime_state::{clone_record, ProcessRecord};
#[allow(unused_imports)]
use crate::runtime_state::ProcessRecordView;
use crate::text::join;
#[allow(unused_imports)]
use super::lifecycle::fresh_attempts;
#[allow(unused_imports)]
use super::process_exit::{stopped_as_asked, unverified};
use super::reattach_policy::{
    decide_after_health, decide_initial, FinalAction, HealthVerdict, InitialAction,
};
#[allow(unused_imports)]
use super::reattach_policy::{final_disposition, initial_disposition, initial_reason, Disposition};
#[allow(unused_imports)]
use super::runtime_durability::persisting;
use super::{
    after, Effect, HealthAnswer, PendingDurableConvergence, RuntimePersistence, SaveThen,
    StartTrigger, Subject, Supervisor, Task, UNVERIFIED_CHECK_INTERVAL,
};
#[allow(unused_imports)]
use super::{
    go_on, later, DurabilityView, HandView, HealthAnswerView, Next, Server, SupervisorView,
    TextsView, Timers,
};

verus! {

/// The latest configuration is the one under which the record was made.
pub open spec fn config_matches(s: SupervisorView, record: ProcessRecordView) -> bool {
    s.latest_config is Some && verified_under(
        s.key,
        record.config_fingerprint,
        s.latest_config->0,
    )
}

/// A recorded process is looked at, if there is one.
pub open spec fn reattaching(s: SupervisorView) -> Next {
    if s.runtime.process is Some {
        Next {
            state: s.with_task(Task::ReattachInspected),
            effect: Effect::InspectIdentity(Subject::Recorded),
        }
    } else {
        go_on(s)
    }
}

/// What the first look leads to. Where the process is gone its group is
/// looked at as well, because a leader can leave members behind.
pub open spec fn reattach_inspected(
    s: SupervisorView,
    now: u64,
    identity: Result<RecordIdentity, ()>,
) -> Next {
    if identity == Ok::<RecordIdentity, ()>(RecordIdentity::Missing) {
        Next {
            state: s.with_task(Task::ReattachGroup),
            effect: Effect::ObserveGroup(Subject::Recorded),
        }
    } else {
        reattach_decided(s, now, identity)
    }
}

/// What the look at the group of a missing leader leads to.
pub open spec fn reattach_group(s: SupervisorView, now: u64, members: Result<bool, ()>) -> Next {
    match s.runtime.process {
        None => go_on(s),
        Some(record) => if members == Ok::<bool, ()>(false) {
            reattach_decided(s, now, Ok(RecordIdentity::Missing))
        } else {
            unverified(s, now, record)
        },
    }
}

/// Carries out the first decision.
pub open spec fn reattach_decided(
    s: SupervisorView,
    now: u64,
    identity: Result<RecordIdentity, ()>,
) -> Next {
    match s.runtime.process {
        None => go_on(s),
        Some(record) => {
            let disposition = initial_disposition(
                record.identity_unconfirmed,
                identity,
                s.latest_config is Some,
                config_matches(s, record),
            );
            match disposition {
                Disposition::Discard => discarding(s, false),
                Disposition::Unverified => unverified(s, now, record),
                Disposition::Unconfirmed => attached_unconfirmed(s, now, record),
                Disposition::StaleConfig => attached_stale(
                    s,
                    record,
                    initial_reason(
                        record.identity_unconfirmed,
                        identity,
                        s.latest_config is Some,
                        s.credentials.state,
                    ),
                ),
                _ => Next {
                    state: SupervisorView {
                        hand: HandView { draft: s.latest_config, ..s.hand },
                        ..s
                    }.with_task(Task::ReattachHealth),
                    effect: Effect::CheckHealth,
                },
            }
        },
    }
}

/// The identity is looked at once more after the health check.
pub open spec fn reattach_answered(s: SupervisorView, answer: HealthAnswerView) -> Next {
    Next {
        state: SupervisorView {
            hand: HandView { answer: Some(answer), ..s.hand },
            ..s
        }.with_task(Task::ReattachRechecked),
        effect: Effect::InspectIdentity(Subject::Recorded),
    }
}

/// Carries out the final decision.
pub open spec fn reattach_rechecked(
    s: SupervisorView,
    now: u64,
    identity: Result<RecordIdentity, ()>,
) -> Next {
    let dropped = SupervisorView { hand: HandView { draft: None, answer: None, ..s.hand }, ..s };
    match (s.runtime.process, s.hand.draft, s.hand.answer) {
        (Some(record), Some(config), Some(answer)) => {
            match final_disposition(identity, answer is Healthy) {
                Disposition::Reattach => reattached(
                    dropped,
                    now,
                    record,
                    config,
                    answer->Healthy_0,
                ),
                Disposition::Discard => discarding(dropped, false),
                Disposition::Unconfirmed => attached_unconfirmed(dropped, now, record),
                _ => unverified(dropped, now, record),
            }
        },
        _ => go_on(dropped),
    }
}

/// The record of a healthy process under a configuration.
pub open spec fn restamped(
    s: SupervisorView,
    record: ProcessRecordView,
    config: ValidatedConfigView,
    version: Seq<char>,
) -> ProcessRecordView {
    ProcessRecordView {
        running_version: Some(version),
        config_fingerprint: fingerprint_under(s.key, config),
        ..record
    }
}

/// A healthy process is taken over in full.
pub open spec fn reattached(
    s: SupervisorView,
    now: u64,
    record: ProcessRecordView,
    config: ValidatedConfigView,
    version: Seq<char>,
) -> Next {
    let stamped = restamped(s, record, config, version);
    persisting(
        SupervisorView {
            process: Some(ManagedProcessView::Attached { record: stamped }),
            active_config: Some(config),
            texts: TextsView { running_version: Some(version), ..s.texts },
            server: Server {
                state: ServerState::Healthy,
                health: HealthState::Healthy,
                ..s.server
            },
            timers: Timers { process_started: Some(now), ..s.timers },
            ..s
        }.recording(Some(stamped)),
        true,
        SaveThen::FailUnlessDurable,
    )
}

/// A process whose executable differs stays under supervision, without any
/// authority to signal it.
pub open spec fn attached_unconfirmed(s: SupervisorView, now: u64, record: ProcessRecordView) -> Next {
    persisting(
        SupervisorView {
            process: Some(ManagedProcessView::Attached { record }),
            server: Server {
                unverified_process_record: true,
                state: ServerState::Failed,
                ..s.server
            },
            timers: Timers {
                unverified_check_at: Some(later(now, UNVERIFIED_CHECK_INTERVAL)),
                ..s.timers
            },
            ..s
        }.recording(Some(record)).saying(
            "An existing process was reattached with unconfirmed identity — it remains supervised"@,
        ),
        true,
        SaveThen::Nothing,
    )
}

/// A verified process under an outdated configuration stays managed, so that
/// it can be stopped or restarted.
pub open spec fn attached_stale(s: SupervisorView, record: ProcessRecordView, reason: Seq<char>) -> Next {
    persisting(
        SupervisorView {
            process: Some(ManagedProcessView::Attached { record }),
            active_config: None,
            server: Server {
                stale_config_process: true,
                state: ServerState::Unhealthy,
                health: HealthState::Unknown,
                ..s.server
            },
            ..s
        }.recording(Some(record)).saying(
            "OpenCode is running with its previous configuration — "@ + reason,
        ),
        true,
        SaveThen::FailUnlessDurable,
    )
}

/// Discards the record of a process that is gone.
pub open spec fn discarding(s: SupervisorView, converge: bool) -> Next {
    persisting(
        SupervisorView {
            hand: HandView { evidence: s.runtime.process, ..s.hand },
            server: Server { unverified_process_record: false, ..s.server },
            timers: Timers { unverified_check_at: None, ..s.timers },
            ..s
        }.recording(None),
        false,
        SaveThen::RecordDiscarded { converge },
    )
}

/// What the agent was about to do when the record went.
pub open spec fn convergence_of(s: SupervisorView) -> PendingDurableConvergence {
    if s.runtime.desired_state is Running {
        PendingDurableConvergence::Start(
            if s.server.restart_after_stop {
                StartTrigger::AfterStop
            } else {
                StartTrigger::Cold
            },
        )
    } else {
        PendingDurableConvergence::Stop
    }
}

/// What follows the discard. A failed one brings the record back; an
/// uncertain one waits.
pub open spec fn discarded(
    s: SupervisorView,
    now: u64,
    converge: bool,
    persistence: RuntimePersistence,
) -> SupervisorView {
    let dropped = SupervisorView { hand: HandView { evidence: None, ..s.hand }, ..s };
    match persistence {
        RuntimePersistence::Durable => if converge {
            converged(dropped)
        } else {
            dropped
        },
        RuntimePersistence::Failed => SupervisorView {
            server: Server {
                unverified_process_record: true,
                state: ServerState::Failed,
                ..s.server
            },
            timers: Timers {
                unverified_check_at: Some(later(now, UNVERIFIED_CHECK_INTERVAL)),
                ..s.timers
            },
            ..dropped
        }.recording(s.hand.evidence),
        RuntimePersistence::Uncertain => SupervisorView {
            durable: DurabilityView {
                pending_convergence: Some(convergence_of(s)),
                ..s.durable
            },
            ..dropped
        }.failing(),
    }
}

/// Supervision resumes once an unverified process is gone.
pub open spec fn converged(s: SupervisorView) -> SupervisorView {
    if s.server.restart_after_stop {
        let fresh = fresh_attempts(s);
        SupervisorView {
            server: Server { restart_after_stop: false, ..fresh.server },
            ..fresh
        }.with_task(Task::StartNow(StartTrigger::AfterStop))
    } else if s.runtime.desired_state is Running {
        fresh_attempts(s).with_task(Task::StartNow(StartTrigger::Cold))
    } else {
        stopped_as_asked(s)
    }
}

/// An unverified process is looked at from time to time.
pub open spec fn unverified_checked(s: SupervisorView, now: u64) -> Next {
    let due = s.timers.unverified_check_at matches Some(at) && now >= at;
    if s.server.unverified_process_record && s.process is None && due {
        let next = SupervisorView {
            timers: Timers {
                unverified_check_at: Some(later(now, UNVERIFIED_CHECK_INTERVAL)),
                ..s.timers
            },
            ..s
        };
        if s.runtime.process is Some {
            Next {
                state: next.with_task(Task::UnverifiedInspected),
                effect: Effect::InspectIdentity(Subject::Recorded),
            }
        } else {
            go_on(next)
        }
    } else {
        go_on(s)
    }
}

/// Only a process that is gone is considered further.
pub open spec fn unverified_inspected(
    s: SupervisorView,
    identity: Result<RecordIdentity, ()>,
) -> Next {
    if identity == Ok::<RecordIdentity, ()>(RecordIdentity::Missing) && s.runtime.process is Some {
        Next {
            state: s.with_task(Task::UnverifiedGroup),
            effect: Effect::ObserveGroup(Subject::Recorded),
        }
    } else {
        go_on(s)
    }
}

/// Only an empty group frees the record.
pub open spec fn unverified_group(s: SupervisorView, members: Result<bool, ()>) -> Next {
    if members == Ok::<bool, ()>(false) {
        discarding(s, true)
    } else {
        go_on(s)
    }
}

/// A process under an outdated configuration is considered again.
pub open spec fn rechecking_stale(s: SupervisorView) -> Next {
    if !s.server.stale_config_process {
        go_on(s)
    } else if s.runtime.process is None || s.process is None {
        go_on(
            SupervisorView {
                server: Server { stale_config_process: false, ..s.server },
                ..s
            },
        )
    } else {
        Next {
            state: s.with_task(Task::StaleInspected),
            effect: Effect::InspectIdentity(Subject::Recorded),
        }
    }
}

/// The identity still allows a takeover.
pub open spec fn holds(identity: Result<RecordIdentity, ()>) -> bool {
    identity is Ok && (identity->Ok_0 is Current || identity->Ok_0 is ExecutableVanished)
}

/// Where its configuration matches again, its identity is looked at twice.
pub open spec fn stale_inspected(s: SupervisorView, identity: Result<RecordIdentity, ()>) -> Next {
    match s.runtime.process {
        Some(record) => if holds(identity) && config_matches(s, record) {
            Next {
                state: s.with_task(Task::StaleConfirmed),
                effect: Effect::InspectIdentity(Subject::Recorded),
            }
        } else {
            go_on(s)
        },
        None => go_on(s),
    }
}

/// It then becomes due for a health check.
pub open spec fn stale_confirmed(
    s: SupervisorView,
    identity: Result<RecordIdentity, ()>,
) -> SupervisorView {
    if holds(identity) {
        SupervisorView { timers: Timers { last_health_check: None, ..s.timers }, ..s }
    } else {
        s
    }
}

/// Whether the identity still allows a takeover.
pub fn identity_holds(identity: &Result<RecordIdentity, ()>) -> (held: bool)
    ensures
        held == holds(*identity),
{
    match identity {
        Ok(RecordIdentity::Current) | Ok(RecordIdentity::ExecutableVanished) => true,
        _ => false,
    }
}

/// Whether nothing was found under the recorded identifier.
fn is_missing(identity: &Result<RecordIdentity, ()>) -> (missing: bool)
    ensures
        missing == (*identity == Ok::<RecordIdentity, ()>(RecordIdentity::Missing)),
{
    match identity {
        Ok(RecordIdentity::Missing) => true,
        _ => false,
    }
}

/// Whether a group was seen to be empty.
fn is_empty(members: &Result<bool, ()>) -> (empty: bool)
    ensures
        empty == (*members == Ok::<bool, ()>(false)),
{
    match members {
        Ok(found) => !*found,
        Err(_) => false,
    }
}

impl Supervisor {
    fn latest_config_matches(&self, record: &ProcessRecord) -> (matches: bool)
        ensures
            matches == config_matches(self.model(), record.deep_view()),
    {
        match &self.latest_config {
            Some(config) => self.config_fingerprint_key.verifies(
                &record.config_fingerprint,
                config,
            ),
            None => false,
        }
    }

    /// Looks at a recorded process, if there is one.
    pub(super) fn try_reattach(&mut self) -> (effect: Effect)
        ensures
            (Next { state: final(self).model(), effect }) == reattaching(old(self).model()),
    {
        if self.runtime.process.is_none() {
            return Effect::Continue;
        }
        self.push(Task::ReattachInspected);
        Effect::InspectIdentity(Subject::Recorded)
    }

    /// Goes on after the first look.
    pub(super) fn reattach_identity_seen(&mut self, now: u64, identity: Result<RecordIdentity, ()>)
        -> (effect: Effect)
        ensures
            (Next { state: final(self).model(), effect }) == reattach_inspected(
                old(self).model(),
                now,
                identity,
            ),
    {
        if is_missing(&identity) {
            self.push(Task::ReattachGroup);
            return Effect::ObserveGroup(Subject::Recorded);
        }
        self.carry_out_initial_decision(now, identity)
    }

    /// Goes on after the group of a missing leader was looked at.
    pub(super) fn reattach_group_seen(&mut self, now: u64, members: Result<bool, ()>) -> (effect:
        Effect)
        ensures
            (Next { state: final(self).model(), effect }) == reattach_group(
                old(self).model(),
                now,
                members,
            ),
    {
        if is_empty(&members) {
            return self.carry_out_initial_decision(now, Ok(RecordIdentity::Missing));
        }
        match clone_record(&self.runtime.process) {
            Some(record) => self.mark_unverified_process(now, record),
            None => Effect::Continue,
        }
    }

    fn carry_out_initial_decision(&mut self, now: u64, identity: Result<RecordIdentity, ()>) -> (
        effect: Effect)
        ensures
            (Next { state: final(self).model(), effect }) == reattach_decided(
                old(self).model(),
                now,
                identity,
            ),
    {
        let record = match clone_record(&self.runtime.process) {
            Some(record) => record,
            None => return Effect::Continue,
        };
        let matches = self.latest_config_matches(&record);
        let config = clone_config(&self.latest_config);
        match decide_initial(
            record.identity_unconfirmed,
            identity,
            config,
            matches,
            self.credentials.state(),
        ) {
            InitialAction::DiscardStaleRecord { .. } => self.discard_stale_process_record(false),
            InitialAction::MarkUnverified { .. } => self.mark_unverified_process(now, record),
            InitialAction::AttachUnconfirmed { .. } => self.attach_unconfirmed_process(now, record),
            InitialAction::AttachStaleConfig { reason } => self.attach_stale_config_process(
                record,
                reason,
            ),
            InitialAction::NeedsHealthCheck { config } => {
                self.hand.draft = Some(config);
                self.push(Task::ReattachHealth);
                Effect::CheckHealth
            },
        }
    }

    /// Goes on after the health check.
    pub(super) fn reattach_health_seen(&mut self, answer: HealthAnswer) -> (effect: Effect)
        ensures
            (Next { state: final(self).model(), effect }) == reattach_answered(
                old(self).model(),
                answer.deep_view(),
            ),
    {
        self.hand.answer = Some(answer);
        self.push(Task::ReattachRechecked);
        Effect::InspectIdentity(Subject::Recorded)
    }

    /// Goes on after the second look.
    pub(super) fn reattach_identity_rechecked(
        &mut self,
        now: u64,
        identity: Result<RecordIdentity, ()>,
    ) -> (effect: Effect)
        ensures
            (Next { state: final(self).model(), effect }) == reattach_rechecked(
                old(self).model(),
                now,
                identity,
            ),
    {
        let draft = self.hand.draft.take();
        let answer = self.hand.answer.take();
        let record = match clone_record(&self.runtime.process) {
            Some(record) => record,
            None => return Effect::Continue,
        };
        let (config, answer) = match (draft, answer) {
            (Some(config), Some(answer)) => (config, answer),
            _ => return Effect::Continue,
        };
        let verdict = match &answer {
            HealthAnswer::Healthy(version) => HealthVerdict::Healthy { version: version.as_str() },
            HealthAnswer::Unhealthy => HealthVerdict::Unhealthy,
            HealthAnswer::Failed => HealthVerdict::Failed,
        };
        match decide_after_health(identity, verdict, config) {
            FinalAction::ReattachHealthy { version, config } => self.reattach_healthy(
                now,
                record,
                config,
                version,
            ),
            FinalAction::DiscardStaleRecord { .. } => self.discard_stale_process_record(false),
            FinalAction::MarkUnverified { .. } => self.mark_unverified_process(now, record),
            FinalAction::AttachUnconfirmed { .. } => self.attach_unconfirmed_process(now, record),
        }
    }

    fn reattach_healthy(
        &mut self,
        now: u64,
        record: ProcessRecord,
        config: crate::config::ValidatedConfig,
        version: String,
    ) -> (effect: Effect)
        ensures
            (Next { state: final(self).model(), effect }) == reattached(
                old(self).model(),
                now,
                record.deep_view(),
                config.deep_view(),
                version@,
            ),
    {
        let mut record = record;
        record.running_version = Some(version.clone());
        record.config_fingerprint = self.config_fingerprint_key.fingerprint(&config);
        self.texts.running_version = Some(version);
        self.process = Some(ManagedProcess::attach(record.clone()));
        self.runtime.process = Some(record);
        self.active_config = Some(config);
        self.server.state = ServerState::Healthy;
        self.server.health = HealthState::Healthy;
        self.timers.process_started = Some(now);
        self.persist_runtime(true, SaveThen::FailUnlessDurable)
    }

    fn attach_unconfirmed_process(&mut self, now: u64, record: ProcessRecord) -> (effect: Effect)
        ensures
            (Next { state: final(self).model(), effect }) == attached_unconfirmed(
                old(self).model(),
                now,
                record.deep_view(),
            ),
    {
        self.process = Some(ManagedProcess::attach(record.clone()));
        self.runtime.process = Some(record);
        self.server.unverified_process_record = true;
        self.server.state = ServerState::Failed;
        self.timers.unverified_check_at = Some(after(now, UNVERIFIED_CHECK_INTERVAL));
        self.say(
            "An existing process was reattached with unconfirmed identity — it remains supervised",
        );
        self.persist_runtime(true, SaveThen::Nothing)
    }

    fn attach_stale_config_process(&mut self, record: ProcessRecord, reason: &str) -> (effect:
        Effect)
        ensures
            (Next { state: final(self).model(), effect }) == attached_stale(
                old(self).model(),
                record.deep_view(),
                reason@,
            ),
    {
        self.process = Some(ManagedProcess::attach(record.clone()));
        self.runtime.process = Some(record);
        self.active_config = None;
        self.server.stale_config_process = true;
        self.server.state = ServerState::Unhealthy;
        self.server.health = HealthState::Unknown;
        self.texts.last_error = Some(
            join("OpenCode is running with its previous configuration — ", reason),
        );
        self.persist_runtime(true, SaveThen::FailUnlessDurable)
    }

    fn discard_stale_process_record(&mut self, converge: bool) -> (effect: Effect)
        ensures
            (Next { state: final(self).model(), effect }) == discarding(
                old(self).model(),
                converge,
            ),
    {
        self.hand.evidence = self.runtime.process.take();
        self.server.unverified_process_record = false;
        self.timers.unverified_check_at = None;
        self.persist_runtime(false, SaveThen::RecordDiscarded { converge })
    }

    /// Goes on after a record was discarded.
    pub(super) fn stale_record_discarded(
        &mut self,
        now: u64,
        converge: bool,
        persistence: RuntimePersistence,
    )
        ensures
            final(self).model() == discarded(old(self).model(), now, converge, persistence),
    {
        let evidence = self.hand.evidence.take();
        match persistence {
            RuntimePersistence::Durable => {
                if converge {
                    self.resume_supervision();
                }
            },
            RuntimePersistence::Failed => {
                self.runtime.process = evidence;
                self.server.unverified_process_record = true;
                self.server.state = ServerState::Failed;
                self.timers.unverified_check_at = Some(after(now, UNVERIFIED_CHECK_INTERVAL));
            },
            RuntimePersistence::Uncertain => {
                let convergence = if self.runtime.desired_state == DesiredState::Running {
                    PendingDurableConvergence::Start(
                        if self.server.restart_after_stop {
                            StartTrigger::AfterStop
                        } else {
                            StartTrigger::Cold
                        },
                    )
                } else {
                    PendingDurableConvergence::Stop
                };
                self.durable.pending_convergence = Some(convergence);
                self.fail();
            },
        }
    }

    fn resume_supervision(&mut self)
        ensures
            final(self).model() == converged(old(self).model()),
    {
        if self.server.restart_after_stop {
            self.server.restart_after_stop = false;
            self.server.restart_attempt_index = 0;
            self.timers.next_restart = None;
            self.push(Task::StartNow(StartTrigger::AfterStop));
        } else if self.runtime.desired_state == DesiredState::Running {
            self.server.restart_attempt_index = 0;
            self.timers.next_restart = None;
            self.push(Task::StartNow(StartTrigger::Cold));
        } else {
            self.server.state = ServerState::Stopped;
            self.texts.last_error = None;
        }
    }

    /// Looks at an unverified process, if that is due.
    pub(super) fn check_unverified_process(&mut self, now: u64) -> (effect: Effect)
        ensures
            (Next { state: final(self).model(), effect }) == unverified_checked(
                old(self).model(),
                now,
            ),
    {
        let due = match self.timers.unverified_check_at {
            Some(at) => now >= at,
            None => false,
        };
        if !self.server.unverified_process_record || self.process.is_some() || !due {
            return Effect::Continue;
        }
        self.timers.unverified_check_at = Some(after(now, UNVERIFIED_CHECK_INTERVAL));
        if self.runtime.process.is_none() {
            return Effect::Continue;
        }
        self.push(Task::UnverifiedInspected);
        Effect::InspectIdentity(Subject::Recorded)
    }

    /// Goes on after an unverified process was looked at.
    pub(super) fn unverified_identity_seen(&mut self, identity: Result<RecordIdentity, ()>) -> (effect:
        Effect)
        ensures
            (Next { state: final(self).model(), effect }) == unverified_inspected(
                old(self).model(),
                identity,
            ),
    {
        if !is_missing(&identity) || self.runtime.process.is_none() {
            return Effect::Continue;
        }
        self.push(Task::UnverifiedGroup);
        Effect::ObserveGroup(Subject::Recorded)
    }

    /// Goes on after the group of an unverified process was looked at.
    pub(super) fn unverified_group_seen(&mut self, members: Result<bool, ()>) -> (effect: Effect)
        ensures
            (Next { state: final(self).model(), effect }) == unverified_group(
                old(self).model(),
                members,
            ),
    {
        if !is_empty(&members) {
            return Effect::Continue;
        }
        self.discard_stale_process_record(true)
    }

    /// Considers a process under an outdated configuration again.
    pub(super) fn recheck_stale_process(&mut self) -> (effect: Effect)
        ensures
            (Next { state: final(self).model(), effect }) == rechecking_stale(old(self).model()),
    {
        if !self.server.stale_config_process {
            return Effect::Continue;
        }
        if self.runtime.process.is_none() || self.process.is_none() {
            self.server.stale_config_process = false;
            return Effect::Continue;
        }
        self.push(Task::StaleInspected);
        Effect::InspectIdentity(Subject::Recorded)
    }

    /// Goes on after the first look at it.
    pub(super) fn stale_identity_seen(&mut self, identity: Result<RecordIdentity, ()>) -> (effect:
        Effect)
        ensures
            (Next { state: final(self).model(), effect }) == stale_inspected(
                old(self).model(),
                identity,
            ),
    {
        let matches = match &self.runtime.process {
            Some(record) => self.latest_config_matches(record),
            None => false,
        };
        if !identity_holds(&identity) || !matches {
            return Effect::Continue;
        }
        self.push(Task::StaleConfirmed);
        Effect::InspectIdentity(Subject::Recorded)
    }

    /// Goes on after the second look at it.
    pub(super) fn stale_identity_confirmed(&mut self, identity: Result<RecordIdentity, ()>)
        ensures
            final(self).model() == stale_confirmed(old(self).model(), identity),
    {
        if identity_holds(&identity) {
            self.timers.last_health_check = None;
        }
    }
}

/// The record of an unverified process goes only after the process was found
/// missing and its group empty; until then nothing follows from a look.
pub proof fn live_processes_stay_recorded(
    s: SupervisorView,
    identity: Result<RecordIdentity, ()>,
    members: Result<bool, ()>,
)
    ensures
        identity != Ok::<RecordIdentity, ()>(RecordIdentity::Missing) ==> unverified_inspected(
            s,
            identity,
        ) == go_on(s),
        members != Ok::<bool, ()>(false) ==> unverified_group(s, members) == go_on(s),
{
}

/// Whatever becomes of a recorded process, no other one is started in the
/// same breath: a takeover, or a refusal of one, never adds a start.
pub proof fn reattachment_starts_nothing(
    s: SupervisorView,
    now: u64,
    identity: Result<RecordIdentity, ()>,
)
    ensures
        !(reattach_decided(s, now, identity).effect is Spawn),
        reattach_decided(s, now, identity).state.tasks.len() <= s.tasks.len() + 1,
        forall|trigger: StartTrigger|
            reattach_decided(s, now, identity).state.tasks.len() > s.tasks.len()
                ==> reattach_decided(s, now, identity).state.tasks.last() != Task::StartNow(
                trigger,
            ),
{
}

} // verus!
