//! When the health is checked, and what its result changes. A failed check
//! never restarts anything.

#[allow(unused_imports)]
use vstd::prelude::*;
use crate::config::{clone_config, ValidatedConfig};
#[allow(unused_imports)]
use crate::config_fingerprint::{fingerprint_under, verified_under};
use crate::health::{HealthError, HealthResult};
#[allow(unused_imports)]
use crate::health::{health_view, HealthErrorView, HealthResultView};
use crate::process::{ManagedProcess, RecordIdentity};
#[allow(unused_imports)]
use crate::process::ManagedProcessView;
use crate::protocol::{HealthState, ServerState};
use crate::runtime_state::ProcessRecord;
#[allow(unused_imports)]
use crate::runtime_state::ProcessRecordView;
use crate::text::same_text;
use super::credential::{CredentialState, WorkerMessage};
use super::health_worker::{same_key, HealthCheckCompletion, HealthCheckKey};
#[allow(unused_imports)]
use super::health_worker::{key_of, HealthChecksView, HealthCompletionView, HealthKeyView};
use super::reattach::identity_holds;
#[allow(unused_imports)]
use super::reattach::{holds, restamped};
#[allow(unused_imports)]
use super::runtime_durability::{persisting, ready, showing_readiness};
use super::{
    after, Effect, HealthTask, HealthThen, Notice, RuntimePersistence, SaveThen, Subject,
    Supervisor, Task, HEALTH_INTERVAL, STARTING_HEALTH_INTERVAL, STARTUP_HEALTH_ALLOWANCE,
};
#[allow(unused_imports)]
use super::{
    go_on, later, HandView, HealthTaskView, Next, Server, SupervisorView, TextsView, Timers,
};

verus! {

/// How often the health is checked in a state.
pub open spec fn health_interval(state: ServerState) -> u64 {
    match state {
        ServerState::Starting => STARTING_HEALTH_INTERVAL,
        ServerState::Unhealthy => STARTING_HEALTH_INTERVAL,
        _ => HEALTH_INTERVAL,
    }
}

/// When the next health check is due.
pub open spec fn health_due(s: SupervisorView, now: u64) -> u64 {
    match s.timers.last_health_check {
        Some(last) => later(last, health_interval(s.server.state)),
        None => now,
    }
}

/// A process under an outdated configuration is checked only where its
/// configuration matches again; its identity must hold as well.
pub open spec fn identity_needed(s: SupervisorView) -> bool {
    &&& s.process is Some
    &&& s.active_config is None
    &&& s.server.stale_config_process
    &&& s.latest_config is Some
    &&& verified_under(s.key, s.process->0.record().config_fingerprint, s.latest_config->0)
}

/// What may be checked at present.
pub open spec fn current_task(s: SupervisorView, identity_holds: bool) -> Option<HealthTaskView> {
    match s.process {
        None => None,
        Some(process) => match s.active_config {
            Some(config) => Some(
                HealthTaskView {
                    key: key_of(
                        process.record(),
                        fingerprint_under(s.key, config),
                        s.server.health_generation,
                    ),
                    config,
                },
            ),
            None => if identity_needed(s) && identity_holds {
                Some(
                    HealthTaskView {
                        key: key_of(
                            process.record(),
                            process.record().config_fingerprint,
                            s.server.health_generation,
                        ),
                        config: s.latest_config->0,
                    },
                )
            } else {
                None
            },
        },
    }
}

/// What the checks are about at present.
pub open spec fn current_basis(s: SupervisorView, identity_holds: bool) -> Option<HealthKeyView> {
    match current_task(s, identity_holds) {
        Some(task) => Some(HealthKeyView { generation: 0, ..task.key }),
        None => None,
    }
}

/// The generation moves on whenever what is checked changes, so that a result
/// from before does not count even if the change is taken back.
pub open spec fn synced(s: SupervisorView, identity_holds: bool) -> SupervisorView {
    let basis = current_basis(s, identity_holds);
    if s.health_generation_basis != basis {
        SupervisorView {
            health_generation_basis: basis,
            server: Server {
                health_generation: if s.server.health_generation == u64::MAX {
                    u64::MAX
                } else {
                    (s.server.health_generation + 1) as u64
                },
                ..s.server
            },
            ..s
        }
    } else {
        s
    }
}

/// Brings the generation up to date, and goes on.
pub open spec fn syncing(s: SupervisorView, purpose: HealthThen) -> Next {
    if identity_needed(s) {
        Next {
            state: s.with_task(Task::HealthSynced(purpose)),
            effect: Effect::InspectIdentity(Subject::Managed),
        }
    } else {
        synced_for(s, purpose, false)
    }
}

/// Goes on with the generation up to date.
pub open spec fn synced_for(s: SupervisorView, purpose: HealthThen, identity_holds: bool) -> Next {
    let current = synced(s, identity_holds);
    match purpose {
        HealthThen::Done => go_on(current),
        HealthThen::Poll => if current.health_checks.in_flight is Some {
            Next {
                state: current.with_task(Task::HealthPolled { identity_holds }),
                effect: Effect::PollHealthCheck,
            }
        } else {
            go_on(current)
        },
        HealthThen::Dispatch => dispatching(current, identity_holds),
    }
}

/// Starts a check, unless one is waiting or there is nothing to check.
pub open spec fn dispatching(s: SupervisorView, identity_holds: bool) -> Next {
    let shown = showing_readiness(s);
    if !ready(s) || s.stopping() {
        go_on(shown)
    } else {
        match current_task(shown, identity_holds) {
            None => go_on(shown),
            Some(task) => {
                let noted = SupervisorView {
                    timers: Timers {
                        last_health_check: Some(s.timers.tick_at),
                        ..shown.timers
                    },
                    ..shown
                };
                if s.health_checks.in_flight is Some {
                    go_on(noted)
                } else {
                    Next {
                        state: SupervisorView {
                            hand: HandView { health_task: Some(task), ..noted.hand },
                            ..noted
                        }.with_task(Task::HealthStarted),
                        effect: Effect::StartHealthCheck,
                    }
                }
            },
        }
    }
}

/// The state after a check was or was not started.
pub open spec fn check_started(s: SupervisorView, started: bool) -> SupervisorView {
    let dropped = SupervisorView { hand: HandView { health_task: None, ..s.hand }, ..s };
    match s.hand.health_task {
        Some(task) => if s.health_checks.in_flight is None {
            SupervisorView {
                health_checks: s.health_checks.after_start(s.timers.tick_at, task.key, started),
                ..dropped
            }
        } else {
            dropped
        },
        None => dropped,
    }
}

/// The key of what may be checked at present.
pub open spec fn current_key(s: SupervisorView, identity_holds: bool) -> Option<HealthKeyView> {
    match current_task(s, identity_holds) {
        Some(task) => Some(task.key),
        None => None,
    }
}

/// What the waiting check leads to. Its result counts only for the process
/// and configuration it was about, and not while the process is stopped.
pub open spec fn health_polled(
    s: SupervisorView,
    identity_holds: bool,
    message: WorkerMessage<Result<HealthResult, HealthError>>,
) -> Next {
    if s.health_checks.in_flight is None {
        go_on(s)
    } else {
        match message {
            WorkerMessage::Disconnected => go_on(
                SupervisorView { health_checks: s.health_checks.landed(), ..s },
            ),
            WorkerMessage::Empty => go_on(
                SupervisorView {
                    health_checks: HealthChecksView {
                        overdue_logged: s.health_checks.overdue_logged
                            || s.health_checks.is_overdue(s.timers.tick_at),
                        ..s.health_checks
                    },
                    ..s
                },
            ),
            WorkerMessage::Ready(result) => {
                let landed = SupervisorView { health_checks: s.health_checks.landed(), ..s };
                if s.health_checks.is_current(current_key(s, identity_holds)) {
                    completing(
                        landed,
                        HealthCompletionView {
                            key: s.health_checks.in_flight->0.key,
                            result: health_view(result),
                        },
                    )
                } else {
                    go_on(landed)
                }
            },
        }
    }
}

/// A result arrived.
#[verifier::opaque]
pub open spec fn completing(s: SupervisorView, completion: HealthCompletionView) -> Next {
    let noted = SupervisorView {
        timers: Timers { last_health_check: Some(s.timers.tick_at), ..s.timers },
        ..s
    };
    let shown = showing_readiness(noted);
    if !ready(noted) || s.stopping() {
        go_on(shown)
    } else {
        let held = SupervisorView {
            hand: HandView { completion: Some(completion), ..shown.hand },
            ..shown
        };
        if identity_needed(held) {
            Next {
                state: held.with_task(Task::HealthJudged),
                effect: Effect::InspectIdentity(Subject::Managed),
            }
        } else {
            judged(held, false)
        }
    }
}

/// Applies a result that is still about the current process and
/// configuration.
#[verifier::opaque]
pub open spec fn judged(s: SupervisorView, identity_holds: bool) -> Next {
    let dropped = SupervisorView { hand: HandView { completion: None, ..s.hand }, ..s };
    match s.hand.completion {
        None => go_on(dropped),
        Some(completion) => if current_key(s, identity_holds) != Some(completion.key) {
            go_on(dropped)
        } else if s.active_config is None && s.server.stale_config_process {
            stale_upgraded(dropped, completion.result)
        } else {
            health_applied(dropped, completion.result)
        },
    }
}

/// A process whose configuration matches again is taken over in full once it
/// is healthy.
#[verifier::opaque]
pub open spec fn stale_upgraded(
    s: SupervisorView,
    result: Result<HealthResultView, HealthErrorView>,
) -> Next {
    match (result, s.process, s.latest_config) {
        (Ok(health), Some(process), Some(config)) => if health.healthy {
            let stamped = restamped(s, process.record(), config, health.version);
            persisting(
                SupervisorView {
                    process: Some(ManagedProcessView::Attached { record: stamped }),
                    active_config: Some(config),
                    texts: TextsView {
                        running_version: Some(health.version),
                        last_error: None,
                        ..s.texts
                    },
                    server: Server {
                        state: ServerState::Healthy,
                        health: HealthState::Healthy,
                        stale_config_process: false,
                        ..s.server
                    },
                    timers: Timers { process_started: Some(s.timers.tick_at), ..s.timers },
                    ..s
                }.recording(Some(stamped)),
                true,
                SaveThen::FailUnlessDurable,
            )
        } else {
            go_on(s)
        },
        _ => go_on(s),
    }
}

/// Applies a result to a process that is supervised in full.
#[verifier::opaque]
pub open spec fn health_applied(
    s: SupervisorView,
    result: Result<HealthResultView, HealthErrorView>,
) -> Next {
    match result {
        Ok(health) => if health.healthy {
            healthy(s, health.version)
        } else {
            go_on(unhealthy(s, false))
        },
        Err(error) => go_on(unhealthy(s, error is Unauthorized)),
    }
}

/// The server is healthy. A version that was not known is recorded.
pub open spec fn healthy(s: SupervisorView, version: Seq<char>) -> Next {
    let well = SupervisorView {
        server: Server {
            state: ServerState::Healthy,
            health: HealthState::Healthy,
            health_failures: 0,
            ..s.server
        },
        ..s
    }.silent();
    if s.texts.running_version == Some(version) {
        go_on(recovered(well))
    } else {
        let told = SupervisorView {
            texts: TextsView { running_version: Some(version), ..well.texts },
            ..well
        };
        match s.process {
            None => go_on(recovered(told)),
            Some(process) => {
                let record = ProcessRecordView {
                    running_version: Some(version),
                    ..process.record()
                };
                persisting(
                    SupervisorView { process: Some(process.with_record(record)), ..told }.recording(
                        Some(record),
                    ),
                    true,
                    SaveThen::HealthVersion,
                )
            },
        }
    }
}

/// What follows the record of a version.
pub open spec fn version_recorded(s: SupervisorView, persistence: RuntimePersistence) -> SupervisorView {
    if persistence is Durable {
        recovered(s)
    } else {
        s.failing()
    }
}

/// An incident that is over is told.
pub open spec fn recovered(s: SupervisorView) -> SupervisorView {
    let calm = SupervisorView {
        server: Server {
            recovery_incident_active: false,
            health_incident_active: false,
            ..s.server
        },
        ..s
    };
    if s.server.recovery_incident_active {
        calm.with_task(Task::Notify(Notice::Recovered))
    } else if s.server.health_incident_active {
        calm.with_task(Task::Notify(Notice::HealthRecovered))
    } else {
        calm
    }
}

/// The server was started only a moment ago.
pub open spec fn still_starting(s: SupervisorView) -> bool {
    &&& s.timers.process_started matches Some(started) && s.timers.tick_at - started
        < STARTUP_HEALTH_ALLOWANCE
    &&& s.server.state is Starting
}

/// What a rejected credential means to a person.
pub open spec fn unauthorized_message(state: CredentialState) -> Seq<char> {
    match state {
        CredentialState::NotConfigured =>
            "The saved password was removed from Keychain — re-save it in Settings"@,
        _ => "OpenCode rejected the stored password — re-save it in Settings and restart"@,
    }
}

/// The server is not healthy. It is left running; a person is told after
/// three failures in a row.
pub open spec fn unhealthy(s: SupervisorView, unauthorized: bool) -> SupervisorView {
    let failures = if s.server.health_failures == u32::MAX {
        u32::MAX
    } else {
        (s.server.health_failures + 1) as u32
    };
    let counted = SupervisorView {
        server: Server {
            health_failures: failures,
            health: HealthState::Unhealthy,
            ..s.server
        },
        ..s
    };
    if still_starting(s) {
        counted
    } else {
        let told = SupervisorView {
            server: Server { state: ServerState::Unhealthy, ..counted.server },
            ..counted
        }.saying(
            if unauthorized {
                unauthorized_message(s.credentials.state)
            } else {
                "OpenCode is running, but /global/health is not healthy"@
            },
        );
        if failures >= 3 && !s.server.health_incident_active {
            SupervisorView {
                server: Server { health_incident_active: true, ..told.server },
                ..told
            }.with_task(
                Task::Notify(
                    if unauthorized {
                        Notice::Unauthorized
                    } else {
                        Notice::Unhealthy
                    },
                ),
            )
        } else {
            told
        }
    }
}

/// A check is due and possible.
pub open spec fn check_due(s: SupervisorView) -> bool {
    &&& s.process is Some
    &&& !s.stopping()
    &&& s.timers.tick_at >= health_due(s, s.timers.tick_at)
}

/// What a rejected credential means to a person.
pub fn unauthorized_credential_message(state: CredentialState) -> (message: &'static str)
    ensures
        message@ == unauthorized_message(state),
{
    match state {
        CredentialState::NotConfigured =>
            "The saved password was removed from Keychain — re-save it in Settings",
        _ => "OpenCode rejected the stored password — re-save it in Settings and restart",
    }
}

impl Supervisor {
    fn health_interval(&self) -> (interval: u64)
        ensures
            interval == health_interval(self.model().server.state),
    {
        match self.server.state {
            ServerState::Starting | ServerState::Unhealthy => STARTING_HEALTH_INTERVAL,
            _ => HEALTH_INTERVAL,
        }
    }

    /// When the next health check is due.
    pub fn health_due(&self, now: u64) -> (due: u64)
        ensures
            due == health_due(self.model(), now),
    {
        match self.timers.last_health_check {
            Some(last) => after(last, self.health_interval()),
            None => now,
        }
    }

    /// Whether what may be checked depends on the identity of the process.
    pub fn health_needs_identity(&self) -> (needed: bool)
        ensures
            needed == identity_needed(self.model()),
    {
        if self.active_config.is_some() || !self.server.stale_config_process {
            return false;
        }
        match (&self.process, &self.latest_config) {
            (Some(process), Some(config)) => self.config_fingerprint_key.verifies(
                &process.record().config_fingerprint,
                config,
            ),
            _ => false,
        }
    }

    fn current_health_task(&self, identity_holds: bool) -> (task: Option<HealthTask>)
        ensures
            task.deep_view() == current_task(self.model(), identity_holds),
    {
        let process = match &self.process {
            Some(process) => process,
            None => return None,
        };
        if let Some(config) = &self.active_config {
            let fingerprint = self.config_fingerprint_key.fingerprint(config);
            let key = HealthCheckKey::from_record(process.record(), fingerprint).with_generation(
                self.server.health_generation,
            );
            return Some(HealthTask { key, config: config.clone() });
        }
        if !self.health_needs_identity() || !identity_holds {
            return None;
        }
        match &self.latest_config {
            Some(config) => {
                let key = HealthCheckKey::from_record(
                    process.record(),
                    process.record().config_fingerprint.clone(),
                ).with_generation(self.server.health_generation);
                Some(HealthTask { key, config: config.clone() })
            },
            None => None,
        }
    }

    /// Whether anything may be checked at present.
    pub fn health_task_is_available(&self, identity_holds: bool) -> (available: bool)
        ensures
            available == (current_task(self.model(), identity_holds) is Some),
    {
        self.current_health_task(identity_holds).is_some()
    }

    fn current_health_key(&self, identity_holds: bool) -> (key: Option<HealthCheckKey>)
        ensures
            key.deep_view() == current_key(self.model(), identity_holds),
    {
        match self.current_health_task(identity_holds) {
            Some(task) => Some(task.key),
            None => None,
        }
    }

    fn sync_health_generation(&mut self, identity_holds: bool)
        ensures
            final(self).model() == synced(old(self).model(), identity_holds),
    {
        let basis = match self.current_health_task(identity_holds) {
            Some(task) => Some(task.key.without_generation()),
            None => None,
        };
        if !same_key(&self.health_generation_basis, &basis) {
            if self.server.health_generation < u64::MAX {
                self.server.health_generation = self.server.health_generation + 1;
            }
            self.health_generation_basis = basis;
        }
    }

    /// Brings the generation up to date, and goes on.
    pub(super) fn sync_health(&mut self, purpose: HealthThen) -> (effect: Effect)
        ensures
            (Next { state: final(self).model(), effect }) == syncing(old(self).model(), purpose),
    {
        if self.health_needs_identity() {
            self.push(Task::HealthSynced(purpose));
            return Effect::InspectIdentity(Subject::Managed);
        }
        self.health_synced(purpose, false)
    }

    /// Goes on after the identity was looked at.
    pub(super) fn health_identity_seen(
        &mut self,
        purpose: HealthThen,
        identity: Result<RecordIdentity, ()>,
    ) -> (effect: Effect)
        ensures
            (Next { state: final(self).model(), effect }) == synced_for(
                old(self).model(),
                purpose,
                holds(identity),
            ),
    {
        self.health_synced(purpose, identity_holds(&identity))
    }

    fn health_synced(&mut self, purpose: HealthThen, identity_holds: bool) -> (effect: Effect)
        ensures
            (Next { state: final(self).model(), effect }) == synced_for(
                old(self).model(),
                purpose,
                identity_holds,
            ),
    {
        self.sync_health_generation(identity_holds);
        match purpose {
            HealthThen::Done => Effect::Continue,
            HealthThen::Poll => {
                if !self.health_checks.in_flight() {
                    return Effect::Continue;
                }
                self.push(Task::HealthPolled { identity_holds });
                Effect::PollHealthCheck
            },
            HealthThen::Dispatch => self.dispatch_health_check(identity_holds),
        }
    }

    fn dispatch_health_check(&mut self, identity_holds: bool) -> (effect: Effect)
        ensures
            (Next { state: final(self).model(), effect }) == dispatching(
                old(self).model(),
                identity_holds,
            ),
    {
        let stopping = self.is_stopping();
        if !self.runtime_state_ready() || stopping {
            return Effect::Continue;
        }
        match self.current_health_task(identity_holds) {
            None => Effect::Continue,
            Some(task) => {
                self.timers.last_health_check = Some(self.timers.tick_at);
                if self.health_checks.in_flight() {
                    return Effect::Continue;
                }
                self.hand.health_task = Some(task);
                self.push(Task::HealthStarted);
                Effect::StartHealthCheck
            },
        }
    }

    /// Goes on after a check was or was not started.
    pub(super) fn health_check_started(&mut self, started: bool)
        ensures
            final(self).model() == check_started(old(self).model(), started),
    {
        match self.hand.health_task.take() {
            Some(task) => {
                if !self.health_checks.in_flight() {
                    let now: u64 = self.timers.tick_at;
                    let _ = self.health_checks.dispatch(now, task.key, started);
                }
            },
            None => {},
        }
    }

    /// Goes on after the waiting check was polled.
    pub(super) fn health_check_polled(
        &mut self,
        identity_holds: bool,
        message: WorkerMessage<Result<HealthResult, HealthError>>,
    ) -> (effect: Effect)
        ensures
            (Next { state: final(self).model(), effect }) == health_polled(
                old(self).model(),
                identity_holds,
                message,
            ),
    {
        if !self.health_checks.in_flight() {
            return Effect::Continue;
        }
        let key = self.current_health_key(identity_holds);
        let now: u64 = self.timers.tick_at;
        match self.health_checks.poll(now, &key, message) {
            Some(completion) => self.take_completion(completion),
            None => Effect::Continue,
        }
    }

    fn take_completion(&mut self, completion: HealthCheckCompletion) -> (effect: Effect)
        ensures
            (Next { state: final(self).model(), effect }) == completing(
                old(self).model(),
                completion.deep_view(),
            ),
    {
        proof {
            reveal(completing);
        }
        let stopping = self.is_stopping();
        self.timers.last_health_check = Some(self.timers.tick_at);
        if !self.runtime_state_ready() || stopping {
            return Effect::Continue;
        }
        self.hand.completion = Some(completion);
        if self.health_needs_identity() {
            self.push(Task::HealthJudged);
            return Effect::InspectIdentity(Subject::Managed);
        }
        self.judge_health(false)
    }

    /// Goes on after the identity was looked at once more.
    pub(super) fn health_rechecked(&mut self, identity: Result<RecordIdentity, ()>) -> (effect: Effect)
        ensures
            (Next { state: final(self).model(), effect }) == judged(
                old(self).model(),
                holds(identity),
            ),
    {
        self.judge_health(identity_holds(&identity))
    }

    fn judge_health(&mut self, identity_holds: bool) -> (effect: Effect)
        ensures
            (Next { state: final(self).model(), effect }) == judged(
                old(self).model(),
                identity_holds,
            ),
    {
        proof {
            reveal(judged);
        }
        let key = self.current_health_key(identity_holds);
        let completion = match self.hand.completion.take() {
            Some(completion) => completion,
            None => return Effect::Continue,
        };
        let current = match &key {
            Some(key) => key.same_as(&completion.key),
            None => false,
        };
        if !current {
            return Effect::Continue;
        }
        if self.active_config.is_none() && self.server.stale_config_process {
            self.apply_stale_health_result(completion.result)
        } else {
            self.apply_health_result(completion.result)
        }
    }

    fn apply_stale_health_result(&mut self, result: Result<HealthResult, HealthError>) -> (effect:
        Effect)
        ensures
            (Next { state: final(self).model(), effect }) == stale_upgraded(
                old(self).model(),
                health_view(result),
            ),
    {
        proof {
            reveal(stale_upgraded);
        }
        let health = match result {
            Ok(health) => health,
            Err(_) => return Effect::Continue,
        };
        if !health.healthy {
            return Effect::Continue;
        }
        let record = match &self.process {
            Some(process) => process.record().clone(),
            None => return Effect::Continue,
        };
        let config = match clone_config(&self.latest_config) {
            Some(config) => config,
            None => return Effect::Continue,
        };
        self.upgrade_stale_process(record, config, health.version)
    }

    fn upgrade_stale_process(
        &mut self,
        record: ProcessRecord,
        config: ValidatedConfig,
        version: String,
    ) -> (effect: Effect)
        requires
            old(self).model().process is Some,
            record.deep_view() == old(self).model().process->0.record(),
            old(self).model().latest_config == Some(config.deep_view()),
        ensures
            (Next { state: final(self).model(), effect }) == stale_upgraded(
                old(self).model(),
                Ok(HealthResultView { healthy: true, version: version@ }),
            ),
    {
        proof {
            reveal(stale_upgraded);
        }
        let mut record = record;
        record.running_version = Some(version.clone());
        record.config_fingerprint = self.config_fingerprint_key.fingerprint(&config);
        self.texts.running_version = Some(version);
        self.texts.last_error = None;
        self.process = Some(ManagedProcess::attach(record.clone()));
        self.runtime.process = Some(record);
        self.active_config = Some(config);
        self.server.stale_config_process = false;
        self.server.state = ServerState::Healthy;
        self.server.health = HealthState::Healthy;
        self.timers.process_started = Some(self.timers.tick_at);
        self.persist_runtime(true, SaveThen::FailUnlessDurable)
    }

    fn apply_health_result(&mut self, result: Result<HealthResult, HealthError>) -> (effect: Effect)
        ensures
            (Next { state: final(self).model(), effect }) == health_applied(
                old(self).model(),
                health_view(result),
            ),
    {
        proof {
            reveal(health_applied);
        }
        match result {
            Ok(health) => {
                if health.healthy {
                    return self.note_healthy(health.version);
                }
                self.note_unhealthy(false);
            },
            Err(error) => {
                let unauthorized = match error {
                    HealthError::Unauthorized => true,
                    _ => false,
                };
                self.note_unhealthy(unauthorized);
            },
        }
        Effect::Continue
    }

    fn note_healthy(&mut self, version: String) -> (effect: Effect)
        ensures
            (Next { state: final(self).model(), effect }) == healthy(
                old(self).model(),
                version@,
            ),
    {
        self.server.state = ServerState::Healthy;
        self.server.health = HealthState::Healthy;
        self.server.health_failures = 0;
        self.texts.last_error = None;
        let known = match &self.texts.running_version {
            Some(running) => same_text(running.as_str(), version.as_str()),
            None => false,
        };
        if known {
            self.note_recovered();
            return Effect::Continue;
        }
        self.texts.running_version = Some(version.clone());
        match self.process.take() {
            None => {
                self.note_recovered();
                Effect::Continue
            },
            Some(process) => {
                self.record_running_version(process, version, SaveThen::HealthVersion)
            },
        }
    }

    /// Records the version that a process runs.
    pub(super) fn record_running_version(
        &mut self,
        process: ManagedProcess,
        version: String,
        purpose: SaveThen,
    ) -> (effect: Effect)
        ensures
            ({
                let record = ProcessRecordView {
                    running_version: Some(version@),
                    ..process.deep_view().record()
                };
                (Next { state: final(self).model(), effect }) == persisting(
                    SupervisorView {
                        process: Some(process.deep_view().with_record(record)),
                        ..old(self).model()
                    }.recording(Some(record)),
                    true,
                    purpose,
                )
            }),
    {
        let mut process = process;
        let mut record = process.record().clone();
        record.running_version = Some(version);
        process.set_record(record.clone());
        self.process = Some(process);
        self.runtime.process = Some(record);
        self.persist_runtime(true, purpose)
    }

    /// Goes on after the version was recorded.
    pub(super) fn health_version_recorded(&mut self, persistence: RuntimePersistence)
        ensures
            final(self).model() == version_recorded(old(self).model(), persistence),
    {
        if persistence == RuntimePersistence::Durable {
            self.note_recovered();
        } else {
            self.fail();
        }
    }

    fn note_recovered(&mut self)
        ensures
            final(self).model() == recovered(old(self).model()),
    {
        let recovery = self.server.recovery_incident_active;
        let health = self.server.health_incident_active;
        self.server.recovery_incident_active = false;
        self.server.health_incident_active = false;
        if recovery {
            self.push(Task::Notify(Notice::Recovered));
        } else if health {
            self.push(Task::Notify(Notice::HealthRecovered));
        }
    }

    fn is_still_starting(&self) -> (starting: bool)
        ensures
            starting == still_starting(self.model()),
    {
        let recent = match self.timers.process_started {
            Some(started) => self.timers.tick_at <= started || self.timers.tick_at - started
                < STARTUP_HEALTH_ALLOWANCE,
            None => false,
        };
        recent && self.server.state == ServerState::Starting
    }

    fn note_unhealthy(&mut self, unauthorized: bool)
        ensures
            final(self).model() == unhealthy(old(self).model(), unauthorized),
    {
        let starting = self.is_still_starting();
        if self.server.health_failures < u32::MAX {
            self.server.health_failures = self.server.health_failures + 1;
        }
        self.server.health = HealthState::Unhealthy;
        if starting {
            return;
        }
        self.server.state = ServerState::Unhealthy;
        let message = if unauthorized {
            unauthorized_credential_message(self.credentials.state())
        } else {
            "OpenCode is running, but /global/health is not healthy"
        };
        self.texts.last_error = Some(message.to_owned());
        if self.server.health_failures >= 3 && !self.server.health_incident_active {
            self.server.health_incident_active = true;
            let notice = if unauthorized {
                Notice::Unauthorized
            } else {
                Notice::Unhealthy
            };
            self.push(Task::Notify(notice));
        }
    }

    /// Starts a check, if that is due.
    pub(super) fn check_health_if_due(&mut self)
        ensures
            final(self).model() == (if check_due(old(self).model()) {
                old(self).model().with_task(Task::SyncHealth(HealthThen::Dispatch))
            } else {
                old(self).model()
            }),
    {
        if self.process.is_some() && !self.is_stopping() && self.timers.tick_at
            >= self.health_due(self.timers.tick_at) {
            self.push(Task::SyncHealth(HealthThen::Dispatch));
        }
    }
}

/// A failed health check leaves the process running and leads to nothing but
/// a notification.
pub proof fn health_failures_restart_nothing(s: SupervisorView, unauthorized: bool)
    ensures
        ({
            let next = unhealthy(s, unauthorized);
            &&& next.process == s.process
            &&& next.runtime == s.runtime
            &&& next.timers == s.timers
            &&& next.tasks == s.tasks || next.tasks == s.tasks.push(
                Task::Notify(Notice::Unhealthy),
            ) || next.tasks == s.tasks.push(Task::Notify(Notice::Unauthorized))
        }),
{
}

/// At most one check waits: while one does, none is started.
pub proof fn checks_are_single_flight(s: SupervisorView, identity_holds: bool)
    requires
        s.health_checks.in_flight is Some,
    ensures
        dispatching(s, identity_holds).effect is Continue,
        check_started(s, true).health_checks == s.health_checks,
{
}

/// After the process or configuration under check changed, the result of an
/// earlier check does not count, even where everything is as before again.
pub proof fn changes_outdate_earlier_checks(s: SupervisorView, identity_holds: bool)
    requires
        s.health_checks.in_flight is Some,
        s.health_checks.in_flight->0.key.generation <= s.server.health_generation < u64::MAX,
        s.health_generation_basis != current_basis(s, identity_holds),
    ensures
        ({
            let moved = synced(s, identity_holds);
            forall|later: SupervisorView, again: bool| #[trigger]
                current_key(later, again) is Some && later.server.health_generation
                    >= moved.server.health_generation ==> !s.health_checks.is_current(
                    current_key(later, again),
                )
        }),
{
}

} // verus!
