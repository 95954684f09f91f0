//! One health check at a time, and whether its result still counts.

#[allow(unused_imports)]
use vstd::prelude::*;
use crate::config_fingerprint::ConfigFingerprint;
#[allow(unused_imports)]
use crate::config_fingerprint::ConfigFingerprintView;
use crate::health::{HealthError, HealthResult};
#[allow(unused_imports)]
use crate::health::{health_view, HealthErrorView, HealthResultView};
use crate::runtime_state::ProcessRecord;
#[allow(unused_imports)]
use crate::runtime_state::ProcessRecordView;
use crate::text::same_text;
use super::credential::WorkerMessage;

verus! {

/// The process and configuration that a health check is about. A process
/// identifier alone can be reused, so the whole identity is part of it.
#[derive(PartialEq, Eq)]
pub struct HealthCheckKey {
    pub generation: u64,
    pub pid: u32,
    pub process_group_id: u32,
    pub start_seconds: u64,
    pub start_microseconds: u64,
    pub executable: String,
    pub config_fingerprint: ConfigFingerprint,
}

/// The mathematical content of a [`HealthCheckKey`].
pub struct HealthKeyView {
    pub generation: u64,
    pub pid: u32,
    pub process_group_id: u32,
    pub start_seconds: u64,
    pub start_microseconds: u64,
    pub executable: Seq<char>,
    pub config_fingerprint: ConfigFingerprintView,
}

impl DeepView for HealthCheckKey {
    type V = HealthKeyView;

    open spec fn deep_view(&self) -> HealthKeyView {
        HealthKeyView {
            generation: self.generation,
            pid: self.pid,
            process_group_id: self.process_group_id,
            start_seconds: self.start_seconds,
            start_microseconds: self.start_microseconds,
            executable: self.executable@,
            config_fingerprint: self.config_fingerprint.deep_view(),
        }
    }
}

impl Clone for HealthCheckKey {
    fn clone(&self) -> (copy: Self)
        ensures
            copy == *self,
    {
        HealthCheckKey {
            generation: self.generation,
            pid: self.pid,
            process_group_id: self.process_group_id,
            start_seconds: self.start_seconds,
            start_microseconds: self.start_microseconds,
            executable: self.executable.clone(),
            config_fingerprint: self.config_fingerprint.clone(),
        }
    }
}

/// The key of a recorded process under a configuration.
pub open spec fn key_of(
    record: ProcessRecordView,
    config_fingerprint: ConfigFingerprintView,
    generation: u64,
) -> HealthKeyView {
    HealthKeyView {
        generation,
        pid: record.pid,
        process_group_id: record.process_group_id,
        start_seconds: record.start_seconds,
        start_microseconds: record.start_microseconds,
        executable: record.executable,
        config_fingerprint,
    }
}

impl HealthCheckKey {
    pub fn from_record(record: &ProcessRecord, config_fingerprint: ConfigFingerprint) -> (key:
        HealthCheckKey)
        ensures
            key.deep_view() == key_of(record.deep_view(), config_fingerprint.deep_view(), 0),
    {
        HealthCheckKey {
            generation: 0,
            pid: record.pid,
            process_group_id: record.process_group_id,
            start_seconds: record.start_seconds,
            start_microseconds: record.start_microseconds,
            executable: record.executable.clone(),
            config_fingerprint,
        }
    }

    pub fn config_fingerprint(&self) -> (fingerprint: &ConfigFingerprint)
        ensures
            *fingerprint == self.config_fingerprint,
    {
        &self.config_fingerprint
    }

    pub fn with_generation(self, generation: u64) -> (key: HealthCheckKey)
        ensures
            key.deep_view() == (HealthKeyView { generation, ..self.deep_view() }),
    {
        let mut key = self;
        key.generation = generation;
        key
    }

    pub fn without_generation(self) -> (key: HealthCheckKey)
        ensures
            key.deep_view() == (HealthKeyView { generation: 0, ..self.deep_view() }),
    {
        let mut key = self;
        key.generation = 0;
        key
    }

    /// Whether both keys are about the same process and configuration.
    pub fn same_as(&self, other: &HealthCheckKey) -> (same: bool)
        ensures
            same == (self.deep_view() == other.deep_view()),
    {
        self.generation == other.generation && self.pid == other.pid && self.process_group_id
            == other.process_group_id && self.start_seconds == other.start_seconds
            && self.start_microseconds == other.start_microseconds && same_text(
            self.executable.as_str(),
            other.executable.as_str(),
        ) && self.config_fingerprint.same_as(&other.config_fingerprint)
    }
}

/// Whether both keys are absent or the same.
pub fn same_key(left: &Option<HealthCheckKey>, right: &Option<HealthCheckKey>) -> (same: bool)
    ensures
        same == (left.deep_view() == right.deep_view()),
{
    match (left, right) {
        (None, None) => true,
        (Some(a), Some(b)) => a.same_as(b),
        _ => false,
    }
}

/// A check that is waiting for its answer.
#[derive(PartialEq, Eq)]
pub struct HealthCheckInFlight {
    pub dispatched: u64,
    pub key: HealthCheckKey,
}

/// The mathematical content of a [`HealthCheckInFlight`].
pub struct HealthFlightView {
    pub dispatched: u64,
    pub key: HealthKeyView,
}

impl DeepView for HealthCheckInFlight {
    type V = HealthFlightView;

    open spec fn deep_view(&self) -> HealthFlightView {
        HealthFlightView { dispatched: self.dispatched, key: self.key.deep_view() }
    }
}

/// A result that still counts.
#[derive(PartialEq, Eq)]
pub struct HealthCheckCompletion {
    pub key: HealthCheckKey,
    pub result: Result<HealthResult, HealthError>,
}

/// The mathematical content of a [`HealthCheckCompletion`].
pub struct HealthCompletionView {
    pub key: HealthKeyView,
    pub result: Result<HealthResultView, HealthErrorView>,
}

impl DeepView for HealthCheckCompletion {
    type V = HealthCompletionView;

    open spec fn deep_view(&self) -> HealthCompletionView {
        HealthCompletionView { key: self.key.deep_view(), result: health_view(self.result) }
    }
}

/// The state of the health checks.
#[derive(PartialEq, Eq)]
pub struct HealthCheckCoordinator {
    pub in_flight: Option<HealthCheckInFlight>,
    pub overdue_logged: bool,
    pub observation_bound: u64,
}

/// The mathematical content of a [`HealthCheckCoordinator`].
pub struct HealthChecksView {
    pub in_flight: Option<HealthFlightView>,
    pub overdue_logged: bool,
    pub observation_bound: u64,
}

impl DeepView for HealthCheckCoordinator {
    type V = HealthChecksView;

    open spec fn deep_view(&self) -> HealthChecksView {
        HealthChecksView {
            in_flight: self.in_flight.deep_view(),
            overdue_logged: self.overdue_logged,
            observation_bound: self.observation_bound,
        }
    }
}

impl HealthChecksView {
    /// The state once no answer is awaited.
    pub open spec fn landed(self) -> HealthChecksView {
        HealthChecksView { in_flight: None, overdue_logged: false, ..self }
    }

    /// The state after a check was or was not started.
    pub open spec fn after_start(self, now: u64, key: HealthKeyView, started: bool) -> HealthChecksView {
        if started {
            HealthChecksView {
                in_flight: Some(HealthFlightView { dispatched: now, key }),
                overdue_logged: false,
                ..self
            }
        } else {
            self
        }
    }

    /// The waiting check took longer than its bound.
    pub open spec fn is_overdue(self, now: u64) -> bool {
        self.in_flight matches Some(check) && now - check.dispatched > self.observation_bound
    }

    /// The waiting check is about the current process and configuration.
    pub open spec fn is_current(self, current: Option<HealthKeyView>) -> bool {
        self.in_flight is Some && current == Some(self.in_flight->0.key)
    }
}

impl HealthCheckCoordinator {
    pub fn new(observation_bound: u64) -> (checks: HealthCheckCoordinator)
        ensures
            checks.deep_view() == (HealthChecksView {
                in_flight: None,
                overdue_logged: false,
                observation_bound,
            }),
    {
        HealthCheckCoordinator { in_flight: None, overdue_logged: false, observation_bound }
    }

    /// Whether a check is waiting for its answer.
    pub fn in_flight(&self) -> (waiting: bool)
        ensures
            waiting == (self.deep_view().in_flight is Some),
    {
        self.in_flight.is_some()
    }

    /// Whether the waiting check was noted as overdue.
    pub fn overdue_logged(&self) -> (logged: bool)
        ensures
            logged == self.deep_view().overdue_logged,
    {
        self.overdue_logged
    }

    /// Notes whether a check could be started. There is never more than one:
    /// while one is waiting, another is refused.
    pub fn dispatch(&mut self, now: u64, key: HealthCheckKey, started: bool) -> (dispatched: bool)
        ensures
            dispatched == (started && old(self).deep_view().in_flight is None),
            final(self).deep_view() == old(self).deep_view().after_start(
                now,
                key.deep_view(),
                dispatched,
            ),
    {
        if self.in_flight.is_some() || !started {
            return false;
        }
        self.in_flight = Some(HealthCheckInFlight { dispatched: now, key });
        self.overdue_logged = false;
        true
    }

    /// Takes in what the waiting check has to say, if one is waiting. A result
    /// is handed on only where the key is still the current one.
    pub fn poll(
        &mut self,
        now: u64,
        current_key: &Option<HealthCheckKey>,
        message: WorkerMessage<Result<HealthResult, HealthError>>,
    ) -> (completion: Option<HealthCheckCompletion>)
        ensures
            old(self).deep_view().in_flight is None ==> *final(self) == *old(self) && completion
                is None,
            old(self).deep_view().in_flight is Some ==> ({
                let before = old(self).deep_view();
                match message {
                    WorkerMessage::Ready(result) => {
                        &&& final(self).deep_view() == before.landed()
                        &&& completion.deep_view() == (if before.is_current(
                            current_key.deep_view(),
                        ) {
                            Some(
                                HealthCompletionView {
                                    key: before.in_flight->0.key,
                                    result: health_view(result),
                                },
                            )
                        } else {
                            None
                        })
                    },
                    WorkerMessage::Disconnected => {
                        &&& final(self).deep_view() == before.landed()
                        &&& completion is None
                    },
                    WorkerMessage::Empty => {
                        &&& final(self).deep_view() == (HealthChecksView {
                            overdue_logged: before.overdue_logged || before.is_overdue(now),
                            ..before
                        })
                        &&& completion is None
                    },
                }
            }),
    {
        if self.in_flight.is_none() {
            return None;
        }
        match message {
            WorkerMessage::Ready(result) => {
                let waiting = self.in_flight.take();
                self.overdue_logged = false;
                match waiting {
                    Some(check) => {
                        let current = match current_key {
                            Some(key) => key.same_as(&check.key),
                            None => false,
                        };
                        if current {
                            Some(HealthCheckCompletion { key: check.key, result })
                        } else {
                            None
                        }
                    },
                    None => None,
                }
            },
            WorkerMessage::Disconnected => {
                self.in_flight = None;
                self.overdue_logged = false;
                None
            },
            WorkerMessage::Empty => {
                let overdue = match &self.in_flight {
                    Some(check) => now > check.dispatched && now - check.dispatched
                        > self.observation_bound,
                    None => false,
                };
                if overdue {
                    self.overdue_logged = true;
                }
                None
            },
        }
    }
}

/// A result is dropped when the generation moved on, even if the process and
/// its configuration are the same again.
pub proof fn stale_generations_are_dropped(
    checks: HealthChecksView,
    current: HealthKeyView,
)
    requires
        checks.in_flight is Some,
        checks.in_flight->0.key.generation != current.generation,
    ensures
        !checks.is_current(Some(current)),
{
}

} // verus!
