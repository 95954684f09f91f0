//! The version of the configured executable.

#[allow(unused_imports)]
use vstd::prelude::*;
use super::credential::WorkerMessage;
use super::version::VersionQueryResult;
#[allow(unused_imports)]
use super::version::{VersionResultView, VersionView};
#[allow(unused_imports)]
use super::runtime_durability::persisting;
use super::{Effect, SaveThen, Supervisor, Task};
#[allow(unused_imports)]
use super::{go_on, Next, SupervisorView, TextsView};
#[allow(unused_imports)]
use crate::runtime_state::ProcessRecordView;

verus! {

/// The executable whose version is asked for.
pub open spec fn queried_executable(s: SupervisorView) -> Option<Seq<char>> {
    match s.latest_config {
        Some(config) => Some(config.configured_executable),
        None => None,
    }
}

/// Polls the waiting query, or starts one that is due.
pub open spec fn version_polling(s: SupervisorView) -> Next {
    if s.version_queries.query is Some {
        Next { state: s.with_task(Task::VersionPolled), effect: Effect::PollVersionQuery }
    } else if s.version_queries.is_due(
        s.timers.tick_at,
        queried_executable(s),
        s.texts.installed_version is Some,
    ) {
        Next { state: s.with_task(Task::VersionStarted), effect: Effect::StartVersionQuery }
    } else {
        go_on(s)
    }
}

/// The state after a query was or was not started.
pub open spec fn version_started(s: SupervisorView, started: bool) -> SupervisorView {
    match queried_executable(s) {
        Some(executable) => SupervisorView {
            version_queries: s.version_queries.after_start(
                s.timers.tick_at,
                executable,
                started,
            ),
            ..s
        },
        None => s,
    }
}

/// What the waiting query leads to.
pub open spec fn version_polled(
    s: SupervisorView,
    now: u64,
    message: WorkerMessage<VersionQueryResult>,
) -> Next {
    if s.version_queries.query is None {
        go_on(s)
    } else {
        let executable = queried_executable(s);
        match message {
            WorkerMessage::Disconnected => go_on(
                SupervisorView {
                    version_queries: VersionView {
                        query: None,
                        overdue_logged: false,
                        last_attempt: Some(s.timers.tick_at),
                        ..s.version_queries
                    },
                    ..s
                },
            ),
            WorkerMessage::Empty => go_on(
                SupervisorView {
                    version_queries: VersionView {
                        overdue_logged: s.version_queries.overdue_logged
                            || s.version_queries.is_overdue(
                            s.timers.tick_at,
                            s.options.version_query_timeout,
                        ),
                        ..s.version_queries
                    },
                    ..s
                },
            ),
            WorkerMessage::Ready(result) => {
                let ended = SupervisorView {
                    version_queries: s.version_queries.after_result(
                        s.timers.tick_at,
                        now,
                        executable,
                        result.deep_view(),
                    ),
                    ..s
                };
                if s.version_queries.still_current(executable) {
                    version_applied(ended, result.deep_view())
                } else {
                    go_on(ended)
                }
            },
        }
    }
}

/// Applies a result. The installed version stands in for a running one that
/// is not known.
pub open spec fn version_applied(s: SupervisorView, result: VersionResultView) -> Next {
    match result {
        VersionResultView::Unavailable => go_on(s),
        VersionResultView::Quarantined => go_on(
            SupervisorView { texts: TextsView { installed_version: None, ..s.texts }, ..s },
        ),
        VersionResultView::Available(version) => {
            let told = SupervisorView {
                texts: TextsView {
                    installed_version: Some(version),
                    running_version: if s.texts.running_version is None {
                        Some(version)
                    } else {
                        s.texts.running_version
                    },
                    ..s.texts
                },
                ..s
            };
            match s.process {
                Some(process) => if process.record().running_version is None {
                    let record = ProcessRecordView {
                        running_version: Some(version),
                        ..process.record()
                    };
                    persisting(
                        SupervisorView {
                            process: Some(process.with_record(record)),
                            ..told
                        }.recording(Some(record)),
                        true,
                        SaveThen::FailUnlessDurable,
                    )
                } else {
                    go_on(told)
                },
                None => go_on(told),
            }
        },
    }
}

impl Supervisor {
    fn configured_executable(&self) -> (executable: Option<String>)
        ensures
            executable.deep_view() == queried_executable(self.model()),
    {
        match &self.latest_config {
            Some(config) => Some(config.configured_executable.clone()),
            None => None,
        }
    }

    /// Whether a new query is due.
    pub fn version_query_due(&self, now: u64) -> (due: bool)
        ensures
            due == self.model().version_queries.is_due(
                now,
                queried_executable(self.model()),
                self.model().texts.installed_version is Some,
            ),
    {
        let executable = self.configured_executable();
        self.version_queries.due(now, &executable, self.texts.installed_version.is_some())
    }

    /// Polls the waiting query, or starts one that is due.
    pub(super) fn poll_version_query(&mut self) -> (effect: Effect)
        ensures
            (Next { state: final(self).model(), effect }) == version_polling(old(self).model()),
    {
        if self.version_queries.in_flight() {
            self.push(Task::VersionPolled);
            return Effect::PollVersionQuery;
        }
        if self.version_query_due(self.timers.tick_at) {
            self.push(Task::VersionStarted);
            return Effect::StartVersionQuery;
        }
        Effect::Continue
    }

    /// Goes on after a query was or was not started.
    pub(super) fn version_query_started(&mut self, started: bool)
        ensures
            final(self).model() == version_started(old(self).model(), started),
    {
        match self.configured_executable() {
            Some(executable) => {
                let now: u64 = self.timers.tick_at;
                self.version_queries.started(now, executable, started);
            },
            None => {},
        }
    }

    /// Goes on after the waiting query was polled.
    pub(super) fn version_query_polled(
        &mut self,
        now: u64,
        message: WorkerMessage<VersionQueryResult>,
    ) -> (effect: Effect)
        ensures
            (Next { state: final(self).model(), effect }) == version_polled(
                old(self).model(),
                now,
                message,
            ),
    {
        if !self.version_queries.in_flight() {
            return Effect::Continue;
        }
        let executable = self.configured_executable();
        let tick: u64 = self.timers.tick_at;
        let timeout: u64 = self.options.version_query_timeout;
        match self.version_queries.poll_version_query(tick, now, &executable, timeout, message) {
            Some(result) => self.apply_version_result(result),
            None => Effect::Continue,
        }
    }

    fn apply_version_result(&mut self, result: VersionQueryResult) -> (effect: Effect)
        ensures
            (Next { state: final(self).model(), effect }) == version_applied(
                old(self).model(),
                result.deep_view(),
            ),
    {
        match result {
            VersionQueryResult::Unavailable => Effect::Continue,
            VersionQueryResult::Quarantined => {
                self.texts.installed_version = None;
                Effect::Continue
            },
            VersionQueryResult::Available(version) => self.apply_installed_version(version),
        }
    }

    fn apply_installed_version(&mut self, version: String) -> (effect: Effect)
        ensures
            (Next { state: final(self).model(), effect }) == version_applied(
                old(self).model(),
                VersionResultView::Available(version@),
            ),
    {
        self.texts.installed_version = Some(version.clone());
        if self.texts.running_version.is_none() {
            self.texts.running_version = Some(version.clone());
        }
        let unknown = match &self.process {
            Some(process) => process.record().running_version.is_none(),
            None => false,
        };
        if !unknown {
            return Effect::Continue;
        }
        match self.process.take() {
            Some(process) => self.record_running_version(
                process,
                version,
                SaveThen::FailUnlessDurable,
            ),
            None => Effect::Continue,
        }
    }
}

} // verus!
