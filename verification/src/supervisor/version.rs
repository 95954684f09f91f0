//! Asking the configured executable for its version, one query at a time.

#[allow(unused_imports)]
use vstd::prelude::*;
use crate::paths::same_path;
#[allow(unused_imports)]
use crate::paths::components;
use crate::text::{decode_text, has_control, trim_text};
#[allow(unused_imports)]
use crate::text::{any_char, is_control_char, trimmed};
use super::credential::WorkerMessage;

verus! {

/// How often a known version is refreshed, in nanoseconds.
pub const VERSION_INTERVAL: u64 = 60_000_000_000;

/// How soon an unknown version is asked for again.
pub const VERSION_RETRY_INTERVAL: u64 = 5_000_000_000;

/// What a query, or the worker that ran it, found.
#[derive(Debug, PartialEq, Eq)]
pub enum VersionQueryResult {
    Available(String),
    Unavailable,
    /// The queried process lost its identity: the executable is not queried
    /// again.
    Quarantined,
}

/// The mathematical content of a [`VersionQueryResult`].
pub enum VersionResultView {
    Available(Seq<char>),
    Unavailable,
    Quarantined,
}

impl DeepView for VersionQueryResult {
    type V = VersionResultView;

    open spec fn deep_view(&self) -> VersionResultView {
        match self {
            VersionQueryResult::Available(version) => VersionResultView::Available(version@),
            VersionQueryResult::Unavailable => VersionResultView::Unavailable,
            VersionQueryResult::Quarantined => VersionResultView::Quarantined,
        }
    }
}

/// The longest answer to a query, in bytes.
pub const MAX_VERSION_BYTES: usize = 4096;

/// What a query found that ran to its end: one line of text is a version.
pub open spec fn version_found(output: Seq<u8>) -> VersionResultView {
    let version = trimmed(vstd::utf8::decode_utf8(output));
    if output.len() <= MAX_VERSION_BYTES && vstd::utf8::valid_utf8(output) && version.len() > 0
        && !any_char(version, |c: char| is_control_char(c)) {
        VersionResultView::Available(version)
    } else {
        VersionResultView::Unavailable
    }
}

impl VersionQueryResult {
    /// Reads the output of a query that ran to its end.
    pub fn from_output(output: Vec<u8>) -> (result: VersionQueryResult)
        ensures
            result.deep_view() == version_found(output@),
    {
        if output.len() > MAX_VERSION_BYTES {
            return VersionQueryResult::Unavailable;
        }
        match decode_text(output) {
            Some(text) => {
                let version = trim_text(text.as_str());
                if version.as_str().is_empty() || has_control(version.as_str()) {
                    VersionQueryResult::Unavailable
                } else {
                    VersionQueryResult::Available(version)
                }
            },
            None => VersionQueryResult::Unavailable,
        }
    }
}

/// A query that is waiting for its answer.
#[derive(Debug, PartialEq, Eq)]
pub struct VersionQueryInFlight {
    pub dispatched: u64,
    pub executable: String,
}

/// The mathematical content of a [`VersionQueryInFlight`].
pub struct VersionFlightView {
    pub dispatched: u64,
    pub executable: Seq<char>,
}

impl DeepView for VersionQueryInFlight {
    type V = VersionFlightView;

    open spec fn deep_view(&self) -> VersionFlightView {
        VersionFlightView { dispatched: self.dispatched, executable: self.executable@ }
    }
}

/// The state of the queries.
#[derive(Debug, PartialEq, Eq)]
pub struct VersionQueryCoordinator {
    pub version_query: Option<VersionQueryInFlight>,
    pub version_query_overdue_logged: bool,
    pub last_version_attempt: Option<u64>,
    /// Not queried again until another executable is configured.
    pub version_query_quarantined_executable: Option<String>,
}

/// The mathematical content of a [`VersionQueryCoordinator`].
pub struct VersionView {
    pub query: Option<VersionFlightView>,
    pub overdue_logged: bool,
    pub last_attempt: Option<u64>,
    pub quarantined: Option<Seq<char>>,
}

impl DeepView for VersionQueryCoordinator {
    type V = VersionView;

    open spec fn deep_view(&self) -> VersionView {
        VersionView {
            query: self.version_query.deep_view(),
            overdue_logged: self.version_query_overdue_logged,
            last_attempt: self.last_version_attempt,
            quarantined: self.version_query_quarantined_executable.deep_view(),
        }
    }
}

impl VersionView {
    /// A new query is due: there is something to query, it is not
    /// quarantined, and the last attempt is long enough ago.
    pub open spec fn is_due(self, now: u64, executable: Option<Seq<char>>, has_version: bool) -> bool {
        &&& executable is Some
        &&& self.quarantined matches Some(barred) ==> components(barred) != components(
            executable->0,
        )
        &&& self.last_attempt matches Some(last) ==> now - last >= (if has_version {
            VERSION_INTERVAL
        } else {
            VERSION_RETRY_INTERVAL
        })
    }

    /// The state after a query was or was not started.
    pub open spec fn after_start(self, now: u64, executable: Seq<char>, started: bool) -> VersionView {
        if started {
            VersionView {
                query: Some(VersionFlightView { dispatched: now, executable }),
                ..self
            }
        } else {
            VersionView { last_attempt: Some(now), ..self }
        }
    }

    /// The result of the waiting query counts: the same executable is still
    /// configured.
    pub open spec fn still_current(self, executable: Option<Seq<char>>) -> bool {
        self.query is Some && executable is Some && components(executable->0) == components(
            self.query->0.executable,
        )
    }

    /// The state after the waiting query ended with a result.
    pub open spec fn after_result(
        self,
        now: u64,
        later: u64,
        executable: Option<Seq<char>>,
        result: VersionResultView,
    ) -> VersionView {
        let ended = VersionView { query: None, overdue_logged: false, ..self };
        if !self.still_current(executable) {
            VersionView { last_attempt: Some(now), ..ended }
        } else {
            match result {
                VersionResultView::Available(_) => VersionView {
                    last_attempt: Some(later),
                    quarantined: None,
                    ..ended
                },
                VersionResultView::Unavailable => VersionView {
                    last_attempt: Some(later),
                    ..ended
                },
                VersionResultView::Quarantined => VersionView {
                    last_attempt: Some(now),
                    quarantined: Some(self.query->0.executable),
                    ..ended
                },
            }
        }
    }

    /// The waiting query took more than twice its bound.
    pub open spec fn is_overdue(self, now: u64, timeout: u64) -> bool {
        self.query matches Some(query) && now - query.dispatched > 2 * timeout
    }
}

/// Whether a path, if there is one, has the components of another.
fn names(path: &Option<String>, executable: &str) -> (same: bool)
    ensures
        same == (path is Some && components(path->0@) == components(executable@)),
{
    match path {
        Some(path) => same_path(path.as_str(), executable),
        None => false,
    }
}

impl VersionQueryCoordinator {
    pub fn new() -> (queries: VersionQueryCoordinator)
        ensures
            queries.deep_view() == (VersionView {
                query: None,
                overdue_logged: false,
                last_attempt: None,
                quarantined: None,
            }),
    {
        VersionQueryCoordinator {
            version_query: None,
            version_query_overdue_logged: false,
            last_version_attempt: None,
            version_query_quarantined_executable: None,
        }
    }

    /// Whether a query is waiting for its answer.
    pub fn in_flight(&self) -> (waiting: bool)
        ensures
            waiting == (self.deep_view().query is Some),
    {
        self.version_query.is_some()
    }

    /// Whether a new query is due.
    pub fn due(&self, now: u64, executable: &Option<String>, has_version: bool) -> (due: bool)
        ensures
            due == self.deep_view().is_due(now, executable.deep_view(), has_version),
    {
        match executable {
            None => false,
            Some(path) => {
                if names(&self.version_query_quarantined_executable, path.as_str()) {
                    return false;
                }
                let interval: u64 = if has_version {
                    VERSION_INTERVAL
                } else {
                    VERSION_RETRY_INTERVAL
                };
                match self.last_version_attempt {
                    Some(last) => now >= last && now - last >= interval,
                    None => true,
                }
            },
        }
    }

    /// Notes whether a query could be started.
    pub fn started(&mut self, now: u64, executable: String, started: bool)
        ensures
            final(self).deep_view() == old(self).deep_view().after_start(
                now,
                executable@,
                started,
            ),
    {
        if started {
            self.version_query = Some(VersionQueryInFlight { dispatched: now, executable });
        } else {
            self.last_version_attempt = Some(now);
        }
    }

    /// Takes in what the waiting query has to say, if one is waiting. A result
    /// for another executable than the configured one is dropped. `later` is the time at
    /// which the result is applied.
    pub fn poll_version_query(
        &mut self,
        now: u64,
        later: u64,
        executable: &Option<String>,
        timeout: u64,
        message: WorkerMessage<VersionQueryResult>,
    ) -> (outcome: Option<VersionQueryResult>)
        ensures
            old(self).deep_view().query is None ==> *final(self) == *old(self) && outcome is None,
            old(self).deep_view().query is Some ==> ({
                let before = old(self).deep_view();
                let current = executable.deep_view();
                match message {
                    WorkerMessage::Ready(result) => {
                        &&& final(self).deep_view() == before.after_result(
                            now,
                            later,
                            current,
                            result.deep_view(),
                        )
                        &&& outcome.deep_view() == (if before.still_current(current) {
                            Some(result.deep_view())
                        } else {
                            None
                        })
                    },
                    WorkerMessage::Disconnected => {
                        &&& final(self).deep_view() == (VersionView {
                            query: None,
                            overdue_logged: false,
                            last_attempt: Some(now),
                            ..before
                        })
                        &&& outcome is None
                    },
                    WorkerMessage::Empty => {
                        &&& final(self).deep_view() == (VersionView {
                            overdue_logged: before.overdue_logged || before.is_overdue(
                                now,
                                timeout,
                            ),
                            ..before
                        })
                        &&& outcome is None
                    },
                }
            }),
    {
        if self.version_query.is_none() {
            return None;
        }
        match message {
            WorkerMessage::Ready(result) => {
                let waiting = self.version_query.take();
                self.version_query_overdue_logged = false;
                let queried = match waiting {
                    Some(query) => query.executable,
                    None => String::new(),
                };
                if !names(executable, queried.as_str()) {
                    self.last_version_attempt = Some(now);
                    return None;
                }
                match &result {
                    VersionQueryResult::Available(_) => {
                        self.version_query_quarantined_executable = None;
                        self.last_version_attempt = Some(later);
                    },
                    VersionQueryResult::Unavailable => {
                        self.last_version_attempt = Some(later);
                    },
                    VersionQueryResult::Quarantined => {
                        self.last_version_attempt = Some(now);
                        self.version_query_quarantined_executable = Some(queried);
                    },
                }
                Some(result)
            },
            WorkerMessage::Disconnected => {
                self.version_query = None;
                self.last_version_attempt = Some(now);
                self.version_query_overdue_logged = false;
                None
            },
            WorkerMessage::Empty => {
                let overdue = match &self.version_query {
                    Some(query) => now > query.dispatched && (now - query.dispatched) as u128 > 2
                        * (timeout as u128),
                    None => false,
                };
                if overdue {
                    self.version_query_overdue_logged = true;
                }
                None
            },
        }
    }
}

/// An executable that was quarantined is not queried again, however long ago
/// the last attempt was, until another one is configured.
pub proof fn quarantine_stops_queries(
    queries: VersionView,
    now: u64,
    later: u64,
    then: u64,
    executable: Seq<char>,
    configured: Seq<char>,
    has_version: bool,
)
    requires
        queries.still_current(Some(executable)),
        components(configured) == components(executable),
    ensures
        !queries.after_result(
            now,
            later,
            Some(executable),
            VersionResultView::Quarantined,
        ).is_due(then, Some(configured), has_version),
{
}

/// The output of a query is a version exactly where it is text of at most 4096
/// bytes with something other than white space in it and, inside that, no
/// control character; the version is the output without the white space around
/// it.
pub proof fn outputs_name_versions(output: Seq<u8>)
    ensures
        ({
            let version = trimmed(vstd::utf8::decode_utf8(output));
            let clean = forall|i: int|
                0 <= i < version.len() ==> !is_control_char(#[trigger] version[i]);
            let good = output.len() <= 4096 && vstd::utf8::valid_utf8(output) && version.len() > 0
                && clean;
            &&& good ==> version_found(output) == VersionResultView::Available(version)
            &&& !good ==> version_found(output) is Unavailable
        }),
{
    let version = trimmed(vstd::utf8::decode_utf8(output));
    let control = |c: char| is_control_char(c);
    let clean = forall|i: int| 0 <= i < version.len() ==> !is_control_char(#[trigger] version[i]);
    if clean {
        assert(!any_char(version, control));
    } else {
        let i = choose|i: int| 0 <= i < version.len() && is_control_char(#[trigger] version[i]);
        assert(control(version[i]));
        assert(any_char(version, control));
    }
}

} // verus!
