//! What the supervisor reports, and when it has work to do next.

#[allow(unused_imports)]
use vstd::prelude::*;
use crate::config::ValidatedConfig;
#[allow(unused_imports)]
use crate::config::ValidatedConfigView;
use crate::paths::same_path;
#[allow(unused_imports)]
use crate::paths::components;
use crate::protocol::{
    clone_notification, ActionCapabilities, DesiredState, PasswordState, Response, ServerState,
    Status, PROTOCOL_VERSION,
};
#[allow(unused_imports)]
use crate::protocol::StatusView;
use crate::text::{clone_text, same_text};
#[allow(unused_imports)]
use super::configuration::DEFAULT_ACCOUNT;
use super::credential::CredentialState;
#[allow(unused_imports)]
use super::health::{current_task, health_due};
#[allow(unused_imports)]
use super::installed_version::queried_executable;
#[allow(unused_imports)]
use super::lifecycle::{refusal, restarting, starting};
use super::{
    after, Supervisor, CONFIG_RECHECK_INTERVAL, CREDENTIAL_REFRESH_RECHECK,
    HEALTH_IN_FLIGHT_RECHECK, HEALTH_OVERDUE_RECHECK, SECOND, STABLE_RUN_INTERVAL,
    UNVERIFIED_CHECK_INTERVAL, VERSION_IN_FLIGHT_RECHECK,
};
#[allow(unused_imports)]
use super::{later, SupervisorView};

verus! {

/// A command could make its desired state durable.
pub open spec fn persistence_ready(s: SupervisorView) -> bool {
    &&& s.durable.loaded
    &&& s.durable.reliable
    &&& !s.durable.retry_pending
    &&& s.durable.error is None
    &&& s.runtime.launch_pending is None
    &&& !s.durable.clear_requested
}

/// There is a process that may be signaled.
pub open spec fn signal_target(s: SupervisorView) -> bool {
    s.process is Some && s.process->0.signalable()
}

/// Nothing runs, as far as can be told.
pub open spec fn nothing_runs(s: SupervisorView) -> bool {
    s.process is None && !s.server.unverified_process_record
}

/// The actions that would be accepted at present.
pub open spec fn capabilities(s: SupervisorView) -> ActionCapabilities {
    let readable = !(s.credentials.state is AccessPending);
    ActionCapabilities {
        start: persistence_ready(s) && nothing_runs(s) && readable,
        stop: persistence_ready(s) && (signal_target(s) || (nothing_runs(s)
            && s.runtime.desired_state is Running)),
        restart: persistence_ready(s) && readable && (signal_target(s) || nothing_runs(s)),
        continue_stop: s.server.state is StopTimedOut,
        force_stop: s.server.state is StopTimedOut && signal_target(s),
    }
}

/// The configuration that a status describes: that of the process, or else
/// the latest one.
pub open spec fn shown_config(s: SupervisorView) -> Option<ValidatedConfigView> {
    match s.active_config {
        Some(config) => Some(config),
        None => s.latest_config,
    }
}

/// A restart would change something.
pub open spec fn config_pending(s: SupervisorView) -> bool {
    ||| s.server.stale_config_process && s.process is Some
    ||| s.active_config is Some && s.latest_config is Some && (s.active_config->0.source
        != s.latest_config->0.source || components(s.active_config->0.configured_executable)
        != components(s.latest_config->0.configured_executable))
}

/// What is reported of the stored password.
pub open spec fn password_state_of(state: CredentialState) -> PasswordState {
    match state {
        CredentialState::NotConfigured => PasswordState::NotConfigured,
        CredentialState::AccessPending => PasswordState::AccessPending,
        CredentialState::Available => PasswordState::Configured,
    }
}

/// Whole seconds between two instants.
pub open spec fn seconds_between(from: u64, to: u64) -> u64 {
    if to > from {
        ((to - from) as u64) / SECOND
    } else {
        0
    }
}

/// The difference of two clock readings, at least zero.
pub open spec fn elapsed_seconds(from: u64, to: u64) -> u64 {
    if to > from {
        (to - from) as u64
    } else {
        0
    }
}

/// The status at an instant and a time of day.
pub open spec fn status_of(
    s: SupervisorView,
    now: u64,
    unix_now: u64,
    bundle_version: Seq<char>,
) -> StatusView {
    let config = shown_config(s);
    StatusView {
        protocol_version: PROTOCOL_VERSION,
        agent_version: crate::VERSION@,
        agent_uptime_seconds: seconds_between(s.timers.agent_started, now),
        desired_state: s.runtime.desired_state,
        server_state: s.server.state,
        health: s.server.health,
        fda: s.server.fda,
        uptime_seconds: match s.process {
            Some(process) => Some(
                elapsed_seconds(process.record().started_at_unix_seconds, unix_now),
            ),
            None => None,
        },
        endpoint: match config {
            Some(shown) => shown.endpoint(),
            None => "Unavailable"@,
        },
        username: match config {
            Some(shown) => shown.effective_username,
            None => DEFAULT_ACCOUNT@,
        },
        password_state: password_state_of(s.credentials.state),
        authentication_enabled: config is Some && config->0.source.password.len() > 0,
        action_capabilities: capabilities(s),
        installed_version: s.texts.installed_version,
        running_version: s.texts.running_version,
        version_pending: s.texts.installed_version is Some && s.texts.running_version is Some
            && s.texts.installed_version->0 != s.texts.running_version->0,
        config_pending: config_pending(s),
        config_error: s.texts.config_error,
        last_error: match s.durable.error {
            Some(error) => Some(error),
            None => s.texts.last_error,
        },
        pid: match s.process {
            Some(process) => Some(process.record().pid),
            None => None,
        },
        stop_grace_remaining_seconds: match s.timers.stop_deadline {
            Some(deadline) => Some((seconds_between(now, deadline) + 1) as u64),
            None => None,
        },
        notification: s.runtime.notification,
        process_started_at_unix_seconds: match s.process {
            Some(process) => Some(process.record().started_at_unix_seconds),
            None => None,
        },
        bundle_version,
    }
}

/// An instant as a list of one, or of none.
pub open spec fn listed(instant: Option<u64>) -> Seq<u64> {
    match instant {
        Some(at) => seq![at],
        None => Seq::empty(),
    }
}

/// The instants of the workers that are polled.
pub open spec fn worker_instants(s: SupervisorView, now: u64, identity_holds: bool) -> Seq<u64> {
    let credential = if s.credentials.refresh is Some {
        Some(later(now, CREDENTIAL_REFRESH_RECHECK))
    } else {
        None
    };
    let version = if s.version_queries.query is Some {
        Some(later(now, VERSION_IN_FLIGHT_RECHECK))
    } else if s.version_queries.is_due(
        now,
        queried_executable(s),
        s.texts.installed_version is Some,
    ) {
        Some(now)
    } else {
        None
    };
    let health = if s.health_checks.in_flight is Some {
        Some(
            later(
                now,
                if s.health_checks.overdue_logged {
                    HEALTH_OVERDUE_RECHECK
                } else {
                    HEALTH_IN_FLIGHT_RECHECK
                },
            ),
        )
    } else if current_task(s, identity_holds) is Some && !s.stopping() {
        Some(health_due(s, now))
    } else {
        None
    };
    listed(credential) + listed(version) + listed(health)
}

/// The instants of the lifecycle. They do not depend on the health checks.
pub open spec fn lifecycle_instants(s: SupervisorView, now: u64) -> Seq<u64> {
    let stop = if s.process is Some {
        s.timers.stop_deadline
    } else {
        None
    };
    let stable = if s.process is Some && s.timers.process_started is Some {
        Some(later(s.timers.process_started->0, STABLE_RUN_INTERVAL))
    } else {
        None
    };
    let unverified = if s.server.unverified_process_record && s.process is None {
        Some(
            match s.timers.unverified_check_at {
                Some(at) => at,
                None => later(now, UNVERIFIED_CHECK_INTERVAL),
            },
        )
    } else {
        None
    };
    seq![later(s.timers.last_config_check, CONFIG_RECHECK_INTERVAL)] + listed(stop) + listed(stable)
        + listed(s.timers.next_restart) + listed(s.timers.next_port_retry) + listed(
        s.durable.retry_at,
    ) + listed(unverified)
}

/// All instants at which there may be work.
pub open spec fn instants(s: SupervisorView, now: u64, identity_holds: bool) -> Seq<u64> {
    lifecycle_instants(s, now) + worker_instants(s, now, identity_holds)
}

/// An instant is the earliest of those after another one.
pub open spec fn earliest_after(instants: Seq<u64>, now: u64, deadline: Option<u64>) -> bool {
    match deadline {
        Some(at) => {
            &&& at > now
            &&& instants.contains(at)
            &&& forall|i: int| 0 <= i < instants.len() && instants[i] > now ==> at <= instants[i]
        },
        None => forall|i: int| 0 <= i < instants.len() ==> instants[i] <= now,
    }
}

/// An instant, if it is still to come. One that has passed must not schedule
/// a wait of no length.
pub fn future_deadline(instant: u64, now: u64) -> (deadline: Option<u64>)
    ensures
        deadline == (if instant > now {
            Some(instant)
        } else {
            None
        }),
{
    if instant > now {
        Some(instant)
    } else {
        None
    }
}

fn list(instants: &mut Vec<u64>, instant: Option<u64>)
    ensures
        final(instants)@ == old(instants)@ + listed(instant),
{
    let ghost before = instants@;
    match instant {
        Some(at) => {
            instants.push(at);
            assert(instants@ =~= before + listed(instant));
        },
        None => {
            assert(instants@ =~= before + listed(instant));
        },
    }
}

/// Finds the earliest instant after `now`.
fn earliest(instants: &Vec<u64>, now: u64) -> (deadline: Option<u64>)
    ensures
        earliest_after(instants@, now, deadline),
{
    let mut deadline: Option<u64> = None;
    let mut index: usize = 0;
    proof {
        assert(instants@.take(0) =~= Seq::<u64>::empty());
    }
    while index < instants.len()
        invariant
            index <= instants@.len(),
            earliest_after(instants@.take(index as int), now, deadline),
        decreases instants@.len() - index,
    {
        let ghost seen = instants@.take(index as int);
        let ghost longer = instants@.take(index as int + 1);
        let at: u64 = instants[index];
        proof {
            assert(longer =~= seen.push(at));
            assert(longer[index as int] == at);
            assert forall|x: u64| seen.contains(x) implies longer.contains(x) by {
                let i = choose|i: int| 0 <= i < seen.len() && seen[i] == x;
                assert(longer[i] == x);
            }
        }
        if let Some(next) = future_deadline(at, now) {
            let sooner = match deadline {
                Some(current) => next < current,
                None => true,
            };
            if sooner {
                deadline = Some(next);
            }
        }
        proof {
            assert forall|i: int|
                0 <= i < longer.len() && longer[i] > now implies deadline is Some && deadline->0
                <= longer[i] by {
                if i < index {
                    assert(longer[i] == seen[i]);
                }
            }
        }
        index = index + 1;
    }
    proof {
        assert(instants@.take(index as int) =~= instants@);
    }
    deadline
}

impl Supervisor {
    fn lifecycle_persistence_ready(&self) -> (ready: bool)
        ensures
            ready == persistence_ready(self.model()),
    {
        self.durable.loaded && self.durable.reliable && !self.durable.retry_pending
            && self.durable.error.is_none() && self.runtime.launch_pending.is_none()
            && !self.durable.clear_requested
    }

    /// The actions that would be accepted at present.
    pub fn action_capabilities(&self) -> (actions: ActionCapabilities)
        ensures
            actions == capabilities(self.model()),
    {
        let ready = self.lifecycle_persistence_ready();
        let target = match &self.process {
            Some(process) => process.signal_authorized(),
            None => false,
        };
        let nothing = self.process.is_none() && !self.server.unverified_process_record;
        let readable = self.credentials.state() != CredentialState::AccessPending;
        let timed_out = self.server.state == ServerState::StopTimedOut;
        ActionCapabilities {
            start: ready && nothing && readable,
            stop: ready && (target || (nothing && self.runtime.desired_state
                == DesiredState::Running)),
            restart: ready && readable && (target || nothing),
            continue_stop: timed_out,
            force_stop: timed_out && target,
        }
    }

    fn is_config_pending(&self) -> (pending: bool)
        ensures
            pending == config_pending(self.model()),
    {
        if self.server.stale_config_process && self.process.is_some() {
            return true;
        }
        match (&self.active_config, &self.latest_config) {
            (Some(active), Some(latest)) => !active.source.same_as(&latest.source) || !same_path(
                active.configured_executable.as_str(),
                latest.configured_executable.as_str(),
            ),
            _ => false,
        }
    }

    fn is_version_pending(&self) -> (pending: bool)
        ensures
            pending == (self.model().texts.installed_version is Some
                && self.model().texts.running_version is Some
                && self.model().texts.installed_version->0
                != self.model().texts.running_version->0),
    {
        match (&self.texts.installed_version, &self.texts.running_version) {
            (Some(installed), Some(running)) => !same_text(installed.as_str(), running.as_str()),
            _ => false,
        }
    }

    /// The process identifier of the process under supervision.
    pub fn process_pid(&self) -> (pid: Option<u32>)
        ensures
            pid == (match self.model().process {
                Some(process) => Some(process.record().pid),
                None => None,
            }),
    {
        match &self.process {
            Some(process) => Some(process.record().pid),
            None => None,
        }
    }

    fn process_start(&self) -> (started: Option<u64>)
        ensures
            started == (match self.model().process {
                Some(process) => Some(process.record().started_at_unix_seconds),
                None => None,
            }),
    {
        match &self.process {
            Some(process) => Some(process.record().started_at_unix_seconds),
            None => None,
        }
    }

    fn shown_error(&self) -> (error: Option<String>)
        ensures
            error.deep_view() == (match self.model().durable.error {
                Some(error) => Some(error),
                None => self.model().texts.last_error,
            }),
    {
        match &self.durable.error {
            Some(error) => Some(error.clone()),
            None => clone_text(&self.texts.last_error),
        }
    }

    fn grace_remaining(&self, now: u64) -> (seconds: Option<u64>)
        ensures
            seconds == (match self.model().timers.stop_deadline {
                Some(deadline) => Some((seconds_between(now, deadline) + 1) as u64),
                None => None,
            }),
    {
        match self.timers.stop_deadline {
            Some(deadline) => {
                let left: u64 = if deadline > now {
                    (deadline - now) / SECOND
                } else {
                    0
                };
                Some(left + 1)
            },
            None => None,
        }
    }

    /// The status at an instant and a time of day.
    pub fn status(&self, now: u64, unix_now: u64, bundle_version: &str) -> (status: Status)
        ensures
            status.deep_view() == status_of(self.model(), now, unix_now, bundle_version@),
    {
        let config: Option<&ValidatedConfig> = match &self.active_config {
            Some(config) => Some(config),
            None => match &self.latest_config {
                Some(config) => Some(config),
                None => None,
            },
        };
        let endpoint;
        let username;
        let authentication_enabled;
        match config {
            Some(shown) => {
                endpoint = shown.endpoint();
                username = shown.effective_username.clone();
                authentication_enabled = shown.authentication_enabled();
            },
            None => {
                endpoint = "Unavailable".to_owned();
                username = DEFAULT_ACCOUNT.to_owned();
                authentication_enabled = false;
            },
        }
        let started = self.process_start();
        let uptime_seconds = match started {
            Some(at) => if unix_now > at {
                Some(unix_now - at)
            } else {
                Some(0)
            },
            None => None,
        };
        Status {
            protocol_version: PROTOCOL_VERSION,
            agent_version: crate::VERSION.to_owned(),
            agent_uptime_seconds: if now > self.timers.agent_started {
                (now - self.timers.agent_started) / SECOND
            } else {
                0
            },
            desired_state: self.runtime.desired_state,
            server_state: self.server.state,
            health: self.server.health,
            fda: self.server.fda,
            uptime_seconds,
            endpoint,
            username,
            password_state: match self.credentials.state() {
                CredentialState::NotConfigured => PasswordState::NotConfigured,
                CredentialState::AccessPending => PasswordState::AccessPending,
                CredentialState::Available => PasswordState::Configured,
            },
            authentication_enabled,
            action_capabilities: self.action_capabilities(),
            installed_version: clone_text(&self.texts.installed_version),
            running_version: clone_text(&self.texts.running_version),
            version_pending: self.is_version_pending(),
            config_pending: self.is_config_pending(),
            config_error: clone_text(&self.texts.config_error),
            last_error: self.shown_error(),
            pid: self.process_pid(),
            stop_grace_remaining_seconds: self.grace_remaining(now),
            notification: clone_notification(&self.runtime.notification),
            process_started_at_unix_seconds: started,
            bundle_version: bundle_version.to_owned(),
        }
    }

    /// The answer to the command that was carried out last.
    pub fn response(&self, now: u64, unix_now: u64, bundle_version: &str) -> (response: Response)
        ensures
            response.ok == (self.model().hand.failure is None),
            response.error.deep_view() == (match self.model().hand.failure {
                Some(failure) => Some(failure.message),
                None => None,
            }),
            response.version == PROTOCOL_VERSION,
            response.validation is None,
            response.status matches Some(status) && status.deep_view() == status_of(
                self.model(),
                now,
                unix_now,
                bundle_version@,
            ),
    {
        let status = self.status(now, unix_now, bundle_version);
        match &self.hand.failure {
            Some(failure) => Response::error(failure.message.clone(), Some(status)),
            None => Response::success(status),
        }
    }

    fn list_workers(&self, now: u64, identity_holds: bool, instants: &mut Vec<u64>)
        ensures
            final(instants)@ == old(instants)@ + worker_instants(
                self.model(),
                now,
                identity_holds,
            ),
    {
        let ghost before = instants@;
        let credential = if self.credentials.refresh_in_flight() {
            Some(after(now, CREDENTIAL_REFRESH_RECHECK))
        } else {
            None
        };
        let version = if self.version_queries.in_flight() {
            Some(after(now, VERSION_IN_FLIGHT_RECHECK))
        } else if self.version_query_due(now) {
            Some(now)
        } else {
            None
        };
        let health = if self.health_checks.in_flight() {
            let interval: u64 = if self.health_checks.overdue_logged() {
                HEALTH_OVERDUE_RECHECK
            } else {
                HEALTH_IN_FLIGHT_RECHECK
            };
            Some(after(now, interval))
        } else if self.health_task_is_available(identity_holds) && !self.is_stopping() {
            Some(self.health_due(now))
        } else {
            None
        };
        list(instants, credential);
        list(instants, version);
        list(instants, health);
        proof {
            assert(instants@ =~= before + (listed(credential) + listed(version) + listed(health)));
        }
    }

    fn list_lifecycle(&self, now: u64) -> (instants: Vec<u64>)
        ensures
            instants@ == lifecycle_instants(self.model(), now),
    {
        let mut instants: Vec<u64> = Vec::new();
        instants.push(after(self.timers.last_config_check, CONFIG_RECHECK_INTERVAL));
        let stop = if self.process.is_some() {
            self.timers.stop_deadline
        } else {
            None
        };
        let stable = match self.timers.process_started {
            Some(started) => if self.process.is_some() {
                Some(after(started, STABLE_RUN_INTERVAL))
            } else {
                None
            },
            None => None,
        };
        let unverified = if self.server.unverified_process_record && self.process.is_none() {
            match self.timers.unverified_check_at {
                Some(at) => Some(at),
                None => Some(after(now, UNVERIFIED_CHECK_INTERVAL)),
            }
        } else {
            None
        };
        list(&mut instants, stop);
        list(&mut instants, stable);
        list(&mut instants, self.timers.next_restart);
        list(&mut instants, self.timers.next_port_retry);
        list(&mut instants, self.durable.retry_at);
        list(&mut instants, unverified);
        proof {
            assert(instants@ =~= lifecycle_instants(self.model(), now));
        }
        instants
    }

    /// The next instant, strictly after `now`, at which a tick has work to
    /// do. `identity_holds` matters only where
    /// [`Supervisor::health_needs_identity`] says so.
    pub fn next_deadline(&self, now: u64, identity_holds: bool) -> (deadline: Option<u64>)
        ensures
            earliest_after(instants(self.model(), now, identity_holds), now, deadline),
    {
        let mut instants = self.list_lifecycle(now);
        self.list_workers(now, identity_holds, &mut instants);
        earliest(&instants, now)
    }
}

/// A start that is offered is not refused: it leads to an attempt.
pub proof fn offered_starts_are_accepted(s: SupervisorView)
    requires
        capabilities(s).start,
    ensures
        refusal(s) is None,
        starting(s).hand.failure == s.hand.failure,
        starting(s).tasks.len() > s.tasks.len(),
{
}

/// A restart that is offered is not refused, and a start or restart that is
/// not offered for want of the password is.
pub proof fn offered_restarts_are_accepted(s: SupervisorView)
    ensures
        capabilities(s).restart ==> refusal(s) is None && restarting(s).hand.failure
            == s.hand.failure && restarting(s).tasks.len() > s.tasks.len(),
        s.credentials.state is AccessPending ==> !capabilities(s).start && !capabilities(s).restart
            && refusal(s) is Some,
{
}

/// A status shows the server as it is: what is wanted, its state and health,
/// the versions, the process, its configuration, and the errors, a failure to
/// write coming before any other.
pub proof fn statuses_show_the_server(
    s: SupervisorView,
    now: u64,
    unix_now: u64,
    bundle_version: Seq<char>,
)
    ensures
        ({
            let status = status_of(s, now, unix_now, bundle_version);
            let shown = if s.active_config is Some {
                s.active_config
            } else {
                s.latest_config
            };
            &&& status.desired_state == s.runtime.desired_state
            &&& status.server_state == s.server.state
            &&& status.health == s.server.health
            &&& status.fda == s.server.fda
            &&& status.installed_version == s.texts.installed_version
            &&& status.running_version == s.texts.running_version
            &&& status.config_error == s.texts.config_error
            &&& s.durable.error is Some ==> status.last_error == s.durable.error
            &&& s.durable.error is None ==> status.last_error == s.texts.last_error
            &&& status.notification == s.runtime.notification
            &&& status.bundle_version == bundle_version
            &&& status.protocol_version == 6
            &&& s.process is Some <==> status.pid is Some
            &&& s.process is Some <==> status.uptime_seconds is Some
            &&& s.process matches Some(process) ==> status.pid == Some(process.record().pid)
                && status.process_started_at_unix_seconds == Some(
                process.record().started_at_unix_seconds,
            ) && (process.record().started_at_unix_seconds <= unix_now ==> status.uptime_seconds
                == Some((unix_now - process.record().started_at_unix_seconds) as u64))
            &&& shown matches Some(config) ==> {
                &&& status.username == config.effective_username
                &&& status.endpoint == config.endpoint()
                &&& status.authentication_enabled <==> config.source.password.len() > 0
            }
            &&& shown is None ==> status.username == "opencode"@ && status.endpoint
                == "Unavailable"@ && !status.authentication_enabled
            &&& status.password_state is NotConfigured <==> s.credentials.state is NotConfigured
            &&& status.password_state is AccessPending <==> s.credentials.state is AccessPending
        }),
{
}

/// A version is pending where another one is installed than runs, and a
/// configuration where the process runs under another one than the latest.
pub proof fn pending_changes_are_shown(
    s: SupervisorView,
    now: u64,
    unix_now: u64,
    bundle_version: Seq<char>,
)
    ensures
        ({
            let status = status_of(s, now, unix_now, bundle_version);
            &&& status.version_pending <==> s.texts.installed_version is Some
                && s.texts.running_version is Some && s.texts.installed_version
                != s.texts.running_version
            &&& s.active_config is Some && s.active_config == s.latest_config
                && !s.server.stale_config_process ==> !status.config_pending
            &&& s.server.stale_config_process && s.process is Some ==> status.config_pending
            &&& s.active_config is Some && s.latest_config is Some && s.active_config->0.source
                != s.latest_config->0.source ==> status.config_pending
            &&& s.process is None && s.active_config is None ==> !status.config_pending
        }),
{
}

/// The seconds that a status counts are whole seconds: since the agent started,
/// and until a graceful stop counts as late, rounded up.
pub proof fn statuses_count_seconds(
    s: SupervisorView,
    now: u64,
    unix_now: u64,
    bundle_version: Seq<char>,
)
    requires
        now >= s.timers.agent_started,
    ensures
        ({
            let status = status_of(s, now, unix_now, bundle_version);
            let up = now - s.timers.agent_started;
            &&& status.agent_uptime_seconds * 1_000_000_000 <= up
            &&& up < (status.agent_uptime_seconds + 1) * 1_000_000_000
            &&& s.timers.stop_deadline is Some <==> status.stop_grace_remaining_seconds is Some
            &&& s.timers.stop_deadline matches Some(deadline) ==> (deadline >= now ==> {
                let left = deadline - now;
                let seconds = status.stop_grace_remaining_seconds->0;
                &&& (seconds - 1) * 1_000_000_000 <= left
                &&& left < seconds * 1_000_000_000
            })
        }),
{
}

/// The actions that are offered are those that can be carried out: a start
/// where nothing runs, a stop where something that may be signaled runs or
/// something is meant to, a restart in either case, and the rest only after a
/// graceful stop took too long. None of the first three is offered while the
/// state is not durably known, nor a start or restart while the password is
/// pending.
pub proof fn offered_actions_can_be_carried_out(s: SupervisorView)
    ensures
        ({
            let known = s.durable.loaded && s.durable.reliable && !s.durable.retry_pending
                && s.durable.error is None && s.runtime.launch_pending is None
                && !s.durable.clear_requested;
            let free = s.process is None && !s.server.unverified_process_record;
            let target = s.process is Some && s.process->0.signalable();
            let readable = !(s.credentials.state is AccessPending);
            let offered = capabilities(s);
            &&& offered.start <==> known && free && readable
            &&& offered.stop <==> known && (target || (free && s.runtime.desired_state is Running))
            &&& offered.restart <==> known && readable && (target || free)
            &&& offered.continue_stop <==> s.server.state is StopTimedOut
            &&& offered.force_stop <==> s.server.state is StopTimedOut && target
        }),
{
}

proof fn in_one_of_two(first: Seq<u64>, second: Seq<u64>, at: u64)
    requires
        first.contains(at) || second.contains(at),
    ensures
        (first + second).contains(at),
{
    if first.contains(at) {
        let i = choose|i: int| 0 <= i < first.len() && first[i] == at;
        assert((first + second)[i] == at);
    } else {
        let i = choose|i: int| 0 <= i < second.len() && second[i] == at;
        assert((first + second)[first.len() + i] == at);
    }
}

proof fn lifecycle_instants_count(s: SupervisorView, now: u64, identity_holds: bool, at: u64)
    requires
        lifecycle_instants(s, now).contains(at) || worker_instants(
            s,
            now,
            identity_holds,
        ).contains(at),
    ensures
        instants(s, now, identity_holds).contains(at),
{
    in_one_of_two(lifecycle_instants(s, now), worker_instants(s, now, identity_holds), at);
}

/// No instant of the lifecycle is slept through: where a recovery, another try
/// at an endpoint, a repeated write, the end of a graceful stop, a look at an
/// unverified process or at the configuration lies ahead, the next deadline is
/// no later.
pub proof fn lifecycle_deadlines_come_in_time(
    s: SupervisorView,
    now: u64,
    identity_holds: bool,
    deadline: Option<u64>,
    at: u64,
)
    requires
        earliest_after(instants(s, now, identity_holds), now, deadline),
        at > now,
        s.timers.next_restart == Some(at) || s.timers.next_port_retry == Some(at)
            || s.durable.retry_at == Some(at) || (s.process is Some && s.timers.stop_deadline
            == Some(at)) || (s.server.unverified_process_record && s.process is None
            && s.timers.unverified_check_at == Some(at)) || at == later(
            s.timers.last_config_check,
            60_000_000_000,
        ),
    ensures
        deadline is Some,
        now < deadline->0 <= at,
{
    let stop = if s.process is Some {
        s.timers.stop_deadline
    } else {
        None
    };
    let stable = if s.process is Some && s.timers.process_started is Some {
        Some(later(s.timers.process_started->0, STABLE_RUN_INTERVAL))
    } else {
        None
    };
    let unverified = if s.server.unverified_process_record && s.process is None {
        Some(
            match s.timers.unverified_check_at {
                Some(then) => then,
                None => later(now, UNVERIFIED_CHECK_INTERVAL),
            },
        )
    } else {
        None
    };
    let config = seq![later(s.timers.last_config_check, CONFIG_RECHECK_INTERVAL)];
    let a = config + listed(stop);
    let b = a + listed(stable);
    let c = b + listed(s.timers.next_restart);
    let d = c + listed(s.timers.next_port_retry);
    let e = d + listed(s.durable.retry_at);
    assert(lifecycle_instants(s, now) == e + listed(unverified));
    assert(config[0] == later(s.timers.last_config_check, CONFIG_RECHECK_INTERVAL));
    assert(stop == Some(at) ==> listed(stop)[0] == at);
    assert(s.timers.next_restart == Some(at) ==> listed(s.timers.next_restart)[0] == at);
    assert(s.timers.next_port_retry == Some(at) ==> listed(s.timers.next_port_retry)[0] == at);
    assert(s.durable.retry_at == Some(at) ==> listed(s.durable.retry_at)[0] == at);
    assert(unverified == Some(at) ==> listed(unverified)[0] == at);
    if config.contains(at) || listed(stop).contains(at) {
        in_one_of_two(config, listed(stop), at);
        in_one_of_two(a, listed(stable), at);
    }
    if b.contains(at) || listed(s.timers.next_restart).contains(at) {
        in_one_of_two(b, listed(s.timers.next_restart), at);
    }
    if c.contains(at) || listed(s.timers.next_port_retry).contains(at) {
        in_one_of_two(c, listed(s.timers.next_port_retry), at);
    }
    if d.contains(at) || listed(s.durable.retry_at).contains(at) {
        in_one_of_two(d, listed(s.durable.retry_at), at);
    }
    in_one_of_two(e, listed(unverified), at);
    lifecycle_instants_count(s, now, identity_holds, at);
    let all = instants(s, now, identity_holds);
    let i = choose|i: int| 0 <= i < all.len() && all[i] == at;
    assert(all[i] > now);
}

/// No work in the background is forgotten: a read of the password or a query
/// that waits is looked at within a fifth of a second, and a check of the
/// health within 5 seconds.
pub proof fn waiting_work_is_looked_at_in_time(
    s: SupervisorView,
    now: u64,
    identity_holds: bool,
    deadline: Option<u64>,
)
    requires
        earliest_after(instants(s, now, identity_holds), now, deadline),
        now < u64::MAX,
    ensures
        s.credentials.refresh is Some ==> deadline is Some && deadline->0 <= later(
            now,
            200_000_000,
        ),
        s.version_queries.query is Some ==> deadline is Some && deadline->0 <= later(
            now,
            200_000_000,
        ),
        s.health_checks.in_flight is Some ==> deadline is Some && deadline->0 <= later(
            now,
            5_000_000_000,
        ),
{
    let all = instants(s, now, identity_holds);
    let work = worker_instants(s, now, identity_holds);
    let m0 = lifecycle_instants(s, now).len() as int;
    if s.credentials.refresh is Some {
        assert(work[0] == later(now, CREDENTIAL_REFRESH_RECHECK));
        assert(all[m0] == work[0]);
    }
    let m1: int = if s.credentials.refresh is Some {
        1
    } else {
        0
    };
    if s.version_queries.query is Some {
        assert(work[m1] == later(now, VERSION_IN_FLIGHT_RECHECK));
        assert(all[m0 + m1] == work[m1]);
    }
    if s.health_checks.in_flight is Some {
        assert(work.last() == later(
            now,
            if s.health_checks.overdue_logged {
                HEALTH_OVERDUE_RECHECK
            } else {
                HEALTH_IN_FLIGHT_RECHECK
            },
        ));
        assert(all[m0 + work.len() - 1] == work.last());
    }
}

} // verus!
