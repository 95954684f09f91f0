//! What the supervisor makes of what it is told: of health checks, of the
//! configuration and its password, and of the installed version.

#[allow(unused_imports)]
use vstd::prelude::*;
#[allow(unused_imports)]
use crate::config::{ValidatedConfig, ValidatedConfigView};
#[allow(unused_imports)]
use crate::health::{health_view, HealthError, HealthErrorView, HealthResult, HealthResultView};
#[allow(unused_imports)]
use crate::keychain::{KeychainProbe, KeychainRead, KeychainReadView};
#[allow(unused_imports)]
use crate::paths::components;
#[allow(unused_imports)]
use crate::process::{ManagedProcessView, RecordIdentity};
#[allow(unused_imports)]
use crate::protocol::{Command, DesiredState, HealthState, ServerState};
#[allow(unused_imports)]
use crate::runtime_state::ProcessRecordView;
#[allow(unused_imports)]
use super::behavior::{a_command_runs, a_tick_runs, next, the_top_runs};
#[allow(unused_imports)]
use super::configuration::{
    boot_merged, boot_merging, config_loaded, credential_changed, credential_polled,
    credential_probed, loaded_config,
};
#[allow(unused_imports)]
use super::credential::{
    after_read_started, CredentialActions, CredentialFacts, CredentialState, WorkerMessage,
};
#[allow(unused_imports)]
use super::health::{
    check_due, check_started, completing, current_key, current_task, health_applied, health_polled,
    judged, recovered, stale_upgraded, synced_for, syncing, version_recorded,
};
#[allow(unused_imports)]
use super::installed_version::{version_polled, version_started};
#[allow(unused_imports)]
use super::runtime_durability::ready;
#[allow(unused_imports)]
use super::steps::{
    answered, answered_config, answered_health, performed, performed_boot, performed_observation,
    stepped, ticked,
};
#[allow(unused_imports)]
use super::version::{VersionQueryResult, VersionResultView};
#[allow(unused_imports)]
use super::{
    go_on, later, Effect, HealthThen, Next, Notice, Reply, RuntimePersistence, SaveThen, StartTrigger,
    Subject, SupervisorView, Task, TickStage,
};

verus! {

proof fn health_is_told(s: SupervisorView, task: Task, now: u64, reply: Reply)
    ensures
        ({
            let after = stepped(s.with_task(task), now, reply);
            match (task, reply) {
                (
                    Task::HealthPolled { identity_holds },
                    Reply::HealthMessage(message),
                ) => after == health_polled(s, identity_holds, message),
                (Task::HealthStarted, Reply::Started(started)) => after == go_on(
                    check_started(s, started),
                ),
                (Task::VersionStarted, Reply::Started(started)) => after == go_on(
                    version_started(s, started),
                ),
                (Task::VersionPolled, Reply::VersionMessage(message)) => after == version_polled(
                    s,
                    now,
                    message,
                ),
                _ => true,
            }
        }),
{
    the_top_runs(s, task, now, reply);
    reveal(answered);
    reveal(answered_health);
}

proof fn configuration_is_told(s: SupervisorView, task: Task, now: u64, reply: Reply)
    ensures
        ({
            let after = stepped(s.with_task(task), now, reply);
            match (task, reply) {
                (Task::BootMerged, Reply::Credential(facts)) => after == boot_merged(s, facts),
                (Task::TeamsCompared, Reply::Team(same)) => after == credential_changed(s, same),
                (Task::ConfigLoaded, Reply::Config(loaded)) => after == config_loaded(
                    s,
                    loaded_config(loaded),
                ),
                (Task::CredentialProbed, Reply::Credential(facts)) => after == credential_probed(
                    s,
                    facts,
                ),
                (Task::ReadStarted, Reply::Started(started)) => after == go_on(
                    SupervisorView {
                        credentials: after_read_started(
                            s.credentials,
                            now,
                            s.hand.account,
                            started,
                        ),
                        ..s
                    },
                ),
                (
                    Task::CredentialPolled,
                    Reply::CredentialMessage(message),
                ) => after == credential_polled(s, message),
                _ => true,
            }
        }),
{
    the_top_runs(s, task, now, reply);
    reveal(answered);
    reveal(answered_config);
}

/// The check that is waiting is about the process and configuration at hand.
pub open spec fn awaited(s: SupervisorView) -> bool {
    &&& s.process is Some
    &&& s.active_config is Some
    &&& s.health_checks.in_flight is Some
    &&& current_key(s, false) == Some(s.health_checks.in_flight->0.key)
    &&& ready(s)
    &&& !s.stopping()
}

proof fn a_result_is_applied(
    s: SupervisorView,
    now: u64,
    result: Result<HealthResult, HealthError>,
) -> (held: SupervisorView)
    requires
        awaited(s),
    ensures
        stepped(
            s.with_task(Task::HealthPolled { identity_holds: false }),
            now,
            Reply::HealthMessage(WorkerMessage::Ready(result)),
        ) == health_applied(held, health_view(result)),
        held.server == s.server,
        held.process == s.process,
        held.runtime == s.runtime,
        held.tasks == s.tasks,
        held.texts == s.texts,
        held.durable == s.durable,
        held.credentials == s.credentials,
        held.timers.process_started == s.timers.process_started,
        held.timers.tick_at == s.timers.tick_at,
        held.timers.last_health_check == Some(s.timers.tick_at),
        held.health_checks.in_flight is None,
{
    let task = Task::HealthPolled { identity_holds: false };
    let reply = Reply::HealthMessage(WorkerMessage::Ready(result));
    health_is_told(s, task, now, reply);
    reveal(completing);
    reveal(judged);
    let landed = SupervisorView { health_checks: s.health_checks.landed(), ..s };
    SupervisorView {
        timers: super::Timers { last_health_check: Some(s.timers.tick_at), ..s.timers },
        hand: super::HandView { completion: None, ..s.hand },
        ..landed
    }
}

/// A check that failed, or found the server not healthy, makes its health
/// unhealthy and counts. Once the 15 seconds that a start may take are over, or
/// the server was running before, its state is unhealthy too and says so. The
/// third failure in a row is notified, once. What runs is left alone.
pub proof fn failed_checks_make_the_server_unhealthy(
    s: SupervisorView,
    now: u64,
    result: Result<HealthResult, HealthError>,
)
    requires
        awaited(s),
        !(result is Ok && result->Ok_0.healthy),
    ensures
        ({
            let after = stepped(
                s.with_task(Task::HealthPolled { identity_holds: false }),
                now,
                Reply::HealthMessage(WorkerMessage::Ready(result)),
            );
            let starting = s.server.state is Starting && s.timers.process_started is Some
                && s.timers.tick_at - s.timers.process_started->0 < 15_000_000_000;
            let rejected = result is Err && result->Err_0 is Unauthorized;
            let third = s.server.health_failures >= 2 && !s.server.health_incident_active;
            &&& after.effect is Continue
            &&& after.state.process == s.process
            &&& after.state.runtime == s.runtime
            &&& after.state.server.health is Unhealthy
            &&& s.server.health_failures < u32::MAX ==> after.state.server.health_failures
                == s.server.health_failures + 1
            &&& after.state.health_checks.in_flight is None
            &&& after.state.timers.last_health_check == Some(s.timers.tick_at)
            &&& after.state.texts.running_version == s.texts.running_version
            &&& starting ==> after.state.server.state is Starting && after.state.tasks == s.tasks
                && after.state.texts == s.texts
            &&& !starting ==> {
                &&& after.state.server.state is Unhealthy
                &&& after.state.texts.last_error is Some
                &&& !third ==> after.state.tasks == s.tasks
                &&& third && rejected ==> after.state.tasks == s.tasks.push(
                    Task::Notify(Notice::Unauthorized),
                )
                &&& third && !rejected ==> after.state.tasks == s.tasks.push(
                    Task::Notify(Notice::Unhealthy),
                )
                &&& third ==> after.state.server.health_incident_active
                &&& !rejected ==> after.state.texts.last_error == Some(
                    "OpenCode is running, but /global/health is not healthy"@,
                )
                &&& rejected && s.credentials.state is NotConfigured
                    ==> after.state.texts.last_error == Some(
                    "The saved password was removed from Keychain — re-save it in Settings"@,
                )
                &&& rejected && !(s.credentials.state is NotConfigured)
                    ==> after.state.texts.last_error == Some(
                    "OpenCode rejected the stored password — re-save it in Settings and restart"@,
                )
            }
        }),
{
    let held = a_result_is_applied(s, now, result);
    reveal(health_applied);
}

/// A check that found the server healthy makes it healthy, forgets earlier
/// failures and errors, and shows the version that answered. A version that was
/// not known yet is recorded with the process; otherwise whoever was told of an
/// incident is told that it is over.
pub proof fn passed_checks_make_the_server_healthy(
    s: SupervisorView,
    now: u64,
    result: Result<HealthResult, HealthError>,
)
    requires
        awaited(s),
        result is Ok && result->Ok_0.healthy,
        !s.durable.retry_pending,
    ensures
        ({
            let version = result->Ok_0.version@;
            let after = stepped(
                s.with_task(Task::HealthPolled { identity_holds: false }),
                now,
                Reply::HealthMessage(WorkerMessage::Ready(result)),
            );
            let known = s.texts.running_version == Some(version);
            &&& after.state.server.state is Healthy
            &&& after.state.server.health is Healthy
            &&& after.state.server.health_failures == 0
            &&& after.state.texts.last_error is None
            &&& after.state.texts.running_version == Some(version)
            &&& after.state.process is Some
            &&& after.state.process->0.record().pid == s.process->0.record().pid
            &&& known ==> {
                &&& after.effect is Continue
                &&& after.state.process == s.process
                &&& after.state.runtime == s.runtime
                &&& !after.state.server.recovery_incident_active
                &&& !after.state.server.health_incident_active
                &&& s.server.recovery_incident_active ==> after.state.tasks == s.tasks.push(
                    Task::Notify(Notice::Recovered),
                )
                &&& !s.server.recovery_incident_active && s.server.health_incident_active
                    ==> after.state.tasks == s.tasks.push(Task::Notify(Notice::HealthRecovered))
                &&& !s.server.recovery_incident_active && !s.server.health_incident_active
                    ==> after.state.tasks == s.tasks
            }
            &&& !known ==> {
                &&& after.effect is SaveRuntime
                &&& after.state.runtime.process == Some(after.state.process->0.record())
                &&& after.state.process->0.record().running_version == Some(version)
                &&& after.state.process->0.record().config_fingerprint
                    == s.process->0.record().config_fingerprint
                &&& after.state.tasks == s.tasks.push(Task::AwaitSave(SaveThen::HealthVersion))
            }
        }),
{
    let held = a_result_is_applied(s, now, result);
    reveal(health_applied);
}

/// A version that was durably recorded ends the incident like a known one; one
/// that was not fails the server.
pub proof fn recorded_versions_end_the_incident(s: SupervisorView)
    ensures
        ({
            let after = version_recorded(s, RuntimePersistence::Durable);
            &&& !after.server.recovery_incident_active
            &&& !after.server.health_incident_active
            &&& after.server.state == s.server.state
            &&& s.server.recovery_incident_active ==> after.tasks == s.tasks.push(
                Task::Notify(Notice::Recovered),
            )
            &&& !s.server.recovery_incident_active && s.server.health_incident_active
                ==> after.tasks == s.tasks.push(Task::Notify(Notice::HealthRecovered))
            &&& !s.server.recovery_incident_active && !s.server.health_incident_active
                ==> after.tasks == s.tasks
        }),
        version_recorded(s, RuntimePersistence::Failed).server.state is Failed,
        version_recorded(s, RuntimePersistence::Uncertain).server.state is Failed,
        version_recorded(s, RuntimePersistence::Failed).tasks == s.tasks,
{
}

/// The state after a message of the worker that checks the health.
pub open spec fn next_message(
    s: SupervisorView,
    now: u64,
    message: WorkerMessage<Result<HealthResult, HealthError>>,
) -> SupervisorView {
    stepped(
        s.with_task(Task::HealthPolled { identity_holds: false }),
        now,
        Reply::HealthMessage(message),
    ).state
}

/// The health of a process that is not stopping is checked every 3 seconds, and
/// every second while it starts or is unhealthy; the first check is due at
/// once.
pub proof fn checks_are_made_in_time(s: SupervisorView, now: u64)
    ensures
        ({
            let after = next(s.with_task(Task::Tick(TickStage::HealthDispatch)), now);
            let on = s.tasks.push(Task::Tick(TickStage::Version));
            let interval: u64 = if s.server.state is Starting || s.server.state is Unhealthy {
                1_000_000_000
            } else {
                3_000_000_000
            };
            let stopping = s.server.state is Stopping || s.server.state is StopTimedOut;
            let due = s.process is Some && !stopping && (s.timers.last_health_check is None
                || s.timers.tick_at >= later(s.timers.last_health_check->0, interval));
            &&& due ==> after.tasks == on.push(Task::SyncHealth(HealthThen::Dispatch))
            &&& !due ==> after.tasks == on
        }),
{
    a_tick_runs(s, now, TickStage::HealthDispatch);
    reveal(ticked);
}

/// A loaded configuration becomes the latest one, with the password that is
/// known for its account. Where the keychain holds none, there is none; where
/// it holds one that is not known, the password is read if there is evidence
/// that it may be, and pending otherwise. Where it cannot be looked at, the
/// password is pending.
pub proof fn loaded_configurations_get_their_password(
    s: SupervisorView,
    now: u64,
    facts: CredentialFacts,
)
    requires
        s.hand.draft is Some,
    ensures
        ({
            let draft = s.hand.draft->0;
            let after = stepped(s.with_task(Task::CredentialProbed), now, Reply::Credential(facts));
            let latest = after.state.latest_config->0;
            let known = s.latest_config is Some && s.latest_config->0.effective_username
                == draft.effective_username && s.latest_config->0.source.password.len() > 0;
            let state = after.state.credentials.state;
            let reads = after.effect matches Effect::Credentials(actions) && actions.start_read;
            &&& after.state.latest_config is Some
            &&& after.state.hand.draft is None
            &&& after.state.texts.config_error is None
            &&& after.state.process == s.process
            &&& after.state.runtime == s.runtime
            &&& latest.configured_executable == draft.configured_executable
            &&& latest.canonical_executable == draft.canonical_executable
            &&& latest.effective_username == draft.effective_username
            &&& latest.source.hostname == draft.source.hostname
            &&& latest.source.port == draft.source.port
            &&& latest.source.mdns == draft.source.mdns
            &&& facts.probe is NotConfigured ==> {
                &&& latest.source.password.len() == 0
                &&& state is NotConfigured
                &&& !reads
                &&& after.effect matches Effect::Credentials(actions) && actions.clear_grant
                    && !actions.record_grant
            }
            &&& facts.probe is Failed ==> state is AccessPending && !reads
            &&& !(facts.probe is NotConfigured) && known ==> latest.source.password
                == s.latest_config->0.source.password
            &&& !(facts.probe is NotConfigured) && !known ==> latest.source.password
                == draft.source.password
            &&& facts.probe is Exists && known && !s.credentials.stale ==> state is Available
                && !reads
            &&& facts.probe is Exists && (!known || s.credentials.stale) ==> state is AccessPending
            &&& facts.probe is Exists && !known && !s.credentials.stale && s.credentials.refresh
                is None ==> {
                &&& facts.covered ==> reads
                &&& !facts.covered && facts.team_matches && !s.credentials.attempted.contains(
                    draft.effective_username,
                ) ==> reads
                &&& !facts.covered && !facts.team_matches ==> !reads
            }
            &&& after.state.tasks[s.tasks.len() as int] == Task::RecheckStale
        }),
{
    configuration_is_told(s, Task::CredentialProbed, now, Reply::Credential(facts));
}

/// A password that was read for the account in use is used from then on, and
/// the grant is recorded. Where OpenCode is meant to run and nothing does, it
/// is started with it.
pub proof fn read_passwords_are_used(s: SupervisorView, now: u64, password: String)
    requires
        s.credentials.refresh is Some,
        s.latest_config is Some,
        s.latest_config->0.effective_username == s.credentials.refresh->0.account,
        !s.credentials.explicitly_removed,
    ensures
        ({
            let after = stepped(
                s.with_task(Task::CredentialPolled),
                now,
                Reply::CredentialMessage(WorkerMessage::Ready(KeychainRead::Found(password))),
            );
            let starts = s.process is None && !s.server.unverified_process_record
                && s.runtime.desired_state is Running;
            &&& after.state.latest_config is Some
            &&& after.state.latest_config->0.source.password == password@
            &&& after.state.latest_config->0.source.port == s.latest_config->0.source.port
            &&& after.state.latest_config->0.effective_username
                == s.latest_config->0.effective_username
            &&& after.state.credentials.state is Available
            &&& !after.state.credentials.stale
            &&& after.state.credentials.refresh is None
            &&& after.state.hand.account == s.credentials.refresh->0.account
            &&& after.effect matches Effect::Credentials(actions) && actions.record_grant
                && !actions.clear_grant && !actions.start_read
            &&& after.state.process == s.process
            &&& starts ==> after.state.tasks == s.tasks.push(Task::RecheckStale).push(
                Task::StartNow(StartTrigger::Cold),
            )
            &&& !starts ==> after.state.tasks == s.tasks.push(Task::RecheckStale)
        }),
{
    configuration_is_told(
        s,
        Task::CredentialPolled,
        now,
        Reply::CredentialMessage(WorkerMessage::Ready(KeychainRead::Found(password))),
    );
}

/// A read that found no password for the account in use leaves none; one that
/// was refused or failed leaves the password pending and what is known of it.
/// A read for another account, or after the password was removed, changes
/// nothing.
pub proof fn other_reads_leave_no_password_in_use(s: SupervisorView, now: u64, read: KeychainRead)
    requires
        s.credentials.refresh is Some,
        !(read is Found),
    ensures
        ({
            let after = stepped(
                s.with_task(Task::CredentialPolled),
                now,
                Reply::CredentialMessage(WorkerMessage::Ready(read)),
            );
            let counts = s.latest_config is Some && s.latest_config->0.effective_username
                == s.credentials.refresh->0.account && !s.credentials.explicitly_removed;
            &&& after.state.tasks == s.tasks
            &&& after.state.process == s.process
            &&& after.state.credentials.refresh is None
            &&& counts && read is NotConfigured ==> after.state.credentials.state is NotConfigured
                && after.state.latest_config->0.source.password.len() == 0 && (
            after.effect matches Effect::Credentials(actions) && actions.clear_grant)
            &&& counts && !(read is NotConfigured) ==> after.state.credentials.state
                is AccessPending && after.state.latest_config == s.latest_config
            &&& counts && read is AccessPending ==> (after.effect matches Effect::Credentials(
                actions,
            ) && actions.clear_grant)
            &&& counts && read is Failed ==> after.effect is Continue
            &&& !counts ==> after.effect is Continue && after.state.latest_config
                == s.latest_config && after.state.credentials.state == s.credentials.state
        }),
{
    configuration_is_told(
        s,
        Task::CredentialPolled,
        now,
        Reply::CredentialMessage(WorkerMessage::Ready(read)),
    );
}

/// The version that a query found is shown as installed, and as running where
/// none is known to run; it is recorded with a process that has none. A query
/// that found none keeps what is shown, one that was quarantined shows none and
/// bars the executable, and the answer for another executable is dropped.
pub proof fn found_versions_are_shown(s: SupervisorView, now: u64, result: VersionQueryResult)
    requires
        s.version_queries.query is Some,
        s.latest_config is Some,
        s.durable.loaded,
        !s.durable.retry_pending,
    ensures
        ({
            let after = stepped(
                s.with_task(Task::VersionPolled),
                now,
                Reply::VersionMessage(WorkerMessage::Ready(result)),
            );
            let same = components(s.latest_config->0.configured_executable) == components(
                s.version_queries.query->0.executable,
            );
            &&& after.state.version_queries.query is None
            &&& after.state.server == s.server
            &&& after.state.version_queries.last_attempt is Some
            &&& !same ==> after.effect is Continue && after.state.texts == s.texts
                && after.state.process == s.process && after.state.tasks == s.tasks
            &&& same && result is Unavailable ==> after.state.texts == s.texts
                && after.state.process == s.process && after.state.version_queries.quarantined
                == s.version_queries.quarantined
            &&& same && result is Quarantined ==> after.state.texts.installed_version is None
                && after.state.process == s.process && after.state.version_queries.quarantined
                == Some(s.version_queries.query->0.executable)
            &&& same ==> (result matches VersionQueryResult::Available(version) ==> {
                &&& after.state.texts.installed_version == Some(version@)
                &&& s.texts.running_version is Some ==> after.state.texts.running_version
                    == s.texts.running_version
                &&& s.texts.running_version is None ==> after.state.texts.running_version == Some(
                    version@,
                )
                &&& after.state.texts.last_error == s.texts.last_error
                &&& after.state.version_queries.quarantined is None
                &&& s.process is None ==> after.effect is Continue && after.state.runtime
                    == s.runtime
                &&& s.process matches Some(process) ==> {
                    &&& process.record().running_version is Some ==> after.effect is Continue
                        && after.state.process == s.process
                    &&& process.record().running_version is None ==> after.effect is SaveRuntime
                        && after.state.process is Some
                        && after.state.process->0.record().running_version == Some(version@)
                        && after.state.process->0.record().pid == process.record().pid
                        && after.state.runtime.process == Some(after.state.process->0.record())
                }
            })
        }),
{
    health_is_told(
        s,
        Task::VersionPolled,
        now,
        Reply::VersionMessage(WorkerMessage::Ready(result)),
    );
}

} // verus!
