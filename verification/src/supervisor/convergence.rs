//! How the supervisor gets from what is wanted to what runs: boots, starts and
//! their failures, writes that have to be repeated, and processes that could
//! not be verified.

#[allow(unused_imports)]
use vstd::prelude::*;
#[allow(unused_imports)]
use crate::config::{ValidatedConfig, ValidatedConfigView};
#[allow(unused_imports)]
use crate::config_fingerprint::fingerprint_under;
#[allow(unused_imports)]
use crate::failure::{Failure, FailureKind, FailureView};
#[allow(unused_imports)]
use crate::process::{ExitReason, ManagedProcess, ManagedProcessView, RecordIdentity, SpawnError};
#[allow(unused_imports)]
use crate::process_cleanup::PendingGroupCleanup;
#[allow(unused_imports)]
use crate::protocol::{DesiredState, FdaState, HealthState, NotificationKind, ServerState};
#[allow(unused_imports)]
use crate::runtime_state::{ProcessRecordView, RuntimeStateView, SaveOutcomeView};
#[allow(unused_imports)]
use super::behavior::{
    a_lifecycle_task_runs, a_tick_runs, a_write_is_told, an_exit_is_told, next, the_top_runs,
    written,
};
#[allow(unused_imports)]
use super::lifecycle::{
    aborted, committed, spawn_view, spawned, start_settled, survivor_committed,
};
#[allow(unused_imports)]
use super::process_exit::{
    exit_followed, exit_polled, group_pending, identity_lost, leader_gone, restart_scheduled,
    unverified,
};
#[allow(unused_imports)]
use super::notification::{notified, notifying};
#[allow(unused_imports)]
use super::reattach::{
    discarded, discarding, unverified_checked, unverified_group, unverified_inspected,
};
#[allow(unused_imports)]
use super::runtime_durability::{
    converging, deferring_convergence, persisting, ready, retry_due, saved,
};
#[allow(unused_imports)]
use super::steps::{
    answered, answered_lifecycle, answered_process, awaits, boot_reattaching, boot_settled,
    booted, performed, performed_boot,
    performed_lifecycle, performed_observation, persisted, resumed, retried, stepped, ticked,
};
#[allow(unused_imports)]
use super::{
    later, DurabilityView, Effect, HandView, HealthThen, LaunchView, Next, Notice,
    PendingDurableConvergence, PendingLifecycleIntent, Reply, RuntimePersistence, SaveThen, Server,
    StartTrigger, Subject, SupervisorOptions, SupervisorView, Task, TickStage, Timers,
};

verus! {

proof fn a_boot_task_runs(s: SupervisorView, task: Task, now: u64)
    requires
        task is BootMerge || task is BootReattach || task is BootSettle,
    ensures
        ({
            let after = stepped(s.with_task(task), now, Reply::Nothing);
            match task {
                Task::BootReattach => after == boot_reattaching(s),
                Task::BootSettle => after == boot_settled(s),
                _ => true,
            }
        }),
{
    the_top_runs(s, task, now, Reply::Nothing);
    reveal(performed);
    reveal(performed_boot);
}

proof fn a_write_ended(
    s: SupervisorView,
    now: u64,
    purpose: SaveThen,
    persistence: RuntimePersistence,
)
    ensures
        stepped(s.with_task(Task::Persisted { purpose, persistence }), now, Reply::Nothing)
            == persisted(s, now, purpose, persistence),
{
    the_top_runs(s, Task::Persisted { purpose, persistence }, now, Reply::Nothing);
    reveal(performed);
}

proof fn a_commit_ended(s: SupervisorView, now: u64, persistence: RuntimePersistence)
    ensures
        next(s.with_task(Task::Persisted { purpose: SaveThen::Committed, persistence }), now)
            == committed(s, now, persistence),
        next(
            s.with_task(Task::Persisted { purpose: SaveThen::SurvivorCommitted, persistence }),
            now,
        ) == survivor_committed(s, now, persistence),
{
    a_write_ended(s, now, SaveThen::Committed, persistence);
    a_write_ended(s, now, SaveThen::SurvivorCommitted, persistence);
    reveal(persisted);
}

proof fn an_abort_ended(
    s: SupervisorView,
    now: u64,
    trigger: StartTrigger,
    persistence: RuntimePersistence,
)
    ensures
        next(
            s.with_task(Task::Persisted { purpose: SaveThen::LaunchAborted(trigger), persistence }),
            now,
        ) == aborted(s, now, trigger, persistence),
{
    a_write_ended(s, now, SaveThen::LaunchAborted(trigger), persistence);
    reveal(persisted);
}

proof fn a_spawn_is_told(
    s: SupervisorView,
    now: u64,
    trigger: StartTrigger,
    outcome: Result<ManagedProcess, SpawnError>,
)
    ensures
        stepped(s.with_task(Task::Spawned(trigger)), now, Reply::Spawned(outcome)) == spawned(
            s,
            trigger,
            spawn_view(outcome),
        ),
{
    the_top_runs(s, Task::Spawned(trigger), now, Reply::Spawned(outcome));
    reveal(answered);
    reveal(answered_lifecycle);
}

/// An agent boots with what was read: the runtime state, the configuration or
/// why there is none, and the probe for access. Nothing runs, nothing is in
/// error, and the first things to do are to look for the password and then for
/// a process that is still there. A state that could not be read is shown, and
/// bars every start.
pub proof fn boots_begin_with_what_was_read(
    key: Seq<u8>,
    options: SupervisorOptions,
    now: u64,
    loaded: Result<RuntimeStateView, Seq<char>>,
    config: Result<ValidatedConfigView, Seq<char>>,
    fda: FdaState,
)
    ensures
        ({
            let s = booted(key, options, now, loaded, config, fda);
            &&& s.key == key
            &&& s.options == options
            &&& s.server.fda == fda
            &&& s.server.state is Stopped
            &&& s.server.health is Unknown
            &&& s.process is None
            &&& s.active_config is None
            &&& s.tasks == seq![Task::BootReattach, Task::BootMerge]
            &&& s.timers.agent_started == now
            &&& s.timers.next_restart is None && s.timers.next_port_retry is None
                && s.timers.stop_deadline is None
            &&& s.server.restart_attempt_index == 0
            &&& !s.server.unverified_process_record
            &&& s.hand.failure is None
            &&& s.credentials.state is NotConfigured
            &&& config matches Ok(read) ==> s.latest_config == Some(read)
                && s.texts.config_error is None
            &&& config matches Err(text) ==> s.latest_config is None && s.texts.config_error
                == Some(text)
            &&& loaded matches Ok(read) ==> s.runtime == read && s.texts.last_error is None
                && s.durable.error is None && s.durable.loaded && s.durable.reliable
            &&& loaded is Err ==> !s.durable.loaded && !ready(s) && s.texts.last_error is Some
                && s.durable.error is Some
        }),
{
}

/// A boot that finds nothing recorded converges to what is wanted: once that
/// nothing runs was written down, OpenCode is started where it is meant to run,
/// and the server counts as stopped where it is not.
pub proof fn boots_start_what_should_run(s: SupervisorView, now: u64)
    requires
        s.durable.loaded,
        s.runtime.launch_pending is None,
        s.runtime.process is None,
        s.process is None,
        !s.server.unverified_process_record,
        s.durable.pending_convergence is None,
    ensures
        ({
            let looked = next(s.with_task(Task::BootReattach), now);
            let settled = stepped(looked, now, Reply::Nothing);
            let converged = next(written(settled.state, now), now);
            &&& settled.effect is SaveRuntime
            &&& settled.state.runtime == s.runtime
            &&& s.runtime.desired_state is Running ==> {
                &&& settled.state.durable.pending_convergence == Some(
                    PendingDurableConvergence::Start(StartTrigger::Cold),
                )
                &&& converged.tasks == s.tasks.push(Task::StartNow(StartTrigger::Cold))
                &&& converged.durable.pending_convergence is None
                &&& ready(converged)
            }
            &&& s.runtime.desired_state is Stopped ==> {
                &&& converged.tasks == s.tasks
                &&& converged.server.state is Stopped
                &&& converged.texts.last_error is None
            }
        }),
{
    a_boot_task_runs(s, Task::BootReattach, now);
    let looked = next(s.with_task(Task::BootReattach), now);
    assert(looked == s.with_task(Task::BootSettle));
    a_boot_task_runs(s, Task::BootSettle, now);
    let settled = next(looked, now);
    let rest = SupervisorView { tasks: s.tasks, ..settled };
    assert(settled == rest.with_task(Task::AwaitSave(SaveThen::BootCleared)));
    assert(rest.runtime == s.runtime);
    a_write_is_told(rest, now, SaveThen::BootCleared);
}

/// A boot that settled with a process under supervision leaves it running where
/// that is wanted, and stops it where it is not. One that ended without a
/// process but with an unfinished wish carries the wish out.
pub proof fn boots_keep_what_should_run(s: SupervisorView, now: u64)
    requires
        s.durable.loaded,
    ensures
        ({
            let settled = stepped(s.with_task(Task::BootSettle), now, Reply::Nothing);
            &&& s.process is Some ==> {
                &&& settled.effect is Continue
                &&& settled.state.process == s.process
                &&& settled.state.runtime == s.runtime
                &&& s.runtime.desired_state is Running ==> settled.state.tasks == s.tasks
                &&& s.runtime.desired_state is Stopped ==> settled.state.tasks == s.tasks.push(
                    Task::BeginStop { restarting: false },
                )
            }
            &&& s.process is None && s.server.unverified_process_record ==> settled.effect
                is Continue && settled.state.tasks == s.tasks && settled.state.runtime == s.runtime
            &&& s.process is None && !s.server.unverified_process_record
                && s.durable.pending_convergence is Some ==> settled.effect is SaveRuntime
                && settled.state.durable.pending_convergence == s.durable.pending_convergence
                && settled.state.runtime.process is None
        }),
{
    a_boot_task_runs(s, Task::BootSettle, now);
}

/// A boot looks at the recorded process before anything else. Where the state
/// could not be read, or an earlier start was not finished, it starts nothing
/// and says so.
pub proof fn boots_look_at_the_record_first(s: SupervisorView, now: u64)
    ensures
        ({
            let looked = stepped(s.with_task(Task::BootReattach), now, Reply::Nothing);
            let barred = !s.durable.loaded || s.runtime.launch_pending is Some;
            &&& barred ==> {
                &&& looked.effect is Continue
                &&& looked.state.tasks == s.tasks
                &&& looked.state.server.state is Failed
                &&& looked.state.runtime == s.runtime
            }
            &&& s.durable.loaded && s.runtime.launch_pending is Some ==> looked.state.durable.error
                is Some && looked.state.texts.last_error is Some
            &&& !barred && s.runtime.process is Some ==> {
                &&& looked.effect == Effect::InspectIdentity(Subject::Recorded)
                &&& looked.state.tasks == s.tasks.push(Task::BootSettle).push(
                    Task::ReattachInspected,
                )
            }
            &&& !barred && s.runtime.process is None ==> {
                &&& looked.effect is Continue
                &&& looked.state.tasks == s.tasks.push(Task::BootSettle)
            }
        }),
{
    a_boot_task_runs(s, Task::BootReattach, now);
}

/// A start reads the configuration again and then launches, provided that the
/// runtime state is durably known. Otherwise nothing is launched, the server
/// failed, and where a write is being repeated the start waits for it.
pub proof fn starts_read_the_configuration_first(
    s: SupervisorView,
    now: u64,
    trigger: StartTrigger,
)
    ensures
        ({
            let after = stepped(s.with_task(Task::StartNow(trigger)), now, Reply::Nothing);
            let known = s.durable.error is None && s.runtime.launch_pending is None
                && !s.durable.clear_requested && s.durable.loaded && s.durable.reliable;
            &&& after.effect is Continue
            &&& after.state.process == s.process
            &&& after.state.runtime == s.runtime
            &&& known ==> after.state.tasks == s.tasks.push(Task::Launch(trigger)).push(
                Task::RefreshConfig,
            ) && after.state.server == s.server
            &&& !known ==> {
                &&& after.state.tasks == s.tasks
                &&& after.state.server.state is Failed
                &&& after.state.server.health is Unknown
                &&& after.state.texts.last_error is Some
                &&& s.durable.clear_requested || (s.durable.retry_pending && s.durable.retry_at
                    is Some) ==> after.state.durable.pending_convergence == Some(
                    PendingDurableConvergence::Start(trigger),
                ) && after.state.durable.retry_at == Some(later(now, 1_000_000_000))
            }
        }),
{
    a_lifecycle_task_runs(s, Task::StartNow(trigger), now);
}

/// Nothing is launched without a configuration, or while the password cannot
/// be read. The server then failed and shows why, and a recovery is tried
/// again later; a password that is being read is waited for.
pub proof fn launches_need_configuration_and_password(
    s: SupervisorView,
    now: u64,
    trigger: StartTrigger,
)
    requires
        s.latest_config is None || s.credentials.state is AccessPending,
    ensures
        ({
            let after = stepped(s.with_task(Task::Launch(trigger)), now, Reply::Nothing);
            let waits = s.latest_config is Some && s.credentials.refresh is Some;
            &&& after.effect is Continue
            &&& after.state.runtime == s.runtime
            &&& after.state.process == s.process
            &&& waits ==> after.state == s
            &&& !waits && !(trigger is Recovery) ==> after.state.tasks == s.tasks
                && after.state.server.state is Failed
            &&& !waits && !(trigger is Recovery) && s.latest_config is None
                ==> after.state.texts.last_error == s.texts.config_error
            &&& !waits && trigger is Recovery && s.server.restart_attempt_index < 5
                ==> after.state.server.state is WaitingToRestart
                && after.state.timers.next_restart is Some
                && after.state.server.restart_attempt_index == s.server.restart_attempt_index + 1
        }),
{
    a_lifecycle_task_runs(s, Task::Launch(trigger), now);
    reveal(restart_scheduled);
}

/// A process that was started is under supervision at once and recorded, with
/// the marker gone.
pub proof fn started_processes_are_recorded(
    s: SupervisorView,
    now: u64,
    trigger: StartTrigger,
    outcome: Result<ManagedProcess, SpawnError>,
)
    requires
        outcome is Ok,
        s.durable.loaded,
        !s.durable.retry_pending,
    ensures
        ({
            let process = outcome->Ok_0.deep_view();
            let after = stepped(s.with_task(Task::Spawned(trigger)), now, Reply::Spawned(outcome));
            &&& after.effect is SaveRuntime
            &&& after.state.process == Some(process)
            &&& after.state.runtime.process == Some(process.record())
            &&& after.state.runtime.launch_pending is None
            &&& after.state.runtime.desired_state == s.runtime.desired_state
            &&& after.state.tasks == s.tasks.push(Task::AwaitSave(SaveThen::Committed))
            &&& after.state.hand.launch == s.hand.launch
        }),
{
    a_spawn_is_told(s, now, trigger, outcome);
}

/// Once the record of a fresh process is durable, the server is starting under
/// the configuration that it was launched with; where it is not, the server
/// failed and the process is kept all the same.
pub proof fn recorded_processes_are_starting(
    s: SupervisorView,
    now: u64,
    persistence: RuntimePersistence,
)
    ensures
        ({
            let purpose = SaveThen::Committed;
            let done = next(s.with_task(Task::Persisted { purpose, persistence }), now);
            &&& done.tasks == s.tasks
            &&& done.process == s.process
            &&& done.runtime == s.runtime
            &&& done.active_config == (if s.hand.launch is Some {
                Some(s.hand.launch->0.config)
            } else {
                None
            })
            &&& done.hand.launch is None
            &&& done.texts.running_version is None
            &&& done.server.health is Unknown
            &&& done.server.health_failures == 0
            &&& !done.server.group_cleanup_recovery
            &&& done.timers.process_started == Some(now)
            &&& done.timers.last_health_check is None
            &&& done.timers.next_port_retry is None
            &&& done.timers.port_release_deadline is None
            &&& done.timers.network_wait_deadline is None
            &&& persistence is Durable ==> done.server.state is Starting && done.texts.last_error
                is None
            &&& !(persistence is Durable) ==> done.server.state is Failed
        }),
{
    a_commit_ended(s, now, persistence);
    reveal(committed);
}

/// A start that failed without leaving a process behind first takes the marker
/// back.
pub proof fn failed_starts_take_the_marker_back(
    s: SupervisorView,
    now: u64,
    trigger: StartTrigger,
    outcome: Result<ManagedProcess, SpawnError>,
)
    requires
        outcome matches Err(error) && error.survivor is None,
        s.durable.loaded,
        !s.durable.retry_pending,
        s.runtime.launch_pending is Some,
    ensures
        ({
            let after = stepped(s.with_task(Task::Spawned(trigger)), now, Reply::Spawned(outcome));
            &&& after.effect is SaveRuntime
            &&& after.state.process == s.process
            &&& after.state.runtime.process == s.runtime.process
            &&& after.state.runtime.launch_pending is None
            &&& after.state.hand.spawn_error == Some(outcome->Err_0.error.deep_view())
            &&& after.state.tasks == s.tasks.push(Task::AwaitSave(SaveThen::LaunchAborted(trigger)))
        }),
{
    a_spawn_is_told(s, now, trigger, outcome);
}

/// What follows a failed start once the marker is durably gone. An endpoint
/// that our own stopped process may still hold is tried again every quarter of
/// a second for 10 seconds, and an address that is not there yet for the time
/// that the options give. Any other failure is shown, and a recovery goes on
/// unless the endpoint belongs to someone else.
pub proof fn failed_starts_are_repeated_or_shown(
    s: SupervisorView,
    now: u64,
    trigger: StartTrigger,
    error: FailureView,
)
    requires
        s.hand.spawn_error == Some(error),
    ensures
        ({
            let purpose = SaveThen::LaunchAborted(trigger);
            let persistence = RuntimePersistence::Durable;
            let after = next(s.with_task(Task::Persisted { purpose, persistence }), now);
            let port_until = if s.timers.port_release_deadline is Some {
                s.timers.port_release_deadline->0
            } else {
                later(now, 10_000_000_000)
            };
            let network_until = if s.timers.network_wait_deadline is Some {
                s.timers.network_wait_deadline->0
            } else {
                later(now, s.options.network_wait_budget)
            };
            let port = error.kind is AddrInUse && trigger is AfterStop && now < port_until;
            let network = error.kind is AddrNotAvailable && now < network_until;
            &&& after.process == s.process
            &&& after.runtime == s.runtime
            &&& after.hand.launch is None
            &&& after.hand.spawn_error is None
            &&& after.server.health is Unknown
            &&& port || network ==> {
                &&& after.tasks == s.tasks
                &&& after.server.state is WaitingToRestart
                &&& after.timers.next_port_retry == Some(later(now, 250_000_000))
                &&& after.texts.last_error is None
            }
            &&& port ==> after.timers.port_release_deadline == Some(port_until)
                && after.server.pending_start_trigger == s.server.pending_start_trigger
            &&& network ==> after.timers.network_wait_deadline == Some(network_until)
                && after.server.pending_start_trigger == Some(trigger)
            &&& !port && !network ==> {
                &&& after.timers.next_port_retry is None
                &&& after.timers.port_release_deadline is None
                &&& after.timers.network_wait_deadline is None
                &&& !(trigger is Recovery) ==> after.tasks == s.tasks && after.server.state
                    is Failed && after.texts.last_error is Some
                &&& trigger is Recovery && error.kind is AddrInUse ==> after.server.state is Failed
                    && after.timers.next_restart is None && !after.server.recovery_incident_active
                &&& trigger is Recovery && !(error.kind is AddrInUse)
                    && s.server.restart_attempt_index < 5 ==> after.server.state
                    is WaitingToRestart && after.timers.next_restart is Some
            }
            &&& !port && !network && !(trigger is Recovery) && !(error.kind is AddrInUse)
                ==> after.texts.last_error == Some(
                "OpenCode could not be started: "@ + error.message,
            )
            &&& !port && !network && !(trigger is Recovery) && error.kind is AddrInUse
                && s.hand.launch is Some ==> after.texts.last_error == Some(
                "Port conflict: endpoint "@ + s.hand.launch->0.config.endpoint()
                    + " is already in use — no process was terminated"@,
            )
        }),
{
    an_abort_ended(s, now, trigger, RuntimePersistence::Durable);
    reveal(start_settled);
    reveal(restart_scheduled);
}

/// A durable write lifts the error of an earlier one and ends the retries. One
/// that failed, or may have, is shown and repeated after a second, and until
/// then the state does not count as known.
pub proof fn writes_are_repeated_until_durable(
    s: SupervisorView,
    now: u64,
    outcome: SaveOutcomeView,
)
    ensures
        ({
            let after = saved(s, now, outcome);
            &&& after.runtime == s.runtime
            &&& after.tasks == s.tasks
            &&& after.process == s.process
            &&& after.server == s.server
            &&& after.durable.loaded == s.durable.loaded
            &&& after.durable.pending_intent == s.durable.pending_intent
            &&& after.durable.pending_exit == s.durable.pending_exit
            &&& after.durable.pending_convergence == s.durable.pending_convergence
            &&& outcome is Durable ==> {
                &&& after.durable.error is None
                &&& after.durable.reliable
                &&& !after.durable.retry_pending
                &&& after.durable.retry_at is None
                &&& s.runtime.launch_pending is None ==> !after.durable.clear_requested
                &&& s.texts.last_error == s.durable.error ==> after.texts.last_error is None
                &&& s.texts.last_error != s.durable.error ==> after.texts.last_error
                    == s.texts.last_error
            }
            &&& !(outcome is Durable) ==> {
                &&& !after.durable.reliable
                &&& after.durable.retry_pending
                &&& after.durable.retry_at == Some(later(now, 1_000_000_000))
                &&& after.durable.error is Some
                &&& after.texts.last_error == after.durable.error
                &&& after.durable.clear_requested == s.durable.clear_requested
            }
            &&& outcome matches SaveOutcomeView::Failed(error) ==> after.durable.error == Some(
                "Runtime state could not be saved: "@ + error.message,
            )
        }),
{
}

/// What is to be written is written, except where the state could not be read,
/// or where an incidental write would overtake one that is being repeated.
pub proof fn writes_are_asked_for(s: SupervisorView, incidental: bool, purpose: SaveThen)
    ensures
        ({
            let asked = persisting(s, incidental, purpose);
            let barred = !s.durable.loaded || (incidental && s.durable.retry_pending);
            &&& !barred ==> asked.effect is SaveRuntime && asked.state == s.with_task(
                Task::AwaitSave(purpose),
            )
            &&& barred ==> asked.effect is Continue && asked.state == s.with_task(
                Task::Persisted { purpose, persistence: RuntimePersistence::Failed },
            )
        }),
{
}

/// A write that failed is repeated at the first tick after its time.
pub proof fn due_writes_are_repeated(s: SupervisorView, now: u64)
    requires
        s.durable.loaded,
    ensures
        ({
            let after = stepped(s.with_task(Task::Tick(TickStage::Retry)), now, Reply::Nothing);
            let due = s.durable.retry_pending && s.durable.retry_at is Some && s.timers.tick_at
                >= s.durable.retry_at->0;
            let on = s.tasks.push(Task::Tick(TickStage::Process));
            &&& due ==> after.effect is SaveRuntime && after.state.tasks == on.push(
                Task::AwaitSave(SaveThen::Retry),
            )
            &&& !due ==> after.effect is Continue && after.state.tasks == on
            &&& after.state.runtime == s.runtime
        }),
{
    a_tick_runs(s, now, TickStage::Retry);
}

/// A put-off start is dropped where OpenCode is no longer meant to run or runs
/// already, and a put-off stop where it is meant to run again.
pub proof fn outdated_work_is_dropped(s: SupervisorView)
    ensures
        ({
            let after = converging(s);
            &&& s.durable.pending_convergence matches Some(
                PendingDurableConvergence::Start(_),
            ) ==> (s.runtime.desired_state is Stopped || s.process is Some
                || s.server.unverified_process_record ==> after.tasks == s.tasks)
            &&& s.durable.pending_convergence == Some(PendingDurableConvergence::Stop)
                && s.runtime.desired_state is Running ==> after.tasks == s.tasks && after.server
                == s.server
            &&& after.process == s.process
            &&& after.runtime == s.runtime
        }),
{
}

/// A poll that finds the process alive, or that fails, changes nothing but what
/// is shown.
pub proof fn live_processes_stay(
    s: SupervisorView,
    now: u64,
    explicit: bool,
    exit: Result<Option<ExitReason>, Failure>,
)
    requires
        exit is Err || exit->Ok_0 is None,
        s.process matches Some(process) && process is Attached,
    ensures
        ({
            let after = stepped(
                s.with_task(Task::ExitPolled { explicit }),
                now,
                Reply::Exit { cleanup: None, exit },
            );
            &&& after.effect is Continue
            &&& after.state.tasks == s.tasks
            &&& after.state.process == s.process
            &&& after.state.runtime == s.runtime
            &&& after.state.server == s.server
            &&& exit is Ok ==> after.state == s
            &&& exit is Err ==> after.state.texts.last_error is Some
        }),
{
    an_exit_is_told(s, now, explicit, None, exit);
}

} // verus!
