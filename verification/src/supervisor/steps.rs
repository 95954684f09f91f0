//! Taking the steps: which task answers which reply, and what a command, a
//! tick and a boot consist of.

#[allow(unused_imports)]
use vstd::prelude::*;
use crate::config::ValidatedConfig;
#[allow(unused_imports)]
use crate::config::ValidatedConfigView;
use crate::config_fingerprint::ConfigFingerprintKey;
use crate::failure::{Failure, FailureKind};
#[allow(unused_imports)]
use crate::failure::{failure, FailureView};
#[allow(unused_imports)]
use crate::process::ManagedProcessView;
use crate::protocol::{Command, DesiredState, FdaState, HealthState, ServerState};
use crate::runtime_state::RuntimeState;
#[allow(unused_imports)]
use crate::runtime_state::{first_run, RuntimeStateView};
use crate::text::join;
#[allow(unused_imports)]
use super::configuration::{
    boot_merged, boot_merging, config_loaded, credential_changed, credential_changing,
    credential_polled, credential_polling, credential_probed, credential_removed,
    credential_requested, loaded_config,
};
use super::credential::CredentialController;
#[allow(unused_imports)]
use super::credential::{after_read_started, CredentialState, CredentialView};
#[allow(unused_imports)]
use super::health::{
    check_due, check_started, health_polled, judged, synced_for, syncing, version_recorded,
};
use super::health_worker::HealthCheckCoordinator;
#[allow(unused_imports)]
use super::health_worker::HealthChecksView;
#[allow(unused_imports)]
use super::installed_version::{version_polled, version_polling, version_started};
#[allow(unused_imports)]
use super::launch_transaction::marked;
#[allow(unused_imports)]
use super::lifecycle::{
    aborted, applying, committed, forcing, killed, launching, signal_view, spawn_view, spawned,
    start_applied, start_attempted, stop_applied, stop_begun, survivor_committed, terminated,
    waiting_on,
};
#[allow(unused_imports)]
use super::notification::{notified, notifying};
#[allow(unused_imports)]
use super::process_exit::{
    exit_asked, exit_followed, exit_polled, exit_view, identity_seen, identity_upgraded,
    leader_gone, polling, record_cleared, restart_scheduled,
};
#[allow(unused_imports)]
use super::reattach::{
    discarded, holds, reattach_answered, reattach_group, reattach_inspected, reattach_rechecked,
    reattaching, rechecking_stale, stale_confirmed, stale_inspected, unverified_checked,
    unverified_group, unverified_inspected,
};
#[allow(unused_imports)]
use super::runtime_durability::{
    converging, desired, desiring, persistence_of, persisting, retrying, saved,
};
use super::version::VersionQueryCoordinator;
#[allow(unused_imports)]
use super::version::VersionView;
use super::{
    Durability, Effect, Hand, HealthThen, PendingDurableConvergence, PendingLifecycleIntent,
    Reply, RuntimePersistence, SaveThen, Server, StartTrigger, Supervisor, SupervisorOptions,
    Task, Texts, TickStage, Timers, CONFIG_RECHECK_INTERVAL, HEALTH_OBSERVATION_BOUND,
    STABLE_RUN_INTERVAL,
};
#[allow(unused_imports)]
use super::{go_on, DurabilityView, HandView, Next, SupervisorView, TextsView};

verus! {

/// What a command consists of.
#[verifier::opaque]
pub open spec fn commanded(s: SupervisorView, now: u64, command: Command) -> Next {
    match command {
        Command::Status => go_on(s),
        Command::ValidateConfig => go_on(s),
        Command::Start => desiring(s, DesiredState::Running, PendingLifecycleIntent::Start),
        Command::Stop => desiring(s, DesiredState::Stopped, PendingLifecycleIntent::Stop),
        Command::Restart => desiring(s, DesiredState::Running, PendingLifecycleIntent::Restart),
        Command::ContinueStop => go_on(waiting_on(s, now)),
        Command::ForceStop => forcing(s),
        Command::RefreshFda => Next {
            state: s.with_task(Task::FdaProbed),
            effect: Effect::ProbeFda,
        },
        Command::RefreshCredentials => credential_requested(s),
        Command::CredentialChanged => credential_changing(s),
        Command::CredentialRemoved => credential_removed(s),
        Command::Subscribe => go_on(
            s.refusing(
                failure(
                    FailureKind::InvalidInput,
                    "subscriptions are managed by the IPC layer, not by commands"@,
                ),
            ),
        ),
    }
}

/// What follows a write.
#[verifier::opaque]
pub open spec fn persisted(
    s: SupervisorView,
    now: u64,
    purpose: SaveThen,
    persistence: RuntimePersistence,
) -> Next {
    match purpose {
        SaveThen::DesiredState { intent, previous } => go_on(
            desired(s, intent, previous, persistence),
        ),
        SaveThen::LaunchMarker(trigger) => marked(s, trigger, persistence),
        SaveThen::Committed => go_on(committed(s, now, persistence)),
        SaveThen::SurvivorCommitted => go_on(survivor_committed(s, now, persistence)),
        SaveThen::LaunchAborted(trigger) => go_on(aborted(s, now, trigger, persistence)),
        SaveThen::IdentityUpgraded => go_on(identity_upgraded(s, persistence)),
        SaveThen::RecordCleared { explicit, exit } => go_on(
            record_cleared(s, now, explicit, exit, persistence),
        ),
        SaveThen::RecordDiscarded { converge } => go_on(discarded(s, now, converge, persistence)),
        SaveThen::HealthVersion => go_on(version_recorded(s, persistence)),
        SaveThen::Retry => retried(s, now, persistence),
        SaveThen::RetryUnwound => go_on(
            if persistence is Durable {
                resumed(s, now)
            } else {
                s
            },
        ),
        SaveThen::BootCleared => go_on(
            if persistence is Durable {
                converging(s)
            } else {
                s.failing()
            },
        ),
        SaveThen::FailUnlessDurable => go_on(
            if persistence is Durable {
                s
            } else {
                s.failing()
            },
        ),
        SaveThen::Nothing => go_on(s),
    }
}

/// What follows a retried write. A marker whose own write was uncertain never
/// led to a start, so it is unwound first.
pub open spec fn retried(s: SupervisorView, now: u64, persistence: RuntimePersistence) -> Next {
    if !(persistence is Durable) {
        go_on(s)
    } else if s.durable.clear_requested && s.runtime.launch_pending is Some {
        persisting(
            SupervisorView {
                runtime: RuntimeStateView { launch_pending: None, ..s.runtime },
                ..s
            },
            false,
            SaveThen::RetryUnwound,
        )
    } else {
        go_on(resumed(s, now))
    }
}

/// What waited for a durable write, a command first, then an exit, then a
/// convergence.
pub open spec fn resumed(s: SupervisorView, now: u64) -> SupervisorView {
    match (s.durable.pending_intent, s.durable.pending_exit) {
        (Some(intent), _) => SupervisorView {
            durable: DurabilityView { pending_intent: None, pending_exit: None, ..s.durable },
            ..s
        }.with_task(Task::Apply(intent)),
        (None, Some((explicit, exit))) => exit_followed(
            SupervisorView { durable: DurabilityView { pending_exit: None, ..s.durable }, ..s },
            explicit,
            exit,
            now,
        ),
        (None, None) => converging(s),
    }
}

/// A graceful stop that took too long is reported. Nothing is killed for it.
pub open spec fn stop_timed_out(s: SupervisorView) -> SupervisorView {
    let due = s.timers.stop_deadline matches Some(deadline) && s.timers.tick_at >= deadline;
    if s.server.state is Stopping && due {
        SupervisorView {
            server: Server { state: ServerState::StopTimedOut, ..s.server },
            timers: Timers { stop_deadline: None, ..s.timers },
            ..s
        }.saying("Graceful stop timed out — continue waiting or use “Force Stop…”"@)
    } else {
        s
    }
}

/// A recovery attempt that is due.
pub open spec fn recovery_due(s: SupervisorView) -> SupervisorView {
    let due = s.timers.next_restart matches Some(at) && s.timers.tick_at >= at;
    if due && s.process is None {
        SupervisorView {
            timers: Timers { next_restart: None, ..s.timers },
            ..s
        }.with_task(Task::StartNow(StartTrigger::Recovery))
    } else {
        s
    }
}

/// A retried start that is due.
pub open spec fn port_retry_due(s: SupervisorView) -> SupervisorView {
    let due = s.timers.next_port_retry matches Some(at) && s.timers.tick_at >= at;
    if due && s.process is None {
        SupervisorView {
            timers: Timers { next_port_retry: None, ..s.timers },
            server: Server { pending_start_trigger: None, ..s.server },
            ..s
        }.with_task(
            Task::StartNow(
                match s.server.pending_start_trigger {
                    Some(trigger) => trigger,
                    None => StartTrigger::AfterStop,
                },
            ),
        )
    } else {
        s
    }
}

/// A check of the configuration that is due.
pub open spec fn config_due(s: SupervisorView) -> SupervisorView {
    if s.timers.tick_at - s.timers.last_config_check >= CONFIG_RECHECK_INTERVAL {
        SupervisorView {
            timers: Timers { last_config_check: s.timers.tick_at, ..s.timers },
            ..s
        }.with_task(Task::RefreshConfig)
    } else {
        s
    }
}

/// A run that was stable for long enough earns a full set of recovery
/// attempts.
pub open spec fn stable_run(s: SupervisorView) -> SupervisorView {
    let stable = s.timers.process_started matches Some(started) && s.timers.tick_at - started
        >= STABLE_RUN_INTERVAL;
    if s.process is Some && stable {
        SupervisorView { server: Server { restart_attempt_index: 0, ..s.server }, ..s }
    } else {
        s
    }
}

/// What a part of a tick consists of.
#[verifier::opaque]
pub open spec fn ticked(s: SupervisorView, stage: TickStage) -> Next {
    match stage {
        TickStage::Retry => retrying(
            s.with_task(Task::Tick(TickStage::Process)),
            s.timers.tick_at,
        ),
        TickStage::Process => go_on(
            s.with_task(Task::Tick(TickStage::Unverified)).with_task(Task::PollProcess),
        ),
        TickStage::Unverified => unverified_checked(
            s.with_task(Task::Tick(TickStage::StopTimeout)),
            s.timers.tick_at,
        ),
        TickStage::StopTimeout => go_on(
            stop_timed_out(s).with_task(Task::Tick(TickStage::Recovery)),
        ),
        TickStage::Recovery => go_on(
            recovery_due(s.with_task(Task::Tick(TickStage::PortRetry))),
        ),
        TickStage::PortRetry => go_on(port_retry_due(s.with_task(Task::Tick(TickStage::Config)))),
        TickStage::Config => go_on(config_due(s.with_task(Task::Tick(TickStage::HealthPoll)))),
        TickStage::HealthPoll => go_on(
            s.with_task(Task::Tick(TickStage::HealthDispatch)).with_task(
                Task::SyncHealth(HealthThen::Poll),
            ),
        ),
        TickStage::HealthDispatch => {
            let next = s.with_task(Task::Tick(TickStage::Version));
            go_on(
                if check_due(next) {
                    next.with_task(Task::SyncHealth(HealthThen::Dispatch))
                } else {
                    next
                },
            )
        },
        TickStage::Version => version_polling(s.with_task(Task::Tick(TickStage::Credential))),
        TickStage::Credential => credential_polling(s.with_task(Task::Tick(TickStage::Stable))),
        TickStage::Stable => go_on(stable_run(s)),
    }
}

/// What the agent does with the state that it boots with. An unreadable state
/// and an unfinished launch start nothing.
pub open spec fn boot_reattaching(s: SupervisorView) -> Next {
    if !s.durable.loaded {
        go_on(SupervisorView { server: Server { state: ServerState::Failed, ..s.server }, ..s })
    } else if s.runtime.launch_pending is Some {
        let message =
            "A previous OpenCode launch was not durably finalized; OpenCodeServerAgent will not start another OpenCode"@;
        go_on(
            SupervisorView {
                durable: DurabilityView { error: Some(message), ..s.durable },
                ..s
            }.failing().saying(message),
        )
    } else {
        reattaching(s.with_task(Task::BootSettle))
    }
}

/// What the agent is meant to do once it has booted without a process.
pub open spec fn boot_convergence(s: SupervisorView) -> PendingDurableConvergence {
    match s.durable.pending_convergence {
        Some(convergence) => convergence,
        None => if s.runtime.desired_state is Running {
            PendingDurableConvergence::Start(StartTrigger::Cold)
        } else {
            PendingDurableConvergence::Stop
        },
    }
}

/// Concludes the boot.
pub open spec fn boot_settled(s: SupervisorView) -> Next {
    if s.process is None && !s.server.unverified_process_record {
        persisting(
            SupervisorView {
                durable: DurabilityView {
                    pending_convergence: Some(boot_convergence(s)),
                    ..s.durable
                },
                ..s
            }.recording(None),
            false,
            SaveThen::BootCleared,
        )
    } else if s.process is Some && s.runtime.desired_state is Stopped {
        go_on(s.with_task(Task::BeginStop { restarting: false }))
    } else {
        go_on(s)
    }
}

/// What a start gave is a child of this agent.
pub open spec fn gives_children(
    outcome: Result<ManagedProcessView, (FailureView, Option<ManagedProcessView>)>,
) -> bool {
    match outcome {
        Ok(process) => process.owned(),
        Err((_, Some(survivor))) => survivor.owned(),
        Err((_, None)) => true,
    }
}

/// The reply answers the task.
pub open spec fn answers(task: Task, reply: Reply) -> bool {
    match task {
        Task::BootMerged => reply is Credential,
        Task::ReattachInspected => reply is Identity,
        Task::ReattachGroup => reply is Group,
        Task::ReattachHealth => reply is Health,
        Task::ReattachRechecked => reply is Identity,
        Task::Terminated { .. } => reply is Signaled,
        Task::Killed => reply is Signaled,
        Task::FdaProbed => reply is Fda,
        Task::TeamsCompared => reply is Team,
        Task::Spawned(_) => reply is Spawned && gives_children(spawn_view(reply->Spawned_0)),
        Task::ConfigLoaded => reply is Config,
        Task::CredentialProbed => reply is Credential,
        Task::ReadStarted => reply is Started,
        Task::StaleInspected => reply is Identity,
        Task::StaleConfirmed => reply is Identity,
        Task::AwaitSave(_) => reply is Saved,
        Task::NoticeIdentified(_) => reply is EventId,
        Task::IdentitySeen => reply is Snapshot,
        Task::ExitPolled { .. } => reply is Exit,
        Task::LeaderGone { .. } => reply is Group,
        Task::UnverifiedInspected => reply is Identity,
        Task::UnverifiedGroup => reply is Group,
        Task::HealthSynced(_) => reply is Identity,
        Task::HealthPolled { .. } => reply is HealthMessage,
        Task::HealthJudged => reply is Identity,
        Task::HealthStarted => reply is Started,
        Task::VersionStarted => reply is Started,
        Task::VersionPolled => reply is VersionMessage,
        Task::CredentialPolled => reply is CredentialMessage,
        _ => true,
    }
}

/// The reply answers what was asked last.
pub open spec fn accepted(s: SupervisorView, reply: Reply) -> bool {
    s.tasks.len() > 0 ==> answers(s.tasks.last(), reply)
}

/// Runs a task of the boot.
#[verifier::opaque]
pub open spec fn performed_boot(s: SupervisorView, task: Task) -> Next {
    match task {
        Task::BootMerge => boot_merging(s),
        Task::BootReattach => boot_reattaching(s),
        Task::BootSettle => boot_settled(s),
        _ => go_on(s),
    }
}

/// Runs a task of starting and stopping.
#[verifier::opaque]
pub open spec fn performed_lifecycle(s: SupervisorView, task: Task, now: u64) -> Next {
    match task {
        Task::Apply(intent) => go_on(applying(s, intent)),
        Task::StartApplied => go_on(start_applied(s)),
        Task::StopApplied => go_on(stop_applied(s)),
        Task::BeginStop { restarting } => stop_begun(s, now, restarting),
        Task::StartNow(trigger) => go_on(start_attempted(s, now, trigger)),
        Task::Launch(trigger) => launching(s, now, trigger),
        Task::ScheduleRestart => go_on(restart_scheduled(s, now)),
        Task::Notify(notice) => notifying(s, notice),
        _ => go_on(s),
    }
}

/// Runs a task of routine observation.
#[verifier::opaque]
pub open spec fn performed_observation(s: SupervisorView, task: Task, now: u64) -> Next {
    match task {
        Task::RefreshConfig => Next {
            state: s.with_task(Task::ConfigLoaded),
            effect: Effect::LoadConfig,
        },
        Task::RecheckStale => rechecking_stale(s),
        Task::ConfigChecked => go_on(
            SupervisorView { timers: Timers { last_config_check: now, ..s.timers }, ..s },
        ),
        Task::PollProcess => polling(s),
        Task::PollExit => exit_asked(s),
        Task::SyncHealth(purpose) => syncing(s, purpose),
        Task::PollVersion => version_polling(s),
        _ => go_on(s),
    }
}

/// Runs a task that needs no reply.
#[verifier::opaque]
pub open spec fn performed(s: SupervisorView, task: Task, now: u64) -> Next {
    match task {
        Task::BootMerge | Task::BootReattach | Task::BootSettle => performed_boot(s, task),
        Task::Command(command) => commanded(s, now, command),
        Task::Persisted { purpose, persistence } => persisted(s, now, purpose, persistence),
        Task::Tick(stage) => ticked(s, stage),
        Task::RefreshConfig
        | Task::RecheckStale
        | Task::ConfigChecked
        | Task::PollProcess
        | Task::PollExit
        | Task::SyncHealth(_)
        | Task::PollVersion => performed_observation(s, task, now),
        _ => performed_lifecycle(s, task, now),
    }
}

/// Runs a task of taking a process over.
#[verifier::opaque]
pub open spec fn answered_reattach(s: SupervisorView, task: Task, now: u64, reply: Reply) -> Next {
    match (task, reply) {
        (Task::ReattachInspected, Reply::Identity(identity)) => reattach_inspected(
            s,
            now,
            identity,
        ),
        (Task::ReattachGroup, Reply::Group(members)) => reattach_group(s, now, members),
        (Task::ReattachHealth, Reply::Health(answer)) => reattach_answered(s, answer.deep_view()),
        (Task::ReattachRechecked, Reply::Identity(identity)) => reattach_rechecked(
            s,
            now,
            identity,
        ),
        _ => go_on(s),
    }
}

/// Runs a task of starting and stopping.
#[verifier::opaque]
pub open spec fn answered_lifecycle(s: SupervisorView, task: Task, now: u64, reply: Reply) -> Next {
    match (task, reply) {
        (Task::Terminated { restarting }, Reply::Signaled(sent)) => go_on(
            terminated(s, now, restarting, signal_view(sent)),
        ),
        (Task::Killed, Reply::Signaled(sent)) => go_on(killed(s, signal_view(sent))),
        (Task::FdaProbed, Reply::Fda(fda)) => go_on(
            SupervisorView { server: Server { fda, ..s.server }, ..s },
        ),
        (Task::Spawned(trigger), Reply::Spawned(outcome)) => spawned(
            s,
            trigger,
            spawn_view(outcome),
        ),
        (Task::AwaitSave(purpose), Reply::Saved(outcome)) => go_on(
            saved(s, now, outcome.deep_view()).with_task(
                Task::Persisted { purpose, persistence: persistence_of(outcome.deep_view()) },
            ),
        ),
        (Task::NoticeIdentified(notice), Reply::EventId(id)) => notified(s, notice, id.deep_view()),
        _ => go_on(s),
    }
}

/// Runs a task about the configuration and its password.
#[verifier::opaque]
pub open spec fn answered_config(s: SupervisorView, task: Task, now: u64, reply: Reply) -> Next {
    match (task, reply) {
        (Task::BootMerged, Reply::Credential(facts)) => boot_merged(s, facts),
        (Task::TeamsCompared, Reply::Team(matches)) => credential_changed(s, matches),
        (Task::ConfigLoaded, Reply::Config(loaded)) => config_loaded(s, loaded_config(loaded)),
        (Task::CredentialProbed, Reply::Credential(facts)) => credential_probed(s, facts),
        (Task::ReadStarted, Reply::Started(started)) => go_on(
            SupervisorView {
                credentials: after_read_started(s.credentials, now, s.hand.account, started),
                ..s
            },
        ),
        (Task::CredentialPolled, Reply::CredentialMessage(message)) => credential_polled(
            s,
            message,
        ),
        _ => go_on(s),
    }
}

/// Runs a task about the process.
#[verifier::opaque]
pub open spec fn answered_process(s: SupervisorView, task: Task, now: u64, reply: Reply) -> Next {
    match (task, reply) {
        (Task::StaleInspected, Reply::Identity(identity)) => stale_inspected(s, identity),
        (Task::StaleConfirmed, Reply::Identity(identity)) => go_on(stale_confirmed(s, identity)),
        (Task::IdentitySeen, Reply::Snapshot { snapshot, same_executable }) => identity_seen(
            s,
            snapshot,
            same_executable,
        ),
        (Task::ExitPolled { explicit }, Reply::Exit { cleanup, exit }) => exit_polled(
            s,
            now,
            explicit,
            cleanup,
            exit_view(exit),
        ),
        (Task::LeaderGone { explicit }, Reply::Group(members)) => leader_gone(
            s,
            now,
            explicit,
            members,
        ),
        (Task::UnverifiedInspected, Reply::Identity(identity)) => unverified_inspected(s, identity),
        (Task::UnverifiedGroup, Reply::Group(members)) => unverified_group(s, members),
        _ => go_on(s),
    }
}

/// Runs a task about health and version.
#[verifier::opaque]
pub open spec fn answered_health(s: SupervisorView, task: Task, now: u64, reply: Reply) -> Next {
    match (task, reply) {
        (Task::HealthSynced(purpose), Reply::Identity(identity)) => synced_for(
            s,
            purpose,
            holds(identity),
        ),
        (Task::HealthPolled { identity_holds }, Reply::HealthMessage(message)) => health_polled(
            s,
            identity_holds,
            message,
        ),
        (Task::HealthJudged, Reply::Identity(identity)) => judged(s, holds(identity)),
        (Task::HealthStarted, Reply::Started(started)) => go_on(check_started(s, started)),
        (Task::VersionStarted, Reply::Started(started)) => go_on(version_started(s, started)),
        (Task::VersionPolled, Reply::VersionMessage(message)) => version_polled(s, now, message),
        _ => go_on(s),
    }
}

/// Runs a task with the reply that answers it.
#[verifier::opaque]
pub open spec fn answered(s: SupervisorView, task: Task, now: u64, reply: Reply) -> Next {
    match task {
        Task::ReattachInspected
        | Task::ReattachGroup
        | Task::ReattachHealth
        | Task::ReattachRechecked => answered_reattach(s, task, now, reply),
        Task::BootMerged
        | Task::TeamsCompared
        | Task::ConfigLoaded
        | Task::CredentialProbed
        | Task::ReadStarted
        | Task::CredentialPolled => answered_config(s, task, now, reply),
        Task::StaleInspected
        | Task::StaleConfirmed
        | Task::IdentitySeen
        | Task::ExitPolled { .. }
        | Task::LeaderGone { .. }
        | Task::UnverifiedInspected
        | Task::UnverifiedGroup => answered_process(s, task, now, reply),
        Task::HealthSynced(_)
        | Task::HealthPolled { .. }
        | Task::HealthJudged
        | Task::HealthStarted
        | Task::VersionStarted
        | Task::VersionPolled => answered_health(s, task, now, reply),
        _ => answered_lifecycle(s, task, now, reply),
    }
}

/// The task takes a reply.
pub open spec fn awaits(task: Task) -> bool {
    match task {
        Task::BootMerged
        | Task::ReattachInspected
        | Task::ReattachGroup
        | Task::ReattachHealth
        | Task::ReattachRechecked
        | Task::Terminated { .. }
        | Task::Killed
        | Task::FdaProbed
        | Task::TeamsCompared
        | Task::Spawned(_)
        | Task::ConfigLoaded
        | Task::CredentialProbed
        | Task::ReadStarted
        | Task::StaleInspected
        | Task::StaleConfirmed
        | Task::AwaitSave(_)
        | Task::NoticeIdentified(_)
        | Task::IdentitySeen
        | Task::ExitPolled { .. }
        | Task::LeaderGone { .. }
        | Task::UnverifiedInspected
        | Task::UnverifiedGroup
        | Task::HealthSynced(_)
        | Task::HealthPolled { .. }
        | Task::HealthJudged
        | Task::HealthStarted
        | Task::VersionStarted
        | Task::VersionPolled
        | Task::CredentialPolled => true,
        _ => false,
    }
}

/// One step: the topmost task is taken off and run.
pub open spec fn stepped(s: SupervisorView, now: u64, reply: Reply) -> Next {
    if s.tasks.len() == 0 {
        Next { state: s, effect: Effect::Idle }
    } else {
        let task = s.tasks.last();
        let rest = SupervisorView { tasks: s.tasks.drop_last(), ..s };
        if awaits(task) {
            answered(rest, task, now, reply)
        } else {
            performed(rest, task, now)
        }
    }
}

/// The state of an agent that boots.
pub open spec fn booted(
    key: Seq<u8>,
    options: SupervisorOptions,
    now: u64,
    loaded: Result<RuntimeStateView, Seq<char>>,
    config: Result<ValidatedConfigView, Seq<char>>,
    fda: FdaState,
) -> SupervisorView {
    let error = match loaded {
        Ok(_) => None,
        Err(text) => Some("Runtime state could not be loaded: "@ + text),
    };
    SupervisorView {
        key,
        options,
        durable: DurabilityView {
            loaded: loaded is Ok,
            reliable: loaded is Ok,
            retry_pending: false,
            retry_at: None,
            error,
            clear_requested: false,
            pending_exit: None,
            pending_intent: None,
            pending_convergence: None,
        },
        timers: Timers {
            agent_started: now,
            last_config_check: now,
            tick_at: now,
            last_health_check: None,
            process_started: None,
            stop_deadline: None,
            next_restart: None,
            next_port_retry: None,
            port_release_deadline: None,
            network_wait_deadline: None,
            unverified_check_at: None,
        },
        server: Server {
            state: ServerState::Stopped,
            health: HealthState::Unknown,
            fda,
            restart_after_stop: false,
            group_cleanup_recovery: false,
            pending_start_trigger: None,
            restart_attempt_index: 0,
            recovery_incident_active: false,
            health_incident_active: false,
            health_failures: 0,
            health_generation: 0,
            unverified_process_record: false,
            stale_config_process: false,
        },
        texts: TextsView {
            installed_version: None,
            running_version: None,
            config_error: match config {
                Ok(_) => None,
                Err(text) => Some(text),
            },
            last_error: error,
        },
        hand: HandView {
            account: Seq::empty(),
            draft: None,
            launch: None,
            spawn_error: None,
            evidence: None,
            answer: None,
            completion: None,
            health_task: None,
            failure: None,
        },
        runtime: match loaded {
            Ok(runtime) => runtime,
            Err(_) => first_run(),
        },
        process: None,
        latest_config: match config {
            Ok(loaded_config) => Some(loaded_config),
            Err(_) => None,
        },
        active_config: None,
        credentials: CredentialView {
            state: CredentialState::NotConfigured,
            refresh: None,
            overdue_logged: false,
            stale: false,
            explicitly_removed: false,
            attempted: Set::empty(),
        },
        version_queries: VersionView {
            query: None,
            overdue_logged: false,
            last_attempt: None,
            quarantined: None,
        },
        health_checks: HealthChecksView {
            in_flight: None,
            overdue_logged: false,
            observation_bound: HEALTH_OBSERVATION_BOUND,
        },
        health_generation_basis: None,
        tasks: seq![Task::BootReattach, Task::BootMerge],
    }
}

/// The content of a loaded state.
pub open spec fn loaded_runtime(loaded: Result<RuntimeState, Failure>) -> Result<
    RuntimeStateView,
    Seq<char>,
> {
    match loaded {
        Ok(runtime) => Ok(runtime.deep_view()),
        Err(error) => Err(error.message@),
    }
}

impl Supervisor {
    /// Boots with the usual time budgets.
    pub fn new(
        config_fingerprint_key: ConfigFingerprintKey,
        now: u64,
        loaded: Result<RuntimeState, Failure>,
        config: Result<ValidatedConfig, String>,
        fda: FdaState,
    ) -> (supervisor: Supervisor)
        ensures
            supervisor.model() == booted(
                config_fingerprint_key.secret(),
                SupervisorOptions {
                    network_wait_budget: super::DEFAULT_NETWORK_WAIT_BUDGET,
                    version_query_timeout: super::DEFAULT_VERSION_QUERY_TIMEOUT,
                },
                now,
                loaded_runtime(loaded),
                loaded_config(config),
                fda,
            ),
    {
        let options: SupervisorOptions = Default::default();
        Self::with_options(config_fingerprint_key, options, now, loaded, config, fda)
    }

    /// Boots: from the loaded runtime state, the loaded configuration, and
    /// what is known of Full Disk Access. The first steps complete the boot.
    pub fn with_options(
        config_fingerprint_key: ConfigFingerprintKey,
        options: SupervisorOptions,
        now: u64,
        loaded: Result<RuntimeState, Failure>,
        config: Result<ValidatedConfig, String>,
        fda: FdaState,
    ) -> (supervisor: Supervisor)
        ensures
            supervisor.model() == booted(
                config_fingerprint_key.secret(),
                options,
                now,
                loaded_runtime(loaded),
                loaded_config(config),
                fda,
            ),
    {
        let is_loaded = loaded.is_ok();
        let error;
        let shown;
        let runtime;
        match loaded {
            Ok(state) => {
                runtime = state;
                error = None;
                shown = None;
            },
            Err(fault) => {
                let state: RuntimeState = Default::default();
                runtime = state;
                let text = join("Runtime state could not be loaded: ", fault.message.as_str());
                error = Some(text.clone());
                shown = Some(text);
            },
        }
        let latest_config;
        let config_error;
        match config {
            Ok(loaded_config) => {
                latest_config = Some(loaded_config);
                config_error = None;
            },
            Err(text) => {
                latest_config = None;
                config_error = Some(text);
            },
        }
        let mut tasks: Vec<Task> = Vec::new();
        tasks.push(Task::BootReattach);
        tasks.push(Task::BootMerge);
        let account = String::new();
        proof {
            assert(account@ =~= Seq::<char>::empty());
            assert(tasks@ =~= seq![Task::BootReattach, Task::BootMerge]);
        }
        Supervisor {
            config_fingerprint_key,
            options,
            durable: Durability {
                loaded: is_loaded,
                reliable: is_loaded,
                retry_pending: false,
                retry_at: None,
                error,
                clear_requested: false,
                pending_exit: None,
                pending_intent: None,
                pending_convergence: None,
            },
            timers: Timers {
                agent_started: now,
                last_config_check: now,
                tick_at: now,
                last_health_check: None,
                process_started: None,
                stop_deadline: None,
                next_restart: None,
                next_port_retry: None,
                port_release_deadline: None,
                network_wait_deadline: None,
                unverified_check_at: None,
            },
            server: Server {
                state: ServerState::Stopped,
                health: HealthState::Unknown,
                fda,
                restart_after_stop: false,
                group_cleanup_recovery: false,
                pending_start_trigger: None,
                restart_attempt_index: 0,
                recovery_incident_active: false,
                health_incident_active: false,
                health_failures: 0,
                health_generation: 0,
                unverified_process_record: false,
                stale_config_process: false,
            },
            texts: Texts {
                installed_version: None,
                running_version: None,
                config_error,
                last_error: shown,
            },
            hand: Hand {
                account,
                draft: None,
                launch: None,
                spawn_error: None,
                evidence: None,
                answer: None,
                completion: None,
                health_task: None,
                failure: None,
            },
            runtime,
            process: None,
            latest_config,
            active_config: None,
            credentials: CredentialController::new(),
            version_queries: VersionQueryCoordinator::new(),
            health_checks: HealthCheckCoordinator::new(HEALTH_OBSERVATION_BOUND),
            health_generation_basis: None,
            tasks,
        }
    }

    /// Nothing is left to do.
    pub fn is_idle(&self) -> (idle: bool)
        ensures
            idle == (self.model().tasks.len() == 0),
    {
        self.tasks.len() == 0
    }

    /// Begins a command. Its failure, if any, is known once the supervisor
    /// is idle again.
    pub fn handle(&mut self, command: Command)
        ensures
            final(self).model() == (SupervisorView {
                hand: HandView { failure: None, ..old(self).model().hand },
                ..old(self).model()
            }).with_task(Task::Command(command)),
    {
        self.hand.failure = None;
        self.push(Task::Command(command));
    }

    /// Begins a restart, as a command does.
    pub fn request_restart_for_test(&mut self)
        ensures
            final(self).model() == (SupervisorView {
                hand: HandView { failure: None, ..old(self).model().hand },
                ..old(self).model()
            }).with_task(Task::Command(Command::Restart)),
    {
        self.handle(Command::Restart);
    }

    /// Begins a tick.
    pub fn tick(&mut self, now: u64)
        ensures
            final(self).model() == (SupervisorView {
                timers: Timers { tick_at: now, ..old(self).model().timers },
                ..old(self).model()
            }).with_task(Task::Tick(TickStage::Retry)),
    {
        self.timers.tick_at = now;
        self.push(Task::Tick(TickStage::Retry));
    }

    /// Begins to look for the exit of the process.
    pub fn poll_process_now(&mut self)
        ensures
            final(self).model() == old(self).model().with_task(Task::PollProcess),
    {
        self.push(Task::PollProcess);
    }

    /// Begins to read the configuration again, and puts off the routine check
    /// of it.
    pub fn refresh_config_now(&mut self)
        ensures
            final(self).model() == old(self).model().with_task(Task::ConfigChecked).with_task(
                Task::RefreshConfig,
            ),
    {
        self.push(Task::ConfigChecked);
        self.push(Task::RefreshConfig);
    }

    /// Polls the waiting version query before the agent exits. Returns
    /// whether one is waiting; it is polled until none is.
    pub fn finish_version_query_for_shutdown(&mut self, now: u64) -> (waiting: bool)
        ensures
            waiting == (old(self).model().version_queries.query is Some),
            final(self).model() == (if waiting {
                (SupervisorView {
                    timers: Timers { tick_at: now, ..old(self).model().timers },
                    ..old(self).model()
                }).with_task(Task::PollVersion)
            } else {
                old(self).model()
            }),
    {
        if !self.version_queries.in_flight() {
            return false;
        }
        self.timers.tick_at = now;
        self.push(Task::PollVersion);
        true
    }

    fn run_command(&mut self, now: u64, command: Command) -> (effect: Effect)
        ensures
            (Next { state: final(self).model(), effect }) == commanded(
                old(self).model(),
                now,
                command,
            ),
    {
        proof {
            reveal(commanded);
        }
        match command {
            Command::Status | Command::ValidateConfig => Effect::Continue,
            Command::Start => self.persist_desired_state(
                DesiredState::Running,
                PendingLifecycleIntent::Start,
            ),
            Command::Stop => self.persist_desired_state(
                DesiredState::Stopped,
                PendingLifecycleIntent::Stop,
            ),
            Command::Restart => self.persist_desired_state(
                DesiredState::Running,
                PendingLifecycleIntent::Restart,
            ),
            Command::ContinueStop => {
                self.continue_stop(now);
                Effect::Continue
            },
            Command::ForceStop => self.force_stop(),
            Command::RefreshFda => {
                self.push(Task::FdaProbed);
                Effect::ProbeFda
            },
            Command::RefreshCredentials => self.request_credential_refresh(),
            Command::CredentialChanged => self.mark_credential_changed(),
            Command::CredentialRemoved => self.mark_credential_removed(),
            Command::Subscribe => {
                self.hand.failure = Some(
                    Failure::new(
                        FailureKind::InvalidInput,
                        "subscriptions are managed by the IPC layer, not by commands",
                    ),
                );
                Effect::Continue
            },
        }
    }

    fn resume_waiting(&mut self, now: u64)
        ensures
            final(self).model() == resumed(old(self).model(), now),
    {
        match self.durable.pending_intent {
            Some(intent) => {
                self.durable.pending_intent = None;
                self.durable.pending_exit = None;
                self.push(Task::Apply(intent));
            },
            None => match self.durable.pending_exit {
                Some((explicit, exit)) => {
                    self.durable.pending_exit = None;
                    self.resume_after_process_exit(now, explicit, exit);
                },
                None => self.resume_pending_durable_convergence(),
            },
        }
    }

    fn write_retried(&mut self, now: u64, persistence: RuntimePersistence) -> (effect: Effect)
        ensures
            (Next { state: final(self).model(), effect }) == retried(
                old(self).model(),
                now,
                persistence,
            ),
    {
        if persistence != RuntimePersistence::Durable {
            return Effect::Continue;
        }
        if self.durable.clear_requested && self.runtime.launch_pending.is_some() {
            self.runtime.launch_pending = None;
            return self.persist_runtime(false, SaveThen::RetryUnwound);
        }
        self.resume_waiting(now);
        Effect::Continue
    }

    fn fail_unless_durable(&mut self, persistence: RuntimePersistence)
        ensures
            final(self).model() == (if persistence is Durable {
                old(self).model()
            } else {
                old(self).model().failing()
            }),
    {
        if persistence != RuntimePersistence::Durable {
            self.fail();
        }
    }

    fn run_persisted(&mut self, now: u64, purpose: SaveThen, persistence: RuntimePersistence) -> (
        effect: Effect)
        ensures
            (Next { state: final(self).model(), effect }) == persisted(
                old(self).model(),
                now,
                purpose,
                persistence,
            ),
    {
        proof {
            reveal(persisted);
        }
        match purpose {
            SaveThen::DesiredState { intent, previous } => {
                self.desired_state_persisted(intent, previous, persistence);
            },
            SaveThen::LaunchMarker(trigger) => {
                return self.launch_marked(trigger, persistence);
            },
            SaveThen::Committed => self.process_committed(now, persistence),
            SaveThen::SurvivorCommitted => self.survivor_recorded(now, persistence),
            SaveThen::LaunchAborted(trigger) => self.launch_aborted(now, trigger, persistence),
            SaveThen::IdentityUpgraded => self.identity_recorded(persistence),
            SaveThen::RecordCleared { explicit, exit } => {
                self.clear_process_record_durably(now, explicit, exit, persistence);
            },
            SaveThen::RecordDiscarded { converge } => {
                self.stale_record_discarded(now, converge, persistence);
            },
            SaveThen::HealthVersion => self.health_version_recorded(persistence),
            SaveThen::Retry => {
                return self.write_retried(now, persistence);
            },
            SaveThen::RetryUnwound => {
                if persistence == RuntimePersistence::Durable {
                    self.resume_waiting(now);
                }
            },
            SaveThen::BootCleared => {
                if persistence == RuntimePersistence::Durable {
                    self.resume_pending_durable_convergence();
                } else {
                    self.fail();
                }
            },
            SaveThen::FailUnlessDurable => self.fail_unless_durable(persistence),
            SaveThen::Nothing => {},
        }
        Effect::Continue
    }

    fn note_stop_timeout(&mut self)
        ensures
            final(self).model() == stop_timed_out(old(self).model()),
    {
        let due = match self.timers.stop_deadline {
            Some(deadline) => self.timers.tick_at >= deadline,
            None => false,
        };
        if self.server.state == ServerState::Stopping && due {
            self.server.state = ServerState::StopTimedOut;
            self.timers.stop_deadline = None;
            self.say("Graceful stop timed out — continue waiting or use “Force Stop…”");
        }
    }

    fn recover_if_due(&mut self)
        ensures
            final(self).model() == recovery_due(old(self).model()),
    {
        let due = match self.timers.next_restart {
            Some(at) => self.timers.tick_at >= at,
            None => false,
        };
        if due && self.process.is_none() {
            self.timers.next_restart = None;
            self.push(Task::StartNow(StartTrigger::Recovery));
        }
    }

    fn retry_start_if_due(&mut self)
        ensures
            final(self).model() == port_retry_due(old(self).model()),
    {
        let due = match self.timers.next_port_retry {
            Some(at) => self.timers.tick_at >= at,
            None => false,
        };
        if due && self.process.is_none() {
            let trigger = match self.server.pending_start_trigger {
                Some(trigger) => trigger,
                None => StartTrigger::AfterStop,
            };
            self.timers.next_port_retry = None;
            self.server.pending_start_trigger = None;
            self.push(Task::StartNow(trigger));
        }
    }

    fn recheck_config_if_due(&mut self)
        ensures
            final(self).model() == config_due(old(self).model()),
    {
        let now: u64 = self.timers.tick_at;
        let last: u64 = self.timers.last_config_check;
        if now >= last && now - last >= CONFIG_RECHECK_INTERVAL {
            self.timers.last_config_check = now;
            self.push(Task::RefreshConfig);
        }
    }

    fn note_stable_run(&mut self)
        ensures
            final(self).model() == stable_run(old(self).model()),
    {
        let stable = match self.timers.process_started {
            Some(started) => self.timers.tick_at >= started && self.timers.tick_at - started
                >= STABLE_RUN_INTERVAL,
            None => false,
        };
        if self.process.is_some() && stable {
            self.server.restart_attempt_index = 0;
        }
    }

    fn run_tick(&mut self, stage: TickStage) -> (effect: Effect)
        ensures
            (Next { state: final(self).model(), effect }) == ticked(old(self).model(), stage),
    {
        proof {
            reveal(ticked);
        }
        let now: u64 = self.timers.tick_at;
        match stage {
            TickStage::Retry => {
                self.push(Task::Tick(TickStage::Process));
                self.retry_runtime_state_if_due(now)
            },
            TickStage::Process => {
                self.push(Task::Tick(TickStage::Unverified));
                self.push(Task::PollProcess);
                Effect::Continue
            },
            TickStage::Unverified => {
                self.push(Task::Tick(TickStage::StopTimeout));
                self.check_unverified_process(now)
            },
            TickStage::StopTimeout => {
                self.note_stop_timeout();
                self.push(Task::Tick(TickStage::Recovery));
                Effect::Continue
            },
            TickStage::Recovery => {
                self.push(Task::Tick(TickStage::PortRetry));
                self.recover_if_due();
                Effect::Continue
            },
            TickStage::PortRetry => {
                self.push(Task::Tick(TickStage::Config));
                self.retry_start_if_due();
                Effect::Continue
            },
            TickStage::Config => {
                self.push(Task::Tick(TickStage::HealthPoll));
                self.recheck_config_if_due();
                Effect::Continue
            },
            TickStage::HealthPoll => {
                self.push(Task::Tick(TickStage::HealthDispatch));
                self.push(Task::SyncHealth(HealthThen::Poll));
                Effect::Continue
            },
            TickStage::HealthDispatch => {
                self.push(Task::Tick(TickStage::Version));
                self.check_health_if_due();
                Effect::Continue
            },
            TickStage::Version => {
                self.push(Task::Tick(TickStage::Credential));
                self.poll_version_query()
            },
            TickStage::Credential => {
                self.push(Task::Tick(TickStage::Stable));
                self.poll_credential_refresh()
            },
            TickStage::Stable => {
                self.note_stable_run();
                Effect::Continue
            },
        }
    }

    fn boot_reattach(&mut self) -> (effect: Effect)
        ensures
            (Next { state: final(self).model(), effect }) == boot_reattaching(old(self).model()),
    {
        if !self.durable.loaded {
            self.server.state = ServerState::Failed;
            return Effect::Continue;
        }
        if self.runtime.launch_pending.is_some() {
            let message =
                "A previous OpenCode launch was not durably finalized; OpenCodeServerAgent will not start another OpenCode";
            self.durable.error = Some(message.to_owned());
            self.fail();
            self.say(message);
            return Effect::Continue;
        }
        self.push(Task::BootSettle);
        self.try_reattach()
    }

    fn boot_settle(&mut self) -> (effect: Effect)
        ensures
            (Next { state: final(self).model(), effect }) == boot_settled(old(self).model()),
    {
        if self.process.is_none() && !self.server.unverified_process_record {
            self.runtime.process = None;
            let convergence = match self.durable.pending_convergence {
                Some(convergence) => convergence,
                None => if self.runtime.desired_state == DesiredState::Running {
                    PendingDurableConvergence::Start(StartTrigger::Cold)
                } else {
                    PendingDurableConvergence::Stop
                },
            };
            self.durable.pending_convergence = Some(convergence);
            return self.persist_runtime(false, SaveThen::BootCleared);
        }
        if self.process.is_some() && self.runtime.desired_state == DesiredState::Stopped {
            self.push(Task::BeginStop { restarting: false });
        }
        Effect::Continue
    }

    fn perform_boot(&mut self, task: Task) -> (effect: Effect)
        ensures
            (Next { state: final(self).model(), effect }) == performed_boot(old(self).model(), task),
    {
        proof {
            reveal(performed_boot);
        }
        match task {
            Task::BootMerge => self.begin_boot_merge(),
            Task::BootReattach => self.boot_reattach(),
            Task::BootSettle => self.boot_settle(),
            _ => Effect::Continue,
        }
    }

    fn perform_lifecycle(&mut self, task: Task, now: u64) -> (effect: Effect)
        ensures
            (Next { state: final(self).model(), effect }) == performed_lifecycle(old(self).model(), task, now),
    {
        proof {
            reveal(performed_lifecycle);
        }
        match task {
            Task::Apply(intent) => {
                self.apply_lifecycle_intent(intent);
                Effect::Continue
            },
            Task::StartApplied => {
                self.finish_start();
                Effect::Continue
            },
            Task::StopApplied => {
                self.finish_stop();
                Effect::Continue
            },
            Task::BeginStop { restarting } => self.begin_stop(now, restarting),
            Task::StartNow(trigger) => {
                self.start_now(now, trigger);
                Effect::Continue
            },
            Task::Launch(trigger) => self.launch(now, trigger),
            Task::ScheduleRestart => {
                self.schedule_next_restart(now);
                Effect::Continue
            },
            Task::Notify(notice) => self.emit_notification(notice),
            _ => Effect::Continue,
        }
    }

    fn perform_observation(&mut self, task: Task, now: u64) -> (effect: Effect)
        ensures
            (Next { state: final(self).model(), effect }) == performed_observation(old(self).model(), task, now),
    {
        proof {
            reveal(performed_observation);
        }
        match task {
            Task::RefreshConfig => {
                self.push(Task::ConfigLoaded);
                Effect::LoadConfig
            },
            Task::RecheckStale => self.recheck_stale_process(),
            Task::ConfigChecked => {
                self.timers.last_config_check = now;
                Effect::Continue
            },
            Task::PollProcess => self.poll_process(),
            Task::PollExit => self.poll_process_exit(),
            Task::SyncHealth(purpose) => self.sync_health(purpose),
            Task::PollVersion => self.poll_version_query(),
            _ => Effect::Continue,
        }
    }

    fn perform(&mut self, task: Task, now: u64) -> (effect: Effect)
        ensures
            (Next { state: final(self).model(), effect }) == performed(old(self).model(), task, now),
    {
        proof {
            reveal(performed);
        }
        match task {
            Task::BootMerge | Task::BootReattach | Task::BootSettle => self.perform_boot(task),
            Task::Command(command) => self.run_command(now, command),
            Task::Persisted { purpose, persistence } => self.run_persisted(
                now,
                purpose,
                persistence,
            ),
            Task::Tick(stage) => self.run_tick(stage),
            Task::RefreshConfig
            | Task::RecheckStale
            | Task::ConfigChecked
            | Task::PollProcess
            | Task::PollExit
            | Task::SyncHealth(_)
            | Task::PollVersion => self.perform_observation(task, now),
            _ => self.perform_lifecycle(task, now),
        }
    }

    fn save_answered(
        &mut self,
        now: u64,
        purpose: SaveThen,
        outcome: crate::runtime_state::RuntimeStateSaveOutcome,
    ) -> (effect: Effect)
        ensures
            (Next { state: final(self).model(), effect }) == go_on(
                saved(old(self).model(), now, outcome.deep_view()).with_task(
                    Task::Persisted { purpose, persistence: persistence_of(outcome.deep_view()) },
                ),
            ),
    {
        let persistence = self.note_save(now, outcome);
        self.push(Task::Persisted { purpose, persistence });
        Effect::Continue
    }

    fn answer_reattach(&mut self, task: Task, now: u64, reply: Reply) -> (effect: Effect)
        ensures
            (Next { state: final(self).model(), effect }) == answered_reattach(old(self).model(), task, now, reply),
    {
        proof {
            reveal(answered_reattach);
        }
        match (task, reply) {
            (Task::ReattachInspected, Reply::Identity(identity)) => self.reattach_identity_seen(
                now,
                identity,
            ),
            (Task::ReattachGroup, Reply::Group(members)) => self.reattach_group_seen(now, members),
            (Task::ReattachHealth, Reply::Health(answer)) => self.reattach_health_seen(answer),
            (Task::ReattachRechecked, Reply::Identity(identity)) => {
                self.reattach_identity_rechecked(now, identity)
            },
            _ => Effect::Continue,
        }
    }

    fn answer_lifecycle(&mut self, task: Task, now: u64, reply: Reply) -> (effect: Effect)
        ensures
            (Next { state: final(self).model(), effect }) == answered_lifecycle(old(self).model(), task, now, reply),
    {
        proof {
            reveal(answered_lifecycle);
        }
        match (task, reply) {
            (Task::Terminated { restarting }, Reply::Signaled(sent)) => {
                self.stop_signaled(now, restarting, sent);
                Effect::Continue
            },
            (Task::Killed, Reply::Signaled(sent)) => {
                self.kill_signaled(sent);
                Effect::Continue
            },
            (Task::FdaProbed, Reply::Fda(fda)) => {
                self.server.fda = fda;
                Effect::Continue
            },
            (Task::Spawned(trigger), Reply::Spawned(outcome)) => self.process_spawned(
                trigger,
                outcome,
            ),
            (Task::AwaitSave(purpose), Reply::Saved(outcome)) => self.save_answered(
                now,
                purpose,
                outcome,
            ),
            (Task::NoticeIdentified(notice), Reply::EventId(id)) => self.notification_identified(
                notice,
                id,
            ),
            _ => Effect::Continue,
        }
    }

    fn answer_config(&mut self, task: Task, now: u64, reply: Reply) -> (effect: Effect)
        ensures
            (Next { state: final(self).model(), effect }) == answered_config(old(self).model(), task, now, reply),
    {
        proof {
            reveal(answered_config);
        }
        match (task, reply) {
            (Task::BootMerged, Reply::Credential(facts)) => self.merge_boot_config(facts),
            (Task::TeamsCompared, Reply::Team(matches)) => self.credential_teams_compared(matches),
            (Task::ConfigLoaded, Reply::Config(loaded)) => self.configuration_loaded(loaded),
            (Task::CredentialProbed, Reply::Credential(facts)) => self.merge_reloaded_config(facts),
            (Task::ReadStarted, Reply::Started(started)) => {
                self.credential_read_started(now, started);
                Effect::Continue
            },
            (Task::CredentialPolled, Reply::CredentialMessage(message)) => {
                self.credential_read_polled(message)
            },
            _ => Effect::Continue,
        }
    }

    fn answer_process(&mut self, task: Task, now: u64, reply: Reply) -> (effect: Effect)
        ensures
            (Next { state: final(self).model(), effect }) == answered_process(old(self).model(), task, now, reply),
    {
        proof {
            reveal(answered_process);
        }
        match (task, reply) {
            (Task::StaleInspected, Reply::Identity(identity)) => self.stale_identity_seen(identity),
            (Task::StaleConfirmed, Reply::Identity(identity)) => {
                self.stale_identity_confirmed(identity);
                Effect::Continue
            },
            (Task::IdentitySeen, Reply::Snapshot { snapshot, same_executable }) => {
                self.upgrade_unconfirmed_identity(snapshot, same_executable)
            },
            (Task::ExitPolled { explicit }, Reply::Exit { cleanup, exit }) => {
                self.process_exit_polled(now, explicit, cleanup, exit)
            },
            (Task::LeaderGone { explicit }, Reply::Group(members)) => {
                self.handle_attached_leader_disappearance(now, explicit, members)
            },
            (Task::UnverifiedInspected, Reply::Identity(identity)) => {
                self.unverified_identity_seen(identity)
            },
            (Task::UnverifiedGroup, Reply::Group(members)) => self.unverified_group_seen(members),
            _ => Effect::Continue,
        }
    }

    fn answer_health(&mut self, task: Task, now: u64, reply: Reply) -> (effect: Effect)
        ensures
            (Next { state: final(self).model(), effect }) == answered_health(old(self).model(), task, now, reply),
    {
        proof {
            reveal(answered_health);
        }
        match (task, reply) {
            (Task::HealthSynced(purpose), Reply::Identity(identity)) => {
                self.health_identity_seen(purpose, identity)
            },
            (Task::HealthPolled { identity_holds }, Reply::HealthMessage(message)) => {
                self.health_check_polled(identity_holds, message)
            },
            (Task::HealthJudged, Reply::Identity(identity)) => self.health_rechecked(identity),
            (Task::HealthStarted, Reply::Started(started)) => {
                self.health_check_started(started);
                Effect::Continue
            },
            (Task::VersionStarted, Reply::Started(started)) => {
                self.version_query_started(started);
                Effect::Continue
            },
            (Task::VersionPolled, Reply::VersionMessage(message)) => {
                self.version_query_polled(now, message)
            },
            _ => Effect::Continue,
        }
    }

    fn answer(&mut self, task: Task, now: u64, reply: Reply) -> (effect: Effect)
        ensures
            (Next { state: final(self).model(), effect }) == answered(old(self).model(), task, now, reply),
    {
        proof {
            reveal(answered);
        }
        match task {
            Task::ReattachInspected
            | Task::ReattachGroup
            | Task::ReattachHealth
            | Task::ReattachRechecked => self.answer_reattach(task, now, reply),
            Task::BootMerged
            | Task::TeamsCompared
            | Task::ConfigLoaded
            | Task::CredentialProbed
            | Task::ReadStarted
            | Task::CredentialPolled => self.answer_config(task, now, reply),
            Task::StaleInspected
            | Task::StaleConfirmed
            | Task::IdentitySeen
            | Task::ExitPolled { .. }
            | Task::LeaderGone { .. }
            | Task::UnverifiedInspected
            | Task::UnverifiedGroup => self.answer_process(task, now, reply),
            Task::HealthSynced(_)
            | Task::HealthPolled { .. }
            | Task::HealthJudged
            | Task::HealthStarted
            | Task::VersionStarted
            | Task::VersionPolled => self.answer_health(task, now, reply),
            _ => self.answer_lifecycle(task, now, reply),
        }
    }

    /// Takes one step: runs the topmost task with the reply to what was asked
    /// last, and says what must be done before the next step.
    pub fn step(&mut self, now: u64, reply: Reply) -> (effect: Effect)
        requires
            accepted(old(self).model(), reply),
        ensures
            (Next { state: final(self).model(), effect }) == stepped(
                old(self).model(),
                now,
                reply,
            ),
    {
        match self.tasks.pop() {
            None => Effect::Idle,
            Some(task) => {
                if takes_reply(task) {
                    self.answer(task, now, reply)
                } else {
                    self.perform(task, now)
                }
            },
        }
    }

    /// Whether a reply answers what was asked last.
    pub fn accepts(&self, reply: &Reply) -> (fits: bool)
        ensures
            fits == accepted(self.model(), *reply),
    {
        if self.tasks.len() == 0 {
            return true;
        }
        is_answer(self.tasks[self.tasks.len() - 1], reply)
    }
}

/// Whether a task takes a reply.
fn takes_reply(task: Task) -> (takes: bool)
    ensures
        takes == awaits(task),
{
    match task {
        Task::BootMerged
        | Task::ReattachInspected
        | Task::ReattachGroup
        | Task::ReattachHealth
        | Task::ReattachRechecked
        | Task::Terminated { .. }
        | Task::Killed
        | Task::FdaProbed
        | Task::TeamsCompared
        | Task::Spawned(_)
        | Task::ConfigLoaded
        | Task::CredentialProbed
        | Task::ReadStarted
        | Task::StaleInspected
        | Task::StaleConfirmed
        | Task::AwaitSave(_)
        | Task::NoticeIdentified(_)
        | Task::IdentitySeen
        | Task::ExitPolled { .. }
        | Task::LeaderGone { .. }
        | Task::UnverifiedInspected
        | Task::UnverifiedGroup
        | Task::HealthSynced(_)
        | Task::HealthPolled { .. }
        | Task::HealthJudged
        | Task::HealthStarted
        | Task::VersionStarted
        | Task::VersionPolled
        | Task::CredentialPolled => true,
        _ => false,
    }
}

/// Whether a reply answers a task.
fn is_answer(task: Task, reply: &Reply) -> (fits: bool)
    ensures
        fits == answers(task, *reply),
{
    match (task, reply) {
        (Task::BootMerged, Reply::Credential(_)) => true,
        (Task::ReattachInspected, Reply::Identity(_)) => true,
        (Task::ReattachGroup, Reply::Group(_)) => true,
        (Task::ReattachHealth, Reply::Health(_)) => true,
        (Task::ReattachRechecked, Reply::Identity(_)) => true,
        (Task::Terminated { .. }, Reply::Signaled(_)) => true,
        (Task::Killed, Reply::Signaled(_)) => true,
        (Task::FdaProbed, Reply::Fda(_)) => true,
        (Task::TeamsCompared, Reply::Team(_)) => true,
        (Task::Spawned(_), Reply::Spawned(Ok(process))) => process.is_owned_child(),
        (Task::Spawned(_), Reply::Spawned(Err(error))) => match &error.survivor {
            Some(survivor) => survivor.is_owned_child(),
            None => true,
        },
        (Task::ConfigLoaded, Reply::Config(_)) => true,
        (Task::CredentialProbed, Reply::Credential(_)) => true,
        (Task::ReadStarted, Reply::Started(_)) => true,
        (Task::StaleInspected, Reply::Identity(_)) => true,
        (Task::StaleConfirmed, Reply::Identity(_)) => true,
        (Task::AwaitSave(_), Reply::Saved(_)) => true,
        (Task::NoticeIdentified(_), Reply::EventId(_)) => true,
        (Task::IdentitySeen, Reply::Snapshot { .. }) => true,
        (Task::ExitPolled { .. }, Reply::Exit { .. }) => true,
        (Task::LeaderGone { .. }, Reply::Group(_)) => true,
        (Task::UnverifiedInspected, Reply::Identity(_)) => true,
        (Task::UnverifiedGroup, Reply::Group(_)) => true,
        (Task::HealthSynced(_), Reply::Identity(_)) => true,
        (Task::HealthPolled { .. }, Reply::HealthMessage(_)) => true,
        (Task::HealthJudged, Reply::Identity(_)) => true,
        (Task::HealthStarted, Reply::Started(_)) => true,
        (Task::VersionStarted, Reply::Started(_)) => true,
        (Task::VersionPolled, Reply::VersionMessage(_)) => true,
        (Task::CredentialPolled, Reply::CredentialMessage(_)) => true,
        (task, _) => !takes_reply(task),
    }
}

} // verus!
