//! There is never a second OpenCode: whatever commands, ticks and replies
//! come, a process is started only while none is under supervision and none is
//! suspected to be running, and only behind a launch marker that was written
//! first.

#[allow(unused_imports)]
use vstd::prelude::*;
#[allow(unused_imports)]
use crate::health::{health_view, HealthErrorView, HealthResultView};
#[allow(unused_imports)]
use crate::config::ValidatedConfigView;
#[allow(unused_imports)]
use crate::failure::FailureView;
#[allow(unused_imports)]
use crate::protocol::{Command, FdaState};
#[allow(unused_imports)]
use crate::runtime_state::RuntimeStateView;
#[allow(unused_imports)]
use crate::process::ExitReason;
#[allow(unused_imports)]
use super::steps::{
    accepted, answered, answered_config, answered_health, answered_lifecycle, answered_process,
    answered_reattach, awaits, booted, commanded, performed, performed_boot,
    performed_lifecycle, performed_observation, persisted, stepped, ticked,
};
#[allow(unused_imports)]
use super::health::{completing, health_applied, judged, stale_upgraded};
#[allow(unused_imports)]
use super::health_worker::HealthCompletionView;
#[allow(unused_imports)]
use super::lifecycle::{committed, start_settled, survivor_committed};
#[allow(unused_imports)]
use super::process_exit::{
    exit_completed, exit_followed, exit_observed, exit_view, group_pending, identity_lost,
    restart_scheduled,
};
#[allow(unused_imports)]
use super::reattach::holds;
#[allow(unused_imports)]
use super::runtime_durability::showing_readiness;
#[allow(unused_imports)]
use super::{
    HandView, LaunchView, Notice, Reply, RuntimePersistence, SaveThen, StartTrigger,
    SupervisorOptions, SupervisorView, Task, TickStage, Timers,
};

verus! {

/// A start that is on its way: nothing may run below it but what refreshes
/// the configuration.
pub open spec fn is_start(task: Task) -> bool {
    task is StartNow || task is Launch
}

/// A refresh of the configuration, which touches neither the process nor what
/// is durable.
pub open spec fn is_refresh(task: Task) -> bool {
    match task {
        Task::RefreshConfig
        | Task::ConfigLoaded
        | Task::CredentialProbed
        | Task::ReadStarted
        | Task::RecheckStale
        | Task::StaleInspected
        | Task::StaleConfirmed => true,
        Task::SyncHealth(purpose) => purpose is Done,
        Task::HealthSynced(purpose) => purpose is Done,
        _ => false,
    }
}

/// A part of the boot.
pub open spec fn is_boot(task: Task) -> bool {
    match task {
        Task::BootMerge
        | Task::BootMerged
        | Task::BootReattach
        | Task::BootSettle
        | Task::ReattachInspected
        | Task::ReattachGroup
        | Task::ReattachHealth
        | Task::ReattachRechecked => true,
        _ => false,
    }
}

/// A write that a boot leads to before it is concluded.
pub open spec fn is_boot_write(purpose: SaveThen) -> bool {
    match purpose {
        SaveThen::RecordDiscarded { converge } => !converge,
        SaveThen::Nothing => true,
        SaveThen::FailUnlessDurable => true,
        _ => false,
    }
}

/// What may run while the boot is not concluded.
pub open spec fn in_boot(task: Task) -> bool {
    match task {
        Task::ReadStarted => true,
        Task::AwaitSave(purpose) => is_boot_write(purpose),
        Task::Persisted { purpose, .. } => is_boot_write(purpose),
        _ => is_boot(task),
    }
}

/// A task that nothing is ever put on top of.
pub open spec fn is_momentary(task: Task) -> bool {
    match task {
        Task::AwaitSave(_)
        | Task::Persisted { .. }
        | Task::Spawned(_)
        | Task::Apply(_)
        | Task::UnverifiedInspected
        | Task::UnverifiedGroup
        | Task::LeaderGone { .. } => true,
        _ => false,
    }
}

/// A message to the user and its record, which touch nothing else.
pub open spec fn is_notice(task: Task) -> bool {
    match task {
        Task::Notify(_) | Task::NoticeIdentified(_) => true,
        Task::AwaitSave(purpose) => purpose is Nothing,
        Task::Persisted { purpose, .. } => purpose is Nothing,
        _ => false,
    }
}

/// A write during which no process is under supervision.
pub open spec fn is_vacant_write(purpose: SaveThen) -> bool {
    match purpose {
        SaveThen::LaunchMarker(_) => true,
        SaveThen::RecordCleared { .. } => true,
        SaveThen::RecordDiscarded { converge } => converge,
        _ => false,
    }
}

/// A task during which no process is under supervision.
pub open spec fn is_vacant(task: Task) -> bool {
    match task {
        Task::StartNow(_)
        | Task::Launch(_)
        | Task::Spawned(_)
        | Task::UnverifiedInspected
        | Task::UnverifiedGroup => true,
        Task::AwaitSave(purpose) => is_vacant_write(purpose),
        Task::Persisted { purpose, .. } => is_vacant_write(purpose),
        _ => false,
    }
}

/// A write that may be made while an exit waits for its record to be cleared.
pub open spec fn is_resuming_write(purpose: SaveThen) -> bool {
    purpose is DesiredState || purpose is Retry || purpose is RetryUnwound
}

/// A task during which no exit waits for its record to be cleared.
pub open spec fn is_settled(task: Task) -> bool {
    match task {
        Task::Launch(_)
        | Task::Spawned(_)
        | Task::UnverifiedInspected
        | Task::UnverifiedGroup => true,
        Task::AwaitSave(purpose) => !is_resuming_write(purpose),
        Task::Persisted { purpose, .. } => purpose is RecordDiscarded || purpose is RecordCleared
            || purpose is LaunchMarker || purpose is LaunchAborted || purpose is Committed || purpose
            is SurvivorCommitted,
        _ => is_boot(task),
    }
}

/// A task that follows a launch marker.
pub open spec fn is_marked(task: Task) -> bool {
    match task {
        Task::Spawned(_) => true,
        Task::AwaitSave(purpose) => purpose is LaunchMarker,
        Task::Persisted { purpose, .. } => purpose is LaunchMarker,
        _ => false,
    }
}

/// A launch marker was written durably.
pub open spec fn is_written_marker(task: Task) -> bool {
    match task {
        Task::Persisted { purpose, persistence } => purpose is LaunchMarker && persistence
            is Durable,
        _ => false,
    }
}

/// Nothing stands between memory and what is on disk.
pub open spec fn is_written_out(s: SupervisorView) -> bool {
    &&& s.durable.loaded
    &&& s.durable.reliable
    &&& s.durable.error is None
    &&& !s.durable.retry_pending
}

/// A write that clears the record of a process that ended.
pub open spec fn is_clearing(task: Task) -> bool {
    match task {
        Task::AwaitSave(purpose) => purpose is RecordCleared,
        Task::Persisted { purpose, .. } => purpose is RecordCleared,
        _ => false,
    }
}

/// What follows a write that may or may not have become durable.
pub open spec fn is_uncertain(task: Task) -> bool {
    match task {
        Task::Persisted { persistence, .. } => persistence is Uncertain,
        _ => false,
    }
}

/// A write on the way to a process, or back from it.
pub open spec fn is_launching_write(purpose: SaveThen) -> bool {
    purpose is LaunchMarker || purpose is LaunchAborted
}

/// A task on the way to a process: nothing runs, and nothing is suspected to.
pub open spec fn is_launching(task: Task) -> bool {
    match task {
        Task::StartNow(_) | Task::Launch(_) | Task::Spawned(_) | Task::ScheduleRestart => true,
        Task::AwaitSave(purpose) => is_launching_write(purpose),
        Task::Persisted { purpose, .. } => is_launching_write(purpose),
        _ => false,
    }
}

/// A write that frees the record of a process that could not be verified.
pub open spec fn is_freeing(task: Task) -> bool {
    match task {
        Task::AwaitSave(purpose) => purpose is RecordDiscarded,
        Task::Persisted { purpose, .. } => purpose is RecordDiscarded,
        _ => false,
    }
}

/// No start is scheduled.
pub open spec fn unscheduled(s: SupervisorView) -> bool {
    s.timers.next_restart is None && s.timers.next_port_retry is None
}

/// A process may be running that is not a child of this agent.
pub open spec fn claimed(s: SupervisorView) -> bool {
    match s.process {
        Some(process) => !process.owned(),
        None => s.server.unverified_process_record,
    }
}

/// While a process may be running that is not a child, no start is scheduled.
/// Only such a process is under an outdated configuration.
pub open spec fn claims_hold(s: SupervisorView) -> bool {
    &&& claimed(s) ==> unscheduled(s)
    &&& s.server.stale_config_process ==> s.process is Some && !s.process->0.owned()
}

/// What a task on the stack says about the state.
pub open spec fn promised(s: SupervisorView, task: Task) -> bool {
    &&& is_launching(task) ==> s.process is None && !s.server.unverified_process_record
    &&& is_freeing(task) ==> unscheduled(s) && !s.server.unverified_process_record
    &&& is_boot(task) || task is UnverifiedInspected || task is UnverifiedGroup ==> unscheduled(s)
    &&& task is LeaderGone && s.process is Some ==> !s.process->0.owned()
    &&& is_vacant(task) ==> s.process is None
    &&& is_settled(task) ==> s.durable.pending_exit is None
    &&& is_marked(task) ==> s.runtime.launch_pending is Some
    &&& is_written_marker(task) ==> is_written_out(s)
    &&& is_clearing(task) ==> !s.server.unverified_process_record
    &&& task is AwaitSave ==> s.durable.loaded
    &&& is_uncertain(task) ==> s.durable.loaded && s.durable.retry_pending && s.durable.error
        is Some
}

/// The exit that waits is about to be taken up, or is superseded.
pub open spec fn handing_over(tasks: Seq<Task>) -> bool {
    tasks.len() > 0 && match tasks.last() {
        Task::Persisted { purpose, persistence } => is_resuming_write(purpose) && persistence
            is Durable,
        Task::AwaitSave(purpose) => purpose is RetryUnwound,
        Task::Apply(_) => true,
        _ => false,
    }
}

/// While an exit waits for its record to be cleared, nothing is under
/// supervision and nothing can be started.
pub open spec fn exits_wait_alone(s: SupervisorView) -> bool {
    s.durable.pending_exit is Some ==> {
        &&& s.process is None
        &&& !s.server.unverified_process_record
        &&& s.durable.loaded
        &&& (s.durable.retry_pending && s.durable.error is Some) || handing_over(s.tasks)
    }
}

/// The order that tasks keep on the stack.
pub open spec fn orderly(tasks: Seq<Task>) -> bool {
    &&& forall|i: int| 0 <= i < tasks.len() - 1 ==> !is_momentary(#[trigger] tasks[i])
    &&& forall|i: int, j: int|
        0 <= i < j < tasks.len() && is_start(#[trigger] tasks[i]) ==> is_refresh(#[trigger] tasks[j])
    &&& forall|i: int, j: int|
        0 <= i < j < tasks.len() && is_boot(#[trigger] tasks[i]) ==> in_boot(#[trigger] tasks[j])
    &&& forall|i: int, j: int|
        0 <= i < j < tasks.len() && (#[trigger] tasks[i]) is ScheduleRestart ==> is_notice(
            #[trigger] tasks[j],
        )
    &&& forall|i: int|
        0 < i < tasks.len() ==> !(#[trigger] tasks[i] is BootReattach) && !(tasks[i] is BootSettle)
}

/// What holds of the supervisor at all times.
#[verifier::opaque]
pub open spec fn steady(s: SupervisorView) -> bool {
    &&& orderly(s.tasks)
    &&& forall|i: int| 0 <= i < s.tasks.len() ==> promised(s, #[trigger] s.tasks[i])
    &&& exits_wait_alone(s)
    &&& claims_hold(s)
}

/// The state without its topmost task.
pub open spec fn rest_of(s: SupervisorView) -> SupervisorView {
    SupervisorView { tasks: s.tasks.drop_last(), ..s }
}

/// What the topmost task says.
proof fn topmost_holds(s: SupervisorView)
    requires
        steady(s),
        s.tasks.len() > 0,
    ensures
        promised(s, s.tasks.last()),
        exits_wait_alone(s),
        claims_hold(s),
        s.tasks.last() is BootReattach || s.tasks.last() is BootSettle ==> s.tasks.len() == 1,
{
    reveal(steady);
    assert(promised(s, s.tasks[s.tasks.len() - 1]));
}

/// What running the topmost task leaves of the promises below it.
spec fn carries(s: SupervisorView, n: SupervisorView) -> bool {
    let top = s.tasks.last();
    &&& (is_refresh(top) || is_notice(top)) && s.process is None ==> n.process is None
        && n.server.unverified_process_record == s.server.unverified_process_record
    &&& in_boot(top) && unscheduled(s) ==> unscheduled(n)
    &&& (is_refresh(top) || in_boot(top)) && s.durable.pending_exit is None
        ==> n.durable.pending_exit is None
}

/// A task that may be put where the topmost one was.
spec fn may_follow(s: SupervisorView, n: SupervisorView, task: Task) -> bool {
    let top = s.tasks.last();
    &&& promised(n, task)
    &&& is_refresh(top) ==> is_refresh(task)
    &&& is_notice(top) ==> is_notice(task)
    &&& in_boot(top) && s.tasks.len() > 1 ==> in_boot(task)
    &&& !(task is BootReattach)
    &&& task is BootSettle ==> s.tasks.len() == 1
}

/// A task that may be put on another that was just put there.
spec fn may_cover(lower: Task, upper: Task) -> bool {
    &&& !is_momentary(lower)
    &&& is_start(lower) ==> is_refresh(upper)
    &&& lower is ScheduleRestart ==> is_notice(upper)
    &&& is_boot(lower) ==> in_boot(upper)
    &&& !(upper is BootSettle)
}

/// The next state has at most three more tasks, each of which may be there.
spec fn follows(s: SupervisorView, n: SupervisorView) -> bool {
    let rest = s.tasks.drop_last();
    let at = rest.len() as int;
    let a = n.tasks[at];
    let b = n.tasks[at + 1];
    let c = n.tasks[at + 2];
    &&& carries(s, n)
    &&& exits_wait_alone(n)
    &&& claims_hold(n)
    &&& {
        ||| n.tasks == rest
        ||| n.tasks == rest.push(a) && may_follow(s, n, a)
        ||| n.tasks == rest.push(a).push(b) && may_follow(s, n, a) && may_follow(s, n, b)
            && may_cover(a, b)
        ||| n.tasks == rest.push(a).push(b).push(c) && may_follow(s, n, a) && may_follow(s, n, b)
            && may_follow(s, n, c) && may_cover(a, b) && may_cover(a, c) && may_cover(b, c)
    }
}

proof fn following_stays_steady(s: SupervisorView, n: SupervisorView)
    requires
        steady(s),
        s.tasks.len() > 0,
        follows(s, n),
    ensures
        steady(n),
{
    reveal(steady);
    let rest = s.tasks.drop_last();
    let top = s.tasks.last();
    let at = rest.len() as int;
    assert(s.tasks[at] == top);
    assert forall|i: int| 0 <= i < at implies n.tasks[i] == s.tasks[i] && !is_momentary(
        #[trigger] s.tasks[i],
    ) && (is_start(s.tasks[i]) ==> is_refresh(top)) && (is_boot(s.tasks[i]) ==> in_boot(top)) && (
    s.tasks[i] is ScheduleRestart ==> is_notice(top)) by {
        assert(rest[i] == s.tasks[i]);
    }
    assert forall|i: int| 0 <= i < n.tasks.len() implies promised(n, #[trigger] n.tasks[i]) by {
        if i < at {
            assert(promised(s, s.tasks[i]));
        }
    }
    assert(orderly(n.tasks)) by {
        assert forall|i: int, j: int|
            0 <= i < j < n.tasks.len() && is_start(#[trigger] n.tasks[i]) implies is_refresh(
            #[trigger] n.tasks[j],
        ) by {
            if i < at {
                assert(n.tasks[i] == s.tasks[i]);
                if j < at {
                    assert(n.tasks[j] == s.tasks[j]);
                }
            }
        }
        assert forall|i: int, j: int|
            0 <= i < j < n.tasks.len() && is_boot(#[trigger] n.tasks[i]) implies in_boot(
            #[trigger] n.tasks[j],
        ) by {
            if i < at {
                assert(n.tasks[i] == s.tasks[i]);
                if j < at {
                    assert(n.tasks[j] == s.tasks[j]);
                }
            }
        }
        assert forall|i: int, j: int|
            0 <= i < j < n.tasks.len() && (#[trigger] n.tasks[i]) is ScheduleRestart implies is_notice(
            #[trigger] n.tasks[j],
        ) by {
            if i < at {
                assert(n.tasks[i] == s.tasks[i]);
                if j < at {
                    assert(n.tasks[j] == s.tasks[j]);
                }
            }
        }
        assert forall|i: int| 0 <= i < n.tasks.len() - 1 implies !is_momentary(
            #[trigger] n.tasks[i],
        ) by {
            if i < at {
                assert(n.tasks[i] == s.tasks[i]);
            }
        }
        assert forall|i: int| 0 < i < n.tasks.len() implies !(#[trigger] n.tasks[i] is BootReattach)
            && !(n.tasks[i] is BootSettle) by {
            if i < at {
                assert(n.tasks[i] == s.tasks[i]);
            }
        }
    }
}

/// Nothing that the promises speak of changed.
spec fn unmoved(s: SupervisorView, n: SupervisorView) -> bool {
    &&& n.process == s.process
    &&& n.durable == s.durable
    &&& n.runtime == s.runtime
    &&& n.server.unverified_process_record == s.server.unverified_process_record
    &&& n.server.stale_config_process == s.server.stale_config_process
}

proof fn schedules_move_nothing()
    ensures
        forall|s: SupervisorView, now: u64|
            {
                let n = #[trigger] restart_scheduled(s, now);
                unmoved(s, n) && (n.tasks == s.tasks || n.tasks == s.tasks.push(
                    Task::Notify(Notice::RecoveryExhausted),
                ))
            },
{
    reveal(restart_scheduled);
}

#[verifier::rlimit(30)]
proof fn exits_move_nothing()
    ensures
        forall|s: SupervisorView, explicit: bool, exit: ExitReason, now: u64|
            {
                let n = #[trigger] exit_followed(s, explicit, exit, now);
                unmoved(s, n) && (n.tasks == s.tasks || n.tasks == s.tasks.push(
                    Task::Notify(Notice::RecoveryExhausted),
                ) || n.tasks == s.tasks.push(Task::StartNow(StartTrigger::AfterStop)) || n.tasks
                    == s.tasks.push(Task::ScheduleRestart) || n.tasks == s.tasks.push(
                    Task::ScheduleRestart,
                ).push(Task::Notify(Notice::UnexpectedStop)))
            },
{
    reveal(exit_followed);
    schedules_move_nothing();
}

proof fn failed_starts_move_nothing()
    ensures
        forall|
            s: SupervisorView,
            now: u64,
            trigger: StartTrigger,
            launch: Option<LaunchView>,
            error: FailureView,
        |
            {
                let n = #[trigger] start_settled(s, now, trigger, launch, error);
                unmoved(s, n) && (n.tasks == s.tasks || n.tasks == s.tasks.push(
                    Task::Notify(Notice::RecoveryExhausted),
                ))
            },
{
    reveal(start_settled);
    schedules_move_nothing();
}

proof fn commits_move_nothing()
    ensures
        forall|s: SupervisorView, now: u64, persistence: RuntimePersistence|
            {
                let n = #[trigger] committed(s, now, persistence);
                unmoved(s, n) && n.tasks == s.tasks && (unscheduled(s) ==> unscheduled(n))
            },
        forall|s: SupervisorView, now: u64, persistence: RuntimePersistence|
            {
                let n = #[trigger] survivor_committed(s, now, persistence);
                unmoved(s, n) && n.tasks == s.tasks && (unscheduled(s) ==> unscheduled(n))
            },
{
    reveal(committed);
    reveal(survivor_committed);
}

/// A state in the middle of running the topmost task, which is neither part
/// of the boot nor a refresh, with the task taken off.
spec fn amid(s: SupervisorView, r: SupervisorView) -> bool {
    &&& s.tasks.len() > 0
    &&& r.tasks == s.tasks.drop_last()
    &&& !is_refresh(s.tasks.last())
    &&& !in_boot(s.tasks.last())
    &&& !is_notice(s.tasks.last())
    &&& claims_hold(r)
    &&& r.durable.pending_exit is Some ==> {
        &&& r.process is None
        &&& !r.server.unverified_process_record
        &&& r.durable.loaded
        &&& r.durable.retry_pending
        &&& r.durable.error is Some
    }
}

#[verifier::spinoff_prover]
#[verifier::rlimit(60)]
proof fn pending_groups_follow(s: SupervisorView, r: SupervisorView, now: u64, explicit: bool)
    requires
        amid(s, r),
        r.process is Some,
    ensures
        follows(s, group_pending(r, now, explicit).state),
        !(group_pending(r, now, explicit).effect is Spawn),
{
    reveal(group_pending);
}

#[verifier::spinoff_prover]
#[verifier::rlimit(60)]
proof fn lost_identities_follow(s: SupervisorView, r: SupervisorView, now: u64)
    requires
        amid(s, r),
        r.process is Some,
    ensures
        follows(s, identity_lost(r, now).state),
        !(identity_lost(r, now).effect is Spawn),
{
    reveal(identity_lost);
}

#[verifier::spinoff_prover]
#[verifier::rlimit(60)]
proof fn completed_exits_follow(
    s: SupervisorView,
    r: SupervisorView,
    explicit: bool,
    exit: ExitReason,
)
    requires
        amid(s, r),
        r.process is Some,
    ensures
        follows(s, exit_completed(r, explicit, exit).state),
        !(exit_completed(r, explicit, exit).effect is Spawn),
{
    reveal(exit_completed);
}

#[verifier::spinoff_prover]
#[verifier::rlimit(60)]
proof fn upgrades_follow(
    s: SupervisorView,
    r: SupervisorView,
    result: Result<HealthResultView, HealthErrorView>,
)
    requires
        amid(s, r),
        r.server.stale_config_process,
    ensures
        follows(s, stale_upgraded(r, result).state),
        !(stale_upgraded(r, result).effect is Spawn),
{
    reveal(stale_upgraded);
}

#[verifier::spinoff_prover]
#[verifier::rlimit(60)]
proof fn results_follow(
    s: SupervisorView,
    r: SupervisorView,
    result: Result<HealthResultView, HealthErrorView>,
)
    requires
        amid(s, r),
    ensures
        follows(s, health_applied(r, result).state),
        !(health_applied(r, result).effect is Spawn),
{
    reveal(health_applied);
}

#[verifier::spinoff_prover]
#[verifier::rlimit(60)]
proof fn judgments_follow(s: SupervisorView, r: SupervisorView, identity_holds: bool)
    requires
        amid(s, r),
    ensures
        follows(s, judged(r, identity_holds).state),
        !(judged(r, identity_holds).effect is Spawn),
{
    reveal(judged);
    let dropped = SupervisorView { hand: HandView { completion: None, ..r.hand }, ..r };
    if r.hand.completion is Some {
        if r.server.stale_config_process {
            upgrades_follow(s, dropped, r.hand.completion->0.result);
        }
        results_follow(s, dropped, r.hand.completion->0.result);
    }
}

#[verifier::spinoff_prover]
#[verifier::rlimit(60)]
proof fn completions_follow(s: SupervisorView, r: SupervisorView, completion: HealthCompletionView)
    requires
        amid(s, r),
    ensures
        follows(s, completing(r, completion).state),
        !(completing(r, completion).effect is Spawn),
{
    reveal(completing);
    let noted = SupervisorView {
        timers: Timers { last_health_check: Some(r.timers.tick_at), ..r.timers },
        ..r
    };
    let shown = showing_readiness(noted);
    let held = SupervisorView {
        hand: HandView { completion: Some(completion), ..shown.hand },
        ..shown
    };
    judgments_follow(s, held, false);
}

#[verifier::spinoff_prover]
#[verifier::rlimit(60)]
proof fn boots_keep_steady(s: SupervisorView)
    requires
        steady(s),
        s.tasks.len() > 0,
        s.tasks.last() is BootMerge || s.tasks.last() is BootReattach || s.tasks.last() is BootSettle,
    ensures
        steady(performed_boot(rest_of(s), s.tasks.last()).state),
        !(performed_boot(rest_of(s), s.tasks.last()).effect is Spawn),
{
    reveal(performed_boot);
    topmost_holds(s);
    following_stays_steady(s, performed_boot(rest_of(s), s.tasks.last()).state);
}

#[verifier::spinoff_prover]
#[verifier::rlimit(60)]
proof fn first_inspections_keep_steady(s: SupervisorView, now: u64, reply: Reply)
    requires
        steady(s),
        s.tasks.len() > 0,
        s.tasks.last() is ReattachInspected,
    ensures
        steady(answered_reattach(rest_of(s), s.tasks.last(), now, reply).state),
        !(answered_reattach(rest_of(s), s.tasks.last(), now, reply).effect is Spawn),
{
    reveal(answered_reattach);
    topmost_holds(s);
    following_stays_steady(s, answered_reattach(rest_of(s), s.tasks.last(), now, reply).state);
}

#[verifier::spinoff_prover]
#[verifier::rlimit(60)]
proof fn first_group_looks_keep_steady(s: SupervisorView, now: u64, reply: Reply)
    requires
        steady(s),
        s.tasks.len() > 0,
        s.tasks.last() is ReattachGroup,
    ensures
        steady(answered_reattach(rest_of(s), s.tasks.last(), now, reply).state),
        !(answered_reattach(rest_of(s), s.tasks.last(), now, reply).effect is Spawn),
{
    reveal(answered_reattach);
    topmost_holds(s);
    following_stays_steady(s, answered_reattach(rest_of(s), s.tasks.last(), now, reply).state);
}

#[verifier::spinoff_prover]
#[verifier::rlimit(60)]
proof fn first_answers_keep_steady(s: SupervisorView, now: u64, reply: Reply)
    requires
        steady(s),
        s.tasks.len() > 0,
        s.tasks.last() is ReattachHealth,
    ensures
        steady(answered_reattach(rest_of(s), s.tasks.last(), now, reply).state),
        !(answered_reattach(rest_of(s), s.tasks.last(), now, reply).effect is Spawn),
{
    reveal(answered_reattach);
    topmost_holds(s);
    following_stays_steady(s, answered_reattach(rest_of(s), s.tasks.last(), now, reply).state);
}

#[verifier::spinoff_prover]
#[verifier::rlimit(60)]
proof fn second_inspections_keep_steady(s: SupervisorView, now: u64, reply: Reply)
    requires
        steady(s),
        s.tasks.len() > 0,
        s.tasks.last() is ReattachRechecked,
    ensures
        steady(answered_reattach(rest_of(s), s.tasks.last(), now, reply).state),
        !(answered_reattach(rest_of(s), s.tasks.last(), now, reply).effect is Spawn),
{
    reveal(answered_reattach);
    topmost_holds(s);
    following_stays_steady(s, answered_reattach(rest_of(s), s.tasks.last(), now, reply).state);
}

#[verifier::spinoff_prover]
#[verifier::rlimit(60)]
proof fn intents_keep_steady(s: SupervisorView, now: u64)
    requires
        steady(s),
        s.tasks.len() > 0,
        s.tasks.last() is Apply,
    ensures
        steady(performed_lifecycle(rest_of(s), s.tasks.last(), now).state),
        !(performed_lifecycle(rest_of(s), s.tasks.last(), now).effect is Spawn),
{
    reveal(performed_lifecycle);
    topmost_holds(s);
    following_stays_steady(s, performed_lifecycle(rest_of(s), s.tasks.last(), now).state);
}

#[verifier::spinoff_prover]
#[verifier::rlimit(60)]
proof fn stops_keep_steady(s: SupervisorView, now: u64)
    requires
        steady(s),
        s.tasks.len() > 0,
        s.tasks.last() is BeginStop,
    ensures
        steady(performed_lifecycle(rest_of(s), s.tasks.last(), now).state),
        !(performed_lifecycle(rest_of(s), s.tasks.last(), now).effect is Spawn),
{
    reveal(performed_lifecycle);
    topmost_holds(s);
    following_stays_steady(s, performed_lifecycle(rest_of(s), s.tasks.last(), now).state);
}

#[verifier::spinoff_prover]
#[verifier::rlimit(60)]
proof fn launches_keep_steady(s: SupervisorView, now: u64)
    requires
        steady(s),
        s.tasks.len() > 0,
        s.tasks.last() is Launch,
    ensures
        steady(performed_lifecycle(rest_of(s), s.tasks.last(), now).state),
        !(performed_lifecycle(rest_of(s), s.tasks.last(), now).effect is Spawn),
{
    reveal(performed_lifecycle);
    schedules_move_nothing();
    topmost_holds(s);
    following_stays_steady(s, performed_lifecycle(rest_of(s), s.tasks.last(), now).state);
}

#[verifier::spinoff_prover]
#[verifier::rlimit(60)]
proof fn small_steps_keep_steady(s: SupervisorView, now: u64)
    requires
        steady(s),
        s.tasks.len() > 0,
        s.tasks.last() is StartApplied || s.tasks.last() is StopApplied || s.tasks.last() is StartNow || s.tasks.last() is ScheduleRestart || s.tasks.last() is Notify,
    ensures
        steady(performed_lifecycle(rest_of(s), s.tasks.last(), now).state),
        !(performed_lifecycle(rest_of(s), s.tasks.last(), now).effect is Spawn),
{
    reveal(performed_lifecycle);
    schedules_move_nothing();
    topmost_holds(s);
    following_stays_steady(s, performed_lifecycle(rest_of(s), s.tasks.last(), now).state);
}

#[verifier::spinoff_prover]
#[verifier::rlimit(60)]
proof fn observations_keep_steady(s: SupervisorView, now: u64)
    requires
        steady(s),
        s.tasks.len() > 0,
        s.tasks.last() is RefreshConfig || s.tasks.last() is RecheckStale || s.tasks.last() is ConfigChecked || s.tasks.last() is PollProcess || s.tasks.last() is PollExit || s.tasks.last() is PollVersion,
    ensures
        steady(performed_observation(rest_of(s), s.tasks.last(), now).state),
        !(performed_observation(rest_of(s), s.tasks.last(), now).effect is Spawn),
{
    reveal(performed_observation);
    topmost_holds(s);
    following_stays_steady(s, performed_observation(rest_of(s), s.tasks.last(), now).state);
}

#[verifier::spinoff_prover]
#[verifier::rlimit(60)]
proof fn health_syncs_keep_steady(s: SupervisorView, now: u64)
    requires
        steady(s),
        s.tasks.len() > 0,
        s.tasks.last() is SyncHealth,
    ensures
        steady(performed_observation(rest_of(s), s.tasks.last(), now).state),
        !(performed_observation(rest_of(s), s.tasks.last(), now).effect is Spawn),
{
    reveal(performed_observation);
    topmost_holds(s);
    following_stays_steady(s, performed_observation(rest_of(s), s.tasks.last(), now).state);
}

#[verifier::spinoff_prover]
#[verifier::rlimit(60)]
proof fn commands_keep_steady(s: SupervisorView, now: u64)
    requires
        steady(s),
        s.tasks.len() > 0,
        s.tasks.last() is Command,
    ensures
        steady(commanded(rest_of(s), now, s.tasks.last()->Command_0).state),
        !(commanded(rest_of(s), now, s.tasks.last()->Command_0).effect is Spawn),
{
    reveal(commanded);
    topmost_holds(s);
    following_stays_steady(s, commanded(rest_of(s), now, s.tasks.last()->Command_0).state);
}

#[verifier::spinoff_prover]
#[verifier::rlimit(60)]
proof fn ticks_keep_steady(s: SupervisorView)
    requires
        steady(s),
        s.tasks.len() > 0,
        s.tasks.last() is Tick,
    ensures
        steady(ticked(rest_of(s), s.tasks.last()->Tick_0).state),
        !(ticked(rest_of(s), s.tasks.last()->Tick_0).effect is Spawn),
{
    reveal(ticked);
    topmost_holds(s);
    following_stays_steady(s, ticked(rest_of(s), s.tasks.last()->Tick_0).state);
}

#[verifier::spinoff_prover]
#[verifier::rlimit(60)]
proof fn written_intents_keep_steady(s: SupervisorView, now: u64)
    requires
        steady(s),
        s.tasks.len() > 0,
        s.tasks.last() is Persisted,
        s.tasks.last()->Persisted_purpose is DesiredState,
    ensures
        steady(persisted(rest_of(s), now, s.tasks.last()->Persisted_purpose, s.tasks.last()->persistence).state),
        !(persisted(rest_of(s), now, s.tasks.last()->Persisted_purpose, s.tasks.last()->persistence).effect is Spawn),
{
    reveal(persisted);
    topmost_holds(s);
    following_stays_steady(s, persisted(rest_of(s), now, s.tasks.last()->Persisted_purpose, s.tasks.last()->persistence).state);
}

#[verifier::spinoff_prover]
#[verifier::rlimit(60)]
proof fn written_markers_keep_steady(s: SupervisorView, now: u64)
    requires
        steady(s),
        s.tasks.len() > 0,
        s.tasks.last() is Persisted,
        s.tasks.last()->Persisted_purpose is LaunchMarker,
    ensures
        steady(persisted(rest_of(s), now, s.tasks.last()->Persisted_purpose, s.tasks.last()->persistence).state),
        persisted(rest_of(s), now, s.tasks.last()->Persisted_purpose, s.tasks.last()->persistence).effect is Spawn ==> s.process is None
            && !s.server.unverified_process_record && s.runtime.launch_pending is Some
            && is_written_out(s) && s.tasks.last()->persistence is Durable,
{
    reveal(persisted);
    topmost_holds(s);
    following_stays_steady(s, persisted(rest_of(s), now, s.tasks.last()->Persisted_purpose, s.tasks.last()->persistence).state);
}

#[verifier::spinoff_prover]
#[verifier::rlimit(60)]
proof fn written_launches_keep_steady(s: SupervisorView, now: u64)
    requires
        steady(s),
        s.tasks.len() > 0,
        s.tasks.last() is Persisted,
        s.tasks.last()->Persisted_purpose is Committed || s.tasks.last()->Persisted_purpose is SurvivorCommitted || s.tasks.last()->Persisted_purpose is IdentityUpgraded || s.tasks.last()->Persisted_purpose is HealthVersion || s.tasks.last()->Persisted_purpose is FailUnlessDurable || s.tasks.last()->Persisted_purpose is Nothing,
    ensures
        steady(persisted(rest_of(s), now, s.tasks.last()->Persisted_purpose, s.tasks.last()->persistence).state),
        !(persisted(rest_of(s), now, s.tasks.last()->Persisted_purpose, s.tasks.last()->persistence).effect is Spawn),
{
    reveal(persisted);
    commits_move_nothing();
    topmost_holds(s);
    following_stays_steady(s, persisted(rest_of(s), now, s.tasks.last()->Persisted_purpose, s.tasks.last()->persistence).state);
}

#[verifier::spinoff_prover]
#[verifier::rlimit(60)]
proof fn written_aborts_keep_steady(s: SupervisorView, now: u64)
    requires
        steady(s),
        s.tasks.len() > 0,
        s.tasks.last() is Persisted,
        s.tasks.last()->Persisted_purpose is LaunchAborted,
    ensures
        steady(persisted(rest_of(s), now, s.tasks.last()->Persisted_purpose, s.tasks.last()->persistence).state),
        !(persisted(rest_of(s), now, s.tasks.last()->Persisted_purpose, s.tasks.last()->persistence).effect is Spawn),
{
    reveal(persisted);
    failed_starts_move_nothing();
    topmost_holds(s);
    following_stays_steady(s, persisted(rest_of(s), now, s.tasks.last()->Persisted_purpose, s.tasks.last()->persistence).state);
}

#[verifier::spinoff_prover]
#[verifier::rlimit(60)]
proof fn written_clears_keep_steady(s: SupervisorView, now: u64)
    requires
        steady(s),
        s.tasks.len() > 0,
        s.tasks.last() is Persisted,
        s.tasks.last()->Persisted_purpose is RecordCleared,
    ensures
        steady(persisted(rest_of(s), now, s.tasks.last()->Persisted_purpose, s.tasks.last()->persistence).state),
        !(persisted(rest_of(s), now, s.tasks.last()->Persisted_purpose, s.tasks.last()->persistence).effect is Spawn),
{
    reveal(persisted);
    exits_move_nothing();
    topmost_holds(s);
    following_stays_steady(s, persisted(rest_of(s), now, s.tasks.last()->Persisted_purpose, s.tasks.last()->persistence).state);
}

#[verifier::spinoff_prover]
#[verifier::rlimit(60)]
proof fn written_discards_keep_steady(s: SupervisorView, now: u64)
    requires
        steady(s),
        s.tasks.len() > 0,
        s.tasks.last() is Persisted,
        s.tasks.last()->Persisted_purpose is RecordDiscarded,
    ensures
        steady(persisted(rest_of(s), now, s.tasks.last()->Persisted_purpose, s.tasks.last()->persistence).state),
        !(persisted(rest_of(s), now, s.tasks.last()->Persisted_purpose, s.tasks.last()->persistence).effect is Spawn),
{
    reveal(persisted);
    topmost_holds(s);
    following_stays_steady(s, persisted(rest_of(s), now, s.tasks.last()->Persisted_purpose, s.tasks.last()->persistence).state);
}

#[verifier::spinoff_prover]
#[verifier::rlimit(60)]
proof fn written_retries_keep_steady(s: SupervisorView, now: u64)
    requires
        steady(s),
        s.tasks.len() > 0,
        s.tasks.last() is Persisted,
        s.tasks.last()->Persisted_purpose is Retry || s.tasks.last()->Persisted_purpose is RetryUnwound,
    ensures
        steady(persisted(rest_of(s), now, s.tasks.last()->Persisted_purpose, s.tasks.last()->persistence).state),
        !(persisted(rest_of(s), now, s.tasks.last()->Persisted_purpose, s.tasks.last()->persistence).effect is Spawn),
{
    reveal(persisted);
    exits_move_nothing();
    topmost_holds(s);
    following_stays_steady(s, persisted(rest_of(s), now, s.tasks.last()->Persisted_purpose, s.tasks.last()->persistence).state);
}

#[verifier::spinoff_prover]
#[verifier::rlimit(60)]
proof fn written_boots_keep_steady(s: SupervisorView, now: u64)
    requires
        steady(s),
        s.tasks.len() > 0,
        s.tasks.last() is Persisted,
        s.tasks.last()->Persisted_purpose is BootCleared,
    ensures
        steady(persisted(rest_of(s), now, s.tasks.last()->Persisted_purpose, s.tasks.last()->persistence).state),
        !(persisted(rest_of(s), now, s.tasks.last()->Persisted_purpose, s.tasks.last()->persistence).effect is Spawn),
{
    reveal(persisted);
    topmost_holds(s);
    following_stays_steady(s, persisted(rest_of(s), now, s.tasks.last()->Persisted_purpose, s.tasks.last()->persistence).state);
}

#[verifier::spinoff_prover]
#[verifier::rlimit(60)]
proof fn signals_keep_steady(s: SupervisorView, now: u64, reply: Reply)
    requires
        steady(s),
        s.tasks.len() > 0,
        s.tasks.last() is Terminated || s.tasks.last() is Killed || s.tasks.last() is FdaProbed || s.tasks.last() is NoticeIdentified,
    ensures
        steady(answered_lifecycle(rest_of(s), s.tasks.last(), now, reply).state),
        !(answered_lifecycle(rest_of(s), s.tasks.last(), now, reply).effect is Spawn),
{
    reveal(answered_lifecycle);
    topmost_holds(s);
    following_stays_steady(s, answered_lifecycle(rest_of(s), s.tasks.last(), now, reply).state);
}

#[verifier::spinoff_prover]
#[verifier::rlimit(60)]
proof fn spawns_keep_steady(s: SupervisorView, now: u64, reply: Reply)
    requires
        steady(s),
        s.tasks.len() > 0,
        s.tasks.last() is Spawned,
        accepted(s, reply),
    ensures
        steady(answered_lifecycle(rest_of(s), s.tasks.last(), now, reply).state),
        !(answered_lifecycle(rest_of(s), s.tasks.last(), now, reply).effect is Spawn),
{
    reveal(answered_lifecycle);
    topmost_holds(s);
    following_stays_steady(s, answered_lifecycle(rest_of(s), s.tasks.last(), now, reply).state);
}

#[verifier::spinoff_prover]
#[verifier::rlimit(60)]
proof fn saves_keep_steady(s: SupervisorView, now: u64, reply: Reply)
    requires
        steady(s),
        s.tasks.len() > 0,
        s.tasks.last() is AwaitSave,
        reply is Saved,
    ensures
        steady(answered_lifecycle(rest_of(s), s.tasks.last(), now, reply).state),
        !(answered_lifecycle(rest_of(s), s.tasks.last(), now, reply).effect is Spawn),
{
    reveal(answered_lifecycle);
    topmost_holds(s);
    following_stays_steady(s, answered_lifecycle(rest_of(s), s.tasks.last(), now, reply).state);
}

#[verifier::spinoff_prover]
#[verifier::rlimit(60)]
proof fn merges_keep_steady(s: SupervisorView, now: u64, reply: Reply)
    requires
        steady(s),
        s.tasks.len() > 0,
        s.tasks.last() is BootMerged || s.tasks.last() is TeamsCompared || s.tasks.last() is ConfigLoaded || s.tasks.last() is ReadStarted,
    ensures
        steady(answered_config(rest_of(s), s.tasks.last(), now, reply).state),
        !(answered_config(rest_of(s), s.tasks.last(), now, reply).effect is Spawn),
{
    reveal(answered_config);
    topmost_holds(s);
    following_stays_steady(s, answered_config(rest_of(s), s.tasks.last(), now, reply).state);
}

#[verifier::spinoff_prover]
#[verifier::rlimit(60)]
proof fn probes_keep_steady(s: SupervisorView, now: u64, reply: Reply)
    requires
        steady(s),
        s.tasks.len() > 0,
        s.tasks.last() is CredentialProbed,
    ensures
        steady(answered_config(rest_of(s), s.tasks.last(), now, reply).state),
        !(answered_config(rest_of(s), s.tasks.last(), now, reply).effect is Spawn),
{
    reveal(answered_config);
    topmost_holds(s);
    following_stays_steady(s, answered_config(rest_of(s), s.tasks.last(), now, reply).state);
}

#[verifier::spinoff_prover]
#[verifier::rlimit(60)]
proof fn passwords_keep_steady(s: SupervisorView, now: u64, reply: Reply)
    requires
        steady(s),
        s.tasks.len() > 0,
        s.tasks.last() is CredentialPolled,
    ensures
        steady(answered_config(rest_of(s), s.tasks.last(), now, reply).state),
        !(answered_config(rest_of(s), s.tasks.last(), now, reply).effect is Spawn),
{
    reveal(answered_config);
    topmost_holds(s);
    following_stays_steady(s, answered_config(rest_of(s), s.tasks.last(), now, reply).state);
}

#[verifier::spinoff_prover]
#[verifier::rlimit(60)]
proof fn inspections_keep_steady(s: SupervisorView, now: u64, reply: Reply)
    requires
        steady(s),
        s.tasks.len() > 0,
        s.tasks.last() is StaleInspected || s.tasks.last() is StaleConfirmed || s.tasks.last() is UnverifiedInspected || s.tasks.last() is UnverifiedGroup,
    ensures
        steady(answered_process(rest_of(s), s.tasks.last(), now, reply).state),
        !(answered_process(rest_of(s), s.tasks.last(), now, reply).effect is Spawn),
{
    reveal(answered_process);
    topmost_holds(s);
    following_stays_steady(s, answered_process(rest_of(s), s.tasks.last(), now, reply).state);
}

#[verifier::spinoff_prover]
#[verifier::rlimit(60)]
proof fn identities_keep_steady(s: SupervisorView, now: u64, reply: Reply)
    requires
        steady(s),
        s.tasks.len() > 0,
        s.tasks.last() is IdentitySeen,
    ensures
        steady(answered_process(rest_of(s), s.tasks.last(), now, reply).state),
        !(answered_process(rest_of(s), s.tasks.last(), now, reply).effect is Spawn),
{
    reveal(answered_process);
    topmost_holds(s);
    following_stays_steady(s, answered_process(rest_of(s), s.tasks.last(), now, reply).state);
}

#[verifier::spinoff_prover]
#[verifier::rlimit(60)]
proof fn exits_keep_steady(s: SupervisorView, now: u64, reply: Reply)
    requires
        steady(s),
        s.tasks.len() > 0,
        s.tasks.last() is ExitPolled,
    ensures
        steady(answered_process(rest_of(s), s.tasks.last(), now, reply).state),
        !(answered_process(rest_of(s), s.tasks.last(), now, reply).effect is Spawn),
{
    reveal(answered_process);
    topmost_holds(s);
    if reply is Exit {
        let explicit = s.tasks.last()->ExitPolled_explicit;
        let exit = exit_view(reply->exit);
        let seen = exit_observed(
            rest_of(s),
            reply->cleanup,
            match exit {
                Ok(_) => None,
                Err(error) => Some(error),
            },
        );
        if seen.process is Some {
            pending_groups_follow(s, seen, now, explicit);
            lost_identities_follow(s, seen, now);
            if exit is Ok && exit->Ok_0 is Some {
                completed_exits_follow(s, seen, explicit, exit->Ok_0->0);
            }
        }
    }
    following_stays_steady(s, answered_process(rest_of(s), s.tasks.last(), now, reply).state);
}

#[verifier::spinoff_prover]
#[verifier::rlimit(60)]
proof fn lost_leaders_keep_steady(s: SupervisorView, now: u64, reply: Reply)
    requires
        steady(s),
        s.tasks.len() > 0,
        s.tasks.last() is LeaderGone,
    ensures
        steady(answered_process(rest_of(s), s.tasks.last(), now, reply).state),
        !(answered_process(rest_of(s), s.tasks.last(), now, reply).effect is Spawn),
{
    reveal(answered_process);
    topmost_holds(s);
    if s.process is Some {
        completed_exits_follow(
            s,
            rest_of(s),
            s.tasks.last()->LeaderGone_explicit,
            ExitReason::Disappeared,
        );
    }
    following_stays_steady(s, answered_process(rest_of(s), s.tasks.last(), now, reply).state);
}

#[verifier::spinoff_prover]
#[verifier::rlimit(60)]
proof fn synced_health_keeps_steady(s: SupervisorView, now: u64, reply: Reply)
    requires
        steady(s),
        s.tasks.len() > 0,
        s.tasks.last() is HealthSynced,
    ensures
        steady(answered_health(rest_of(s), s.tasks.last(), now, reply).state),
        !(answered_health(rest_of(s), s.tasks.last(), now, reply).effect is Spawn),
{
    reveal(answered_health);
    topmost_holds(s);
    following_stays_steady(s, answered_health(rest_of(s), s.tasks.last(), now, reply).state);
}

#[verifier::spinoff_prover]
#[verifier::rlimit(60)]
proof fn polled_health_keeps_steady(s: SupervisorView, now: u64, reply: Reply)
    requires
        steady(s),
        s.tasks.len() > 0,
        s.tasks.last() is HealthPolled,
    ensures
        steady(answered_health(rest_of(s), s.tasks.last(), now, reply).state),
        !(answered_health(rest_of(s), s.tasks.last(), now, reply).effect is Spawn),
{
    reveal(answered_health);
    topmost_holds(s);
    if reply is HealthMessage && reply->HealthMessage_0 is Ready && s.health_checks.in_flight
        is Some {
        let result = reply->HealthMessage_0->Ready_0;
        let landed = SupervisorView { health_checks: s.health_checks.landed(), ..rest_of(s) };
        completions_follow(
            s,
            landed,
            HealthCompletionView {
                key: s.health_checks.in_flight->0.key,
                result: health_view(result),
            },
        );
    }
    following_stays_steady(s, answered_health(rest_of(s), s.tasks.last(), now, reply).state);
}

#[verifier::spinoff_prover]
#[verifier::rlimit(60)]
proof fn judged_health_keeps_steady(s: SupervisorView, now: u64, reply: Reply)
    requires
        steady(s),
        s.tasks.len() > 0,
        s.tasks.last() is HealthJudged,
    ensures
        steady(answered_health(rest_of(s), s.tasks.last(), now, reply).state),
        !(answered_health(rest_of(s), s.tasks.last(), now, reply).effect is Spawn),
{
    reveal(answered_health);
    topmost_holds(s);
    if reply is Identity {
        judgments_follow(s, rest_of(s), holds(reply->Identity_0));
    }
    following_stays_steady(s, answered_health(rest_of(s), s.tasks.last(), now, reply).state);
}

#[verifier::spinoff_prover]
#[verifier::rlimit(60)]
proof fn started_work_keeps_steady(s: SupervisorView, now: u64, reply: Reply)
    requires
        steady(s),
        s.tasks.len() > 0,
        s.tasks.last() is HealthStarted || s.tasks.last() is VersionStarted,
    ensures
        steady(answered_health(rest_of(s), s.tasks.last(), now, reply).state),
        !(answered_health(rest_of(s), s.tasks.last(), now, reply).effect is Spawn),
{
    reveal(answered_health);
    topmost_holds(s);
    following_stays_steady(s, answered_health(rest_of(s), s.tasks.last(), now, reply).state);
}

#[verifier::spinoff_prover]
#[verifier::rlimit(60)]
proof fn polled_versions_keep_steady(s: SupervisorView, now: u64, reply: Reply)
    requires
        steady(s),
        s.tasks.len() > 0,
        s.tasks.last() is VersionPolled,
    ensures
        steady(answered_health(rest_of(s), s.tasks.last(), now, reply).state),
        !(answered_health(rest_of(s), s.tasks.last(), now, reply).effect is Spawn),
{
    reveal(answered_health);
    topmost_holds(s);
    following_stays_steady(s, answered_health(rest_of(s), s.tasks.last(), now, reply).state);
}

/// A step keeps what holds of the supervisor at all times, and starts a process
/// only while none is under supervision, none is suspected to be running, and
/// only behind a launch marker whose write was durable, while no other write is
/// in doubt.
pub proof fn never_a_second_process(s: SupervisorView, now: u64, reply: Reply)
    requires
        steady(s),
        accepted(s, reply),
    ensures
        steady(stepped(s, now, reply).state),
        stepped(s, now, reply).effect is Spawn ==> {
            &&& s.process is None
            &&& !s.server.unverified_process_record
            &&& s.runtime.launch_pending is Some
            &&& is_written_out(s)
            &&& s.tasks.last() is Persisted
            &&& s.tasks.last()->Persisted_purpose is LaunchMarker
            &&& s.tasks.last()->persistence is Durable
        },
{
    if s.tasks.len() > 0 {
        let top = s.tasks.last();
        reveal(performed);
        reveal(answered);
        if awaits(top) {
            replies_keep_steady(s, now, reply);
        } else {
            match top {
                Task::BootMerge | Task::BootReattach | Task::BootSettle => boots_keep_steady(s),
                Task::Command(_) => commands_keep_steady(s, now),
                Task::Persisted { .. } => writes_keep_steady(s, now),
                Task::Tick(_) => ticks_keep_steady(s),
                Task::RefreshConfig
                | Task::RecheckStale
                | Task::ConfigChecked
                | Task::PollProcess
                | Task::PollExit
                | Task::PollVersion => observations_keep_steady(s, now),
                Task::SyncHealth(_) => health_syncs_keep_steady(s, now),
                Task::Apply(_) => intents_keep_steady(s, now),
                Task::BeginStop { .. } => stops_keep_steady(s, now),
                Task::Launch(_) => launches_keep_steady(s, now),
                _ => small_steps_keep_steady(s, now),
            }
        }
    }
}

proof fn writes_keep_steady(s: SupervisorView, now: u64)
    requires
        steady(s),
        s.tasks.len() > 0,
        s.tasks.last() is Persisted,
    ensures
        ({
            let next = persisted(
                rest_of(s),
                now,
                s.tasks.last()->Persisted_purpose,
                s.tasks.last()->persistence,
            );
            &&& steady(next.state)
            &&& next.effect is Spawn ==> s.process is None
                && !s.server.unverified_process_record && s.runtime.launch_pending is Some
                && is_written_out(s) && s.tasks.last()->Persisted_purpose is LaunchMarker && s.tasks.last()->persistence
                is Durable
        }),
{
    match s.tasks.last()->Persisted_purpose {
        SaveThen::DesiredState { .. } => written_intents_keep_steady(s, now),
        SaveThen::LaunchMarker(_) => written_markers_keep_steady(s, now),
        SaveThen::LaunchAborted(_) => written_aborts_keep_steady(s, now),
        SaveThen::RecordCleared { .. } => written_clears_keep_steady(s, now),
        SaveThen::RecordDiscarded { .. } => written_discards_keep_steady(s, now),
        SaveThen::Retry | SaveThen::RetryUnwound => written_retries_keep_steady(s, now),
        SaveThen::BootCleared => written_boots_keep_steady(s, now),
        _ => written_launches_keep_steady(s, now),
    }
}

proof fn replies_keep_steady(s: SupervisorView, now: u64, reply: Reply)
    requires
        steady(s),
        s.tasks.len() > 0,
        awaits(s.tasks.last()),
        accepted(s, reply),
    ensures
        steady(answered(rest_of(s), s.tasks.last(), now, reply).state),
        !(answered(rest_of(s), s.tasks.last(), now, reply).effect is Spawn),
{
    reveal(answered);
    match s.tasks.last() {
        Task::ReattachInspected => first_inspections_keep_steady(s, now, reply),
        Task::ReattachGroup => first_group_looks_keep_steady(s, now, reply),
        Task::ReattachHealth => first_answers_keep_steady(s, now, reply),
        Task::ReattachRechecked => second_inspections_keep_steady(s, now, reply),
        Task::BootMerged | Task::TeamsCompared | Task::ConfigLoaded | Task::ReadStarted =>
            merges_keep_steady(s, now, reply),
        Task::CredentialProbed => probes_keep_steady(s, now, reply),
        Task::CredentialPolled => passwords_keep_steady(s, now, reply),
        Task::StaleInspected
        | Task::StaleConfirmed
        | Task::UnverifiedInspected
        | Task::UnverifiedGroup => inspections_keep_steady(s, now, reply),
        Task::IdentitySeen => identities_keep_steady(s, now, reply),
        Task::ExitPolled { .. } => exits_keep_steady(s, now, reply),
        Task::LeaderGone { .. } => lost_leaders_keep_steady(s, now, reply),
        Task::HealthSynced(_) => synced_health_keeps_steady(s, now, reply),
        Task::HealthPolled { .. } => polled_health_keeps_steady(s, now, reply),
        Task::HealthJudged => judged_health_keeps_steady(s, now, reply),
        Task::HealthStarted | Task::VersionStarted => started_work_keeps_steady(s, now, reply),
        Task::VersionPolled => polled_versions_keep_steady(s, now, reply),
        Task::Spawned(_) => spawns_keep_steady(s, now, reply),
        Task::AwaitSave(_) => saves_keep_steady(s, now, reply),
        _ => signals_keep_steady(s, now, reply),
    }
}

/// What holds at all times holds of an agent that boots.
pub proof fn boots_are_steady(
    key: Seq<u8>,
    options: SupervisorOptions,
    now: u64,
    loaded: Result<RuntimeStateView, Seq<char>>,
    config: Result<ValidatedConfigView, Seq<char>>,
    fda: FdaState,
)
    ensures
        steady(booted(key, options, now, loaded, config, fda)),
{
    reveal(steady);
    let s = booted(key, options, now, loaded, config, fda);
    assert(s.tasks[0] is BootReattach);
    assert(s.tasks[1] is BootMerge);
}

/// What holds at all times still holds once an idle supervisor was handed a
/// command, a tick, a look at the process or a refresh of the configuration.
pub proof fn requests_keep_steady(s: SupervisorView, command: Command, now: u64)
    requires
        steady(s),
        s.tasks.len() == 0,
    ensures
        steady(
            (SupervisorView {
                hand: HandView { failure: None, ..s.hand },
                ..s
            }).with_task(Task::Command(command)),
        ),
        steady(
            (SupervisorView { timers: Timers { tick_at: now, ..s.timers }, ..s }).with_task(
                Task::Tick(TickStage::Retry),
            ),
        ),
        steady(s.with_task(Task::PollProcess)),
        steady(s.with_task(Task::ConfigChecked).with_task(Task::RefreshConfig)),
{
    reveal(steady);
}

} // verus!
