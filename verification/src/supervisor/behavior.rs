//! What the supervisor does, told from outside: which effects a command, a
//! boot, a tick or a reply leads to, and what the state shows afterwards.

#[allow(unused_imports)]
use vstd::prelude::*;
#[allow(unused_imports)]
use crate::failure::{Failure, FailureKind, FailureView};
#[allow(unused_imports)]
use crate::process::{ExitReason, ManagedProcess, ManagedProcessView, SpawnError};
#[allow(unused_imports)]
use crate::protocol::{Command, DesiredState, FdaState, HealthState, ServerState};
#[allow(unused_imports)]
use crate::runtime_state::{
    ProcessRecordView, RuntimeState, RuntimeStateSaveOutcome, SaveOutcomeView,
};
#[allow(unused_imports)]
use crate::process_cleanup::PendingGroupCleanup;
#[allow(unused_imports)]
use super::configuration::{
    credential_changing, credential_polling, credential_removed, credential_requested,
};
#[allow(unused_imports)]
use super::installed_version::version_polling;
#[allow(unused_imports)]
use super::launch_transaction::marked;
#[allow(unused_imports)]
use super::lifecycle::{
    applying, forcing, killed, launching, signal_view, start_applied, start_attempted,
    stop_applied, stop_begun, terminated, waiting_on,
};
#[allow(unused_imports)]
use super::notification::notifying;
#[allow(unused_imports)]
use super::process_exit::{
    exit_asked, exit_completed, exit_followed, exit_polled, exit_view, record_cleared,
    restart_scheduled,
};
#[allow(unused_imports)]
use super::reattach::unverified_checked;
#[allow(unused_imports)]
use super::runtime_durability::{converging, desired, desiring, meaning, retrying, saved};
#[allow(unused_imports)]
use super::steps::{
    answered, answered_lifecycle, answered_process, awaits, commanded, config_due, performed,
    performed_lifecycle, performed_observation, persisted, port_retry_due, recovery_due,
    stable_run, stepped, stop_timed_out, ticked,
};
#[allow(unused_imports)]
use super::{
    go_on, later, Effect, LaunchView, Next, Notice, PendingDurableConvergence, PendingLifecycleIntent,
    Reply, RuntimePersistence, SaveThen, StartTrigger, StopSignal, SupervisorView, Task, TickStage,
};

verus! {

/// The state after a step that needs no reply.
pub open spec fn next(s: SupervisorView, now: u64) -> SupervisorView {
    stepped(s, now, Reply::Nothing).state
}

/// The state after the runtime state was written durably, and what was waiting
/// for that was told so.
pub open spec fn written(s: SupervisorView, now: u64) -> SupervisorView {
    stepped(s, now, Reply::Saved(RuntimeStateSaveOutcome::Durable)).state
}

/// The topmost task is run, and with nothing else on its mind.
pub(super) proof fn the_top_runs(s: SupervisorView, task: Task, now: u64, reply: Reply)
    ensures
        awaits(task) ==> stepped(s.with_task(task), now, reply) == answered(s, task, now, reply),
        !awaits(task) ==> stepped(s.with_task(task), now, reply) == performed(s, task, now),
{
    assert(s.with_task(task).tasks.drop_last() =~= s.tasks);
}

pub(super) proof fn a_command_runs(s: SupervisorView, now: u64, command: Command)
    ensures
        ({
            let after = stepped(s.with_task(Task::Command(command)), now, Reply::Nothing);
            match command {
                Command::Status => after == go_on(s),
                Command::ValidateConfig => after == go_on(s),
                Command::Start => after == desiring(
                    s,
                    DesiredState::Running,
                    PendingLifecycleIntent::Start,
                ),
                Command::Stop => after == desiring(
                    s,
                    DesiredState::Stopped,
                    PendingLifecycleIntent::Stop,
                ),
                Command::Restart => after == desiring(
                    s,
                    DesiredState::Running,
                    PendingLifecycleIntent::Restart,
                ),
                Command::ContinueStop => after == go_on(waiting_on(s, now)),
                Command::ForceStop => after == forcing(s),
                Command::RefreshCredentials => after == credential_requested(s),
                Command::CredentialChanged => after == credential_changing(s),
                Command::CredentialRemoved => after == credential_removed(s),
                _ => after == commanded(s, now, command),
            }
        }),
{
    the_top_runs(s, Task::Command(command), now, Reply::Nothing);
    reveal(performed);
    reveal(commanded);
}

proof fn a_write_is_passed_on(s: SupervisorView, now: u64, purpose: SaveThen)
    ensures
        stepped(
            written(s.with_task(Task::AwaitSave(purpose)), now),
            now,
            Reply::Nothing,
        ) == persisted(
            saved(s, now, SaveOutcomeView::Durable),
            now,
            purpose,
            RuntimePersistence::Durable,
        ),
{
    the_top_runs(
        s,
        Task::AwaitSave(purpose),
        now,
        Reply::Saved(RuntimeStateSaveOutcome::Durable),
    );
    reveal(answered);
    reveal(answered_lifecycle);
    assert(written(s.with_task(Task::AwaitSave(purpose)), now) == saved(
        s,
        now,
        SaveOutcomeView::Durable,
    ).with_task(Task::Persisted { purpose, persistence: RuntimePersistence::Durable }));
    the_top_runs(
        saved(s, now, SaveOutcomeView::Durable),
        Task::Persisted { purpose, persistence: RuntimePersistence::Durable },
        now,
        Reply::Nothing,
    );
    reveal(performed);
}

pub(super) proof fn a_write_is_told(s: SupervisorView, now: u64, purpose: SaveThen)
    ensures
        ({
            let told = saved(s, now, SaveOutcomeView::Durable);
            let after = stepped(
                written(s.with_task(Task::AwaitSave(purpose)), now),
                now,
                Reply::Nothing,
            );
            match purpose {
                SaveThen::DesiredState { intent, previous } => after == go_on(
                    desired(told, intent, previous, RuntimePersistence::Durable),
                ),
                SaveThen::RecordCleared { explicit, exit } => after == go_on(
                    record_cleared(told, now, explicit, exit, RuntimePersistence::Durable),
                ),
                SaveThen::BootCleared => after == go_on(converging(told)),
                SaveThen::LaunchMarker(trigger) => after == marked(
                    told,
                    trigger,
                    RuntimePersistence::Durable,
                ),
                _ => true,
            }
        }),
{
    a_write_is_passed_on(s, now, purpose);
    reveal(persisted);
}

proof fn a_lifecycle_task_is_passed_on(s: SupervisorView, task: Task, now: u64)
    requires
        task is Apply || task is StartApplied || task is StopApplied || task is BeginStop
            || task is StartNow || task is Launch || task is ScheduleRestart || task is Notify,
    ensures
        stepped(s.with_task(task), now, Reply::Nothing) == performed_lifecycle(s, task, now),
{
    the_top_runs(s, task, now, Reply::Nothing);
    reveal(performed);
}

pub(super) proof fn a_lifecycle_task_runs(s: SupervisorView, task: Task, now: u64)
    ensures
        ({
            let after = stepped(s.with_task(task), now, Reply::Nothing);
            match task {
                Task::Apply(intent) => after == go_on(applying(s, intent)),
                Task::StartApplied => after == go_on(start_applied(s)),
                Task::StopApplied => after == go_on(stop_applied(s)),
                Task::BeginStop { restarting } => after == stop_begun(s, now, restarting),
                Task::StartNow(trigger) => after == go_on(start_attempted(s, now, trigger)),
                Task::Launch(trigger) => after == launching(s, now, trigger),
                Task::ScheduleRestart => after == go_on(restart_scheduled(s, now)),
                Task::Notify(notice) => after == notifying(s, notice),
                _ => true,
            }
        }),
{
    if task is Apply || task is StartApplied || task is StopApplied || task is BeginStop
        || task is StartNow || task is Launch || task is ScheduleRestart || task is Notify {
        a_lifecycle_task_is_passed_on(s, task, now);
        reveal(performed_lifecycle);
    }
}

pub(super) proof fn an_exit_is_asked_for(s: SupervisorView, now: u64)
    ensures
        stepped(s.with_task(Task::PollExit), now, Reply::Nothing) == exit_asked(s),
{
    the_top_runs(s, Task::PollExit, now, Reply::Nothing);
    reveal(performed);
    reveal(performed_observation);
}

pub(super) proof fn an_exit_is_told(
    s: SupervisorView,
    now: u64,
    explicit: bool,
    cleanup: Option<PendingGroupCleanup>,
    exit: Result<Option<ExitReason>, Failure>,
)
    ensures
        stepped(
            s.with_task(Task::ExitPolled { explicit }),
            now,
            Reply::Exit { cleanup, exit },
        ) == exit_polled(s, now, explicit, cleanup, exit_view(exit)),
{
    the_top_runs(s, Task::ExitPolled { explicit }, now, Reply::Exit { cleanup, exit });
    reveal(answered);
    reveal(answered_process);
}

pub(super) proof fn a_signal_is_told(s: SupervisorView, task: Task, now: u64, sent: Result<(), Failure>)
    requires
        task is Terminated || task is Killed,
    ensures
        stepped(s.with_task(task), now, Reply::Signaled(sent)) == go_on(
            match task {
                Task::Terminated { restarting } => terminated(
                    s,
                    now,
                    restarting,
                    signal_view(sent),
                ),
                _ => killed(s, signal_view(sent)),
            },
        ),
{
    the_top_runs(s, task, now, Reply::Signaled(sent));
    reveal(answered);
    reveal(answered_lifecycle);
}

pub(super) proof fn a_tick_runs(s: SupervisorView, now: u64, stage: TickStage)
    ensures
        ({
            let after = stepped(s.with_task(Task::Tick(stage)), now, Reply::Nothing);
            match stage {
                TickStage::Retry => after == retrying(
                    s.with_task(Task::Tick(TickStage::Process)),
                    s.timers.tick_at,
                ),
                TickStage::Unverified => after == unverified_checked(
                    s.with_task(Task::Tick(TickStage::StopTimeout)),
                    s.timers.tick_at,
                ),
                TickStage::StopTimeout => after == go_on(
                    stop_timed_out(s).with_task(Task::Tick(TickStage::Recovery)),
                ),
                TickStage::Recovery => after == go_on(
                    recovery_due(s.with_task(Task::Tick(TickStage::PortRetry))),
                ),
                TickStage::PortRetry => after == go_on(
                    port_retry_due(s.with_task(Task::Tick(TickStage::Config))),
                ),
                TickStage::Config => after == go_on(
                    config_due(s.with_task(Task::Tick(TickStage::HealthPoll))),
                ),
                TickStage::Version => after == version_polling(
                    s.with_task(Task::Tick(TickStage::Credential)),
                ),
                TickStage::Credential => after == credential_polling(
                    s.with_task(Task::Tick(TickStage::Stable)),
                ),
                TickStage::Stable => after == go_on(stable_run(s)),
                _ => after == ticked(s, stage),
            }
        }),
{
    the_top_runs(s, Task::Tick(stage), now, Reply::Nothing);
    reveal(performed);
    reveal(ticked);
}

/// An instant some time after another is that much later, as far as it can be
/// represented.
pub proof fn instants_add_up(now: u64, delay: u64)
    ensures
        now + delay <= u64::MAX ==> later(now, delay) == now + delay,
        now + delay > u64::MAX ==> later(now, delay) == u64::MAX,
{
}

/// A start, a stop and a restart write down what is wanted before anything
/// else happens: a server that runs after a start or a restart, and one that
/// is stopped after a stop. No other command changes what is wanted.
pub proof fn commands_say_what_is_wanted(s: SupervisorView, now: u64, command: Command)
    ensures
        ({
            let asked = stepped(s.with_task(Task::Command(command)), now, Reply::Nothing);
            let lasting = command is Start || command is Stop || command is Restart;
            &&& lasting && s.durable.loaded ==> {
                &&& asked.effect is SaveRuntime
                &&& asked.state.runtime.desired_state is Stopped <==> command is Stop
                &&& asked.state.runtime.process == s.runtime.process
                &&& asked.state.runtime.launch_pending == s.runtime.launch_pending
                &&& asked.state.runtime.notification == s.runtime.notification
            }
            &&& lasting && !s.durable.loaded ==> {
                &&& asked.effect is Continue
                &&& asked.state.tasks == s.tasks
                &&& asked.state.hand.failure is Some
            }
            &&& !lasting || !s.durable.loaded ==> asked.state.runtime == s.runtime
            &&& asked.state.process == s.process
            &&& asked.state.server.state == s.server.state || command is ContinueStop
        }),
{
    a_command_runs(s, now, command);
    reveal(commanded);
}

/// A start that was asked for, and is not refused, leads to an attempt as soon
/// as it was written down, with a fresh series of attempts before it.
pub proof fn start_commands_start(s: SupervisorView, now: u64)
    requires
        s.durable.loaded,
        s.process is None,
        !s.server.unverified_process_record,
        !(s.credentials.state is AccessPending),
    ensures
        ({
            let asked = next(s.with_task(Task::Command(Command::Start)), now);
            let applied = next(next(written(asked, now), now), now);
            &&& applied.tasks == s.tasks.push(Task::StartApplied).push(
                Task::StartNow(StartTrigger::Cold),
            )
            &&& applied.runtime.desired_state is Running
            &&& applied.server.restart_attempt_index == 0
            &&& applied.timers.next_restart is None
            &&& applied.timers.next_port_retry is None
            &&& applied.hand.failure == s.hand.failure
        }),
{
    let previous = s.runtime.desired_state;
    let intent = PendingLifecycleIntent::Start;
    let purpose = SaveThen::DesiredState { intent, previous };
    let base = meaning(s, DesiredState::Running);
    a_command_runs(s, now, Command::Start);
    let asked = next(s.with_task(Task::Command(Command::Start)), now);
    assert(asked == base.with_task(Task::AwaitSave(purpose)));
    a_write_is_told(base, now, purpose);
    let due = next(written(asked, now), now);
    let calm = SupervisorView { tasks: s.tasks, ..due };
    assert(due.tasks == s.tasks.push(Task::Apply(intent)));
    assert(due == calm.with_task(Task::Apply(intent)));
    a_lifecycle_task_runs(calm, Task::Apply(intent), now);
}

/// After OpenCode was asked to terminate, the server is stopping and has 15
/// seconds for it. Where that failed, the server failed and says why, and what
/// runs is unchanged.
pub proof fn terminated_servers_are_stopping(
    s: SupervisorView,
    now: u64,
    restarting: bool,
    sent: Result<(), Failure>,
)
    ensures
        ({
            let after = stepped(
                s.with_task(Task::Terminated { restarting }),
                now,
                Reply::Signaled(sent),
            );
            &&& after.effect is Continue
            &&& after.state.tasks == s.tasks
            &&& after.state.process == s.process
            &&& after.state.runtime == s.runtime
            &&& sent is Ok ==> {
                &&& after.state.server.state is Stopping
                &&& after.state.server.health is Unknown
                &&& after.state.timers.stop_deadline == Some(later(now, 15_000_000_000))
                &&& after.state.texts.last_error is None
            }
            &&& sent matches Err(error) ==> {
                &&& after.state.server.state is Failed
                &&& after.state.texts.last_error == Some(error.message@)
            }
        }),
{
    a_signal_is_told(s, Task::Terminated { restarting }, now, sent);
}

/// A restart starts OpenCode again: once the process that it terminated has
/// exited, and its record was durably cleared, a start is due.
pub proof fn restarts_start_again(
    s: SupervisorView,
    now: u64,
    sent: Result<(), Failure>,
    exited_at: u64,
    exit: ExitReason,
)
    requires
        sent is Ok,
        s.process matches Some(process) && process.owned() && !process.group_exit_pending(),
        s.durable.loaded,
        s.runtime.desired_state is Running,
        !s.server.group_cleanup_recovery,
        exit is Exited || exit is Signaled,
    ensures
        ({
            let stopping = stepped(
                s.with_task(Task::Terminated { restarting: true }),
                now,
                Reply::Signaled(sent),
            ).state;
            let asked = stepped(stopping.with_task(Task::PollExit), exited_at, Reply::Nothing);
            let gone = stepped(
                asked.state,
                exited_at,
                Reply::Exit { cleanup: None, exit: Ok(Some(exit)) },
            );
            let cleared = next(written(gone.state, exited_at), exited_at);
            &&& asked.effect is PollExit
            &&& gone.effect is SaveRuntime
            &&& gone.state.process is None
            &&& gone.state.runtime.process is None
            &&& cleared.tasks == s.tasks.push(Task::StartNow(StartTrigger::AfterStop))
            &&& !cleared.server.restart_after_stop
        }),
{
    a_signal_is_told(s, Task::Terminated { restarting: true }, now, sent);
    let stopping = stepped(
        s.with_task(Task::Terminated { restarting: true }),
        now,
        Reply::Signaled(sent),
    ).state;

    an_exit_is_asked_for(stopping, exited_at);
    let asked = next(stopping.with_task(Task::PollExit), exited_at);
    assert(asked == stopping.with_task(Task::ExitPolled { explicit: true }));
    an_exit_is_told(stopping, exited_at, true, None, Ok(Some(exit)));
    reveal(exit_completed);
    let gone = stepped(
        asked,
        exited_at,
        Reply::Exit { cleanup: None, exit: Ok(Some(exit)) },
    ).state;
    let purpose = SaveThen::RecordCleared { explicit: true, exit };
    let rest = SupervisorView { tasks: s.tasks, ..gone };
    assert(gone == rest.with_task(Task::AwaitSave(purpose)));
    a_write_is_told(rest, exited_at, purpose);
    reveal(exit_followed);
}

/// The five attempts to recover are made after 1, 2, 5, 15 and 30 seconds.
/// After the fifth there is no other one: the server failed, and whoever was
/// told of the incident is told that.
pub proof fn recoveries_wait_longer_each_time(s: SupervisorView, now: u64)
    ensures
        ({
            let attempt = s.server.restart_attempt_index;
            let after = next(s.with_task(Task::ScheduleRestart), now);
            &&& attempt == 0 ==> after.timers.next_restart == Some(later(now, 1_000_000_000))
            &&& attempt == 1 ==> after.timers.next_restart == Some(later(now, 2_000_000_000))
            &&& attempt == 2 ==> after.timers.next_restart == Some(later(now, 5_000_000_000))
            &&& attempt == 3 ==> after.timers.next_restart == Some(later(now, 15_000_000_000))
            &&& attempt == 4 ==> after.timers.next_restart == Some(later(now, 30_000_000_000))
            &&& attempt < 5 ==> {
                &&& after.server.state is WaitingToRestart
                &&& after.server.restart_attempt_index == attempt + 1
                &&& after.tasks == s.tasks
                &&& after.texts.last_error is Some
            }
            &&& attempt >= 5 ==> {
                &&& after.timers.next_restart is None
                &&& after.server.state is Failed
                &&& !after.server.recovery_incident_active
                &&& s.server.recovery_incident_active ==> after.tasks == s.tasks.push(
                    Task::Notify(Notice::RecoveryExhausted),
                )
                &&& !s.server.recovery_incident_active ==> after.tasks == s.tasks
            }
        }),
{
    a_lifecycle_task_runs(s, Task::ScheduleRestart, now);
    reveal(restart_scheduled);
}

/// A recovery, or another try at an endpoint, that is due at a tick starts
/// OpenCode, unless something runs; one that is not due yet starts nothing and
/// stays due.
pub proof fn due_starts_are_made(s: SupervisorView, now: u64)
    ensures
        ({
            let after = next(s.with_task(Task::Tick(TickStage::Recovery)), now);
            let on = s.tasks.push(Task::Tick(TickStage::PortRetry));
            match s.timers.next_restart {
                Some(at) => if s.timers.tick_at >= at && s.process is None {
                    &&& after.tasks == on.push(Task::StartNow(StartTrigger::Recovery))
                    &&& after.timers.next_restart is None
                } else {
                    after.tasks == on && after.timers.next_restart == Some(at)
                },
                None => after.tasks == on,
            }
        }),
        ({
            let after = next(s.with_task(Task::Tick(TickStage::PortRetry)), now);
            let on = s.tasks.push(Task::Tick(TickStage::Config));
            match s.timers.next_port_retry {
                Some(at) => if s.timers.tick_at >= at && s.process is None {
                    &&& after.tasks == on.push(
                        Task::StartNow(
                            if s.server.pending_start_trigger is Some {
                                s.server.pending_start_trigger->0
                            } else {
                                StartTrigger::AfterStop
                            },
                        ),
                    )
                    &&& after.timers.next_port_retry is None
                } else {
                    after.tasks == on && after.timers.next_port_retry == Some(at)
                },
                None => after.tasks == on,
            }
        }),
{
    a_tick_runs(s, now, TickStage::Recovery);
    a_tick_runs(s, now, TickStage::PortRetry);
}

/// A graceful stop that takes too long is reported as such at the first tick
/// after its time, and is then no longer timed. Nothing is killed.
pub proof fn late_stops_are_reported(s: SupervisorView, now: u64)
    ensures
        ({
            let after = stepped(
                s.with_task(Task::Tick(TickStage::StopTimeout)),
                now,
                Reply::Nothing,
            );
            let late = s.server.state is Stopping && s.timers.stop_deadline is Some
                && s.timers.tick_at >= s.timers.stop_deadline->0;
            &&& after.effect is Continue
            &&& after.state.process == s.process
            &&& after.state.tasks == s.tasks.push(Task::Tick(TickStage::Recovery))
            &&& late ==> after.state.server.state is StopTimedOut
                && after.state.timers.stop_deadline is None && after.state.texts.last_error is Some
            &&& !late ==> after.state.server == s.server && after.state.timers == s.timers
        }),
{
    a_tick_runs(s, now, TickStage::StopTimeout);
}

/// A stop that took too long can be given another 15 seconds, or be forced.
/// Neither is possible for a server that was not asked to stop.
pub proof fn late_stops_can_go_on_or_be_forced(s: SupervisorView, now: u64)
    ensures
        ({
            let waiting = next(s.with_task(Task::Command(Command::ContinueStop)), now);
            &&& s.server.state is StopTimedOut ==> {
                &&& waiting.server.state is Stopping
                &&& waiting.timers.stop_deadline == Some(later(now, 15_000_000_000))
                &&& waiting.hand.failure == s.hand.failure
                &&& waiting.texts.last_error is None
            }
            &&& !(s.server.state is StopTimedOut) ==> {
                &&& waiting.server == s.server
                &&& waiting.timers == s.timers
                &&& waiting.hand.failure is Some
            }
            &&& waiting.tasks == s.tasks
        }),
        ({
            let forced = stepped(
                s.with_task(Task::Command(Command::ForceStop)),
                now,
                Reply::Nothing,
            );
            let stopping = s.server.state is Stopping || s.server.state is StopTimedOut;
            &&& stopping && s.process is Some ==> {
                &&& forced.effect == Effect::Signal(StopSignal::Kill)
                &&& forced.state.tasks == s.tasks.push(Task::Killed)
                &&& forced.state.hand.failure == s.hand.failure
            }
            &&& !stopping || s.process is None ==> {
                &&& forced.effect is Continue
                &&& forced.state.tasks == s.tasks
                &&& forced.state.hand.failure is Some
            }
        }),
{
    a_command_runs(s, now, Command::ContinueStop);
    a_command_runs(s, now, Command::ForceStop);
}

/// A killed server is stopping without a time limit; where it could not be
/// killed, the command fails for that reason.
pub proof fn killed_servers_are_stopping(s: SupervisorView, now: u64, sent: Result<(), Failure>)
    ensures
        ({
            let after = stepped(s.with_task(Task::Killed), now, Reply::Signaled(sent)).state;
            &&& after.tasks == s.tasks
            &&& after.process == s.process
            &&& sent is Ok ==> after.server.state is Stopping && after.timers.stop_deadline is None
                && after.texts.last_error is None
            &&& sent matches Err(error) ==> after.server == s.server && after.timers == s.timers
                && after.hand.failure == Some(error.deep_view())
        }),
{
    a_signal_is_told(s, Task::Killed, now, sent);
}

} // verus!
