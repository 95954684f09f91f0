//! Starting OpenCode, from the look at its endpoint to a process whose
//! identity is confirmed, and the handling of one whose identity is not.

#[allow(unused_imports)]
use vstd::prelude::*;
use crate::config::ValidatedConfig;
use crate::config_fingerprint::ConfigFingerprint;
use crate::failure::Failure;
#[allow(unused_imports)]
use crate::failure::{failure, FailureKind, FailureView};
use crate::platform::ProcessSnapshot;
use crate::process::{
    confirm_own_group, record_from_snapshot, survivor_record, ManagedProcess, SnapshotStep,
    SnapshotWait, SpawnError,
};
#[allow(unused_imports)]
use crate::process::{
    expected_look, started_record, unconfirmed_record, ManagedProcessView, IDENTITY_ATTEMPTS,
};
use crate::process_cleanup::UnregisteredChildShutdown;
use crate::runtime_state::ProcessRecord;
use crate::text::clone_text;

verus! {

/// Where a start stands.
pub enum SpawnStage {
    /// The endpoint is looked at.
    Endpoint,
    /// OpenCode is started.
    Start,
    /// The fresh process is looked at.
    Confirm { pid: u32, wait: SnapshotWait },
    /// The unconfirmed child is asked to stop.
    Stop { error: Failure, record: ProcessRecord },
}

/// The answer to a [`SpawnStage`].
pub enum SpawnFact {
    /// Whether the endpoint is free.
    Endpoint(Result<(), Failure>),
    /// The process identifier of the fresh child.
    Started(Result<u32, Failure>),
    /// A look at it, and whether it runs the configured executable.
    Looked { look: Result<ProcessSnapshot, Failure>, same_executable: bool },
    /// How the attempt to stop it ended.
    Stopped(UnregisteredChildShutdown),
}

/// How long to rest before the next stage.
#[derive(Clone, Copy, Debug, PartialEq, Eq, Structural)]
pub enum SpawnRest {
    AtOnce,
    /// Until the identity has settled.
    Settle,
    /// A moment before another look.
    Pause,
}

/// Progress of a start.
pub enum SpawnStep {
    Continue { stage: SpawnStage, rest: SpawnRest },
    Finished(Result<ManagedProcess, SpawnError>),
}

impl SpawnStage {
    /// There is a look left where one is to be taken.
    pub open spec fn inv(self) -> bool {
        self matches SpawnStage::Confirm { wait, .. } ==> wait.attempts_left > 0
    }

    /// A child exists that is not handed out yet.
    pub open spec fn holds_child(self) -> bool {
        self is Confirm || self is Stop
    }
}

/// The start failed and left nothing behind.
pub open spec fn failed_alone(step: SpawnStep, error: Failure) -> bool {
    step matches SpawnStep::Finished(Err(failed)) && failed.error == error && failed.survivor is None
}

/// The unconfirmed child is asked to stop, for a reason.
pub open spec fn stops(
    step: SpawnStep,
    error: FailureView,
    pid: u32,
    last: Option<ProcessSnapshot>,
    config: ValidatedConfig,
    config_fingerprint: ConfigFingerprint,
    unix_now: u64,
    pause: SpawnRest,
) -> bool {
    &&& step matches SpawnStep::Continue { stage: SpawnStage::Stop { error: kept, record }, rest }
    &&& rest == pause
    &&& kept.deep_view() == error
    &&& record.deep_view() == unconfirmed_record(
        pid,
        last,
        config.canonical_executable@,
        config_fingerprint.deep_view(),
        unix_now,
    )
}

/// What a look at the fresh process leads to.
pub open spec fn looked(
    pid: u32,
    wait: SnapshotWait,
    look: Result<ProcessSnapshot, Failure>,
    same_executable: bool,
    config: ValidatedConfig,
    installed_version: Option<String>,
    config_fingerprint: ConfigFingerprint,
    unix_now: u64,
    step: SpawnStep,
) -> bool {
    let mismatch = failure(
        FailureKind::Other,
        if wait.settling {
            "spawned process executable does not match the configured target after identity settle"@
        } else {
            "spawned process executable does not match the configured target"@
        },
    );
    let error = match look {
        Err(fault) => fault.deep_view(),
        Ok(_) => mismatch,
    };
    let last = match look {
        Ok(seen) => Some(seen),
        Err(_) => wait.last_snapshot,
    };
    if !expected_look(look, same_executable) {
        if wait.attempts_left == 1 {
            stops(
                step,
                error,
                pid,
                last,
                config,
                config_fingerprint,
                unix_now,
                SpawnRest::Pause,
            )
        } else {
            &&& step matches SpawnStep::Continue {
                stage: SpawnStage::Confirm { pid: same, wait: next },
                rest,
            }
            &&& same == pid
            &&& rest == (if wait.settling {
                SpawnRest::AtOnce
            } else {
                SpawnRest::Pause
            })
            &&& !next.settling
            &&& next.attempts_left == wait.attempts_left - 1
            &&& next.last_error matches Some(kept) && kept.deep_view() == error
            &&& next.last_snapshot == last
        }
    } else if !wait.settling {
        step == (SpawnStep::Continue {
            stage: SpawnStage::Confirm { pid, wait: SnapshotWait { settling: true, ..wait } },
            rest: SpawnRest::Settle,
        })
    } else if look->Ok_0.process_group_id != pid {
        stops(
            step,
            failure(FailureKind::Other, "OpenCode did not enter its dedicated process group"@),
            pid,
            last,
            config,
            config_fingerprint,
            unix_now,
            SpawnRest::AtOnce,
        )
    } else {
        &&& step matches SpawnStep::Finished(Ok(process))
        &&& process.deep_view() == (ManagedProcessView::Child {
            record: started_record(
                look->Ok_0,
                config.canonical_executable@,
                installed_version.deep_view(),
                config_fingerprint.deep_view(),
                unix_now,
            ),
            cleanup: None,
            identity_failed: false,
        })
    }
}

/// The answer is about the stage.
pub open spec fn answers_stage(stage: SpawnStage, fact: SpawnFact) -> bool {
    match stage {
        SpawnStage::Endpoint => fact is Endpoint,
        SpawnStage::Start => fact is Started,
        SpawnStage::Confirm { .. } => fact is Looked,
        SpawnStage::Stop { .. } => fact is Stopped,
    }
}

/// How a start goes on. The endpoint must be free before anything is started,
/// and a child is handed out as confirmed only after two looks at the
/// configured executable, the second one in its own group.
pub open spec fn spawn_follows(
    stage: SpawnStage,
    fact: SpawnFact,
    config: ValidatedConfig,
    installed_version: Option<String>,
    config_fingerprint: ConfigFingerprint,
    unix_now: u64,
    step: SpawnStep,
) -> bool {
    match (stage, fact) {
        (SpawnStage::Endpoint, SpawnFact::Endpoint(Ok(()))) => step == (SpawnStep::Continue {
            stage: SpawnStage::Start,
            rest: SpawnRest::AtOnce,
        }),
        (SpawnStage::Endpoint, SpawnFact::Endpoint(Err(error))) => failed_alone(step, error),
        (SpawnStage::Start, SpawnFact::Started(Ok(pid))) => {
            &&& step matches SpawnStep::Continue {
                stage: SpawnStage::Confirm { pid: fresh, wait },
                rest,
            }
            &&& fresh == pid
            &&& rest is AtOnce
            &&& wait.attempts_left == IDENTITY_ATTEMPTS
            &&& !wait.settling
            &&& wait.last_error is None
            &&& wait.last_snapshot is None
        },
        (SpawnStage::Start, SpawnFact::Started(Err(error))) => failed_alone(step, error),
        (SpawnStage::Confirm { pid, wait }, SpawnFact::Looked { look, same_executable }) => looked(
            pid,
            wait,
            look,
            same_executable,
            config,
            installed_version,
            config_fingerprint,
            unix_now,
            step,
        ),
        (SpawnStage::Stop { error, record }, SpawnFact::Stopped(shutdown)) => {
            &&& step matches SpawnStep::Finished(Err(failed))
            &&& failed.error == error
            &&& failed.survivor == (match shutdown {
                UnregisteredChildShutdown::Reaped(_) => None,
                UnregisteredChildShutdown::Survived { cleanup } => Some(
                    ManagedProcess::Child { record, cleanup, identity_failed: false },
                ),
            })
        },
        _ => false,
    }
}

impl ManagedProcess {
    /// Goes on with a start.
    pub fn spawn(
        stage: SpawnStage,
        fact: SpawnFact,
        config: &ValidatedConfig,
        installed_version: &Option<String>,
        config_fingerprint: &ConfigFingerprint,
        unix_now: u64,
    ) -> (step: Option<SpawnStep>)
        requires
            stage.inv(),
        ensures
            step is Some == answers_stage(stage, fact),
            step matches Some(next) ==> spawn_follows(
                stage,
                fact,
                *config,
                *installed_version,
                *config_fingerprint,
                unix_now,
                next,
            ),
            step matches Some(SpawnStep::Continue { stage: next, .. }) ==> next.inv(),
    {
        match (stage, fact) {
            (SpawnStage::Endpoint, SpawnFact::Endpoint(Ok(()))) => Some(
                SpawnStep::Continue { stage: SpawnStage::Start, rest: SpawnRest::AtOnce },
            ),
            (SpawnStage::Endpoint, SpawnFact::Endpoint(Err(error))) => Some(
                SpawnStep::Finished(Err(SpawnError::without_process(error))),
            ),
            (SpawnStage::Start, SpawnFact::Started(Ok(pid))) => Some(
                SpawnStep::Continue {
                    stage: SpawnStage::Confirm { pid, wait: SnapshotWait::new() },
                    rest: SpawnRest::AtOnce,
                },
            ),
            (SpawnStage::Start, SpawnFact::Started(Err(error))) => Some(
                SpawnStep::Finished(Err(SpawnError::without_process(error))),
            ),
            (
                SpawnStage::Confirm { pid, wait },
                SpawnFact::Looked { look, same_executable },
            ) => Some(
                confirm(
                    pid,
                    wait,
                    look,
                    same_executable,
                    config,
                    installed_version,
                    config_fingerprint,
                    unix_now,
                ),
            ),
            (SpawnStage::Stop { error, record }, SpawnFact::Stopped(shutdown)) => Some(
                SpawnStep::Finished(
                    Err(SpawnError::terminate_unconfirmed_child(error, record, shutdown)),
                ),
            ),
            _ => None,
        }
    }
}

/// Takes a look at the fresh process into account.
fn confirm(
    pid: u32,
    wait: SnapshotWait,
    look: Result<ProcessSnapshot, Failure>,
    same_executable: bool,
    config: &ValidatedConfig,
    installed_version: &Option<String>,
    config_fingerprint: &ConfigFingerprint,
    unix_now: u64,
) -> (step: SpawnStep)
    requires
        wait.attempts_left > 0,
    ensures
        looked(
            pid,
            wait,
            look,
            same_executable,
            *config,
            *installed_version,
            *config_fingerprint,
            unix_now,
            step,
        ),
        step matches SpawnStep::Continue { stage: next, .. } ==> next.inv(),
{
    let mut wait = wait;
    match wait.wait_for_snapshot_with(look, same_executable) {
        SnapshotStep::Settle => SpawnStep::Continue {
            stage: SpawnStage::Confirm { pid, wait },
            rest: SpawnRest::Settle,
        },
        SnapshotStep::Retry => SpawnStep::Continue {
            stage: SpawnStage::Confirm { pid, wait },
            rest: SpawnRest::AtOnce,
        },
        SnapshotStep::Pause => SpawnStep::Continue {
            stage: SpawnStage::Confirm { pid, wait },
            rest: SpawnRest::Pause,
        },
        SnapshotStep::Accept(snapshot) => match confirm_own_group(pid, &snapshot) {
            Ok(()) => {
                let record = record_from_snapshot(
                    snapshot,
                    config,
                    clone_text(installed_version),
                    config_fingerprint.clone(),
                    unix_now,
                );
                SpawnStep::Finished(
                    Ok(ManagedProcess::Child { record, cleanup: None, identity_failed: false }),
                )
            },
            Err(error) => {
                let last: Option<ProcessSnapshot> = Some(snapshot);
                SpawnStep::Continue {
                    stage: SpawnStage::Stop {
                        error,
                        record: survivor_record(
                            pid,
                            &last,
                            config,
                            config_fingerprint.clone(),
                            unix_now,
                        ),
                    },
                    rest: SpawnRest::AtOnce,
                }
            },
        },
        SnapshotStep::GiveUp { error, last_snapshot } => SpawnStep::Continue {
            stage: SpawnStage::Stop {
                error,
                record: survivor_record(
                    pid,
                    &last_snapshot,
                    config,
                    config_fingerprint.clone(),
                    unix_now,
                ),
            },
            rest: SpawnRest::Pause,
        },
    }
}

/// A child that was started is never lost sight of: a start ends with it under
/// supervision, confirmed or not, or with its exit reaped.
pub proof fn started_children_are_never_abandoned(
    stage: SpawnStage,
    fact: SpawnFact,
    config: ValidatedConfig,
    installed_version: Option<String>,
    config_fingerprint: ConfigFingerprint,
    unix_now: u64,
    step: SpawnStep,
)
    requires
        stage.inv(),
        spawn_follows(
            stage,
            fact,
            config,
            installed_version,
            config_fingerprint,
            unix_now,
            step,
        ),
    ensures
        match step {
            SpawnStep::Continue { stage: next, .. } => stage.holds_child() ==> next.holds_child(),
            SpawnStep::Finished(Ok(process)) => stage.holds_child() && process is Child,
            SpawnStep::Finished(Err(failed)) => {
                &&& stage.holds_child() && failed.survivor is None ==> fact is Stopped
                    && fact->Stopped_0 is Reaped
                &&& failed.survivor is Some ==> failed.survivor->0 is Child
            },
        },
{
}

/// Nothing is started before the endpoint was seen to be free.
pub proof fn starts_need_a_free_endpoint(
    stage: SpawnStage,
    fact: SpawnFact,
    config: ValidatedConfig,
    installed_version: Option<String>,
    config_fingerprint: ConfigFingerprint,
    unix_now: u64,
    step: SpawnStep,
)
    requires
        spawn_follows(
            stage,
            fact,
            config,
            installed_version,
            config_fingerprint,
            unix_now,
            step,
        ),
        step matches SpawnStep::Continue { stage: SpawnStage::Start, .. },
    ensures
        stage is Endpoint,
        fact is Endpoint && fact->Endpoint_0 is Ok,
{
}

/// A fresh child that settled on the configured executable, at the head of its
/// own group, is under supervision: recorded as it was seen, with the version
/// and the configuration that it was started with.
pub proof fn confirmed_children_are_supervised(
    pid: u32,
    wait: SnapshotWait,
    snapshot: ProcessSnapshot,
    config: ValidatedConfig,
    installed_version: Option<String>,
    config_fingerprint: ConfigFingerprint,
    unix_now: u64,
    step: SpawnStep,
)
    requires
        wait.settling,
        snapshot.executable is Some,
        snapshot.process_group_id == pid,
        spawn_follows(
            SpawnStage::Confirm { pid, wait },
            SpawnFact::Looked { look: Ok(snapshot), same_executable: true },
            config,
            installed_version,
            config_fingerprint,
            unix_now,
            step,
        ),
    ensures
        step matches SpawnStep::Finished(Ok(process)) && ({
            let record = process.deep_view().record();
            &&& process.deep_view().signalable()
            &&& !process.deep_view().group_exit_pending()
            &&& record.pid == snapshot.pid
            &&& record.process_group_id == pid
            &&& record.start_seconds == snapshot.start_seconds
            &&& record.start_microseconds == snapshot.start_microseconds
            &&& record.executable == snapshot.executable->0@
            &&& record.started_at_unix_seconds == unix_now
            &&& record.running_version == installed_version.deep_view()
            &&& record.config_fingerprint == config_fingerprint.deep_view()
            &&& !record.identity_unconfirmed
        }),
{
}

/// A look that shows the configured executable for the first time is repeated
/// once it settled; one that does not is repeated up to 20 times in all, and
/// then the child is stopped. An endpoint or a start that failed ends the
/// attempt with that failure and no process.
pub proof fn doubtful_children_are_looked_at_again(
    stage: SpawnStage,
    fact: SpawnFact,
    config: ValidatedConfig,
    installed_version: Option<String>,
    config_fingerprint: ConfigFingerprint,
    unix_now: u64,
    step: SpawnStep,
)
    requires
        stage.inv(),
        spawn_follows(
            stage,
            fact,
            config,
            installed_version,
            config_fingerprint,
            unix_now,
            step,
        ),
    ensures
        stage is Endpoint ==> (fact matches SpawnFact::Endpoint(Err(error)) ==> (
        step matches SpawnStep::Finished(Err(failed)) && failed.error == error && failed.survivor
            is None)),
        stage is Start ==> (fact matches SpawnFact::Started(Err(error)) ==> (
        step matches SpawnStep::Finished(Err(failed)) && failed.error == error && failed.survivor
            is None)),
        stage is Start ==> (fact matches SpawnFact::Started(Ok(pid)) ==> (
        step matches SpawnStep::Continue { stage: SpawnStage::Confirm { pid: fresh, wait }, .. }
            && fresh == pid && wait.attempts_left == 20 && !wait.settling)),
        stage matches SpawnStage::Confirm { pid, wait } ==> (fact matches SpawnFact::Looked {
            look,
            same_executable,
        } ==> {
            let expected = look is Ok && look->Ok_0.executable is Some && same_executable;
            &&& expected && !wait.settling ==> (step matches SpawnStep::Continue {
                stage: SpawnStage::Confirm { pid: same, wait: after },
                rest,
            } && same == pid && after.settling && after.attempts_left == wait.attempts_left
                && rest is Settle)
            &&& !expected && wait.attempts_left > 1 ==> (step matches SpawnStep::Continue {
                stage: SpawnStage::Confirm { pid: same, wait: after },
                ..
            } && same == pid && !after.settling && after.attempts_left == wait.attempts_left - 1)
            &&& !expected && wait.attempts_left == 1 ==> (step matches SpawnStep::Continue {
                stage: SpawnStage::Stop { record, .. },
                ..
            } && record.deep_view().pid == pid)
        }),
{
}

} // verus!
