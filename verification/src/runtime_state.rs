//! What the agent remembers across restarts, and how durably it was written.

#[allow(unused_imports)]
use vstd::prelude::*;
use crate::config_fingerprint::ConfigFingerprint;
#[allow(unused_imports)]
use crate::config_fingerprint::ConfigFingerprintView;
use crate::failure::{Failure, FailureKind};
#[allow(unused_imports)]
use crate::failure::{failure, fault_of, FailureView};
use crate::paths::same_path;
#[allow(unused_imports)]
use crate::paths::components;
use crate::private_file::FileFacts;
use crate::protocol::{clone_notification, DesiredState, NotificationEvent};
#[allow(unused_imports)]
use crate::protocol::NotificationView;
use crate::text::clone_text;

verus! {

pub const MAX_STATE_BYTES: u64 = 16 * 1024;

pub const STATE_SCHEMA_VERSION: u32 = 2;

/// The identity of a started process.
#[derive(PartialEq, Eq)]
pub struct ProcessRecord {
    pub pid: u32,
    pub process_group_id: u32,
    pub start_seconds: u64,
    pub start_microseconds: u64,
    pub executable: String,
    pub started_at_unix_seconds: u64,
    pub running_version: Option<String>,
    pub config_fingerprint: ConfigFingerprint,
    /// The kernel identity was never observed, so the record authorizes no
    /// signal and no takeover.
    pub identity_unconfirmed: bool,
}

/// The mathematical content of a [`ProcessRecord`].
pub struct ProcessRecordView {
    pub pid: u32,
    pub process_group_id: u32,
    pub start_seconds: u64,
    pub start_microseconds: u64,
    pub executable: Seq<char>,
    pub started_at_unix_seconds: u64,
    pub running_version: Option<Seq<char>>,
    pub config_fingerprint: ConfigFingerprintView,
    pub identity_unconfirmed: bool,
}

impl DeepView for ProcessRecord {
    type V = ProcessRecordView;

    open spec fn deep_view(&self) -> ProcessRecordView {
        ProcessRecordView {
            pid: self.pid,
            process_group_id: self.process_group_id,
            start_seconds: self.start_seconds,
            start_microseconds: self.start_microseconds,
            executable: self.executable@,
            started_at_unix_seconds: self.started_at_unix_seconds,
            running_version: self.running_version.deep_view(),
            config_fingerprint: self.config_fingerprint.deep_view(),
            identity_unconfirmed: self.identity_unconfirmed,
        }
    }
}

impl Clone for ProcessRecord {
    fn clone(&self) -> (copy: Self)
        ensures
            copy == *self,
    {
        ProcessRecord {
            pid: self.pid,
            process_group_id: self.process_group_id,
            start_seconds: self.start_seconds,
            start_microseconds: self.start_microseconds,
            executable: self.executable.clone(),
            started_at_unix_seconds: self.started_at_unix_seconds,
            running_version: clone_text(&self.running_version),
            config_fingerprint: self.config_fingerprint.clone(),
            identity_unconfirmed: self.identity_unconfirmed,
        }
    }
}

/// Copies an optional record.
pub fn clone_record(record: &Option<ProcessRecord>) -> (copy: Option<ProcessRecord>)
    ensures
        copy == *record,
        copy.deep_view() == record.deep_view(),
{
    match record {
        Some(value) => Some(value.clone()),
        None => None,
    }
}

/// Written before a process is created: while it is present, a missing record
/// does not prove that no process was created.
#[derive(PartialEq, Eq)]
pub struct LaunchPending {
    pub executable: String,
    pub config_fingerprint: ConfigFingerprint,
}

/// The mathematical content of a [`LaunchPending`].
pub struct LaunchPendingView {
    pub executable: Seq<char>,
    pub config_fingerprint: ConfigFingerprintView,
}

impl DeepView for LaunchPending {
    type V = LaunchPendingView;

    open spec fn deep_view(&self) -> LaunchPendingView {
        LaunchPendingView {
            executable: self.executable@,
            config_fingerprint: self.config_fingerprint.deep_view(),
        }
    }
}

impl Clone for LaunchPending {
    fn clone(&self) -> (copy: Self)
        ensures
            copy == *self,
    {
        LaunchPending {
            executable: self.executable.clone(),
            config_fingerprint: self.config_fingerprint.clone(),
        }
    }
}

/// The remembered state.
#[derive(PartialEq, Eq)]
pub struct RuntimeState {
    pub schema_version: u32,
    pub desired_state: DesiredState,
    pub process: Option<ProcessRecord>,
    /// Present exactly while a launch has not been finalized.
    pub launch_pending: Option<LaunchPending>,
    pub notification: Option<NotificationEvent>,
}

/// The mathematical content of a [`RuntimeState`].
pub struct RuntimeStateView {
    pub schema_version: u32,
    pub desired_state: DesiredState,
    pub process: Option<ProcessRecordView>,
    pub launch_pending: Option<LaunchPendingView>,
    pub notification: Option<NotificationView>,
}

impl DeepView for RuntimeState {
    type V = RuntimeStateView;

    open spec fn deep_view(&self) -> RuntimeStateView {
        RuntimeStateView {
            schema_version: self.schema_version,
            desired_state: self.desired_state,
            process: self.process.deep_view(),
            launch_pending: self.launch_pending.deep_view(),
            notification: self.notification.deep_view(),
        }
    }
}

impl Clone for RuntimeState {
    fn clone(&self) -> (copy: Self)
        ensures
            copy == *self,
    {
        RuntimeState {
            schema_version: self.schema_version,
            desired_state: self.desired_state,
            process: clone_record(&self.process),
            launch_pending: match &self.launch_pending {
                Some(pending) => Some(pending.clone()),
                None => None,
            },
            notification: clone_notification(&self.notification),
        }
    }
}

/// The state of a first run: OpenCode is meant to run.
pub open spec fn first_run() -> RuntimeStateView {
    RuntimeStateView {
        schema_version: STATE_SCHEMA_VERSION,
        desired_state: DesiredState::Running,
        process: None,
        launch_pending: None,
        notification: None,
    }
}

impl Default for RuntimeState {
    fn default() -> (state: Self)
        ensures
            state.deep_view() == first_run(),
    {
        RuntimeState {
            schema_version: STATE_SCHEMA_VERSION,
            desired_state: DesiredState::Running,
            process: None,
            launch_pending: None,
            notification: None,
        }
    }
}

/// Why a state file may not be read. The checks apply in order: kind of file,
/// size, owner, access.
pub open spec fn state_file_fault(facts: FileFacts, uid: u32) -> Option<FailureView> {
    if !facts.regular() {
        Some(failure(FailureKind::InvalidData, "runtime state must be a regular file"@))
    } else if facts.len > MAX_STATE_BYTES {
        Some(failure(FailureKind::InvalidData, "runtime state is too large"@))
    } else if facts.uid != uid {
        Some(
            failure(
                FailureKind::PermissionDenied,
                "runtime state must be owned by the current user"@,
            ),
        )
    } else if facts.shared() {
        Some(failure(FailureKind::PermissionDenied, "runtime state must have mode 0600"@))
    } else {
        None
    }
}

/// Checks the directory entry of the state file before it is opened.
pub fn check_state_entry(facts: &FileFacts, uid: u32) -> (outcome: Result<(), Failure>)
    ensures
        fault_of(outcome) == state_file_fault(*facts, uid),
{
    if !facts.is_regular() {
        return Err(Failure::new(FailureKind::InvalidData, "runtime state must be a regular file"));
    }
    if facts.len > MAX_STATE_BYTES {
        return Err(Failure::new(FailureKind::InvalidData, "runtime state is too large"));
    }
    if facts.uid != uid {
        return Err(
            Failure::new(
                FailureKind::PermissionDenied,
                "runtime state must be owned by the current user",
            ),
        );
    }
    if facts.is_shared() {
        return Err(Failure::new(FailureKind::PermissionDenied, "runtime state must have mode 0600"));
    }
    Ok(())
}

/// The content of a load.
pub open spec fn loaded_view(outcome: Result<RuntimeState, Failure>) -> Result<
    RuntimeStateView,
    FailureView,
> {
    match outcome {
        Ok(state) => Ok(state.deep_view()),
        Err(error) => Err(error.deep_view()),
    }
}

/// The outcome of loading the state. Only an entry that does not exist is a
/// first run; everything else that is wrong is a failure.
pub open spec fn loaded_state(
    entry: Result<FileFacts, Failure>,
    uid: u32,
    parsed: Result<RuntimeState, Failure>,
) -> Result<RuntimeStateView, FailureView> {
    match entry {
        Err(error) => if error.kind == FailureKind::NotFound {
            Ok(first_run())
        } else {
            Err(error.deep_view())
        },
        Ok(facts) => match state_file_fault(facts, uid) {
            Some(fault) => Err(fault),
            None => match parsed {
                Err(error) => Err(error.deep_view()),
                Ok(state) => if state.schema_version != STATE_SCHEMA_VERSION {
                    Err(failure(FailureKind::InvalidData, "unsupported runtime state schema"@))
                } else {
                    Ok(state.deep_view())
                },
            },
        },
    }
}

impl RuntimeState {
    /// Loads the state from the facts of its directory entry and what
    /// reading and parsing the file gave.
    pub fn load(
        entry: Result<FileFacts, Failure>,
        uid: u32,
        parsed: Result<RuntimeState, Failure>,
    ) -> (outcome: Result<RuntimeState, Failure>)
        ensures
            loaded_view(outcome) == loaded_state(entry, uid, parsed),
    {
        let facts = match entry {
            Ok(facts) => facts,
            Err(error) => {
                if error.kind == FailureKind::NotFound {
                    let state: RuntimeState = Default::default();
                    return Ok(state);
                }
                return Err(error);
            },
        };
        match check_state_entry(&facts, uid) {
            Ok(()) => {},
            Err(error) => return Err(error),
        }
        match parsed {
            Ok(state) => {
                if state.schema_version != STATE_SCHEMA_VERSION {
                    return Err(
                        Failure::new(FailureKind::InvalidData, "unsupported runtime state schema"),
                    );
                }
                Ok(state)
            },
            Err(error) => Err(error),
        }
    }

    /// Reduces a save to success or failure.
    pub fn save(outcome: RuntimeStateSaveOutcome) -> (result: Result<(), Failure>)
        ensures
            match outcome {
                RuntimeStateSaveOutcome::Durable => result is Ok,
                RuntimeStateSaveOutcome::Failed(error) => result == Err::<(), Failure>(error),
                RuntimeStateSaveOutcome::Uncertain(error) => result == Err::<(), Failure>(error),
            },
    {
        match outcome {
            RuntimeStateSaveOutcome::Durable => Ok(()),
            RuntimeStateSaveOutcome::Failed(error) => Err(error),
            RuntimeStateSaveOutcome::Uncertain(error) => Err(error),
        }
    }

    /// Begins a save: an injected fault fails it before anything is written.
    pub fn save_with_durability(fault_injected: bool) -> (progress: WriteProgress)
        ensures
            if fault_injected {
                &&& progress matches WriteProgress::Finished { outcome, remove_temporary }
                &&& !remove_temporary
                &&& outcome matches RuntimeStateSaveOutcome::Failed(error)
                &&& error.deep_view() == failure(
                    FailureKind::Other,
                    "test-injected runtime state save failure"@,
                )
            } else {
                progress == WriteProgress::Perform(WriteStage::CreateParent)
            },
    {
        if fault_injected {
            return WriteProgress::Finished {
                outcome: RuntimeStateSaveOutcome::Failed(
                    Failure::other("test-injected runtime state save failure"),
                ),
                remove_temporary: false,
            };
        }
        WriteProgress::Perform(WriteStage::CreateParent)
    }
}

/// How durably the state was written.
#[derive(Debug, PartialEq, Eq)]
pub enum RuntimeStateSaveOutcome {
    Durable,
    /// The previous state is still the only known one.
    Failed(Failure),
    /// The new state may already be visible but is not known to be durable.
    Uncertain(Failure),
}

/// The mathematical content of a [`RuntimeStateSaveOutcome`].
pub enum SaveOutcomeView {
    Durable,
    Failed(FailureView),
    Uncertain(FailureView),
}

impl DeepView for RuntimeStateSaveOutcome {
    type V = SaveOutcomeView;

    open spec fn deep_view(&self) -> SaveOutcomeView {
        match self {
            RuntimeStateSaveOutcome::Durable => SaveOutcomeView::Durable,
            RuntimeStateSaveOutcome::Failed(error) => SaveOutcomeView::Failed(error.deep_view()),
            RuntimeStateSaveOutcome::Uncertain(error) => SaveOutcomeView::Uncertain(
                error.deep_view(),
            ),
        }
    }
}

/// The steps of an atomic write, in order.
#[derive(Clone, Copy, Debug, PartialEq, Eq, Structural)]
pub enum WriteStage {
    CreateParent,
    RestrictParent,
    Encode,
    CreateTemporary,
    WriteTemporary,
    SyncTemporary,
    Rename,
    SyncParent,
}

/// What an atomic write does next.
#[derive(Debug, PartialEq, Eq)]
pub enum WriteProgress {
    Perform(WriteStage),
    Finished { outcome: RuntimeStateSaveOutcome, remove_temporary: bool },
}

impl WriteStage {
    /// The step after this one, if any.
    pub open spec fn following(self) -> Option<WriteStage> {
        match self {
            WriteStage::CreateParent => Some(WriteStage::RestrictParent),
            WriteStage::RestrictParent => Some(WriteStage::Encode),
            WriteStage::Encode => Some(WriteStage::CreateTemporary),
            WriteStage::CreateTemporary => Some(WriteStage::WriteTemporary),
            WriteStage::WriteTemporary => Some(WriteStage::SyncTemporary),
            WriteStage::SyncTemporary => Some(WriteStage::Rename),
            WriteStage::Rename => Some(WriteStage::SyncParent),
            WriteStage::SyncParent => None,
        }
    }

    /// The temporary file exists while this step runs.
    pub open spec fn has_temporary(self) -> bool {
        self is WriteTemporary || self is SyncTemporary || self is Rename
    }
}

/// Advances an atomic write by the result of one step. A failure before the
/// rename leaves the old file; a failure after it leaves durability open.
pub fn write_json_atomically(stage: WriteStage, result: Result<(), Failure>) -> (progress:
    WriteProgress)
    ensures
        match result {
            Ok(()) => match stage.following() {
                Some(next) => progress == WriteProgress::Perform(next),
                None => progress == (WriteProgress::Finished {
                    outcome: RuntimeStateSaveOutcome::Durable,
                    remove_temporary: false,
                }),
            },
            Err(error) => progress == (WriteProgress::Finished {
                outcome: if stage is SyncParent {
                    RuntimeStateSaveOutcome::Uncertain(error)
                } else {
                    RuntimeStateSaveOutcome::Failed(error)
                },
                remove_temporary: stage.has_temporary(),
            }),
        },
{
    match result {
        Ok(()) => match stage {
            WriteStage::CreateParent => WriteProgress::Perform(WriteStage::RestrictParent),
            WriteStage::RestrictParent => WriteProgress::Perform(WriteStage::Encode),
            WriteStage::Encode => WriteProgress::Perform(WriteStage::CreateTemporary),
            WriteStage::CreateTemporary => WriteProgress::Perform(WriteStage::WriteTemporary),
            WriteStage::WriteTemporary => WriteProgress::Perform(WriteStage::SyncTemporary),
            WriteStage::SyncTemporary => WriteProgress::Perform(WriteStage::Rename),
            WriteStage::Rename => WriteProgress::Perform(WriteStage::SyncParent),
            WriteStage::SyncParent => WriteProgress::Finished {
                outcome: RuntimeStateSaveOutcome::Durable,
                remove_temporary: false,
            },
        },
        Err(error) => {
            let remove_temporary = match stage {
                WriteStage::WriteTemporary | WriteStage::SyncTemporary | WriteStage::Rename => true,
                _ => false,
            };
            let outcome = match stage {
                WriteStage::SyncParent => RuntimeStateSaveOutcome::Uncertain(error),
                _ => RuntimeStateSaveOutcome::Failed(error),
            };
            WriteProgress::Finished { outcome, remove_temporary }
        },
    }
}

/// The outcome of an atomic write whose steps gave `results`, from `stage` on.
pub open spec fn write_outcome(
    stage: WriteStage,
    results: spec_fn(WriteStage) -> Result<(), Failure>,
) -> RuntimeStateSaveOutcome
    decreases stages_left(stage),
{
    match results(stage) {
        Err(error) => if stage is SyncParent {
            RuntimeStateSaveOutcome::Uncertain(error)
        } else {
            RuntimeStateSaveOutcome::Failed(error)
        },
        Ok(()) => match stage.following() {
            Some(next) => write_outcome(next, results),
            None => RuntimeStateSaveOutcome::Durable,
        },
    }
}

/// How many steps follow.
pub open spec fn stages_left(stage: WriteStage) -> nat {
    match stage {
        WriteStage::CreateParent => 7,
        WriteStage::RestrictParent => 6,
        WriteStage::Encode => 5,
        WriteStage::CreateTemporary => 4,
        WriteStage::WriteTemporary => 3,
        WriteStage::SyncTemporary => 2,
        WriteStage::Rename => 1,
        WriteStage::SyncParent => 0,
    }
}

/// A write is durable exactly when every step succeeded, uncertain exactly
/// when only the last step failed, and otherwise the old state remains.
pub proof fn durability_follows_the_rename(results: spec_fn(WriteStage) -> Result<(), Failure>)
    ensures
        ({
            let outcome = write_outcome(WriteStage::CreateParent, results);
            let before_sync = forall|stage: WriteStage|
                stage != WriteStage::SyncParent ==> (#[trigger] results(stage)) is Ok;
            &&& outcome is Durable <==> before_sync && results(WriteStage::SyncParent) is Ok
            &&& outcome is Uncertain <==> before_sync && results(WriteStage::SyncParent) is Err
            &&& outcome is Failed <==> !before_sync
        }),
{
    reveal_with_fuel(write_outcome, 9);
    let before_sync = forall|stage: WriteStage|
        stage != WriteStage::SyncParent ==> (#[trigger] results(stage)) is Ok;
    let each = results(WriteStage::CreateParent) is Ok && results(WriteStage::RestrictParent) is Ok
        && results(WriteStage::Encode) is Ok && results(WriteStage::CreateTemporary) is Ok
        && results(WriteStage::WriteTemporary) is Ok && results(WriteStage::SyncTemporary) is Ok
        && results(WriteStage::Rename) is Ok;
    assert(each ==> before_sync) by {
        if each {
            assert forall|stage: WriteStage| stage != WriteStage::SyncParent implies (
            #[trigger] results(stage)) is Ok by {
                match stage {
                    WriteStage::CreateParent => {},
                    WriteStage::RestrictParent => {},
                    WriteStage::Encode => {},
                    WriteStage::CreateTemporary => {},
                    WriteStage::WriteTemporary => {},
                    WriteStage::SyncTemporary => {},
                    WriteStage::Rename => {},
                    WriteStage::SyncParent => {},
                }
            }
        }
    }
}

/// A fault to inject for one path: at once, or after some successes.
pub struct InjectedFault {
    pub path: String,
    pub successes_before_failure: Option<usize>,
}

/// The faults injected by a fixture, in the order they were requested.
pub struct FaultTable {
    pub faults: Vec<InjectedFault>,
}

/// Names the path whose save failures a fixture requested.
pub struct RuntimeStateSaveFailureGuard {
    pub path: String,
}

/// Names the path whose directory-sync failures a fixture requested.
pub struct RuntimeStateDirectorySyncFailureGuard {
    pub path: String,
}

impl FaultTable {
    /// The first fault for a path, as an index, or the length.
    pub open spec fn first_for(self, path: Seq<char>, from: int) -> int
        decreases self.faults@.len() - from,
    {
        if from < 0 || from >= self.faults@.len() {
            self.faults@.len() as int
        } else if components(self.faults@[from].path@) == components(path) {
            from
        } else {
            self.first_for(path, from + 1)
        }
    }

    /// Whether the next operation on a path must fail.
    pub open spec fn strikes(self, path: Seq<char>) -> bool {
        let at = self.first_for(path, 0);
        at < self.faults@.len() && (match self.faults@[at].successes_before_failure {
            None => true,
            Some(remaining) => remaining == 0,
        })
    }

    /// An empty table.
    pub fn new() -> (table: FaultTable)
        ensures
            table.faults@.len() == 0,
    {
        FaultTable { faults: Vec::new() }
    }

    fn find(&self, path: &str) -> (at: usize)
        ensures
            at == self.first_for(path@, 0),
            at <= self.faults@.len(),
    {
        let mut index: usize = 0;
        while index < self.faults.len()
            invariant
                index <= self.faults@.len(),
                self.first_for(path@, 0) == self.first_for(path@, index as int),
            decreases self.faults@.len() - index,
        {
            if same_path(self.faults[index].path.as_str(), path) {
                return index;
            }
            index = index + 1;
        }
        index
    }

    fn request(&mut self, path: &str, successes_before_failure: Option<usize>)
        ensures
            final(self).faults@.len() == old(self).faults@.len() + 1,
            final(self).faults@.take(old(self).faults@.len() as int) == old(self).faults@,
            final(self).faults@.last().path@ == path@,
            final(self).faults@.last().successes_before_failure == successes_before_failure,
    {
        self.faults.push(InjectedFault { path: path.to_owned(), successes_before_failure });
        proof {
            assert(self.faults@.take(old(self).faults@.len() as int) =~= old(self).faults@);
        }
    }

    /// Decides whether the operation on a path fails now, and counts down
    /// where it does not.
    fn consume(&mut self, path: &str) -> (fails: bool)
        ensures
            fails == old(self).strikes(path@),
            final(self).faults@.len() == old(self).faults@.len(),
            ({
                let at = old(self).first_for(path@, 0);
                forall|i: int|
                    0 <= i < old(self).faults@.len() ==> {
                        &&& (#[trigger] final(self).faults@[i]).path == old(self).faults@[i].path
                        &&& final(self).faults@[i].successes_before_failure == (if i == at
                            && !fails {
                            match old(self).faults@[i].successes_before_failure {
                                Some(remaining) => Some((remaining - 1) as usize),
                                None => None,
                            }
                        } else {
                            old(self).faults@[i].successes_before_failure
                        })
                    }
            }),
    {
        let at = self.find(path);
        if at >= self.faults.len() {
            return false;
        }
        match self.faults[at].successes_before_failure {
            None => true,
            Some(remaining) => {
                if remaining == 0 {
                    true
                } else {
                    let fault = InjectedFault {
                        path: self.faults[at].path.clone(),
                        successes_before_failure: Some(remaining - 1),
                    };
                    self.faults.set(at, fault);
                    false
                }
            },
        }
    }

    /// Removes every fault for a path.
    fn release(&mut self, path: &str)
        ensures
            final(self).faults@ == old(self).faults@.filter(
                |fault: InjectedFault| components(fault.path@) != components(path@),
            ),
    {
        let ghost keep = |fault: InjectedFault| components(fault.path@) != components(path@);
        let mut kept: Vec<InjectedFault> = Vec::new();
        let mut index: usize = 0;
        proof {
            assert(self.faults@.take(0) =~= Seq::empty());
            reveal(Seq::filter);
        }
        while index < self.faults.len()
            invariant
                index <= self.faults@.len(),
                self.faults@ == old(self).faults@,
                keep == (|fault: InjectedFault| components(fault.path@) != components(path@)),
                kept@ == self.faults@.take(index as int).filter(keep),
            decreases self.faults@.len() - index,
        {
            proof {
                reveal(Seq::filter);
                assert(self.faults@.take(index as int + 1).drop_last() =~= self.faults@.take(
                    index as int,
                ));
            }
            if !same_path(self.faults[index].path.as_str(), path) {
                let fault = InjectedFault {
                    path: self.faults[index].path.clone(),
                    successes_before_failure: self.faults[index].successes_before_failure,
                };
                kept.push(fault);
            }
            index = index + 1;
        }
        proof {
            assert(self.faults@.take(index as int) =~= self.faults@);
        }
        self.faults = kept;
    }
}

/// Lets every save for one path fail until the guard is given back.
pub fn fail_runtime_state_saves_for_tests(table: &mut FaultTable, path: &str) -> (guard:
    RuntimeStateSaveFailureGuard)
    ensures
        guard.path@ == path@,
        final(table).faults@.len() == old(table).faults@.len() + 1,
        final(table).faults@.take(old(table).faults@.len() as int) == old(table).faults@,
        final(table).faults@.last().path@ == path@,
        final(table).faults@.last().successes_before_failure is None,
{
    table.request(path, None);
    RuntimeStateSaveFailureGuard { path: path.to_owned() }
}

/// Lets some saves for one path succeed and every later one fail.
pub fn fail_runtime_state_save_after_for_tests(
    table: &mut FaultTable,
    path: &str,
    successful_saves_before_failure: usize,
) -> (guard: RuntimeStateSaveFailureGuard)
    ensures
        guard.path@ == path@,
        final(table).faults@.len() == old(table).faults@.len() + 1,
        final(table).faults@.take(old(table).faults@.len() as int) == old(table).faults@,
        final(table).faults@.last().path@ == path@,
        final(table).faults@.last().successes_before_failure == Some(
            successful_saves_before_failure,
        ),
{
    table.request(path, Some(successful_saves_before_failure));
    RuntimeStateSaveFailureGuard { path: path.to_owned() }
}

/// Lets every directory sync for one path fail until the guard is given back.
pub fn fail_runtime_state_directory_sync_for_tests(table: &mut FaultTable, path: &str) -> (guard:
    RuntimeStateDirectorySyncFailureGuard)
    ensures
        guard.path@ == path@,
        final(table).faults@.len() == old(table).faults@.len() + 1,
        final(table).faults@.take(old(table).faults@.len() as int) == old(table).faults@,
        final(table).faults@.last().path@ == path@,
        final(table).faults@.last().successes_before_failure is None,
{
    table.request(path, None);
    RuntimeStateDirectorySyncFailureGuard { path: path.to_owned() }
}

/// Lets some directory syncs for one path succeed and every later one fail.
pub fn fail_runtime_state_directory_sync_after_for_tests(
    table: &mut FaultTable,
    path: &str,
    successful_syncs_before_failure: usize,
) -> (guard: RuntimeStateDirectorySyncFailureGuard)
    ensures
        guard.path@ == path@,
        final(table).faults@.len() == old(table).faults@.len() + 1,
        final(table).faults@.take(old(table).faults@.len() as int) == old(table).faults@,
        final(table).faults@.last().path@ == path@,
        final(table).faults@.last().successes_before_failure == Some(
            successful_syncs_before_failure,
        ),
{
    table.request(path, Some(successful_syncs_before_failure));
    RuntimeStateDirectorySyncFailureGuard { path: path.to_owned() }
}

impl RuntimeStateSaveFailureGuard {
    /// Ends the injection for the guarded path.
    pub fn release(self, table: &mut FaultTable)
        ensures
            final(table).faults@ == old(table).faults@.filter(
                |fault: InjectedFault| components(fault.path@) != components(self.path@),
            ),
    {
        table.release(self.path.as_str());
    }
}

impl RuntimeStateDirectorySyncFailureGuard {
    /// Ends the injection for the guarded path.
    pub fn release(self, table: &mut FaultTable)
        ensures
            final(table).faults@ == old(table).faults@.filter(
                |fault: InjectedFault| components(fault.path@) != components(self.path@),
            ),
    {
        table.release(self.path.as_str());
    }
}

/// Whether the save for a path must fail now; counts down where it need not.
pub fn test_save_failure_requested(table: &mut FaultTable, path: &str) -> (fails: bool)
    ensures
        fails == old(table).strikes(path@),
        final(table).faults@.len() == old(table).faults@.len(),
        ({
            let at = old(table).first_for(path@, 0);
            forall|i: int|
                0 <= i < old(table).faults@.len() ==> {
                    &&& (#[trigger] final(table).faults@[i]).path == old(table).faults@[i].path
                    &&& final(table).faults@[i].successes_before_failure == (if i == at && !fails {
                        match old(table).faults@[i].successes_before_failure {
                            Some(remaining) => Some((remaining - 1) as usize),
                            None => None,
                        }
                    } else {
                        old(table).faults@[i].successes_before_failure
                    })
                }
        }),
{
    table.consume(path)
}

/// Whether the directory sync for a path must fail now.
pub fn test_directory_sync_failure_requested(table: &mut FaultTable, path: &str) -> (fails: bool)
    ensures
        fails == old(table).strikes(path@),
        final(table).faults@.len() == old(table).faults@.len(),
        ({
            let at = old(table).first_for(path@, 0);
            forall|i: int|
                0 <= i < old(table).faults@.len() ==> {
                    &&& (#[trigger] final(table).faults@[i]).path == old(table).faults@[i].path
                    &&& final(table).faults@[i].successes_before_failure == (if i == at && !fails {
                        match old(table).faults@[i].successes_before_failure {
                            Some(remaining) => Some((remaining - 1) as usize),
                            None => None,
                        }
                    } else {
                        old(table).faults@[i].successes_before_failure
                    })
                }
        }),
{
    table.consume(path)
}

/// Without a state file the agent starts afresh, meaning OpenCode to run and
/// knowing of no process. A state file counts exactly where it is a private
/// regular file of the user, of at most 16 KiB, that could be read and has the
/// known schema; anything else is an error and no fresh start.
pub proof fn only_a_missing_state_is_a_fresh_start(
    entry: Result<FileFacts, Failure>,
    uid: u32,
    parsed: Result<RuntimeState, Failure>,
)
    ensures
        ({
            let loaded = loaded_state(entry, uid, parsed);
            let missing = entry is Err && entry->Err_0.kind is NotFound;
            let good = entry is Ok && entry->Ok_0.is_file && !entry->Ok_0.is_symlink
                && entry->Ok_0.len <= 16384 && entry->Ok_0.uid == uid && entry->Ok_0.mode & 0o077
                == 0 && parsed is Ok && parsed->Ok_0.schema_version == 2;
            &&& loaded is Ok <==> missing || good
            &&& missing ==> {
                &&& loaded->Ok_0.desired_state is Running
                &&& loaded->Ok_0.process is None
                &&& loaded->Ok_0.launch_pending is None
                &&& loaded->Ok_0.notification is None
                &&& loaded->Ok_0.schema_version == 2
            }
            &&& good ==> loaded->Ok_0 == parsed->Ok_0.deep_view()
            &&& entry matches Err(error) ==> (!missing ==> loaded->Err_0 == error.deep_view())
        }),
{
}

/// An injected fault strikes for the path that it was made for, and for no
/// path for which none was.
pub proof fn faults_strike_their_path(table: FaultTable, path: Seq<char>)
    ensures
        (forall|i: int|
            0 <= i < table.faults@.len() ==> components(#[trigger] table.faults@[i].path@)
                != components(path)) ==> !table.strikes(path),
        table.faults@.len() > 0 && components(table.faults@[0].path@) == components(path)
            && table.faults@[0].successes_before_failure is None ==> table.strikes(path),
        table.faults@.len() > 0 && components(table.faults@[0].path@) == components(path)
            && table.faults@[0].successes_before_failure is Some ==> (table.strikes(path)
            <==> table.faults@[0].successes_before_failure == Some(0usize)),
{
    if forall|i: int|
        0 <= i < table.faults@.len() ==> components(#[trigger] table.faults@[i].path@)
            != components(path) {
        no_fault_is_found(table, path, 0);
    }
}

proof fn no_fault_is_found(table: FaultTable, path: Seq<char>, from: int)
    requires
        0 <= from,
        forall|i: int|
            0 <= i < table.faults@.len() ==> components(#[trigger] table.faults@[i].path@)
                != components(path),
    ensures
        table.first_for(path, from) == table.faults@.len() || from > table.faults@.len(),
    decreases table.faults@.len() - from,
{
    if from < table.faults@.len() {
        assert(components(table.faults@[from].path@) != components(path));
        no_fault_is_found(table, path, from + 1);
    }
}

} // verus!
