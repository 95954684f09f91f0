//! The managed process: its identity, its authority to be signaled, and the
//! records that survive an agent restart.

#[allow(unused_imports)]
use vstd::prelude::*;
use crate::config::ValidatedConfig;
#[allow(unused_imports)]
use crate::config::ValidatedConfigView;
use crate::config_fingerprint::ConfigFingerprint;
#[allow(unused_imports)]
use crate::config_fingerprint::ConfigFingerprintView;
use crate::failure::{Failure, FailureKind};
#[allow(unused_imports)]
use crate::failure::{failure, fault_of, FailureView};
use crate::paths::same_path;
#[allow(unused_imports)]
use crate::paths::components;
use crate::platform::ProcessSnapshot;
use crate::process_cleanup::PendingGroupCleanup;
use crate::process_group::{observe_attached, signal_owned, GroupFacts, SignalFacts};
#[allow(unused_imports)]
use crate::process_group::{
    observed_members, owned_signal_fault, signals_stay_in_the_dedicated_group,
};
use crate::runtime_state::ProcessRecord;
#[allow(unused_imports)]
use crate::runtime_state::ProcessRecordView;
use crate::text::{decimal, join, signed_decimal, strip_brackets};
#[allow(unused_imports)]
use crate::text::{
    all_digits, decimal_text, decimal_value, decimals_denote_their_number, pieces_view,
    signed_decimal_text, unbracketed,
};

verus! {

/// How a process ended, or why it no longer counts as ours.
#[derive(Clone, Copy, Debug, PartialEq, Eq, Structural)]
pub enum ExitReason {
    Exited(i32),
    Signaled(i32),
    Disappeared,
    IdentityChanged,
}

impl ExitReason {
    /// What a person is told.
    pub open spec fn wording(self) -> Seq<char> {
        match self {
            ExitReason::Exited(code) => "exited with status "@ + signed_decimal_text(code as int),
            ExitReason::Signaled(signal) => "terminated by signal "@ + signed_decimal_text(
                signal as int,
            ),
            ExitReason::Disappeared => "process disappeared"@,
            ExitReason::IdentityChanged => "process identity no longer matches"@,
        }
    }

    /// What a person is told.
    pub fn text(&self) -> (text: String)
        ensures
            text@ == self.wording(),
    {
        match self {
            ExitReason::Exited(code) => join("exited with status ", signed_decimal(*code).as_str()),
            ExitReason::Signaled(signal) => join(
                "terminated by signal ",
                signed_decimal(*signal).as_str(),
            ),
            ExitReason::Disappeared => "process disappeared".to_owned(),
            ExitReason::IdentityChanged => "process identity no longer matches".to_owned(),
        }
    }
}

/// How a recorded process compares with what runs under its identifier.
#[derive(Clone, Copy, Debug, PartialEq, Eq, Structural)]
pub enum RecordIdentity {
    Current,
    ExecutableVanished,
    ExecutableMismatch,
    GroupEscaped,
    Missing,
    Mismatched,
}

/// How a live snapshot compares with a record.
#[derive(Clone, Copy, Debug, PartialEq, Eq, Structural)]
pub enum IdentityProbe {
    Match,
    ExecutableVanished,
    ExecutableMismatch,
    /// Still the same process, but no longer the leader of its group.
    GroupEscaped,
    Mismatch,
}

/// Whether two paths lead to the same file. The canonical forms decide where
/// both exist, and the components of the paths themselves elsewhere.
pub fn paths_equal(
    left: &str,
    right: &str,
    left_canonical: &Option<String>,
    right_canonical: &Option<String>,
) -> (equal: bool)
    ensures
        equal == (match (left_canonical, right_canonical) {
            (Some(a), Some(b)) => components(a@) == components(b@),
            _ => components(left@) == components(right@),
        }),
{
    match (left_canonical, right_canonical) {
        (Some(a), Some(b)) => same_path(a.as_str(), b.as_str()),
        _ => same_path(left, right),
    }
}

/// How a live snapshot compares with a record. `same_executable` tells
/// whether the snapshot's executable, where known, is the recorded one.
pub open spec fn probed(
    snapshot: ProcessSnapshot,
    record: ProcessRecord,
    uid: u32,
    same_executable: bool,
) -> IdentityProbe {
    if snapshot.pid != record.pid || snapshot.effective_uid != uid || snapshot.start_seconds
        != record.start_seconds || snapshot.start_microseconds != record.start_microseconds {
        IdentityProbe::Mismatch
    } else if snapshot.process_group_id != record.process_group_id || snapshot.process_group_id
        != snapshot.pid {
        IdentityProbe::GroupEscaped
    } else {
        match snapshot.executable {
            Some(_) => if same_executable {
                IdentityProbe::Match
            } else {
                IdentityProbe::ExecutableMismatch
            },
            None => IdentityProbe::ExecutableVanished,
        }
    }
}

/// Compares a live snapshot with a record.
pub fn identity_probe(
    snapshot: &ProcessSnapshot,
    record: &ProcessRecord,
    uid: u32,
    same_executable: bool,
) -> (probe: IdentityProbe)
    ensures
        probe == probed(*snapshot, *record, uid, same_executable),
{
    let process_identity_matches = snapshot.pid == record.pid && snapshot.effective_uid == uid
        && snapshot.start_seconds == record.start_seconds && snapshot.start_microseconds
        == record.start_microseconds;
    if !process_identity_matches {
        return IdentityProbe::Mismatch;
    }
    if snapshot.process_group_id != record.process_group_id || snapshot.process_group_id
        != snapshot.pid {
        return IdentityProbe::GroupEscaped;
    }
    match &snapshot.executable {
        Some(_) => if same_executable {
            IdentityProbe::Match
        } else {
            IdentityProbe::ExecutableMismatch
        },
        None => IdentityProbe::ExecutableVanished,
    }
}

/// A reused process identifier never passes: any difference in the kernel's
/// start time, whatever became of the executable, is a mismatch.
pub proof fn reused_pid_is_a_mismatch(
    snapshot: ProcessSnapshot,
    record: ProcessRecord,
    uid: u32,
    same_executable: bool,
)
    requires
        snapshot.start_seconds != record.start_seconds || snapshot.start_microseconds
            != record.start_microseconds,
    ensures
        probed(snapshot, record, uid, same_executable) is Mismatch,
{
}

/// What a live snapshot, or its absence, says about a record.
pub open spec fn identity_of(
    snapshot: Result<ProcessSnapshot, Failure>,
    record: ProcessRecord,
    uid: u32,
    same_executable: bool,
) -> Result<RecordIdentity, FailureView> {
    match snapshot {
        Err(error) => if error.kind == FailureKind::NoSuchProcess {
            Ok(RecordIdentity::Missing)
        } else {
            Err(error.deep_view())
        },
        Ok(live) => Ok(
            match probed(live, record, uid, same_executable) {
                IdentityProbe::Match => RecordIdentity::Current,
                IdentityProbe::ExecutableVanished => RecordIdentity::ExecutableVanished,
                IdentityProbe::ExecutableMismatch => RecordIdentity::ExecutableMismatch,
                IdentityProbe::GroupEscaped => RecordIdentity::GroupEscaped,
                IdentityProbe::Mismatch => RecordIdentity::Mismatched,
            },
        ),
    }
}

/// Names what runs under a recorded identifier.
pub fn inspect_record_identity(
    snapshot: Result<ProcessSnapshot, Failure>,
    record: &ProcessRecord,
    uid: u32,
    same_executable: bool,
) -> (outcome: Result<RecordIdentity, Failure>)
    ensures
        match identity_of(snapshot, *record, uid, same_executable) {
            Ok(identity) => outcome == Ok::<RecordIdentity, Failure>(identity),
            Err(fault) => fault_of(outcome) == Some(fault),
        },
{
    match snapshot {
        Err(error) => if error.kind == FailureKind::NoSuchProcess {
            Ok(RecordIdentity::Missing)
        } else {
            Err(error)
        },
        Ok(live) => Ok(
            match identity_probe(&live, record, uid, same_executable) {
                IdentityProbe::Match => RecordIdentity::Current,
                IdentityProbe::ExecutableVanished => RecordIdentity::ExecutableVanished,
                IdentityProbe::ExecutableMismatch => RecordIdentity::ExecutableMismatch,
                IdentityProbe::GroupEscaped => RecordIdentity::GroupEscaped,
                IdentityProbe::Mismatch => RecordIdentity::Mismatched,
            },
        ),
    }
}

/// The recorded process still runs as itself and leads its group.
pub open spec fn still_itself(identity: RecordIdentity) -> bool {
    identity is Current || identity is ExecutableVanished || identity is ExecutableMismatch
}

/// Whether a reattached process may be signaled by its record. A process that
/// is gone does not match.
pub fn identity_matches(
    snapshot: Result<ProcessSnapshot, Failure>,
    record: &ProcessRecord,
    uid: u32,
    same_executable: bool,
) -> (outcome: Result<bool, Failure>)
    ensures
        match identity_of(snapshot, *record, uid, same_executable) {
            Ok(identity) => outcome == Ok::<bool, Failure>(still_itself(identity)),
            Err(fault) => fault_of(outcome) == Some(fault),
        },
{
    match inspect_record_identity(snapshot, record, uid, same_executable) {
        Ok(identity) => Ok(
            match identity {
                RecordIdentity::Current
                | RecordIdentity::ExecutableVanished
                | RecordIdentity::ExecutableMismatch => true,
                _ => false,
            },
        ),
        Err(error) => Err(error),
    }
}

/// The same for an owned child, where a process that is no longer reported
/// says nothing: the wait status remains the authority.
pub fn owned_identity_matches(
    snapshot: Result<ProcessSnapshot, Failure>,
    record: &ProcessRecord,
    uid: u32,
    same_executable: bool,
) -> (outcome: Result<Option<bool>, Failure>)
    ensures
        match identity_of(snapshot, *record, uid, same_executable) {
            Ok(RecordIdentity::Missing) => outcome == Ok::<Option<bool>, Failure>(None),
            Ok(identity) => outcome == Ok::<Option<bool>, Failure>(Some(still_itself(identity))),
            Err(fault) => fault_of(outcome) == Some(fault),
        },
{
    match inspect_record_identity(snapshot, record, uid, same_executable) {
        Ok(RecordIdentity::Missing) => Ok(None),
        Ok(identity) => Ok(
            Some(
                match identity {
                    RecordIdentity::Current
                    | RecordIdentity::ExecutableVanished
                    | RecordIdentity::ExecutableMismatch => true,
                    _ => false,
                },
            ),
        ),
        Err(error) => Err(error),
    }
}

/// Whether the group of a record still has an authorized member.
pub fn authorized_process_group_has_members(
    record: &ProcessRecord,
    facts: &GroupFacts,
    uid: u32,
    own_group: u32,
) -> (outcome: Result<bool, Failure>)
    requires
        facts.complete(),
    ensures
        match observed_members(record.process_group_id, None, *facts, uid, own_group) {
            Ok(observation) => outcome == Ok::<bool, Failure>(observation is HasMembers),
            Err(fault) => fault_of(outcome) == Some(fault),
        },
{
    observe_attached(record, facts, uid, own_group)
}

/// What is recorded of a process that was confirmed after its start.
pub open spec fn started_record(
    snapshot: ProcessSnapshot,
    executable: Seq<char>,
    running_version: Option<Seq<char>>,
    config_fingerprint: ConfigFingerprintView,
    unix_now: u64,
) -> ProcessRecordView {
    ProcessRecordView {
        pid: snapshot.pid,
        process_group_id: snapshot.process_group_id,
        start_seconds: snapshot.start_seconds,
        start_microseconds: snapshot.start_microseconds,
        executable: match snapshot.executable {
            Some(path) => path@,
            None => executable,
        },
        started_at_unix_seconds: unix_now,
        running_version,
        config_fingerprint,
        identity_unconfirmed: false,
    }
}

/// The record of a process that was confirmed after its start.
pub fn record_from_snapshot(
    snapshot: ProcessSnapshot,
    config: &ValidatedConfig,
    running_version: Option<String>,
    config_fingerprint: ConfigFingerprint,
    unix_now: u64,
) -> (record: ProcessRecord)
    ensures
        record.deep_view() == started_record(
            snapshot,
            config.canonical_executable@,
            running_version.deep_view(),
            config_fingerprint.deep_view(),
            unix_now,
        ),
{
    ProcessRecord {
        pid: snapshot.pid,
        process_group_id: snapshot.process_group_id,
        start_seconds: snapshot.start_seconds,
        start_microseconds: snapshot.start_microseconds,
        executable: match snapshot.executable {
            Some(path) => path,
            None => config.canonical_executable.clone(),
        },
        started_at_unix_seconds: unix_now,
        running_version,
        config_fingerprint,
        identity_unconfirmed: false,
    }
}

/// The identity of a survivor was never confirmed: nothing was observed, or
/// the process had left its own group.
pub open spec fn survivor_unconfirmed(pid: u32, last: Option<ProcessSnapshot>) -> bool {
    match last {
        Some(snapshot) => snapshot.process_group_id != pid,
        None => true,
    }
}

/// What is recorded of a process that outlived a failed confirmation. Without
/// a confirmed identity its start time is zero, so that no later process can
/// be taken for it.
pub open spec fn unconfirmed_record(
    pid: u32,
    last: Option<ProcessSnapshot>,
    executable: Seq<char>,
    config_fingerprint: ConfigFingerprintView,
    unix_now: u64,
) -> ProcessRecordView {
    let unconfirmed = survivor_unconfirmed(pid, last);
    ProcessRecordView {
        pid,
        process_group_id: pid,
        start_seconds: if unconfirmed {
            0
        } else {
            last->0.start_seconds
        },
        start_microseconds: if unconfirmed {
            0
        } else {
            last->0.start_microseconds
        },
        executable,
        started_at_unix_seconds: unix_now,
        running_version: None,
        config_fingerprint,
        identity_unconfirmed: unconfirmed,
    }
}

/// The record of a process that outlived a failed confirmation.
pub fn survivor_record(
    pid: u32,
    last_snapshot: &Option<ProcessSnapshot>,
    config: &ValidatedConfig,
    config_fingerprint: ConfigFingerprint,
    unix_now: u64,
) -> (record: ProcessRecord)
    ensures
        record.deep_view() == unconfirmed_record(
            pid,
            *last_snapshot,
            config.canonical_executable@,
            config_fingerprint.deep_view(),
            unix_now,
        ),
{
    let mut identity_unconfirmed = true;
    let mut start_seconds: u64 = 0;
    let mut start_microseconds: u64 = 0;
    if let Some(snapshot) = last_snapshot {
        if snapshot.process_group_id == pid {
            identity_unconfirmed = false;
            start_seconds = snapshot.start_seconds;
            start_microseconds = snapshot.start_microseconds;
        }
    }
    ProcessRecord {
        pid,
        process_group_id: pid,
        start_seconds,
        start_microseconds,
        executable: config.canonical_executable.clone(),
        started_at_unix_seconds: unix_now,
        running_version: None,
        config_fingerprint,
        identity_unconfirmed,
    }
}

/// The process under supervision. The handle of an owned child is kept
/// outside, under the recorded process identifier.
#[derive(PartialEq, Eq)]
pub enum ManagedProcess {
    /// The direct child, possibly exited while its group is cleaned up.
    Child {
        record: ProcessRecord,
        cleanup: Option<PendingGroupCleanup>,
        /// The child was seen outside its group: its record never authorizes
        /// a signal again.
        identity_failed: bool,
    },
    /// A process started by an earlier agent.
    Attached { record: ProcessRecord },
}

/// The mathematical content of a [`ManagedProcess`].
pub enum ManagedProcessView {
    Child {
        record: ProcessRecordView,
        cleanup: Option<PendingGroupCleanup>,
        identity_failed: bool,
    },
    Attached { record: ProcessRecordView },
}

impl DeepView for ManagedProcess {
    type V = ManagedProcessView;

    open spec fn deep_view(&self) -> ManagedProcessView {
        match self {
            ManagedProcess::Child { record, cleanup, identity_failed } => ManagedProcessView::Child {
                record: record.deep_view(),
                cleanup: *cleanup,
                identity_failed: *identity_failed,
            },
            ManagedProcess::Attached { record } => ManagedProcessView::Attached {
                record: record.deep_view(),
            },
        }
    }
}

impl ManagedProcessView {
    /// The record of the process.
    pub open spec fn record(self) -> ProcessRecordView {
        match self {
            ManagedProcessView::Child { record, .. } => record,
            ManagedProcessView::Attached { record } => record,
        }
    }

    /// The same process under another record.
    pub open spec fn with_record(self, record: ProcessRecordView) -> ManagedProcessView {
        match self {
            ManagedProcessView::Child { cleanup, identity_failed, .. } => ManagedProcessView::Child {
                record,
                cleanup,
                identity_failed,
            },
            ManagedProcessView::Attached { .. } => ManagedProcessView::Attached { record },
        }
    }

    /// The leader exited and its group is being cleaned up.
    pub open spec fn group_exit_pending(self) -> bool {
        self matches ManagedProcessView::Child { cleanup: Some(_), .. }
    }

    /// The pending cleanup, if any, may still signal.
    pub open spec fn cleanup_authorized(self) -> bool {
        match self {
            ManagedProcessView::Child { cleanup: Some(cleanup), identity_failed, .. } => {
                !identity_failed && cleanup.signal_allowed
            },
            _ => true,
        }
    }

    /// The process is a direct child.
    pub open spec fn owned(self) -> bool {
        self is Child
    }

    /// The evidence in memory permits a lifecycle signal.
    pub open spec fn signalable(self) -> bool {
        match self {
            ManagedProcessView::Child { cleanup, identity_failed, .. } => {
                &&& !identity_failed
                &&& cleanup matches Some(pending) ==> pending.signal_allowed
            },
            ManagedProcessView::Attached { record } => !record.identity_unconfirmed,
        }
    }

    /// The same process, its identity given up for good.
    pub open spec fn with_identity_failed(self) -> ManagedProcessView {
        match self {
            ManagedProcessView::Child { record, cleanup, .. } => ManagedProcessView::Child {
                record,
                cleanup,
                identity_failed: true,
            },
            other => other,
        }
    }

    /// The same process with another cleanup.
    pub open spec fn with_cleanup(self, cleanup: Option<PendingGroupCleanup>) -> ManagedProcessView {
        match self {
            ManagedProcessView::Child { record, identity_failed, .. } => ManagedProcessView::Child {
                record,
                cleanup,
                identity_failed,
            },
            other => other,
        }
    }
}

/// What a confirming snapshot adds to an unconfirmed record.
pub open spec fn confirmed_record(record: ProcessRecordView, snapshot: ProcessSnapshot) -> ProcessRecordView {
    ProcessRecordView {
        start_seconds: snapshot.start_seconds,
        start_microseconds: snapshot.start_microseconds,
        identity_unconfirmed: false,
        ..record
    }
}

/// A snapshot confirms an owned child that was never confirmed: it is the
/// child, it leads its own group, and it runs the recorded executable.
pub open spec fn confirms(
    process: ManagedProcessView,
    snapshot: ProcessSnapshot,
    same_executable: bool,
) -> bool {
    &&& process.owned()
    &&& process.record().identity_unconfirmed
    &&& snapshot.executable is Some
    &&& same_executable
    &&& snapshot.pid == process.record().pid
    &&& snapshot.process_group_id == snapshot.pid
}

impl ManagedProcess {
    /// Takes over a process started by an earlier agent.
    pub fn attach(record: ProcessRecord) -> (process: ManagedProcess)
        ensures
            process == (ManagedProcess::Attached { record }),
    {
        ManagedProcess::Attached { record }
    }

    pub fn record(&self) -> (record: &ProcessRecord)
        ensures
            record.deep_view() == self.deep_view().record(),
            *record == (match *self {
                ManagedProcess::Child { record: own, .. } => own,
                ManagedProcess::Attached { record: own } => own,
            }),
    {
        match self {
            ManagedProcess::Child { record, .. } => record,
            ManagedProcess::Attached { record } => record,
        }
    }

    /// Replaces the record.
    pub fn set_record(&mut self, record: ProcessRecord)
        ensures
            final(self).deep_view() == old(self).deep_view().with_record(record.deep_view()),
    {
        match self {
            ManagedProcess::Child { record: own, .. } => {
                *own = record;
            },
            ManagedProcess::Attached { record: own } => {
                *own = record;
            },
        }
    }

    /// How the leader ended, while its group is still being cleaned up.
    pub fn pending_group_exit(&self) -> (exit: Option<ExitReason>)
        ensures
            exit is Some == self.deep_view().group_exit_pending(),
            exit == (match self.deep_view() {
                ManagedProcessView::Child { cleanup: Some(cleanup), .. } => Some(
                    cleanup.leader_exit,
                ),
                _ => None,
            }),
    {
        match self {
            ManagedProcess::Child { cleanup: Some(cleanup), .. } => Some(cleanup.leader_exit()),
            _ => None,
        }
    }

    /// Whether the pending cleanup, if any, may still signal.
    pub fn pending_group_authorized(&self) -> (authorized: bool)
        ensures
            authorized == self.deep_view().cleanup_authorized(),
    {
        match self {
            ManagedProcess::Child { cleanup: Some(cleanup), identity_failed, .. } => {
                !*identity_failed && cleanup.signal_allowed()
            },
            _ => true,
        }
    }

    pub fn is_owned_child(&self) -> (owned: bool)
        ensures
            owned == self.deep_view().owned(),
    {
        match self {
            ManagedProcess::Child { .. } => true,
            ManagedProcess::Attached { .. } => false,
        }
    }

    /// Whether the evidence in memory permits a lifecycle signal. The signal
    /// path still revalidates the complete identity.
    pub fn signal_authorized(&self) -> (authorized: bool)
        ensures
            authorized == self.deep_view().signalable(),
    {
        match self {
            ManagedProcess::Child { cleanup, identity_failed, .. } => {
                let cleanup_allows = match cleanup {
                    Some(pending) => pending.signal_allowed(),
                    None => true,
                };
                !*identity_failed && cleanup_allows
            },
            ManagedProcess::Attached { record } => !record.identity_unconfirmed,
        }
    }

    /// Gives up the identity of an owned child for good.
    pub fn mark_identity_failed(&mut self)
        ensures
            final(self).deep_view() == old(self).deep_view().with_identity_failed(),
    {
        match self {
            ManagedProcess::Child { identity_failed, .. } => {
                *identity_failed = true;
            },
            ManagedProcess::Attached { .. } => {},
        }
    }

    /// Replaces the cleanup of an owned child.
    pub fn set_cleanup(&mut self, pending: Option<PendingGroupCleanup>)
        ensures
            final(self).deep_view() == old(self).deep_view().with_cleanup(pending),
    {
        match self {
            ManagedProcess::Child { cleanup, .. } => {
                *cleanup = pending;
            },
            ManagedProcess::Attached { .. } => {},
        }
    }

    /// Confirms an owned child whose identity was never observed, where the
    /// snapshot proves it. Returns whether the record was upgraded.
    pub fn confirm_unconfirmed_identity(
        &mut self,
        snapshot: &Result<ProcessSnapshot, Failure>,
        same_executable: bool,
    ) -> (confirmed: bool)
        ensures
            confirmed == (snapshot matches Ok(live) && confirms(
                old(self).deep_view(),
                *live,
                same_executable,
            )),
            final(self).deep_view() == (if confirmed {
                old(self).deep_view().with_record(
                    confirmed_record(old(self).deep_view().record(), snapshot->Ok_0),
                )
            } else {
                old(self).deep_view()
            }),
    {
        match self {
            ManagedProcess::Attached { .. } => false,
            ManagedProcess::Child { record, .. } => {
                if !record.identity_unconfirmed {
                    return false;
                }
                match snapshot {
                    Ok(live) => {
                        let executable_matches = live.executable.is_some() && same_executable;
                        if live.pid != record.pid || live.process_group_id != live.pid
                            || !executable_matches {
                            return false;
                        }
                        record.start_seconds = live.start_seconds;
                        record.start_microseconds = live.start_microseconds;
                        record.identity_unconfirmed = false;
                        true
                    },
                    Err(_) => false,
                }
            },
        }
    }

    /// What polling a reattached process means: it disappeared, it is no
    /// longer itself, or it runs on.
    pub fn poll_exit(
        snapshot: Result<ProcessSnapshot, Failure>,
        record: &ProcessRecord,
        uid: u32,
        same_executable: bool,
    ) -> (outcome: Result<Option<ExitReason>, Failure>)
        ensures
            match identity_of(snapshot, *record, uid, same_executable) {
                Ok(RecordIdentity::Missing) => outcome == Ok::<Option<ExitReason>, Failure>(
                    Some(ExitReason::Disappeared),
                ),
                Ok(identity) => outcome == Ok::<Option<ExitReason>, Failure>(
                    if still_itself(identity) {
                        None
                    } else {
                        Some(ExitReason::IdentityChanged)
                    },
                ),
                Err(fault) => fault_of(outcome) == Some(fault),
            },
    {
        match inspect_record_identity(snapshot, record, uid, same_executable) {
            Ok(RecordIdentity::Missing) => Ok(Some(ExitReason::Disappeared)),
            Ok(identity) => Ok(
                match identity {
                    RecordIdentity::Current
                    | RecordIdentity::ExecutableVanished
                    | RecordIdentity::ExecutableMismatch => None,
                    _ => Some(ExitReason::IdentityChanged),
                },
            ),
            Err(error) => Err(error),
        }
    }

    /// Why an owned child may not even be considered for a signal, if so.
    pub fn signal_gate(&self) -> (outcome: Result<(), Failure>)
        ensures
            fault_of(outcome) == gate_fault(self.deep_view()),
    {
        match self {
            ManagedProcess::Child { cleanup, identity_failed, .. } => {
                if *identity_failed {
                    return Err(
                        Failure::other(
                            "refusing to signal an OpenCode child whose process-group identity changed",
                        ),
                    );
                }
                let refused = match cleanup {
                    Some(pending) => !pending.signal_allowed(),
                    None => false,
                };
                if refused {
                    return Err(
                        Failure::other(
                            "refusing to signal an OpenCode child while its process-group identity is unverified",
                        ),
                    );
                }
                Ok(())
            },
            ManagedProcess::Attached { .. } => Ok(()),
        }
    }
}

/// Decides whether a reattached process may be signaled: the complete
/// identity must match, and its group must not be the agent's own. The group
/// to address is returned.
pub fn signal_attached(
    record: &ProcessRecord,
    identity: Result<bool, Failure>,
    own_group: u32,
) -> (outcome: Result<u32, Failure>)
    ensures
        outcome matches Ok(group) ==> group == record.process_group_id,
        fault_of(outcome) == attached_signal_fault(*record, identity, own_group),
{
    match identity {
        Err(error) => Err(error),
        Ok(matches) => {
            if !matches {
                return Err(
                    Failure::other("refusing to signal a process whose identity changed"),
                );
            }
            if record.process_group_id == own_group {
                return Err(
                    Failure::other("refusing to signal OpenCodeServerAgent's own process group"),
                );
            }
            Ok(record.process_group_id)
        },
    }
}

/// The signal that asks a process to stop.
pub const SIGTERM: i32 = 15;

/// The signal that ends a process.
pub const SIGKILL: i32 = 9;

/// A signal to a process group.
#[derive(Clone, Copy, Debug, PartialEq, Eq, Structural)]
pub struct GroupSignal {
    pub process_group_id: u32,
    pub signal: i32,
}

/// What was seen right before a signal.
pub enum SignalEvidence {
    /// Of a child that is still held, and of its group.
    Child { leader_pid: u32, facts: SignalFacts },
    /// Whether the complete identity of a reattached process still matches.
    Attached { identity: Result<bool, Failure> },
}

/// The evidence is about this kind of process, and it is complete.
pub open spec fn is_about(evidence: SignalEvidence, process: ManagedProcess) -> bool {
    match evidence {
        SignalEvidence::Child { facts, .. } => {
            &&& process is Child
            &&& facts.group.complete()
            &&& facts.leader_exited == (process->cleanup is Some)
        },
        SignalEvidence::Attached { .. } => process is Attached,
    }
}

/// Why a child may not even be considered for a signal, if so.
pub open spec fn gate_fault(process: ManagedProcessView) -> Option<FailureView> {
    match process {
        ManagedProcessView::Child { identity_failed, cleanup, .. } => if identity_failed {
            Some(
                failure(
                    FailureKind::Other,
                    "refusing to signal an OpenCode child whose process-group identity changed"@,
                ),
            )
        } else if cleanup is Some && !cleanup->0.signal_allowed {
            Some(
                failure(
                    FailureKind::Other,
                    "refusing to signal an OpenCode child while its process-group identity is unverified"@,
                ),
            )
        } else {
            None
        },
        ManagedProcessView::Attached { .. } => None,
    }
}

/// Why a reattached process may not be signaled, if so.
pub open spec fn attached_signal_fault(
    record: ProcessRecord,
    identity: Result<bool, Failure>,
    own_group: u32,
) -> Option<FailureView> {
    match identity {
        Err(error) => Some(error.deep_view()),
        Ok(false) => Some(
            failure(FailureKind::Other, "refusing to signal a process whose identity changed"@),
        ),
        Ok(true) => if record.process_group_id == own_group {
            Some(
                failure(
                    FailureKind::Other,
                    "refusing to signal OpenCodeServerAgent's own process group"@,
                ),
            )
        } else {
            None
        },
    }
}

/// Why a process may not be signaled, if so.
pub open spec fn signal_fault(
    process: ManagedProcess,
    evidence: SignalEvidence,
    uid: u32,
    own_group: u32,
) -> Option<FailureView> {
    match gate_fault(process.deep_view()) {
        Some(fault) => Some(fault),
        None => match (process, evidence) {
            (
                ManagedProcess::Child { record, .. },
                SignalEvidence::Child { leader_pid, facts },
            ) => owned_signal_fault(record, leader_pid, facts, uid, own_group),
            (
                ManagedProcess::Attached { record },
                SignalEvidence::Attached { identity },
            ) => attached_signal_fault(record, identity, own_group),
            _ => None,
        },
    }
}

impl ManagedProcess {
    /// Decides whether the process may be signaled; the group to address is
    /// returned.
    fn signal(&self, evidence: SignalEvidence, uid: u32, own_group: u32) -> (outcome: Result<
        u32,
        Failure,
    >)
        requires
            is_about(evidence, *self),
        ensures
            fault_of(outcome) == signal_fault(*self, evidence, uid, own_group),
            outcome matches Ok(group) ==> group == self.deep_view().record().process_group_id,
    {
        match self.signal_gate() {
            Ok(()) => {},
            Err(error) => return Err(error),
        }
        match evidence {
            SignalEvidence::Child { leader_pid, facts } => signal_owned(
                self.record(),
                leader_pid,
                facts,
                uid,
                own_group,
            ),
            SignalEvidence::Attached { identity } => signal_attached(
                self.record(),
                identity,
                own_group,
            ),
        }
    }

    /// Asks the group of the process to stop, where it may be signaled.
    pub fn send_terminate(&self, evidence: SignalEvidence, uid: u32, own_group: u32) -> (outcome:
        Result<GroupSignal, Failure>)
        requires
            is_about(evidence, *self),
        ensures
            fault_of(outcome) == signal_fault(*self, evidence, uid, own_group),
            outcome matches Ok(sent) ==> sent == (GroupSignal {
                process_group_id: self.deep_view().record().process_group_id,
                signal: SIGTERM,
            }),
    {
        match self.signal(evidence, uid, own_group) {
            Ok(process_group_id) => Ok(GroupSignal { process_group_id, signal: SIGTERM }),
            Err(error) => Err(error),
        }
    }

    /// Ends the group of the process, where it may be signaled.
    pub fn send_kill(&self, evidence: SignalEvidence, uid: u32, own_group: u32) -> (outcome: Result<
        GroupSignal,
        Failure,
    >)
        requires
            is_about(evidence, *self),
        ensures
            fault_of(outcome) == signal_fault(*self, evidence, uid, own_group),
            outcome matches Ok(sent) ==> sent == (GroupSignal {
                process_group_id: self.deep_view().record().process_group_id,
                signal: SIGKILL,
            }),
    {
        match self.signal(evidence, uid, own_group) {
            Ok(process_group_id) => Ok(GroupSignal { process_group_id, signal: SIGKILL }),
            Err(error) => Err(error),
        }
    }
}

/// A process that is signaled had its authority in memory, and neither it nor
/// a reattached one shares the group of the agent.
pub proof fn only_authorized_processes_are_signaled(
    process: ManagedProcess,
    evidence: SignalEvidence,
    uid: u32,
    own_group: u32,
)
    requires
        is_about(evidence, process),
        signal_fault(process, evidence, uid, own_group) is None,
    ensures
        process is Child ==> process.deep_view().signalable(),
        process.deep_view().record().process_group_id != own_group,
{
    if let SignalEvidence::Child { leader_pid, facts } = evidence {
        signals_stay_in_the_dedicated_group(
            process->Child_record,
            leader_pid,
            facts,
            uid,
            own_group,
        );
    }
}

/// Giving up the identity of a child takes away its signal authority, and
/// neither a new record nor a new cleanup restores it.
pub proof fn identity_failure_bars_signals(
    process: ManagedProcessView,
    record: ProcessRecordView,
    cleanup: Option<PendingGroupCleanup>,
)
    requires
        process.owned(),
    ensures
        !process.with_identity_failed().signalable(),
        !process.with_identity_failed().with_record(record).signalable(),
        !process.with_identity_failed().with_cleanup(cleanup).signalable(),
{
}

/// The command that starts OpenCode.
pub struct SpawnPlan {
    pub program: String,
    pub arguments: Vec<String>,
    /// The user name and password handed over in the environment.
    pub credentials: Option<(String, String)>,
}

/// The mathematical content of a [`SpawnPlan`].
pub struct SpawnPlanView {
    pub program: Seq<char>,
    pub arguments: Seq<Seq<char>>,
    pub credentials: Option<(Seq<char>, Seq<char>)>,
}

impl DeepView for SpawnPlan {
    type V = SpawnPlanView;

    open spec fn deep_view(&self) -> SpawnPlanView {
        SpawnPlanView {
            program: self.program@,
            arguments: pieces_view(self.arguments@),
            credentials: match self.credentials {
                Some((username, password)) => Some((username@, password@)),
                None => None,
            },
        }
    }
}

/// The arguments with which OpenCode is started.
pub open spec fn spawn_arguments(hostname: Seq<char>, port: u16, mdns: bool) -> Seq<Seq<char>> {
    let base = seq![
        "serve"@,
        "--hostname"@,
        hostname,
        "--port"@,
        decimal_text(port as nat),
    ];
    if mdns {
        base.push("--mdns"@)
    } else {
        base
    }
}

/// How OpenCode is started under a configuration.
pub open spec fn planned(config: ValidatedConfigView) -> SpawnPlanView {
    SpawnPlanView {
        program: config.configured_executable,
        arguments: spawn_arguments(config.source.hostname, config.source.port, config.source.mdns),
        credentials: if config.source.password.len() > 0 {
            Some((config.effective_username, config.source.password))
        } else {
            None
        },
    }
}

impl SpawnPlan {
    /// Plans the start of OpenCode. Credentials are handed over only where
    /// there is a password.
    pub fn new(config: &ValidatedConfig) -> (plan: SpawnPlan)
        ensures
            plan.deep_view() == planned(config.deep_view()),
            plan.program@ == config.configured_executable@,
            pieces_view(plan.arguments@) == spawn_arguments(
                config.source.hostname@,
                config.source.port,
                config.source.mdns,
            ),
            match plan.credentials {
                Some((username, password)) => {
                    &&& config.source.password@.len() > 0
                    &&& username@ == config.effective_username@
                    &&& password@ == config.source.password@
                },
                None => config.source.password@.len() == 0,
            },
    {
        let mut arguments: Vec<String> = Vec::new();
        arguments.push("serve".to_owned());
        arguments.push("--hostname".to_owned());
        arguments.push(config.source.hostname.clone());
        arguments.push("--port".to_owned());
        arguments.push(decimal(config.source.port as u64));
        if config.source.mdns {
            arguments.push("--mdns".to_owned());
        }
        proof {
            assert(pieces_view(arguments@) =~= spawn_arguments(
                config.source.hostname@,
                config.source.port,
                config.source.mdns,
            ));
        }
        let credentials = if config.source.password.as_str().is_empty() {
            None
        } else {
            Some((config.effective_username.clone(), config.source.password.clone()))
        };
        SpawnPlan { program: config.configured_executable.clone(), arguments, credentials }
    }
}

/// The host whose addresses must be free before OpenCode is started.
pub fn endpoint_host(config: &ValidatedConfig) -> (host: String)
    ensures
        host@ == unbracketed(config.source.hostname@),
{
    strip_brackets(config.source.hostname.as_str())
}

/// Whether the configured endpoint is free, from resolving its host and
/// binding every address it resolved to.
pub fn ensure_endpoint_available(
    config: &ValidatedConfig,
    resolved: Result<usize, Failure>,
    bound: Result<(), Failure>,
) -> (outcome: Result<(), Failure>)
    ensures
        fault_of(outcome) == (match resolved {
            Err(error) => Some(error.deep_view()),
            Ok(count) => if count == 0 {
                Some(
                    failure(
                        FailureKind::AddrNotAvailable,
                        "configured hostname resolved to no local address"@,
                    ),
                )
            } else {
                match bound {
                    Ok(()) => None,
                    Err(error) => if error.kind == FailureKind::AddrInUse {
                        Some(
                            failure(
                                FailureKind::AddrInUse,
                                "configured endpoint "@ + config.deep_view().endpoint()
                                    + " is already in use"@,
                            ),
                        )
                    } else {
                        Some(error.deep_view())
                    },
                }
            },
        }),
{
    let count = match resolved {
        Ok(count) => count,
        Err(error) => return Err(error),
    };
    if count == 0 {
        return Err(
            Failure::new(
                FailureKind::AddrNotAvailable,
                "configured hostname resolved to no local address",
            ),
        );
    }
    match bound {
        Ok(()) => Ok(()),
        Err(error) => {
            if error.kind == FailureKind::AddrInUse {
                let endpoint = config.endpoint();
                let message = join("configured endpoint ", endpoint.as_str());
                Err(
                    Failure {
                        kind: FailureKind::AddrInUse,
                        message: join(message.as_str(), " is already in use"),
                    },
                )
            } else {
                Err(error)
            }
        },
    }
}

/// How many looks at a fresh process are taken before giving up.
pub const IDENTITY_ATTEMPTS: u32 = 20;

/// The wait for a fresh process to show the expected executable, twice in a
/// row.
pub struct SnapshotWait {
    pub attempts_left: u32,
    pub settling: bool,
    pub last_error: Option<Failure>,
    pub last_snapshot: Option<ProcessSnapshot>,
}

/// What the wait does next.
pub enum SnapshotStep {
    /// Wait a short moment and look again.
    Settle,
    /// Look again without waiting.
    Retry,
    /// Wait a moment and look again.
    Pause,
    Accept(ProcessSnapshot),
    GiveUp { error: Failure, last_snapshot: Option<ProcessSnapshot> },
}

/// One look: the snapshot and whether its executable is the expected one.
pub open spec fn expected_look(look: Result<ProcessSnapshot, Failure>, same_executable: bool) -> bool {
    look matches Ok(snapshot) && snapshot.executable is Some && same_executable
}

impl SnapshotWait {
    /// The wait before the first look.
    pub fn new() -> (wait: SnapshotWait)
        ensures
            wait.attempts_left == IDENTITY_ATTEMPTS,
            !wait.settling,
            wait.last_error is None,
            wait.last_snapshot is None,
    {
        SnapshotWait {
            attempts_left: IDENTITY_ATTEMPTS,
            settling: false,
            last_error: None,
            last_snapshot: None,
        }
    }

    /// Takes one look into account.
    pub fn wait_for_snapshot_with(
        &mut self,
        look: Result<ProcessSnapshot, Failure>,
        same_executable: bool,
    ) -> (step: SnapshotStep)
        requires
            old(self).attempts_left > 0,
        ensures
            expected_look(look, same_executable) && !old(self).settling ==> {
                &&& step is Settle
                &&& final(self).settling
                &&& final(self).attempts_left == old(self).attempts_left
                &&& final(self).last_error == old(self).last_error
                &&& final(self).last_snapshot == old(self).last_snapshot
            },
            expected_look(look, same_executable) && old(self).settling ==> step
                == SnapshotStep::Accept(look->Ok_0),
            !expected_look(look, same_executable) ==> {
                let error = match look {
                    Err(error) => error.deep_view(),
                    Ok(_) => failure(
                        FailureKind::Other,
                        if old(self).settling {
                            "spawned process executable does not match the configured target after identity settle"@
                        } else {
                            "spawned process executable does not match the configured target"@
                        },
                    ),
                };
                let snapshot = match look {
                    Ok(seen) => Some(seen),
                    Err(_) => old(self).last_snapshot,
                };
                if old(self).attempts_left == 1 {
                    &&& step matches SnapshotStep::GiveUp { error: reported, last_snapshot }
                    &&& reported.deep_view() == error
                    &&& last_snapshot == snapshot
                } else {
                    &&& if old(self).settling {
                        step is Retry
                    } else {
                        step is Pause
                    }
                    &&& !final(self).settling
                    &&& final(self).attempts_left == old(self).attempts_left - 1
                    &&& final(self).last_error matches Some(kept) && kept.deep_view() == error
                    &&& final(self).last_snapshot == snapshot
                }
            },
    {
        let was_settling = self.settling;
        match look {
            Ok(snapshot) => {
                if snapshot.executable.is_some() && same_executable {
                    if was_settling {
                        return SnapshotStep::Accept(snapshot);
                    }
                    self.settling = true;
                    return SnapshotStep::Settle;
                }
                self.last_error = Some(
                    Failure::other(
                        if was_settling {
                            "spawned process executable does not match the configured target after identity settle"
                        } else {
                            "spawned process executable does not match the configured target"
                        },
                    ),
                );
                self.last_snapshot = Some(snapshot);
            },
            Err(error) => {
                self.last_error = Some(error);
            },
        }
        self.settling = false;
        self.attempts_left = self.attempts_left - 1;
        if self.attempts_left == 0 {
            let error = match self.last_error.take() {
                Some(error) => error,
                None => Failure::other("unable to inspect spawned process"),
            };
            return SnapshotStep::GiveUp { error, last_snapshot: self.last_snapshot.take() };
        }
        if was_settling {
            SnapshotStep::Retry
        } else {
            SnapshotStep::Pause
        }
    }
}

/// Whether a confirmed process leads its own group; if not, the start failed.
pub fn confirm_own_group(pid: u32, snapshot: &ProcessSnapshot) -> (outcome: Result<(), Failure>)
    ensures
        fault_of(outcome) == (if snapshot.process_group_id == pid {
            None
        } else {
            Some(
                failure(
                    FailureKind::Other,
                    "OpenCode did not enter its dedicated process group"@,
                ),
            )
        }),
{
    if snapshot.process_group_id != pid {
        return Err(Failure::other("OpenCode did not enter its dedicated process group"));
    }
    Ok(())
}

/// A failed start. Where the process was created and outlived the attempt to
/// stop it, it is handed back and must stay supervised.
pub struct SpawnError {
    pub error: Failure,
    pub survivor: Option<ManagedProcess>,
}

impl SpawnError {
    pub fn kind(&self) -> (kind: FailureKind)
        ensures
            kind == self.error.kind,
    {
        self.error.kind
    }

    pub fn into_parts(self) -> (parts: (Failure, Option<ManagedProcess>))
        ensures
            parts == (self.error, self.survivor),
    {
        (self.error, self.survivor)
    }

    /// A failure that left no process behind.
    pub fn without_process(error: Failure) -> (made: SpawnError)
        ensures
            made.error == error,
            made.survivor is None,
    {
        SpawnError { error, survivor: None }
    }

    /// The failure after the attempt to stop an unconfirmed child: a reaped
    /// child is gone, any other one is handed back.
    pub fn terminate_unconfirmed_child(
        error: Failure,
        record: ProcessRecord,
        shutdown: crate::process_cleanup::UnregisteredChildShutdown,
    ) -> (made: SpawnError)
        ensures
            made.error == error,
            made.survivor == (match shutdown {
                crate::process_cleanup::UnregisteredChildShutdown::Reaped(_) => None,
                crate::process_cleanup::UnregisteredChildShutdown::Survived { cleanup } => Some(
                    ManagedProcess::Child { record, cleanup, identity_failed: false },
                ),
            }),
    {
        match shutdown {
            crate::process_cleanup::UnregisteredChildShutdown::Reaped(_) => SpawnError {
                error,
                survivor: None,
            },
            crate::process_cleanup::UnregisteredChildShutdown::Survived { cleanup } => SpawnError {
                error,
                survivor: Some(ManagedProcess::Child { record, cleanup, identity_failed: false }),
            },
        }
    }
}

/// OpenCode is started with the configured executable, told to serve at the
/// configured host and port, and to announce itself exactly where that was
/// configured. The user name and password are handed over exactly where there
/// is a password.
pub proof fn starts_bind_the_configured_endpoint(config: ValidatedConfigView)
    ensures
        ({
            let plan = planned(config);
            &&& plan.program == config.configured_executable
            &&& plan.arguments.len() == (if config.source.mdns {
                6int
            } else {
                5
            })
            &&& plan.arguments[0] == "serve"@
            &&& plan.arguments[1] == "--hostname"@
            &&& plan.arguments[2] == config.source.hostname
            &&& plan.arguments[3] == "--port"@
            &&& all_digits(plan.arguments[4])
            &&& decimal_value(plan.arguments[4]) == config.source.port
            &&& config.source.mdns ==> plan.arguments[5] == "--mdns"@
            &&& plan.credentials is Some <==> config.source.password.len() > 0
            &&& plan.credentials matches Some((username, password)) ==> username
                == config.effective_username && password == config.source.password
        }),
{
    decimals_denote_their_number(config.source.port as nat);
}

/// A live process is the recorded one exactly where its identifier, its user
/// and its start time are the recorded ones. It then still leads its recorded
/// group or has escaped, and runs the recorded executable, another one, or one
/// that is gone.
pub proof fn identities_are_judged_in_full(
    snapshot: ProcessSnapshot,
    record: ProcessRecord,
    uid: u32,
    same_executable: bool,
)
    ensures
        ({
            let probe = probed(snapshot, record, uid, same_executable);
            let itself = snapshot.pid == record.pid && snapshot.effective_uid == uid
                && snapshot.start_seconds == record.start_seconds && snapshot.start_microseconds
                == record.start_microseconds;
            let leads = snapshot.process_group_id == record.process_group_id
                && snapshot.process_group_id == snapshot.pid;
            &&& probe is Mismatch <==> !itself
            &&& probe is GroupEscaped <==> itself && !leads
            &&& probe is Match <==> itself && leads && snapshot.executable is Some
                && same_executable
            &&& probe is ExecutableMismatch <==> itself && leads && snapshot.executable is Some
                && !same_executable
            &&& probe is ExecutableVanished <==> itself && leads && snapshot.executable is None
        }),
{
}

/// A record is found missing exactly where the kernel knows no such process;
/// any other failure to look says nothing. A process that can be looked at is
/// classed as its identity was judged, and counts as itself while it keeps its
/// identity and its group.
pub proof fn looks_say_what_they_saw(
    snapshot: Result<ProcessSnapshot, Failure>,
    record: ProcessRecord,
    uid: u32,
    same_executable: bool,
)
    ensures
        ({
            let seen = identity_of(snapshot, record, uid, same_executable);
            &&& seen == Ok::<RecordIdentity, FailureView>(RecordIdentity::Missing)
                <==> snapshot is Err && snapshot->Err_0.kind is NoSuchProcess
            &&& seen is Err <==> snapshot is Err && !(snapshot->Err_0.kind is NoSuchProcess)
            &&& snapshot matches Ok(live) ==> {
                let itself = live.pid == record.pid && live.effective_uid == uid
                    && live.start_seconds == record.start_seconds && live.start_microseconds
                    == record.start_microseconds;
                let leads = live.process_group_id == record.process_group_id
                    && live.process_group_id == live.pid;
                &&& seen is Ok
                &&& seen->Ok_0 is Mismatched <==> !itself
                &&& seen->Ok_0 is GroupEscaped <==> itself && !leads
                &&& still_itself(seen->Ok_0) <==> itself && leads
                &&& seen->Ok_0 is Current <==> itself && leads && live.executable is Some
                    && same_executable
                &&& seen->Ok_0 is ExecutableVanished <==> itself && leads && live.executable
                    is None
            }
        }),
{
}

/// The record of a fresh process is that of the process that was seen, so that
/// the process is found to be the recorded one as long as it lives.
pub proof fn fresh_records_describe_their_process(
    snapshot: ProcessSnapshot,
    executable: Seq<char>,
    running_version: Option<Seq<char>>,
    config_fingerprint: ConfigFingerprintView,
    unix_now: u64,
    record: ProcessRecord,
    uid: u32,
)
    ensures
        ({
            let made = started_record(
                snapshot,
                executable,
                running_version,
                config_fingerprint,
                unix_now,
            );
            &&& made.pid == snapshot.pid
            &&& made.started_at_unix_seconds == unix_now
            &&& made.running_version == running_version
            &&& made.config_fingerprint == config_fingerprint
            &&& !made.identity_unconfirmed
            &&& snapshot.executable matches Some(path) ==> made.executable == path@
            &&& snapshot.executable is None ==> made.executable == executable
            &&& record.deep_view() == made && snapshot.effective_uid == uid
                && snapshot.process_group_id == snapshot.pid && snapshot.executable is Some
                ==> probed(snapshot, record, uid, true) is Match
        }),
{
}

/// The record of a survivor names the child and a group of its own. It counts
/// as confirmed exactly where the child was last seen to lead that group, and
/// then holds the start time that was seen.
pub proof fn survivors_are_recorded_as_seen(
    pid: u32,
    last: Option<ProcessSnapshot>,
    executable: Seq<char>,
    config_fingerprint: ConfigFingerprintView,
    unix_now: u64,
)
    ensures
        ({
            let made = unconfirmed_record(pid, last, executable, config_fingerprint, unix_now);
            let led = last is Some && last->0.process_group_id == pid;
            &&& made.pid == pid
            &&& made.process_group_id == pid
            &&& made.executable == executable
            &&& made.started_at_unix_seconds == unix_now
            &&& made.running_version is None
            &&& made.config_fingerprint == config_fingerprint
            &&& made.identity_unconfirmed <==> !led
            &&& led ==> made.start_seconds == last->0.start_seconds && made.start_microseconds
                == last->0.start_microseconds
            &&& !led ==> made.start_seconds == 0 && made.start_microseconds == 0
        }),
{
}

/// An identity is confirmed later only for a child that runs the configured
/// executable at the head of its own group. Confirming takes over its start
/// time and keeps the rest of the record.
pub proof fn confirmations_complete_the_record(
    process: ManagedProcessView,
    snapshot: ProcessSnapshot,
    same_executable: bool,
)
    ensures
        ({
            let record = process.record();
            let made = confirmed_record(record, snapshot);
            &&& made.start_seconds == snapshot.start_seconds
            &&& made.start_microseconds == snapshot.start_microseconds
            &&& !made.identity_unconfirmed
            &&& made.pid == record.pid && made.process_group_id == record.process_group_id
            &&& made.executable == record.executable
            &&& made.config_fingerprint == record.config_fingerprint
            &&& made.running_version == record.running_version
            &&& made.started_at_unix_seconds == record.started_at_unix_seconds
            &&& confirms(process, snapshot, same_executable) <==> process is Child
                && record.identity_unconfirmed && snapshot.executable is Some && same_executable
                && snapshot.pid == record.pid && snapshot.process_group_id == snapshot.pid
        }),
{
}

/// A child may be signaled unless its identity failed or the cleanup of its
/// group was refused; a reattached process unless its identity was never
/// confirmed. What is checked before a signal agrees for a child.
pub proof fn authority_is_lost_for_a_reason(process: ManagedProcessView)
    ensures
        match process {
            ManagedProcessView::Child { record, cleanup, identity_failed } => {
                let refused = identity_failed || (cleanup is Some && !cleanup->0.signal_allowed);
                &&& process.signalable() <==> !refused
                &&& gate_fault(process) is Some <==> refused
                &&& process.group_exit_pending() <==> cleanup is Some
                &&& process.record() == record
            },
            ManagedProcessView::Attached { record } => {
                &&& process.signalable() <==> !record.identity_unconfirmed
                &&& gate_fault(process) is None
                &&& !process.group_exit_pending()
                &&& process.record() == record
            },
        },
{
}

/// A reattached process is signaled exactly where it was just found to be
/// itself and its group is not the agent's own.
pub proof fn reattached_processes_are_signaled_as_themselves(
    record: ProcessRecord,
    identity: Result<bool, Failure>,
    own_group: u32,
)
    ensures
        attached_signal_fault(record, identity, own_group) is None <==> identity == Ok::<
            bool,
            Failure,
        >(true) && record.process_group_id != own_group,
{
}

/// The signals are those that ask a process to end and that end it.
pub proof fn signals_have_their_numbers()
    ensures
        SIGTERM == 15,
        SIGKILL == 9,
{
}

/// What a person is told of an exit ends in the status or the signal.
pub proof fn exits_are_told_with_their_number(code: i32)
    ensures
        ExitReason::Exited(code).wording() == "exited with status "@ + signed_decimal_text(
            code as int,
        ),
        ExitReason::Signaled(code).wording() == "terminated by signal "@ + signed_decimal_text(
            code as int,
        ),
        ExitReason::Disappeared.wording() == "process disappeared"@,
{
}

} // verus!
