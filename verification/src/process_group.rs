//! Observing and addressing the dedicated process group of a managed process.

#[allow(unused_imports)]
use vstd::prelude::*;
use crate::failure::{Failure, FailureKind};
#[allow(unused_imports)]
use crate::failure::{failure, fault_of, FailureView};
use crate::platform::{ChildExitObservation, ProcessSnapshot};
use crate::runtime_state::ProcessRecord;

verus! {

#[derive(Clone, Copy, Debug, PartialEq, Eq, Structural)]
pub enum GroupObservation {
    Empty,
    HasMembers,
}

/// The direct child leads its own group, which is neither the whole system
/// nor the agent's own group.
pub open spec fn safe_anchor(record: ProcessRecord, leader_pid: u32, own_group: u32) -> bool {
    &&& leader_pid == record.pid
    &&& record.process_group_id == leader_pid
    &&& leader_pid > 1
    &&& leader_pid != own_group
}

/// A group that may be inspected.
pub open spec fn inspectable(process_group_id: u32, own_group: u32) -> bool {
    process_group_id > 1 && process_group_id != own_group
}

/// Checks that an owned child anchors its own group.
pub fn validate_owned_anchor(record: &ProcessRecord, leader_pid: u32, own_group: u32) -> (outcome:
    Result<(), Failure>)
    ensures
        fault_of(outcome) == (if safe_anchor(*record, leader_pid, own_group) {
            None
        } else {
            Some(
                failure(
                    FailureKind::Other,
                    "the owned OpenCode child does not have a safe dedicated process-group anchor"@,
                ),
            )
        }),
{
    if leader_pid != record.pid || record.process_group_id != leader_pid || leader_pid <= 1
        || leader_pid == own_group {
        return Err(
            Failure::other(
                "the owned OpenCode child does not have a safe dedicated process-group anchor",
            ),
        );
    }
    Ok(())
}

/// Checks that a group may be inspected.
pub fn validate_group_id(process_group_id: u32, own_group: u32) -> (outcome: Result<(), Failure>)
    ensures
        fault_of(outcome) == (if inspectable(process_group_id, own_group) {
            None
        } else {
            Some(
                failure(
                    FailureKind::Other,
                    "refusing to inspect OpenCodeServerAgent's own process group"@,
                ),
            )
        }),
{
    if process_group_id <= 1 || process_group_id == own_group {
        return Err(
            Failure::other("refusing to inspect OpenCodeServerAgent's own process group"),
        );
    }
    Ok(())
}

/// What is wrong with a live leader, if anything.
pub open spec fn leader_fault(record: ProcessRecord, snapshot: ProcessSnapshot, uid: u32) -> Option<
    FailureView,
> {
    let starts_match = record.identity_unconfirmed || (snapshot.start_seconds
        == record.start_seconds && snapshot.start_microseconds == record.start_microseconds);
    if snapshot.pid != record.pid || snapshot.effective_uid != uid || !starts_match {
        Some(
            failure(
                FailureKind::Other,
                "the owned OpenCode leader identity no longer matches"@,
            ),
        )
    } else if snapshot.process_group_id != record.process_group_id {
        Some(
            failure(
                FailureKind::Other,
                "the owned OpenCode leader abandoned its dedicated process group"@,
            ),
        )
    } else {
        None
    }
}

/// Checks a live leader against its record.
pub fn validate_leader_snapshot(record: &ProcessRecord, snapshot: &ProcessSnapshot, uid: u32) -> (
outcome: Result<(), Failure>)
    ensures
        fault_of(outcome) == leader_fault(*record, *snapshot, uid),
{
    let starts_match = record.identity_unconfirmed || (snapshot.start_seconds
        == record.start_seconds && snapshot.start_microseconds == record.start_microseconds);
    if snapshot.pid != record.pid || snapshot.effective_uid != uid || !starts_match {
        return Err(Failure::other("the owned OpenCode leader identity no longer matches"));
    }
    if snapshot.process_group_id != record.process_group_id {
        return Err(
            Failure::other("the owned OpenCode leader abandoned its dedicated process group"),
        );
    }
    Ok(())
}

/// Whether a live leader may be addressed. A leader that the kernel no longer
/// reports must be proven to be our waitable exit.
pub open spec fn live_leader_fault(
    record: ProcessRecord,
    snapshot: Result<ProcessSnapshot, Failure>,
    peek: Result<Option<ChildExitObservation>, Failure>,
    uid: u32,
) -> Option<FailureView> {
    match snapshot {
        Ok(live) => leader_fault(record, live, uid),
        Err(error) => if error.kind == FailureKind::NoSuchProcess {
            match peek {
                Ok(Some(_)) => None,
                Ok(None) => Some(
                    failure(
                        FailureKind::Other,
                        "the owned OpenCode leader disappeared without a waitable exit"@,
                    ),
                ),
                Err(fault) => Some(fault.deep_view()),
            }
        } else {
            Some(error.deep_view())
        },
    }
}

/// Checks a leader that has not been seen to exit. `peek` is the child's
/// observed exit, needed only where the kernel no longer reports the leader.
pub fn validate_live_leader(
    record: &ProcessRecord,
    snapshot: Result<ProcessSnapshot, Failure>,
    peek: Result<Option<ChildExitObservation>, Failure>,
    uid: u32,
) -> (outcome: Result<(), Failure>)
    ensures
        fault_of(outcome) == live_leader_fault(*record, snapshot, peek, uid),
{
    match snapshot {
        Ok(live) => validate_leader_snapshot(record, &live, uid),
        Err(error) => {
            if error.kind == FailureKind::NoSuchProcess {
                match peek {
                    Ok(Some(_)) => Ok(()),
                    Ok(None) => Err(
                        Failure::other(
                            "the owned OpenCode leader disappeared without a waitable exit",
                        ),
                    ),
                    Err(fault) => Err(fault),
                }
            } else {
                Err(error)
            }
        },
    }
}

/// A member that is trusted: itself, in the group, and of this user.
pub open spec fn trusted_member(snapshot: ProcessSnapshot, pid: u32, group: u32, uid: u32) -> bool {
    snapshot.pid == pid && snapshot.process_group_id == group && snapshot.effective_uid == uid
}

/// The outcome of examining the listed members from `from` on, where
/// `found` tells whether a live one was found before.
pub open spec fn members_from(
    group: u32,
    skip: Option<u32>,
    pids: Seq<u32>,
    snapshots: Seq<Result<ProcessSnapshot, Failure>>,
    uid: u32,
    from: int,
    found: bool,
) -> Result<GroupObservation, FailureView>
    decreases pids.len() - from,
{
    if from < 0 || from >= pids.len() {
        Ok(
            if found {
                GroupObservation::HasMembers
            } else {
                GroupObservation::Empty
            },
        )
    } else if pids[from] <= 1 {
        Err(
            failure(
                FailureKind::Other,
                "the OpenCode process group listing contained a system PID"@,
            ),
        )
    } else if skip == Some(pids[from]) {
        members_from(group, skip, pids, snapshots, uid, from + 1, found)
    } else {
        match snapshots[from] {
            Ok(snapshot) => if trusted_member(snapshot, pids[from], group, uid) {
                members_from(group, skip, pids, snapshots, uid, from + 1, true)
            } else {
                Err(
                    failure(
                        FailureKind::Other,
                        "the OpenCode process group contains an untrusted member"@,
                    ),
                )
            },
            Err(error) => if error.kind == FailureKind::NoSuchProcess {
                members_from(group, skip, pids, snapshots, uid, from + 1, found)
            } else {
                Err(error.deep_view())
            },
        }
    }
}

/// What the system reports about a group: the listed members, and a snapshot
/// of each.
pub struct GroupFacts {
    pub members: Result<Vec<u32>, Failure>,
    pub snapshots: Vec<Result<ProcessSnapshot, Failure>>,
}

impl GroupFacts {
    /// There is a snapshot for every listed member.
    pub open spec fn complete(self) -> bool {
        self.members matches Ok(pids) ==> pids@.len() == self.snapshots@.len()
    }

    /// Whether there is a snapshot for every listed member.
    pub fn is_complete(&self) -> (complete: bool)
        ensures
            complete == self.complete(),
    {
        match &self.members {
            Ok(pids) => pids.len() == self.snapshots.len(),
            Err(_) => true,
        }
    }
}

/// The content of an observation.
pub open spec fn observation_view(outcome: Result<GroupObservation, Failure>) -> Result<
    GroupObservation,
    FailureView,
> {
    match outcome {
        Ok(observation) => Ok(observation),
        Err(error) => Err(error.deep_view()),
    }
}

/// The outcome of observing a group.
pub open spec fn observed_members(
    group: u32,
    skip: Option<u32>,
    facts: GroupFacts,
    uid: u32,
    own_group: u32,
) -> Result<GroupObservation, FailureView> {
    if !inspectable(group, own_group) {
        Err(
            failure(
                FailureKind::Other,
                "refusing to inspect OpenCodeServerAgent's own process group"@,
            ),
        )
    } else {
        match facts.members {
            Err(error) => Err(error.deep_view()),
            Ok(pids) => members_from(group, skip, pids@, facts.snapshots@, uid, 0, false),
        }
    }
}

/// Decides whether a group has live members, apart from `skip`. A single
/// member that cannot be trusted makes the observation fail.
pub fn observe_members(
    group: u32,
    skip: Option<u32>,
    facts: &GroupFacts,
    uid: u32,
    own_group: u32,
) -> (outcome: Result<GroupObservation, Failure>)
    requires
        facts.complete(),
    ensures
        observation_view(outcome) == observed_members(group, skip, *facts, uid, own_group),
{
    match validate_group_id(group, own_group) {
        Ok(()) => {},
        Err(error) => return Err(error),
    }
    let pids = match &facts.members {
        Ok(pids) => pids,
        Err(error) => return Err(error.clone()),
    };
    let mut found = false;
    let mut index: usize = 0;
    while index < pids.len()
        invariant
            index <= pids@.len(),
            pids@.len() == facts.snapshots@.len(),
            facts.members == Ok::<Vec<u32>, Failure>(*pids),
            inspectable(group, own_group),
            observed_members(group, skip, *facts, uid, own_group) == members_from(
                group,
                skip,
                pids@,
                facts.snapshots@,
                uid,
                index as int,
                found,
            ),
        decreases pids@.len() - index,
    {
        let pid: u32 = pids[index];
        if pid <= 1 {
            return Err(
                Failure::other("the OpenCode process group listing contained a system PID"),
            );
        }
        let skipped = match skip {
            Some(leader) => leader == pid,
            None => false,
        };
        if !skipped {
            match &facts.snapshots[index] {
                Ok(snapshot) => {
                    if snapshot.pid == pid && snapshot.process_group_id == group
                        && snapshot.effective_uid == uid {
                        found = true;
                    } else {
                        return Err(
                            Failure::other(
                                "the OpenCode process group contains an untrusted member",
                            ),
                        );
                    }
                },
                Err(error) => {
                    if error.kind != FailureKind::NoSuchProcess {
                        return Err(error.clone());
                    }
                },
            }
        }
        index = index + 1;
    }
    Ok(
        if found {
            GroupObservation::HasMembers
        } else {
            GroupObservation::Empty
        },
    )
}

/// Observes the members other than the still-owned leader.
pub fn observe_owned(
    record: &ProcessRecord,
    leader_pid: u32,
    facts: &GroupFacts,
    uid: u32,
    own_group: u32,
) -> (outcome: Result<GroupObservation, Failure>)
    requires
        facts.complete(),
    ensures
        observation_view(outcome) == (if safe_anchor(*record, leader_pid, own_group) {
            observed_members(record.process_group_id, Some(leader_pid), *facts, uid, own_group)
        } else {
            Err(
                failure(
                    FailureKind::Other,
                    "the owned OpenCode child does not have a safe dedicated process-group anchor"@,
                ),
            )
        }),
{
    match validate_owned_anchor(record, leader_pid, own_group) {
        Ok(()) => {},
        Err(error) => return Err(error),
    }
    observe_members(record.process_group_id, Some(leader_pid), facts, uid, own_group)
}

/// Whether the group of a reattached record has any live member. This only
/// observes: such a record authorizes no signal once its leader is gone.
pub fn observe_attached(record: &ProcessRecord, facts: &GroupFacts, uid: u32, own_group: u32) -> (
outcome: Result<bool, Failure>)
    requires
        facts.complete(),
    ensures
        match observed_members(record.process_group_id, None, *facts, uid, own_group) {
            Ok(observation) => outcome == Ok::<bool, Failure>(observation is HasMembers),
            Err(fault) => fault_of(outcome) == Some(fault),
        },
{
    match observe_members(record.process_group_id, None, facts, uid, own_group) {
        Ok(GroupObservation::Empty) => Ok(false),
        Ok(GroupObservation::HasMembers) => Ok(true),
        Err(error) => Err(error),
    }
}

/// Everything that must be known before an owned group is signaled.
pub struct SignalFacts {
    /// The leader was seen to exit and is still waitable.
    pub leader_exited: bool,
    pub leader: Result<ProcessSnapshot, Failure>,
    pub peek: Result<Option<ChildExitObservation>, Failure>,
    pub group: GroupFacts,
}

/// Why an owned group may not be signaled, if so.
pub open spec fn owned_signal_fault(
    record: ProcessRecord,
    leader_pid: u32,
    facts: SignalFacts,
    uid: u32,
    own_group: u32,
) -> Option<FailureView> {
    if !safe_anchor(record, leader_pid, own_group) {
        Some(
            failure(
                FailureKind::Other,
                "the owned OpenCode child does not have a safe dedicated process-group anchor"@,
            ),
        )
    } else {
        let leader = if facts.leader_exited {
            None
        } else {
            live_leader_fault(record, facts.leader, facts.peek, uid)
        };
        match leader {
            Some(fault) => Some(fault),
            None => match observed_members(
                record.process_group_id,
                Some(leader_pid),
                facts.group,
                uid,
                own_group,
            ) {
                Ok(_) => None,
                Err(fault) => Some(fault),
            },
        }
    }
}

/// Decides whether an owned group may be signaled; the group to address is
/// returned.
pub fn signal_owned(
    record: &ProcessRecord,
    leader_pid: u32,
    facts: SignalFacts,
    uid: u32,
    own_group: u32,
) -> (outcome: Result<u32, Failure>)
    requires
        facts.group.complete(),
    ensures
        fault_of(outcome) == owned_signal_fault(*record, leader_pid, facts, uid, own_group),
        outcome matches Ok(group) ==> group == record.process_group_id,
{
    match validate_owned_anchor(record, leader_pid, own_group) {
        Ok(()) => {},
        Err(error) => return Err(error),
    }
    if !facts.leader_exited {
        match validate_live_leader(record, facts.leader, facts.peek, uid) {
            Ok(()) => {},
            Err(error) => return Err(error),
        }
    }
    match observe_members(record.process_group_id, Some(leader_pid), &facts.group, uid, own_group) {
        Ok(_) => Ok(record.process_group_id),
        Err(error) => Err(error),
    }
}

/// The agent never signals its own group, nor the whole system, through an
/// owned child.
pub proof fn signals_stay_in_the_dedicated_group(
    record: ProcessRecord,
    leader_pid: u32,
    facts: SignalFacts,
    uid: u32,
    own_group: u32,
)
    requires
        owned_signal_fault(record, leader_pid, facts, uid, own_group) is None,
    ensures
        record.process_group_id == leader_pid,
        record.process_group_id > 1,
        record.process_group_id != own_group,
{
}

proof fn untrusted_member_stops_the_walk(
    group: u32,
    skip: Option<u32>,
    pids: Seq<u32>,
    snapshots: Seq<Result<ProcessSnapshot, Failure>>,
    uid: u32,
    from: int,
    found: bool,
    at: int,
)
    requires
        0 <= from <= at < pids.len(),
        skip != Some(pids[at]),
        snapshots[at] matches Ok(snapshot) && !trusted_member(snapshot, pids[at], group, uid),
    ensures
        members_from(group, skip, pids, snapshots, uid, from, found) is Err,
    decreases at - from,
{
    if from < at {
        untrusted_member_stops_the_walk(group, skip, pids, snapshots, uid, from + 1, found, at);
        untrusted_member_stops_the_walk(group, skip, pids, snapshots, uid, from + 1, true, at);
    }
}

/// One live member of another user or another group, the leader aside, makes
/// every observation of the group fail, so the group is not signaled.
pub proof fn untrusted_members_bar_signals(
    record: ProcessRecord,
    leader_pid: u32,
    facts: SignalFacts,
    uid: u32,
    own_group: u32,
    at: int,
)
    requires
        facts.group.members is Ok,
        0 <= at < facts.group.members->Ok_0@.len(),
        facts.group.members->Ok_0@[at] != leader_pid,
        facts.group.snapshots@[at] is Ok,
        !trusted_member(
            facts.group.snapshots@[at]->Ok_0,
            facts.group.members->Ok_0@[at],
            record.process_group_id,
            uid,
        ),
    ensures
        owned_signal_fault(record, leader_pid, facts, uid, own_group) is Some,
{
    untrusted_member_stops_the_walk(
        record.process_group_id,
        Some(leader_pid),
        facts.group.members->Ok_0@,
        facts.group.snapshots@,
        uid,
        0,
        false,
        at,
    );
}

/// A leader is accepted exactly where it is the recorded process of the user,
/// still in its recorded group.
pub proof fn leaders_are_accepted_as_recorded(
    record: ProcessRecord,
    snapshot: ProcessSnapshot,
    uid: u32,
)
    ensures
        leader_fault(record, snapshot, uid) is None <==> snapshot.pid == record.pid
            && snapshot.effective_uid == uid && snapshot.process_group_id
            == record.process_group_id && (record.identity_unconfirmed || (snapshot.start_seconds
            == record.start_seconds && snapshot.start_microseconds == record.start_microseconds)),
{
}

/// A group is inspected only where it is neither the agent's own nor the whole
/// system, and signaled through a child only where the child leads it.
pub proof fn anchors_lead_their_own_group(record: ProcessRecord, leader_pid: u32, own_group: u32)
    ensures
        safe_anchor(record, leader_pid, own_group) <==> leader_pid == record.pid && leader_pid
            == record.process_group_id && leader_pid != 0 && leader_pid != 1 && leader_pid
            != own_group,
        inspectable(record.process_group_id, own_group) <==> record.process_group_id != 0
            && record.process_group_id != 1 && record.process_group_id != own_group,
{
}

/// The walk over a listing finds members exactly where one is alive in the
/// group, provided that every listed process is one, is gone, or is skipped.
proof fn walks_find_members(
    group: u32,
    skip: Option<u32>,
    pids: Seq<u32>,
    snapshots: Seq<Result<ProcessSnapshot, Failure>>,
    uid: u32,
    from: int,
    found: bool,
)
    requires
        0 <= from <= pids.len(),
        forall|i: int|
            from <= i < pids.len() ==> #[trigger] pids[i] > 1 && (skip == Some(pids[i]) || (
            snapshots[i] is Ok && trusted_member(snapshots[i]->Ok_0, pids[i], group, uid)) || (
            snapshots[i] is Err && snapshots[i]->Err_0.kind is NoSuchProcess)),
    ensures
        members_from(group, skip, pids, snapshots, uid, from, found) is Ok,
        members_from(group, skip, pids, snapshots, uid, from, found)->Ok_0 is HasMembers <==> found
            || exists|i: int|
            from <= i < pids.len() && skip != Some(#[trigger] pids[i]) && snapshots[i] is Ok,
    decreases pids.len() - from,
{
    if from < pids.len() {
        let alive = skip != Some(pids[from]) && snapshots[from] is Ok;
        walks_find_members(group, skip, pids, snapshots, uid, from + 1, found || alive);
        if exists|i: int|
            from <= i < pids.len() && skip != Some(#[trigger] pids[i]) && snapshots[i] is Ok {
            let i = choose|i: int|
                from <= i < pids.len() && skip != Some(#[trigger] pids[i]) && snapshots[i] is Ok;
            if i > from {
                assert(skip != Some(pids[i]) && snapshots[i] is Ok);
            }
        }
    }
}

/// A group whose listed processes are all its own, or gone, has members exactly
/// where one of them, other than the leader, is alive.
pub proof fn live_members_are_found(
    group: u32,
    skip: Option<u32>,
    facts: GroupFacts,
    uid: u32,
    own_group: u32,
)
    requires
        group > 1,
        group != own_group,
        facts.members is Ok,
        forall|i: int|
            0 <= i < facts.members->Ok_0@.len() ==> {
                let pid = #[trigger] facts.members->Ok_0@[i];
                let look = facts.snapshots@[i];
                &&& pid > 1
                &&& skip == Some(pid) || (look matches Ok(seen) && seen.pid == pid
                    && seen.process_group_id == group && seen.effective_uid == uid) || (
                look matches Err(error) && error.kind is NoSuchProcess)
            },
    ensures
        observed_members(group, skip, facts, uid, own_group) is Ok,
        observed_members(group, skip, facts, uid, own_group)->Ok_0 is HasMembers <==> exists|i: int|
            0 <= i < facts.members->Ok_0@.len() && skip != Some(
                #[trigger] facts.members->Ok_0@[i],
            ) && facts.snapshots@[i] is Ok,
{
    walks_find_members(
        group,
        skip,
        facts.members->Ok_0@,
        facts.snapshots@,
        uid,
        0,
        false,
    );
}

/// The group of a live child, whose leader is as recorded and whose members can
/// all be looked at, may be signaled.
pub proof fn own_groups_may_be_signaled(
    record: ProcessRecord,
    leader_pid: u32,
    facts: SignalFacts,
    uid: u32,
    own_group: u32,
)
    ensures
        owned_signal_fault(record, leader_pid, facts, uid, own_group) is None <==> {
            &&& leader_pid == record.pid
            &&& leader_pid == record.process_group_id
            &&& leader_pid > 1
            &&& leader_pid != own_group
            &&& facts.leader_exited || live_leader_fault(record, facts.leader, facts.peek, uid)
                is None
            &&& observed_members(
                record.process_group_id,
                Some(leader_pid),
                facts.group,
                uid,
                own_group,
            ) is Ok
        },
{
}

} // verus!
