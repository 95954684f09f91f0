//! Closing the process group of an installed-version query.
//!
//! The query has no durable record. While its child is unreaped, the child
//! anchors the group; whenever that cannot be shown, only the child itself is
//! addressed and the result of the query is not trusted.

#[allow(unused_imports)]
use vstd::prelude::*;
use crate::failure::{Failure, FailureKind};
#[allow(unused_imports)]
use crate::failure::{failure, fault_of, FailureView};
use crate::platform::{ChildExitObservation, ProcessSnapshot};
use crate::process_group::GroupFacts;
#[allow(unused_imports)]
use crate::process_group::{inspectable, trusted_member};

verus! {

/// How long a signaled group may take to empty.
pub const GROUP_CLEANUP_TIMEOUT: u64 = 2_000_000_000;

/// How long an unseen leader may take to become waitable.
pub const GROUP_ANCHOR_TIMEOUT: u64 = 250_000_000;

pub const POLL_INTERVAL: u64 = 10_000_000;

/// What closing the group showed about the query.
#[derive(Clone, Copy, Debug, PartialEq, Eq, Structural)]
pub struct QueryGroupOutcome {
    /// Processes other than the leader were left in the group.
    pub residual: bool,
    /// The result of the query must not be trusted.
    pub quarantined: bool,
}

/// A query whose group is to be closed.
#[derive(Clone, Copy, Debug, PartialEq, Eq, Structural)]
pub struct QueryGroup {
    pub pid: u32,
    pub own_group: u32,
    /// The leader was seen in its own group.
    pub authorized: bool,
    /// The leader was gone before it could be looked at.
    pub snapshot_missing: bool,
    /// The query is to be ended even where nothing is left over.
    pub terminate: bool,
}

/// How the group is closed.
#[derive(Clone, Copy, Debug, PartialEq, Eq, Structural)]
pub enum QueryGroupAction {
    Nothing,
    KillLeader,
    SignalGroup,
    /// Signal the group, and wait until it is empty.
    SignalGroupAndWait,
}

impl QueryGroup {
    /// The group may be looked at: its leader was seen in it, or the leader
    /// is provably our waitable exit.
    pub open spec fn targetable(self, anchored: bool) -> bool {
        self.authorized || (self.snapshot_missing && anchored && self.pid > 1 && self.pid
            != self.own_group)
    }

    /// Whether the group may be looked at. `anchored` tells whether the
    /// leader's exit was seen to be waitable.
    pub fn is_targetable(&self, anchored: bool) -> (targetable: bool)
        ensures
            targetable == self.targetable(anchored),
    {
        let waitable = self.snapshot_missing && anchored && self.pid > 1 && self.pid
            != self.own_group;
        self.authorized || waitable
    }
}

/// How a group is closed, and what that says about the query. `members` are
/// the processes in the group besides the leader, where they were looked at.
pub open spec fn closing(
    group: QueryGroup,
    anchored: bool,
    members: Option<Result<Vec<u32>, Failure>>,
) -> (QueryGroupAction, QueryGroupOutcome) {
    if !group.targetable(anchored) || !(members matches Some(Ok(_))) {
        (QueryGroupAction::KillLeader, QueryGroupOutcome { residual: false, quarantined: true })
    } else if members->Some_0->Ok_0@.len() > 0 {
        (
            QueryGroupAction::SignalGroupAndWait,
            QueryGroupOutcome { residual: true, quarantined: true },
        )
    } else {
        (
            if group.terminate {
                QueryGroupAction::SignalGroup
            } else {
                QueryGroupAction::Nothing
            },
            QueryGroupOutcome { residual: false, quarantined: false },
        )
    }
}

/// Decides how the group of a query is closed.
pub fn converge_query_group(
    group: &QueryGroup,
    anchored: bool,
    members: &Option<Result<Vec<u32>, Failure>>,
) -> (decision: (QueryGroupAction, QueryGroupOutcome))
    ensures
        decision == closing(*group, anchored, *members),
{
    if !group.is_targetable(anchored) {
        return (
            QueryGroupAction::KillLeader,
            QueryGroupOutcome { residual: false, quarantined: true },
        );
    }
    match members {
        Some(Ok(pids)) => {
            if pids.len() > 0 {
                return (
                    QueryGroupAction::SignalGroupAndWait,
                    QueryGroupOutcome { residual: true, quarantined: true },
                );
            }
            (
                if group.terminate {
                    QueryGroupAction::SignalGroup
                } else {
                    QueryGroupAction::Nothing
                },
                QueryGroupOutcome { residual: false, quarantined: false },
            )
        },
        _ => (
            QueryGroupAction::KillLeader,
            QueryGroupOutcome { residual: false, quarantined: true },
        ),
    }
}

/// What a bounded wait does next.
#[derive(Clone, Copy, Debug, PartialEq, Eq, Structural)]
pub enum WaitStep {
    Done,
    Retry,
    GiveUp,
}

/// One look at an unseen leader: is its exit waitable yet?
pub fn wait_for_waitable_group_anchor(
    peek: &Result<Option<ChildExitObservation>, Failure>,
    now: u64,
    deadline: u64,
) -> (step: WaitStep)
    ensures
        step == (match *peek {
            Ok(Some(_)) => WaitStep::Done,
            Ok(None) => if now < deadline {
                WaitStep::Retry
            } else {
                WaitStep::GiveUp
            },
            Err(_) => WaitStep::GiveUp,
        }),
{
    match peek {
        Ok(Some(_)) => WaitStep::Done,
        Ok(None) => {
            if now < deadline {
                WaitStep::Retry
            } else {
                WaitStep::GiveUp
            }
        },
        Err(_) => WaitStep::GiveUp,
    }
}

/// One look at a signaled group: is it empty yet?
pub fn wait_for_group_empty(members: &Result<Vec<u32>, Failure>, now: u64, deadline: u64) -> (step:
    WaitStep)
    ensures
        step == (match *members {
            Ok(pids) => if pids@.len() == 0 {
                WaitStep::Done
            } else if now < deadline {
                WaitStep::Retry
            } else {
                WaitStep::GiveUp
            },
            Err(_) => WaitStep::GiveUp,
        }),
{
    match members {
        Ok(pids) => {
            if pids.len() == 0 {
                WaitStep::Done
            } else if now < deadline {
                WaitStep::Retry
            } else {
                WaitStep::GiveUp
            }
        },
        Err(_) => WaitStep::GiveUp,
    }
}

/// Whether the leader is killed on its own after its group was signaled: a
/// group that is already gone needs nothing more.
pub fn signal_group(sent: &Result<(), Failure>) -> (kill_leader: bool)
    ensures
        kill_leader == (*sent matches Err(error) && error.kind != FailureKind::NoSuchProcess),
{
    match sent {
        Ok(()) => false,
        Err(error) => error.kind != FailureKind::NoSuchProcess,
    }
}

/// The members from `from` on, apart from the leader, added to those `found`
/// before.
pub open spec fn query_members_from(
    group: u32,
    pids: Seq<u32>,
    snapshots: Seq<Result<ProcessSnapshot, Failure>>,
    uid: u32,
    from: int,
    found: Seq<u32>,
) -> Result<Seq<u32>, FailureView>
    decreases pids.len() - from,
{
    if from < 0 || from >= pids.len() {
        Ok(found)
    } else if pids[from] <= 1 {
        Err(
            failure(
                FailureKind::Other,
                "installed-version query process group listed a system PID"@,
            ),
        )
    } else if pids[from] == group {
        query_members_from(group, pids, snapshots, uid, from + 1, found)
    } else {
        match snapshots[from] {
            Ok(snapshot) => if trusted_member(snapshot, pids[from], group, uid) {
                query_members_from(group, pids, snapshots, uid, from + 1, found.push(pids[from]))
            } else {
                Err(
                    failure(
                        FailureKind::Other,
                        "installed-version query process group contains an untrusted member"@,
                    ),
                )
            },
            Err(error) => if error.kind == FailureKind::NoSuchProcess {
                query_members_from(group, pids, snapshots, uid, from + 1, found)
            } else {
                Err(error.deep_view())
            },
        }
    }
}

/// The members of a query's group besides its leader.
pub open spec fn query_members(group: u32, facts: GroupFacts, uid: u32, own_group: u32) -> Result<
    Seq<u32>,
    FailureView,
> {
    if !inspectable(group, own_group) {
        Err(
            failure(
                FailureKind::Other,
                "refusing to inspect OpenCodeServerAgent's own process group"@,
            ),
        )
    } else {
        match facts.members {
            Err(error) => Err(error.deep_view()),
            Ok(pids) => query_members_from(
                group,
                pids@,
                facts.snapshots@,
                uid,
                0,
                Seq::<u32>::empty(),
            ),
        }
    }
}

/// Lists the members of a query's group besides its leader. A single member
/// that cannot be trusted makes the listing fail.
pub fn authorized_query_group_members(
    group: u32,
    facts: &GroupFacts,
    uid: u32,
    own_group: u32,
) -> (outcome: Result<Vec<u32>, Failure>)
    requires
        facts.complete(),
    ensures
        match query_members(group, *facts, uid, own_group) {
            Ok(members) => outcome matches Ok(pids) && pids@ == members,
            Err(fault) => fault_of(outcome) == Some(fault),
        },
{
    match crate::process_group::validate_group_id(group, own_group) {
        Ok(()) => {},
        Err(error) => return Err(error),
    }
    let pids = match &facts.members {
        Ok(pids) => pids,
        Err(error) => return Err(error.clone()),
    };
    let mut members: Vec<u32> = Vec::new();
    let mut index: usize = 0;
    while index < pids.len()
        invariant
            index <= pids@.len(),
            pids@.len() == facts.snapshots@.len(),
            facts.members == Ok::<Vec<u32>, Failure>(*pids),
            inspectable(group, own_group),
            query_members(group, *facts, uid, own_group) == query_members_from(
                group,
                pids@,
                facts.snapshots@,
                uid,
                index as int,
                members@,
            ),
        decreases pids@.len() - index,
    {
        let pid: u32 = pids[index];
        if pid <= 1 {
            return Err(
                Failure::other("installed-version query process group listed a system PID"),
            );
        }
        if pid != group {
            match &facts.snapshots[index] {
                Ok(snapshot) => {
                    if snapshot.pid == pid && snapshot.effective_uid == uid
                        && snapshot.process_group_id == group {
                        members.push(pid);
                    } else {
                        return Err(
                            Failure::other(
                                "installed-version query process group contains an untrusted member",
                            ),
                        );
                    }
                },
                Err(error) => {
                    if error.kind != FailureKind::NoSuchProcess {
                        return Err(error.clone());
                    }
                },
            }
        }
        index = index + 1;
    }
    Ok(members)
}

/// A group is signaled only where it could be listed, and only where it is
/// neither the whole system's nor the agent's own.
pub proof fn query_signals_stay_in_the_query_group(
    group: QueryGroup,
    anchored: bool,
    facts: GroupFacts,
    uid: u32,
    members: Option<Result<Vec<u32>, Failure>>,
)
    requires
        members matches Some(Ok(pids)) ==> query_members(group.pid, facts, uid, group.own_group)
            == Ok::<Seq<u32>, FailureView>(pids@),
        closing(group, anchored, members).0 is SignalGroup || closing(
            group,
            anchored,
            members,
        ).0 is SignalGroupAndWait,
    ensures
        group.targetable(anchored),
        group.pid > 1,
        group.pid != group.own_group,
{
}

/// Whatever is left over in the group, or cannot be looked at, keeps the
/// result of the query from being trusted.
pub proof fn leftovers_quarantine_the_query(
    group: QueryGroup,
    anchored: bool,
    members: Option<Result<Vec<u32>, Failure>>,
)
    ensures
        closing(group, anchored, members).1.residual ==> closing(
            group,
            anchored,
            members,
        ).1.quarantined,
        !closing(group, anchored, members).1.quarantined <==> (group.targetable(anchored) && (
        members matches Some(Ok(pids)) && pids@.len() == 0)),
{
}

/// A query whose group can be told and is empty is trusted and left alone, or
/// ended where it did not end by itself. Members that are left are signaled and
/// waited for; where nothing can be told, only the leader is killed.
pub proof fn queries_are_closed(
    group: QueryGroup,
    anchored: bool,
    members: Option<Result<Vec<u32>, Failure>>,
)
    ensures
        ({
            let told = (group.authorized || (group.snapshot_missing && anchored && group.pid > 1
                && group.pid != group.own_group)) && members is Some && members->0 is Ok;
            let left = members->0->Ok_0@.len() > 0;
            let (action, outcome) = closing(group, anchored, members);
            &&& !told ==> action is KillLeader && outcome.quarantined && !outcome.residual
            &&& told && left ==> action is SignalGroupAndWait && outcome.quarantined
                && outcome.residual
            &&& told && !left ==> !outcome.quarantined && !outcome.residual
            &&& told && !left && group.terminate ==> action is SignalGroup
            &&& told && !left && !group.terminate ==> action is Nothing
        }),
{
}

} // verus!
