//! What the operating system reports about processes, as plain values.

#[allow(unused_imports)]
use vstd::prelude::*;
use crate::failure::{Failure, FailureKind};
#[allow(unused_imports)]
use crate::failure::{failure, fault_of};
use crate::text::{clone_text, join, signed_decimal};
#[allow(unused_imports)]
use crate::text::signed_decimal_text;

verus! {

pub const INITIAL_PROCESS_GROUP_CAPACITY: usize = 16;

pub const MAX_PROCESS_GROUP_CAPACITY: usize = 4096;

/// A signal that controls the agent.
#[derive(Clone, Copy, Debug, PartialEq, Eq, Structural)]
pub enum ControlSignal {
    Terminate,
    Interrupt,
    Hangup,
}

/// The weight of a log message.
#[derive(Clone, Copy, Debug, PartialEq, Eq, Structural)]
pub enum LogLevel {
    Notice,
    Info,
    Error,
    Fault,
}

impl LogLevel {
    /// The number by which the system log knows the level.
    pub fn code(self) -> (code: u8)
        ensures
            code == (match self {
                LogLevel::Notice => 0u8,
                LogLevel::Info => 1u8,
                LogLevel::Error => 2u8,
                LogLevel::Fault => 3u8,
            }),
    {
        match self {
            LogLevel::Notice => 0,
            LogLevel::Info => 1,
            LogLevel::Error => 2,
            LogLevel::Fault => 3,
        }
    }
}

/// The kernel's view of one live process.
#[derive(Debug, PartialEq, Eq)]
pub struct ProcessSnapshot {
    pub pid: u32,
    pub parent_pid: u32,
    pub process_group_id: u32,
    pub effective_uid: u32,
    pub start_seconds: u64,
    pub start_microseconds: u64,
    /// Absent when the process is alive but its executable file is gone.
    pub executable: Option<String>,
}

impl Clone for ProcessSnapshot {
    fn clone(&self) -> (copy: Self)
        ensures
            copy == *self,
    {
        ProcessSnapshot {
            pid: self.pid,
            parent_pid: self.parent_pid,
            process_group_id: self.process_group_id,
            effective_uid: self.effective_uid,
            start_seconds: self.start_seconds,
            start_microseconds: self.start_microseconds,
            executable: clone_text(&self.executable),
        }
    }
}

/// A child exit that was observed without consuming the wait status.
#[derive(Clone, Copy, Debug, PartialEq, Eq, Structural)]
pub struct ChildExitObservation {
    pub code: Option<i32>,
    pub signal: Option<i32>,
}

/// What `waitid` reported about a child.
#[derive(Clone, Copy, Debug, PartialEq, Eq, Structural)]
pub enum WaitState {
    Exited,
    Killed,
    Dumped,
    Other(i32),
}

/// The raw answer of `waitid`; a process id of zero means that no terminal
/// state is ready.
#[derive(Clone, Copy, Debug, PartialEq, Eq, Structural)]
pub struct WaitReport {
    pub pid: u32,
    pub state: WaitState,
    pub status: i32,
}

/// Classifies the answer of `waitid` for one child.
pub fn peek_child_exit(pid: u32, report: WaitReport) -> (outcome: Result<
    Option<ChildExitObservation>,
    Failure,
>)
    ensures
        if report.pid == 0 {
            outcome == Ok::<Option<ChildExitObservation>, Failure>(None)
        } else if report.pid != pid {
            fault_of(outcome) == Some(
                failure(FailureKind::Other, "waitid returned a different child identity"@),
            )
        } else {
            match report.state {
                WaitState::Exited => outcome == Ok::<Option<ChildExitObservation>, Failure>(
                    Some(ChildExitObservation { code: Some(report.status), signal: None }),
                ),
                WaitState::Killed | WaitState::Dumped => outcome == Ok::<
                    Option<ChildExitObservation>,
                    Failure,
                >(Some(ChildExitObservation { code: None, signal: Some(report.status) })),
                WaitState::Other(code) => fault_of(outcome) == Some(
                    failure(
                        FailureKind::Other,
                        "waitid returned unexpected child state "@ + signed_decimal_text(
                            code as int,
                        ),
                    ),
                ),
            }
        },
{
    if report.pid == 0 {
        return Ok(None);
    }
    if report.pid != pid {
        return Err(Failure::other("waitid returned a different child identity"));
    }
    match report.state {
        WaitState::Exited => Ok(
            Some(ChildExitObservation { code: Some(report.status), signal: None }),
        ),
        WaitState::Killed | WaitState::Dumped => Ok(
            Some(ChildExitObservation { code: None, signal: Some(report.status) }),
        ),
        WaitState::Other(code) => Err(
            Failure {
                kind: FailureKind::Other,
                message: join(
                    "waitid returned unexpected child state ",
                    signed_decimal(code).as_str(),
                ),
            },
        ),
    }
}

/// A process group that may be addressed: not the whole system, and within
/// the range of process identifiers.
pub open spec fn addressable(process_group_id: u32) -> bool {
    1 < process_group_id <= i32::MAX
}

/// Accepts a process group for inspection.
pub fn process_group_member_ids(process_group_id: u32) -> (outcome: Result<i32, Failure>)
    ensures
        outcome matches Ok(id) ==> id == process_group_id,
        fault_of(outcome) == (if process_group_id > i32::MAX {
            Some(failure(FailureKind::InvalidInput, "process group is out of range"@))
        } else if process_group_id <= 1 {
            Some(failure(FailureKind::InvalidInput, "refusing to inspect a broad process group"@))
        } else {
            None
        }),
        outcome is Ok <==> addressable(process_group_id),
{
    if process_group_id > 0x7fff_ffff {
        return Err(Failure::new(FailureKind::InvalidInput, "process group is out of range"));
    }
    if process_group_id <= 1 {
        return Err(
            Failure::new(FailureKind::InvalidInput, "refusing to inspect a broad process group"),
        );
    }
    Ok(process_group_id as i32)
}

/// Accepts a process group as a signal target: the argument of `kill` is
/// negative and names exactly that group.
pub fn send_process_group_signal(process_group_id: u32) -> (outcome: Result<i32, Failure>)
    ensures
        outcome matches Ok(target) ==> target == -(process_group_id as int) && target < -1,
        fault_of(outcome) == (if process_group_id > i32::MAX {
            Some(failure(FailureKind::InvalidInput, "process group is out of range"@))
        } else if process_group_id <= 1 {
            Some(failure(FailureKind::InvalidInput, "refusing to signal a broad process group"@))
        } else {
            None
        }),
        outcome is Ok <==> addressable(process_group_id),
{
    if process_group_id > 0x7fff_ffff {
        return Err(Failure::new(FailureKind::InvalidInput, "process group is out of range"));
    }
    if process_group_id <= 1 {
        return Err(
            Failure::new(FailureKind::InvalidInput, "refusing to signal a broad process group"),
        );
    }
    Ok(-(process_group_id as i32))
}

/// Accepts one process as a signal target.
pub fn signal_process(pid: u32) -> (outcome: Result<i32, Failure>)
    ensures
        outcome matches Ok(target) ==> target == pid,
        fault_of(outcome) == (if pid > i32::MAX {
            Some(failure(FailureKind::InvalidInput, "PID is out of range"@))
        } else if pid <= 1 {
            Some(
                failure(
                    FailureKind::InvalidInput,
                    "refusing to signal a broad or system process"@,
                ),
            )
        } else {
            None
        }),
{
    if pid > 0x7fff_ffff {
        return Err(Failure::new(FailureKind::InvalidInput, "PID is out of range"));
    }
    if pid <= 1 {
        return Err(
            Failure::new(FailureKind::InvalidInput, "refusing to signal a broad or system process"),
        );
    }
    Ok(pid as i32)
}

/// The larger of two sizes.
pub open spec fn larger(a: int, b: int) -> int {
    if a >= b {
        a
    } else {
        b
    }
}

/// The smaller of two sizes.
pub open spec fn smaller(a: int, b: int) -> int {
    if a <= b {
        a
    } else {
        b
    }
}

/// The next buffer size for a listing that filled the current one: twice the
/// size, or what was reported where that is more, and never beyond the cap.
pub open spec fn grown_capacity(current: int, reported: int) -> int {
    larger(
        smaller(2 * current, MAX_PROCESS_GROUP_CAPACITY as int),
        if reported == current {
            reported + 1
        } else {
            reported
        },
    )
}

/// Chooses the next buffer size for listing a process group.
pub fn next_process_group_capacity(current: usize, reported: usize) -> (outcome: Result<
    usize,
    Failure,
>)
    ensures
        match outcome {
            Ok(next) => {
                &&& reported <= MAX_PROCESS_GROUP_CAPACITY
                &&& current < MAX_PROCESS_GROUP_CAPACITY
                &&& next == grown_capacity(current as int, reported as int)
                &&& current < next <= MAX_PROCESS_GROUP_CAPACITY
                &&& reported <= next
            },
            Err(error) => if reported > MAX_PROCESS_GROUP_CAPACITY || current
                >= MAX_PROCESS_GROUP_CAPACITY {
                error.deep_view() == failure(
                    FailureKind::Other,
                    "process group membership exceeds the safe observation bound"@,
                )
            } else {
                &&& error.deep_view() == failure(
                    FailureKind::Other,
                    "process group membership could not be observed within the safe bound"@,
                )
                &&& !(current < grown_capacity(current as int, reported as int)
                    <= MAX_PROCESS_GROUP_CAPACITY)
            },
        },
{
    if reported > MAX_PROCESS_GROUP_CAPACITY || current >= MAX_PROCESS_GROUP_CAPACITY {
        return Err(
            Failure::other("process group membership exceeds the safe observation bound"),
        );
    }
    let doubled: usize = if current * 2 < MAX_PROCESS_GROUP_CAPACITY {
        current * 2
    } else {
        MAX_PROCESS_GROUP_CAPACITY
    };
    let requested: usize = if reported == current { reported + 1 } else { reported };
    let next: usize = if doubled >= requested { doubled } else { requested };
    if next > current && next <= MAX_PROCESS_GROUP_CAPACITY {
        Ok(next)
    } else {
        Err(
            Failure::other("process group membership could not be observed within the safe bound"),
        )
    }
}

/// What one listing of a process group leads to.
#[derive(Debug, PartialEq, Eq)]
pub enum GroupListing {
    /// Every member was listed.
    Complete(Vec<u32>),
    /// The listing may be cut off: list again into a buffer of this size.
    Grow(usize),
}

/// No listed identifier is negative.
pub open spec fn plausible(pids: Seq<i32>) -> bool {
    forall|i: int| 0 <= i < pids.len() ==> #[trigger] pids[i] >= 0
}

/// What one listing leads to. A buffer that was filled to the end may hide
/// members, so it is never taken for the whole group.
pub open spec fn listing(pids: Seq<i32>, reported: usize, outcome: Result<GroupListing, Failure>) -> bool {
    if reported < pids.len() {
        let listed = pids.take(reported as int);
        match outcome {
            Ok(GroupListing::Complete(members)) => {
                &&& plausible(listed)
                &&& members@.len() == reported
                &&& forall|i: int| 0 <= i < reported ==> #[trigger] members@[i] == pids[i]
            },
            Ok(GroupListing::Grow(_)) => false,
            Err(error) => {
                &&& !plausible(listed)
                &&& error.deep_view() == failure(
                    FailureKind::Other,
                    "process-group listing returned an invalid PID"@,
                )
            },
        }
    } else {
        let room = grown_capacity(pids.len() as int, reported as int);
        match outcome {
            Ok(GroupListing::Complete(_)) => false,
            Ok(GroupListing::Grow(capacity)) => {
                &&& capacity == room
                &&& pids.len() < capacity <= MAX_PROCESS_GROUP_CAPACITY
            },
            Err(error) => if reported > MAX_PROCESS_GROUP_CAPACITY || pids.len()
                >= MAX_PROCESS_GROUP_CAPACITY {
                error.deep_view() == failure(
                    FailureKind::Other,
                    "process group membership exceeds the safe observation bound"@,
                )
            } else {
                &&& !(pids.len() < room <= MAX_PROCESS_GROUP_CAPACITY)
                &&& error.deep_view() == failure(
                    FailureKind::Other,
                    "process group membership could not be observed within the safe bound"@,
                )
            },
        }
    }
}

/// Reads one listing of a process group out of its buffer.
pub fn list_process_group_ids(pids: &Vec<i32>, reported: usize) -> (outcome: Result<
    GroupListing,
    Failure,
>)
    ensures
        listing(pids@, reported, outcome),
{
    if reported >= pids.len() {
        return match next_process_group_capacity(pids.len(), reported) {
            Ok(capacity) => Ok(GroupListing::Grow(capacity)),
            Err(error) => Err(error),
        };
    }
    let mut members: Vec<u32> = Vec::new();
    let mut i: usize = 0;
    while i < reported
        invariant
            i <= reported < pids@.len(),
            members@.len() == i,
            forall|k: int| 0 <= k < i ==> (#[trigger] pids@[k]) >= 0,
            forall|k: int| 0 <= k < i ==> (#[trigger] members@[k]) == pids@[k],
        decreases reported - i,
    {
        let pid: i32 = pids[i];
        if pid < 0 {
            proof {
                assert(pids@.take(reported as int)[i as int] < 0);
            }
            return Err(Failure::other("process-group listing returned an invalid PID"));
        }
        members.push(pid as u32);
        i = i + 1;
    }
    proof {
        assert forall|k: int| 0 <= k < reported implies #[trigger] pids@.take(
            reported as int,
        )[k] >= 0 by {
            assert(members@[k] == pids@[k]);
        }
    }
    Ok(GroupListing::Complete(members))
}

/// The errno of a file that does not exist.
pub const ENOENT: i32 = 2;

/// The kernel identifier of a process to be looked at.
pub fn snapshot_target(pid: u32) -> (outcome: Result<i32, Failure>)
    ensures
        match outcome {
            Ok(target) => target == pid,
            Err(error) => pid > i32::MAX && error.deep_view() == failure(
                FailureKind::InvalidInput,
                "PID is out of range"@,
            ),
        },
{
    if pid > i32::MAX as u32 {
        return Err(Failure::new(FailureKind::InvalidInput, "PID is out of range"));
    }
    Ok(pid as i32)
}

/// Completes a look at a process by its executable. One that was deleted under
/// a live process leaves only the path unknown; any other failure is one of
/// the whole look.
pub fn process_snapshot(seen: ProcessSnapshot, path: Result<String, (i32, Failure)>) -> (outcome:
    Result<ProcessSnapshot, Failure>)
    ensures
        match path {
            Ok(executable) => outcome == Ok::<ProcessSnapshot, Failure>(
                (ProcessSnapshot { executable: Some(executable), ..seen }),
            ),
            Err((errno, error)) => if errno == ENOENT {
                outcome == Ok::<ProcessSnapshot, Failure>(
                    (ProcessSnapshot { executable: None, ..seen }),
                )
            } else {
                outcome == Err::<ProcessSnapshot, Failure>(error)
            },
        },
{
    let executable = match path {
        Ok(executable) => Some(executable),
        Err((errno, error)) => {
            if errno != ENOENT {
                return Err(error);
            }
            None
        },
    };
    Ok(ProcessSnapshot { executable, ..seen })
}

/// Growing a buffer that was filled always succeeds below the cap, so a
/// listing is repeated only finitely often.
pub proof fn filled_buffers_grow(current: int)
    requires
        1 <= current < MAX_PROCESS_GROUP_CAPACITY,
    ensures
        current < grown_capacity(current, current) <= MAX_PROCESS_GROUP_CAPACITY,
        grown_capacity(current, current) >= smaller(
            2 * current,
            MAX_PROCESS_GROUP_CAPACITY as int,
        ),
{
}

/// What a failed libproc call means: an error number of zero carries no
/// cause, so nothing may be concluded from it.
pub fn libproc_failure(errno: i32, kind: FailureKind, message: &str) -> (error: Failure)
    ensures
        error.deep_view() == (if errno == 0 {
            failure(FailureKind::Other, "libproc call failed without reporting an errno"@)
        } else {
            failure(kind, message@)
        }),
{
    if errno == 0 {
        Failure::other("libproc call failed without reporting an errno")
    } else {
        Failure::new(kind, message)
    }
}

/// Whether a probe with signal zero shows that a process exists: it was
/// delivered, or refused for lack of permission.
pub fn process_exists(pid: u32, delivered: bool, permission_denied: bool) -> (exists: bool)
    ensures
        exists == (1 <= pid <= i32::MAX && (delivered || permission_denied)),
{
    if pid > 0x7fff_ffff || pid < 1 {
        return false;
    }
    delivered || permission_denied
}

/// What one entry of an event batch is about.
#[derive(Clone, Copy, Debug, PartialEq, Eq, Structural)]
pub enum Event {
    Listener,
    PendingReadable(i32),
    Stream(i32),
    StreamWritable(i32),
    ChildExit(u32),
    ConfigChanged,
    SignalWake,
}

/// Which kind of readiness the kernel reported.
#[derive(Clone, Copy, Debug, PartialEq, Eq, Structural)]
pub enum EventFilter {
    Read,
    Write,
    Process,
    Vnode,
    User,
    Unknown,
}

pub const USER_SIGNAL_IDENT: usize = 1;

/// Marks the read events of connections that have not completed a request.
pub const PENDING_READ_TAG: usize = 1;

/// Names a kernel event: reads of the listener, of pending connections and of
/// subscribers are told apart.
pub fn classify_event(
    filter: EventFilter,
    ident: usize,
    descriptor: i32,
    tag: usize,
    listener: Option<i32>,
) -> (event: Option<Event>)
    requires
        filter is Process ==> ident <= u32::MAX,
    ensures
        event == (match filter {
            EventFilter::Read => Some(
                if listener == Some(descriptor) {
                    Event::Listener
                } else if tag == PENDING_READ_TAG {
                    Event::PendingReadable(descriptor)
                } else {
                    Event::Stream(descriptor)
                },
            ),
            EventFilter::Write => Some(Event::StreamWritable(descriptor)),
            EventFilter::Process => Some(Event::ChildExit(ident as u32)),
            EventFilter::Vnode => Some(Event::ConfigChanged),
            EventFilter::User => if ident == USER_SIGNAL_IDENT {
                Some(Event::SignalWake)
            } else {
                None
            },
            EventFilter::Unknown => None,
        }),
{
    match filter {
        EventFilter::Read => {
            let is_listener = match listener {
                Some(known) => known == descriptor,
                None => false,
            };
            if is_listener {
                Some(Event::Listener)
            } else if tag == PENDING_READ_TAG {
                Some(Event::PendingReadable(descriptor))
            } else {
                Some(Event::Stream(descriptor))
            }
        },
        EventFilter::Write => Some(Event::StreamWritable(descriptor)),
        EventFilter::Process => Some(Event::ChildExit(ident as u32)),
        EventFilter::Vnode => Some(Event::ConfigChanged),
        EventFilter::User => if ident == USER_SIGNAL_IDENT {
            Some(Event::SignalWake)
        } else {
            None
        },
        EventFilter::Unknown => None,
    }
}

} // verus!
