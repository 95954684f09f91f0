//! Connections that are still in their handshake, from the moment they are
//! accepted until their response has been written.

#[allow(unused_imports)]
use vstd::prelude::*;
use std::collections::HashMap;
use crate::failure::{Failure, FailureKind};
#[allow(unused_imports)]
use crate::failure::{failure, fault_of, FailureView};
use crate::ipc::subscribers::Subscribers;
use crate::ipc::wire::RequestAction;
#[allow(unused_imports)]
use crate::ipc::wire::{first_newline, line_view, newline_is_the_first};
use crate::ipc::wire::TOO_LONG;
use crate::paths::AppPaths;
use crate::protocol::{Command, MAX_MESSAGE_BYTES};

verus! {

broadcast use vstd::std_specs::hash::group_hash_axioms;

/// How long a peer may take from being accepted to having its response.
pub const HANDSHAKE_TIMEOUT: u64 = 5_000_000_000;

pub const MAX_PENDING_HANDSHAKES: usize = 16;

pub const MAX_ACCEPTS_PER_BATCH: usize = MAX_PENDING_HANDSHAKES;

/// How much is read at once.
pub const READ_BUDGET: usize = 4096;

/// How much is written at once.
pub const WRITE_BUDGET: usize = 16384;

/// What becomes of a connection once its response is written.
#[derive(Clone, Copy, Debug, PartialEq, Eq, Structural)]
pub enum ResponseDisposition {
    Close,
    Subscribe,
}

/// A framed request together with the connection it came from.
#[derive(Clone, Copy, Debug)]
pub enum PendingRequest {
    OneShot { fd: i32, command: Command },
    Subscribe { fd: i32 },
    Reject { fd: i32, message: &'static str },
}

/// How far a handshake has come.
pub enum PendingState {
    Reading(Vec<u8>),
    AwaitingResponse,
    Writing { response: Vec<u8>, offset: usize, disposition: ResponseDisposition },
}

/// The mathematical content of a [`PendingState`].
pub enum PendingStateView {
    Reading(Seq<u8>),
    AwaitingResponse,
    Writing { response: Seq<u8>, offset: int, disposition: ResponseDisposition },
}

/// A connection in its handshake. Its deadline was fixed when it was accepted.
pub struct PendingConnection {
    pub deadline: u64,
    pub state: PendingState,
}

/// The mathematical content of a [`PendingConnection`].
pub struct ConnectionView {
    pub deadline: u64,
    pub state: PendingStateView,
}

impl PendingState {
    pub open spec fn model(self) -> PendingStateView {
        match self {
            PendingState::Reading(buffer) => PendingStateView::Reading(buffer@),
            PendingState::AwaitingResponse => PendingStateView::AwaitingResponse,
            PendingState::Writing { response, offset, disposition } => PendingStateView::Writing {
                response: response@,
                offset: offset as int,
                disposition,
            },
        }
    }
}

impl PendingConnection {
    pub open spec fn model(self) -> ConnectionView {
        ConnectionView { deadline: self.deadline, state: self.state.model() }
    }
}

/// What the agent holds about its control socket.
pub struct IpcServer {
    socket_path: String,
    pending: HashMap<i32, PendingConnection>,
    listener_enabled: bool,
}

impl View for IpcServer {
    type V = Map<i32, ConnectionView>;

    /// The connections in their handshake, by descriptor.
    closed spec fn view(&self) -> Map<i32, ConnectionView> {
        self.pending@.map_values(|connection: PendingConnection| connection.model())
    }
}

/// A request never outgrows one message, and a response is never sent past its
/// end.
pub open spec fn sound_connection(connection: ConnectionView) -> bool {
    match connection.state {
        PendingStateView::Reading(buffer) => buffer.len() <= MAX_MESSAGE_BYTES,
        PendingStateView::AwaitingResponse => true,
        PendingStateView::Writing { response, offset, .. } => 0 <= offset <= response.len()
            && response.len() <= MAX_MESSAGE_BYTES,
    }
}

/// The handshakes are bounded in number and each is sound.
pub open spec fn sound(pending: Map<i32, ConnectionView>) -> bool {
    &&& pending.dom().finite()
    &&& pending.dom().len() <= MAX_PENDING_HANDSHAKES
    &&& forall|fd: i32| #[trigger] pending.contains_key(fd) ==> sound_connection(pending[fd])
}

/// Whether a connection is there and its time is up.
pub open spec fn expired(pending: Map<i32, ConnectionView>, fd: i32, now: u64) -> bool {
    pending.contains_key(fd) && now >= pending[fd].deadline
}

/// The connections after `fd` was looked at: gone if its time is up.
pub open spec fn unexpired(pending: Map<i32, ConnectionView>, fd: i32, now: u64) -> Map<
    i32,
    ConnectionView,
> {
    if expired(pending, fd, now) {
        pending.remove(fd)
    } else {
        pending
    }
}

/// What a readable connection calls for.
#[derive(Clone, Copy, Debug, PartialEq, Eq, Structural)]
pub enum ReadPlan {
    Ignore,
    /// Read up to `limit` bytes; nothing is read where the limit is zero.
    Read { limit: usize },
}

/// The plan for a readable connection.
pub open spec fn read_plan(pending: Map<i32, ConnectionView>, fd: i32, now: u64) -> ReadPlan {
    if !pending.contains_key(fd) || expired(pending, fd, now) {
        ReadPlan::Ignore
    } else {
        match pending[fd].state {
            PendingStateView::Reading(buffer) => {
                let room = MAX_MESSAGE_BYTES - buffer.len();
                ReadPlan::Read {
                    limit: if room < READ_BUDGET {
                        room as usize
                    } else {
                        READ_BUDGET
                    },
                }
            },
            _ => ReadPlan::Ignore,
        }
    }
}

/// What bytes from a connection amount to.
pub enum Received {
    Nothing,
    /// A whole line, its newline included.
    Line(Vec<u8>),
    Reject(&'static str),
}

/// The mathematical content of a [`Received`].
pub enum ReceivedView {
    Nothing,
    Line(Seq<u8>),
    Reject(Seq<char>),
}

impl Received {
    pub open spec fn model(self) -> ReceivedView {
        match self {
            Received::Nothing => ReceivedView::Nothing,
            Received::Line(line) => ReceivedView::Line(line@),
            Received::Reject(message) => ReceivedView::Reject(message@),
        }
    }
}

/// How much room the request of a connection has left.
pub open spec fn room(pending: Map<i32, ConnectionView>, fd: i32) -> int {
    if pending.contains_key(fd) && pending[fd].state is Reading {
        MAX_MESSAGE_BYTES - pending[fd].state->Reading_0.len()
    } else {
        0
    }
}

/// The connections, and what was received, after a read that delivered
/// `bytes`. An empty delivery is the end of the stream, unless the request
/// had no room left.
pub open spec fn received(pending: Map<i32, ConnectionView>, fd: i32, bytes: Seq<u8>) -> (
    Map<i32, ConnectionView>,
    ReceivedView,
) {
    if !pending.contains_key(fd) || !(pending[fd].state is Reading) {
        (pending, ReceivedView::Nothing)
    } else {
        let buffer = pending[fd].state->Reading_0;
        if bytes.len() == 0 {
            if buffer.len() == MAX_MESSAGE_BYTES {
                (pending, ReceivedView::Reject(TOO_LONG@))
            } else {
                (pending.remove(fd), ReceivedView::Nothing)
            }
        } else {
            let grown = buffer + bytes;
            let kept = pending.insert(
                fd,
                ConnectionView {
                    deadline: pending[fd].deadline,
                    state: PendingStateView::Reading(grown),
                },
            );
            match first_newline(grown) {
                Some(at) => (kept, ReceivedView::Line(grown.take(at as int + 1))),
                None => if grown.len() == MAX_MESSAGE_BYTES {
                    (kept, ReceivedView::Reject(TOO_LONG@))
                } else {
                    (kept, ReceivedView::Nothing)
                },
            }
        }
    }
}

/// The request that an action of a connection stands for.
pub open spec fn request_of(fd: i32, action: RequestAction) -> PendingRequest {
    match action {
        RequestAction::OneShot(command) => PendingRequest::OneShot { fd, command },
        RequestAction::Subscribe => PendingRequest::Subscribe { fd },
        RequestAction::Reject(message) => PendingRequest::Reject { fd, message },
    }
}

/// The connections once `fd` waits for its response.
pub open spec fn awaiting(pending: Map<i32, ConnectionView>, fd: i32) -> Map<i32, ConnectionView> {
    if pending.contains_key(fd) {
        pending.insert(
            fd,
            ConnectionView {
                deadline: pending[fd].deadline,
                state: PendingStateView::AwaitingResponse,
            },
        )
    } else {
        pending
    }
}

proof fn removing_stays_sound(pending: Map<i32, ConnectionView>, fd: i32)
    requires
        sound(pending),
    ensures
        sound(pending.remove(fd)),
{
    assert(pending.remove(fd).dom() =~= pending.dom().remove(fd));
}

proof fn replacing_stays_sound(
    pending: Map<i32, ConnectionView>,
    fd: i32,
    connection: ConnectionView,
)
    requires
        sound(pending),
        pending.contains_key(fd) || pending.dom().len() < MAX_PENDING_HANDSHAKES,
        sound_connection(connection),
    ensures
        sound(pending.insert(fd, connection)),
{
    assert(pending.insert(fd, connection).dom() =~= pending.dom().insert(fd));
}

impl IpcServer {
    /// Whether the listener is being watched.
    pub closed spec fn listening(self) -> bool {
        self.listener_enabled
    }

    /// Where the socket lies.
    pub closed spec fn socket(self) -> Seq<char> {
        self.socket_path@
    }

    /// A server for a freshly bound socket.
    pub fn bind(paths: &AppPaths) -> (server: IpcServer)
        ensures
            server@ == Map::<i32, ConnectionView>::empty(),
            server.listening(),
            server.socket() == paths.control_socket@,
            sound(server@),
    {
        let server = IpcServer {
            socket_path: paths.control_socket.clone(),
            pending: HashMap::new(),
            listener_enabled: true,
        };
        assert(server@ =~= Map::<i32, ConnectionView>::empty());
        server
    }

    /// Where the socket lies.
    pub fn socket_path(&self) -> (path: &str)
        ensures
            path@ == self.socket(),
    {
        self.socket_path.as_str()
    }

    /// Whether the listener is being watched.
    pub fn is_listening(&self) -> (listening: bool)
        ensures
            listening == self.listening(),
    {
        self.listener_enabled
    }

    /// How many connections are in their handshake.
    pub fn pending_count(&self) -> (count: usize)
        ensures
            count == self@.dom().len(),
    {
        assert(self@.dom() =~= self.pending@.dom());
        self.pending.len()
    }

    /// Whether a connection is in its handshake.
    pub fn is_pending(&self, fd: i32) -> (pending: bool)
        ensures
            pending == self@.contains_key(fd),
    {
        self.pending.contains_key(&fd)
    }

    /// The deadline of a connection in its handshake.
    pub fn deadline_of(&self, fd: i32) -> (deadline: Option<u64>)
        ensures
            deadline == (if self@.contains_key(fd) {
                Some(self@[fd].deadline)
            } else {
                None
            }),
    {
        match self.pending.get(&fd) {
            Some(connection) => Some(connection.deadline),
            None => None,
        }
    }

    /// Forgets a connection.
    fn forget(&mut self, fd: i32)
        ensures
            final(self)@ == old(self)@.remove(fd),
            final(self).listening() == old(self).listening(),
            final(self).socket() == old(self).socket(),
            sound(old(self)@) ==> sound(final(self)@),
    {
        let _ = self.pending.remove(&fd);
        proof {
            assert(self@ =~= old(self)@.remove(fd));
            if sound(old(self)@) {
                removing_stays_sound(old(self)@, fd);
            }
        }
    }

    /// Holds a connection under its descriptor.
    fn hold(&mut self, fd: i32, connection: PendingConnection)
        ensures
            final(self)@ == old(self)@.insert(fd, connection.model()),
            final(self).listening() == old(self).listening(),
            final(self).socket() == old(self).socket(),
            sound(old(self)@) && sound_connection(connection.model()) && (old(self)@.contains_key(
                fd,
            ) || old(self)@.dom().len() < MAX_PENDING_HANDSHAKES) ==> sound(final(self)@),
    {
        let _ = self.pending.insert(fd, connection);
        proof {
            assert(self@ =~= old(self)@.insert(fd, connection.model()));
            if sound(old(self)@) && sound_connection(connection.model()) && (old(
                self,
            )@.contains_key(fd) || old(self)@.dom().len() < MAX_PENDING_HANDSHAKES) {
                replacing_stays_sound(old(self)@, fd, connection.model());
            }
        }
    }

    /// Drops a connection whose time is up. Returns whether it is still there.
    pub fn still_open(&mut self, fd: i32, now: u64) -> (open: bool)
        requires
            sound(old(self)@),
        ensures
            final(self)@ == unexpired(old(self)@, fd, now),
            open == final(self)@.contains_key(fd),
            final(self).listening() == old(self).listening(),
            final(self).socket() == old(self).socket(),
            sound(final(self)@),
    {
        match self.deadline_of(fd) {
            Some(deadline) => {
                if now >= deadline {
                    self.forget(fd);
                    return false;
                }
                true
            },
            None => false,
        }
    }

    /// Plans the read of a readable connection. An event for a descriptor that
    /// is no longer here is ignored.
    pub fn handle_pending_readable(&mut self, fd: i32, now: u64) -> (plan: ReadPlan)
        requires
            sound(old(self)@),
        ensures
            final(self)@ == unexpired(old(self)@, fd, now),
            plan == read_plan(old(self)@, fd, now),
            final(self).listening() == old(self).listening(),
            final(self).socket() == old(self).socket(),
            sound(final(self)@),
    {
        if !self.still_open(fd, now) {
            return ReadPlan::Ignore;
        }
        match self.pending.get(&fd) {
            Some(connection) => match &connection.state {
                PendingState::Reading(buffer) => {
                    proof {
                        assert(self@[fd] == connection.model());
                        assert(sound_connection(self@[fd]));
                    }
                    let length: usize = buffer.len();
                    let remaining: usize = MAX_MESSAGE_BYTES as usize - length;
                    ReadPlan::Read {
                        limit: if remaining < READ_BUDGET {
                            remaining
                        } else {
                            READ_BUDGET
                        },
                    }
                },
                _ => ReadPlan::Ignore,
            },
            None => ReadPlan::Ignore,
        }
    }
}

/// The connections once a response is queued for `fd`, why it could not be
/// queued, and whether a first write is due.
pub open spec fn queued(
    pending: Map<i32, ConnectionView>,
    fd: i32,
    line: Result<Seq<u8>, FailureView>,
    disposition: ResponseDisposition,
    now: u64,
) -> (Map<i32, ConnectionView>, Result<bool, FailureView>) {
    match line {
        Err(fault) => (pending.remove(fd), Err(fault)),
        Ok(response) => if !pending.contains_key(fd) {
            (pending, Ok(false))
        } else if expired(pending, fd, now) {
            (pending.remove(fd), Ok(false))
        } else if !(pending[fd].state is AwaitingResponse) {
            (
                pending.remove(fd),
                Err(
                    failure(
                        FailureKind::InvalidData,
                        "IPC response queued for a connection in the wrong state"@,
                    ),
                ),
            )
        } else {
            (
                pending.insert(
                    fd,
                    ConnectionView {
                        deadline: pending[fd].deadline,
                        state: PendingStateView::Writing { response, offset: 0, disposition },
                    },
                ),
                Ok(true),
            )
        },
    }
}

/// The bytes of a response that are sent next.
pub open spec fn chunk_of(response: Seq<u8>, offset: int) -> Seq<u8> {
    response.subrange(
        offset,
        if offset + WRITE_BUDGET < response.len() {
            offset + WRITE_BUDGET
        } else {
            response.len() as int
        },
    )
}

/// The bytes that a connection is sent next, if it is being written to.
pub open spec fn next_chunk(pending: Map<i32, ConnectionView>, fd: i32, now: u64) -> Option<
    Seq<u8>,
> {
    if !pending.contains_key(fd) || expired(pending, fd, now) {
        None
    } else {
        match pending[fd].state {
            PendingStateView::Writing { response, offset, .. } => Some(chunk_of(response, offset)),
            _ => None,
        }
    }
}

/// What follows a write.
#[derive(Clone, Copy, Debug, PartialEq, Eq, Structural)]
pub enum WriteStep {
    Nothing,
    /// Wait until the connection is writable again.
    WatchWritable,
    /// The response is complete: the connection becomes a subscriber. Where
    /// `unwatch` holds, it is no longer watched for being writable.
    Promote { unwatch: bool },
}

/// The connections, and what follows, after `count` bytes were written, or
/// none because the connection would have blocked.
pub open spec fn wrote(
    pending: Map<i32, ConnectionView>,
    fd: i32,
    count: Option<nat>,
    writable_armed: bool,
    now: u64,
) -> (Map<i32, ConnectionView>, WriteStep) {
    if !pending.contains_key(fd) || !(pending[fd].state is Writing) {
        (pending, WriteStep::Nothing)
    } else {
        let response = pending[fd].state->Writing_response;
        let offset = pending[fd].state->Writing_offset + (match count {
            Some(bytes) => bytes as int,
            None => 0,
        });
        let disposition = pending[fd].state->Writing_disposition;
        let advanced = pending.insert(
            fd,
            ConnectionView {
                deadline: pending[fd].deadline,
                state: PendingStateView::Writing { response, offset, disposition },
            },
        );
        let complete = count is Some && offset == response.len();
        if now >= pending[fd].deadline || count == Some(0nat) {
            (pending.remove(fd), WriteStep::Nothing)
        } else if complete && disposition is Close {
            (pending.remove(fd), WriteStep::Nothing)
        } else if complete {
            (advanced, WriteStep::Promote { unwatch: writable_armed })
        } else if writable_armed {
            (advanced, WriteStep::Nothing)
        } else {
            (advanced, WriteStep::WatchWritable)
        }
    }
}

/// `after` holds exactly the connections of `before` whose time is not up.
pub open spec fn survivors(
    before: Map<i32, ConnectionView>,
    after: Map<i32, ConnectionView>,
    now: u64,
) -> bool {
    &&& forall|fd: i32| #[trigger]
        after.contains_key(fd) <==> before.contains_key(fd) && before[fd].deadline > now
    &&& forall|fd: i32| #[trigger] after.contains_key(fd) ==> after[fd] == before[fd]
}

/// What the loop does about the listener.
#[derive(Clone, Copy, Debug, PartialEq, Eq, Structural)]
pub enum Maintenance {
    Nothing,
    Accept,
    DisableListener,
    EnableListener,
}

/// Whether the listener must be turned off or on again.
pub open spec fn listener_change(count: nat, listening: bool) -> Maintenance {
    if count >= MAX_PENDING_HANDSHAKES && listening {
        Maintenance::DisableListener
    } else if count < MAX_PENDING_HANDSHAKES && !listening {
        Maintenance::EnableListener
    } else {
        Maintenance::Nothing
    }
}

/// When a handshake that starts at `accepted_at` is over.
pub open spec fn handshake_deadline(accepted_at: u64) -> u64 {
    if accepted_at + HANDSHAKE_TIMEOUT <= u64::MAX {
        (accepted_at + HANDSHAKE_TIMEOUT) as u64
    } else {
        u64::MAX
    }
}

/// Why a peer is turned away, if it is: it must belong to this user, and must
/// not have used up its time already.
pub open spec fn peer_fault(peer_uid: u32, uid: u32, accepted_at: u64, now: u64) -> Option<
    FailureView,
> {
    if peer_uid != uid {
        Some(
            failure(
                FailureKind::PermissionDenied,
                "IPC peer does not belong to the current user"@,
            ),
        )
    } else if now >= handshake_deadline(accepted_at) {
        Some(
            failure(FailureKind::TimedOut, "IPC handshake expired during authentication"@),
        )
    } else {
        None
    }
}

/// Checks a peer that was just accepted.
pub fn authenticate_peer(peer_uid: u32, uid: u32, accepted_at: u64, now: u64) -> (outcome: Result<
    (),
    Failure,
>)
    ensures
        fault_of(outcome) == peer_fault(peer_uid, uid, accepted_at, now),
{
    if peer_uid != uid {
        return Err(
            Failure::new(
                FailureKind::PermissionDenied,
                "IPC peer does not belong to the current user",
            ),
        );
    }
    if now >= accepted_at.saturating_add(HANDSHAKE_TIMEOUT) {
        return Err(
            Failure::new(FailureKind::TimedOut, "IPC handshake expired during authentication"),
        );
    }
    Ok(())
}

/// Copies the bytes from `from` up to `to`.
fn bytes_between(bytes: &Vec<u8>, from: usize, to: usize) -> (copy: Vec<u8>)
    requires
        from <= to <= bytes@.len(),
    ensures
        copy@ == bytes@.subrange(from as int, to as int),
{
    let mut copy: Vec<u8> = Vec::new();
    let mut index: usize = from;
    while index < to
        invariant
            from <= index <= to <= bytes@.len(),
            copy@ == bytes@.subrange(from as int, index as int),
        decreases to - index,
    {
        copy.push(bytes[index]);
        index = index + 1;
        assert(bytes@.subrange(from as int, index as int) =~= bytes@.subrange(
            from as int,
            index as int - 1,
        ).push(bytes@[index as int - 1]));
    }
    copy
}

impl IpcServer {
    /// How much room the request of a connection has left.
    pub fn room(&self, fd: i32) -> (left: usize)
        requires
            sound(self@),
        ensures
            left == room(self@, fd),
    {
        match self.pending.get(&fd) {
            Some(connection) => match &connection.state {
                PendingState::Reading(buffer) => {
                    assert(self@.contains_key(fd) && self@[fd] == connection.model());
                    assert(sound_connection(self@[fd]));
                    let length: usize = buffer.len();
                    MAX_MESSAGE_BYTES as usize - length
                },
                _ => 0,
            },
            None => 0,
        }
    }

    /// Takes the outcome of a read. A read that would have blocked delivers
    /// nothing; any other failure drops the connection.
    pub fn receive(&mut self, fd: i32, outcome: Result<Vec<u8>, Failure>) -> (got: Result<
        Received,
        Failure,
    >)
        requires
            sound(old(self)@),
            outcome matches Ok(bytes) ==> bytes@.len() <= room(old(self)@, fd),
        ensures
            match outcome {
                Ok(bytes) => {
                    let (pending, what) = received(old(self)@, fd, bytes@);
                    &&& final(self)@ == pending
                    &&& got matches Ok(result) && result.model() == what
                },
                Err(error) => if error.kind == FailureKind::WouldBlock {
                    &&& final(self)@ == old(self)@
                    &&& got == Ok::<Received, Failure>(Received::Nothing)
                } else {
                    &&& final(self)@ == old(self)@.remove(fd)
                    &&& got == Err::<Received, Failure>(error)
                },
            },
            final(self).listening() == old(self).listening(),
            final(self).socket() == old(self).socket(),
            sound(final(self)@),
    {
        let mut bytes = match outcome {
            Ok(bytes) => bytes,
            Err(error) => {
                if error.kind == FailureKind::WouldBlock {
                    return Ok(Received::Nothing);
                }
                self.forget(fd);
                return Err(error);
            },
        };
        let ghost delivered = bytes@;
        let connection = match self.pending.remove(&fd) {
            Some(connection) => connection,
            None => {
                assert(self@ =~= old(self)@);
                return Ok(Received::Nothing);
            },
        };
        let ghost before = connection.model();
        proof {
            assert(old(self)@[fd] == before);
            assert(sound_connection(before));
            assert(self@ =~= old(self)@.remove(fd));
            removing_stays_sound(old(self)@, fd);
            assert(self@.dom().len() < MAX_PENDING_HANDSHAKES);
        }
        let deadline: u64 = connection.deadline;
        match connection.state {
            PendingState::Reading(buffer) => {
                let mut grown = buffer;
                if bytes.len() == 0 {
                    if grown.len() == MAX_MESSAGE_BYTES as usize {
                        self.hold(
                            fd,
                            PendingConnection { deadline, state: PendingState::Reading(grown) },
                        );
                        assert(self@ =~= old(self)@);
                        return Ok(Received::Reject(TOO_LONG));
                    }
                    return Ok(Received::Nothing);
                }
                grown.append(&mut bytes);
                let found = crate::ipc::wire::find_newline(&grown);
                let result = match found {
                    Some(at) => {
                        let line = bytes_between(&grown, 0, at + 1);
                        assert(line@ =~= grown@.take(at as int + 1));
                        Received::Line(line)
                    },
                    None => {
                        if grown.len() == MAX_MESSAGE_BYTES as usize {
                            Received::Reject(TOO_LONG)
                        } else {
                            Received::Nothing
                        }
                    },
                };
                self.hold(fd, PendingConnection { deadline, state: PendingState::Reading(grown) });
                assert(self@ =~= received(old(self)@, fd, delivered).0);
                Ok(result)
            },
            other => {
                self.hold(fd, PendingConnection { deadline, state: other });
                assert(self@ =~= old(self)@);
                Ok(Received::Nothing)
            },
        }
    }

    /// Takes a framed request off a connection, which then waits for its
    /// response. `unwatched` tells whether the connection could be taken off
    /// the read watch.
    pub fn take_request(
        &mut self,
        fd: i32,
        action: RequestAction,
        unwatched: Result<(), Failure>,
    ) -> (request: Result<PendingRequest, Failure>)
        requires
            sound(old(self)@),
        ensures
            match unwatched {
                Err(error) => {
                    &&& final(self)@ == old(self)@.remove(fd)
                    &&& request == Err::<PendingRequest, Failure>(error)
                },
                Ok(()) => {
                    &&& final(self)@ == awaiting(old(self)@, fd)
                    &&& request == Ok::<PendingRequest, Failure>(request_of(fd, action))
                },
            },
            final(self).listening() == old(self).listening(),
            final(self).socket() == old(self).socket(),
            sound(final(self)@),
    {
        match unwatched {
            Ok(()) => {},
            Err(error) => {
                self.forget(fd);
                return Err(error);
            },
        }
        match self.deadline_of(fd) {
            Some(deadline) => {
                self.hold(fd, PendingConnection { deadline, state: PendingState::AwaitingResponse });
            },
            None => {},
        }
        Ok(
            match action {
                RequestAction::OneShot(command) => PendingRequest::OneShot { fd, command },
                RequestAction::Subscribe => PendingRequest::Subscribe { fd },
                RequestAction::Reject(message) => PendingRequest::Reject { fd, message },
            },
        )
    }

    /// Queues the encoded response of a connection. Returns whether a first
    /// write is due at once.
    pub fn queue_response(
        &mut self,
        fd: i32,
        encoded: Result<Vec<u8>, Failure>,
        disposition: ResponseDisposition,
        now: u64,
    ) -> (outcome: Result<bool, Failure>)
        requires
            sound(old(self)@),
            encoded matches Ok(line) ==> line@.len() <= MAX_MESSAGE_BYTES,
        ensures
            final(self)@ == queued(old(self)@, fd, line_view(encoded), disposition, now).0,
            fault_of(outcome) == (match queued(
                old(self)@,
                fd,
                line_view(encoded),
                disposition,
                now,
            ).1 {
                Ok(_) => None,
                Err(fault) => Some(fault),
            }),
            outcome matches Ok(due) ==> queued(
                old(self)@,
                fd,
                line_view(encoded),
                disposition,
                now,
            ).1 == Ok::<bool, FailureView>(due),
            final(self).listening() == old(self).listening(),
            final(self).socket() == old(self).socket(),
            sound(final(self)@),
    {
        let response = match encoded {
            Ok(line) => line,
            Err(error) => {
                self.forget(fd);
                return Err(error);
            },
        };
        let deadline: u64 = match self.deadline_of(fd) {
            Some(deadline) => deadline,
            None => return Ok(false),
        };
        if now >= deadline {
            self.forget(fd);
            return Ok(false);
        }
        let waits = match self.pending.get(&fd) {
            Some(connection) => {
                assert(self@[fd] == connection.model());
                match &connection.state {
                    PendingState::AwaitingResponse => true,
                    _ => false,
                }
            },
            None => false,
        };
        if !waits {
            self.forget(fd);
            return Err(
                Failure::new(
                    FailureKind::InvalidData,
                    "IPC response queued for a connection in the wrong state",
                ),
            );
        }
        self.hold(
            fd,
            PendingConnection {
                deadline,
                state: PendingState::Writing { response, offset: 0, disposition },
            },
        );
        Ok(true)
    }

    /// The bytes that a connection is sent next, if it is being written to:
    /// after its response was queued, and whenever it is writable.
    pub fn handle_pending_writable(&mut self, fd: i32, now: u64) -> (chunk: Option<Vec<u8>>)
        requires
            sound(old(self)@),
        ensures
            final(self)@ == unexpired(old(self)@, fd, now),
            match next_chunk(old(self)@, fd, now) {
                Some(bytes) => chunk matches Some(sent) && sent@ == bytes,
                None => chunk is None,
            },
            final(self).listening() == old(self).listening(),
            final(self).socket() == old(self).socket(),
            sound(final(self)@),
    {
        if !self.still_open(fd, now) {
            return None;
        }
        match self.pending.get(&fd) {
            Some(connection) => {
                assert(self@[fd] == connection.model());
                assert(sound_connection(self@[fd]));
                match &connection.state {
                    PendingState::Writing { response, offset, .. } => {
                        let length: usize = response.len();
                        let left: usize = length - *offset;
                        let end: usize = if left > WRITE_BUDGET {
                            *offset + WRITE_BUDGET
                        } else {
                            length
                        };
                        Some(bytes_between(response, *offset, end))
                    },
                    _ => None,
                }
            },
            None => None,
        }
    }

    /// Takes the outcome of a write. A write that would have blocked leaves
    /// the connection as it is; any other failure drops it.
    pub fn advance_write(
        &mut self,
        fd: i32,
        outcome: Result<usize, Failure>,
        writable_armed: bool,
        now: u64,
    ) -> (step: Result<WriteStep, Failure>)
        requires
            sound(old(self)@),
            outcome matches Ok(count) ==> (old(self)@.contains_key(fd) && (old(
                self,
            )@[fd].state matches PendingStateView::Writing { response, offset, .. } && offset
                + count <= response.len())),
        ensures
            match outcome {
                Ok(count) => {
                    let (pending, what) = wrote(
                        old(self)@,
                        fd,
                        Some(count as nat),
                        writable_armed,
                        now,
                    );
                    &&& final(self)@ == pending
                    &&& step == Ok::<WriteStep, Failure>(what)
                },
                Err(error) => if !old(self)@.contains_key(fd) || !(old(self)@[fd].state is Writing) {
                    &&& final(self)@ == old(self)@
                    &&& step == Ok::<WriteStep, Failure>(WriteStep::Nothing)
                } else if error.kind == FailureKind::WouldBlock {
                    let (pending, what) = wrote(old(self)@, fd, None, writable_armed, now);
                    &&& final(self)@ == pending
                    &&& step == Ok::<WriteStep, Failure>(what)
                } else {
                    &&& final(self)@ == old(self)@.remove(fd)
                    &&& step == Err::<WriteStep, Failure>(error)
                },
            },
            final(self).listening() == old(self).listening(),
            final(self).socket() == old(self).socket(),
            sound(final(self)@),
    {
        let connection = match self.pending.remove(&fd) {
            Some(connection) => connection,
            None => {
                assert(self@ =~= old(self)@);
                return Ok(WriteStep::Nothing);
            },
        };
        let ghost before = connection.model();
        proof {
            assert(old(self)@[fd] == before);
            assert(sound_connection(before));
            assert(self@ =~= old(self)@.remove(fd));
            removing_stays_sound(old(self)@, fd);
            assert(self@.dom().len() < MAX_PENDING_HANDSHAKES);
        }
        let deadline: u64 = connection.deadline;
        match connection.state {
            PendingState::Writing { response, offset, disposition } => {
                let (count, blocked): (usize, bool) = match outcome {
                    Ok(count) => (count, false),
                    Err(error) => {
                        if error.kind != FailureKind::WouldBlock {
                            return Err(error);
                        }
                        (0, true)
                    },
                };
                if now >= deadline || (!blocked && count == 0) {
                    return Ok(WriteStep::Nothing);
                }
                let reached: usize = offset + count;
                let complete = !blocked && reached == response.len();
                if complete && disposition == ResponseDisposition::Close {
                    return Ok(WriteStep::Nothing);
                }
                self.hold(
                    fd,
                    PendingConnection {
                        deadline,
                        state: PendingState::Writing { response, offset: reached, disposition },
                    },
                );
                assert(self@ =~= wrote(
                    old(self)@,
                    fd,
                    if blocked {
                        None
                    } else {
                        Some(count as nat)
                    },
                    writable_armed,
                    now,
                ).0);
                if complete {
                    Ok(WriteStep::Promote { unwatch: writable_armed })
                } else if writable_armed {
                    Ok(WriteStep::Nothing)
                } else {
                    Ok(WriteStep::WatchWritable)
                }
            },
            other => {
                self.hold(fd, PendingConnection { deadline, state: other });
                assert(self@ =~= old(self)@);
                Ok(WriteStep::Nothing)
            },
        }
    }

    /// Drops a connection that could not be watched.
    pub fn abandon(&mut self, fd: i32)
        requires
            sound(old(self)@),
        ensures
            final(self)@ == old(self)@.remove(fd),
            final(self).listening() == old(self).listening(),
            final(self).socket() == old(self).socket(),
            sound(final(self)@),
    {
        self.forget(fd);
    }

    /// Makes a connection whose response is complete a subscriber. `watched`
    /// tells whether its watches could be changed. Returns whether the
    /// connection stays open.
    pub fn promote(
        &mut self,
        fd: i32,
        watched: Result<(), Failure>,
        subscribers: &mut Subscribers,
    ) -> (outcome: Result<bool, Failure>)
        requires
            sound(old(self)@),
        ensures
            final(self)@ == old(self)@.remove(fd),
            match watched {
                Err(error) => {
                    &&& outcome == Err::<bool, Failure>(error)
                    &&& final(subscribers)@ == old(subscribers)@
                },
                Ok(()) => {
                    let room = old(subscribers)@.len() < crate::ipc::subscribers::MAX_SUBSCRIBERS;
                    &&& outcome == Ok::<bool, Failure>(old(self)@.contains_key(fd) && room)
                    &&& final(subscribers)@ == (if old(self)@.contains_key(fd) && room {
                        old(subscribers)@.push(fd)
                    } else {
                        old(subscribers)@
                    })
                },
            },
            final(self).listening() == old(self).listening(),
            final(self).socket() == old(self).socket(),
            sound(final(self)@),
    {
        let known = self.is_pending(fd);
        self.forget(fd);
        match watched {
            Err(error) => Err(error),
            Ok(()) => {
                if !known {
                    return Ok(false);
                }
                Ok(subscribers.add(fd))
            },
        }
    }
}

impl IpcServer {
    /// The descriptors of the connections in their handshake.
    fn descriptors(&self) -> (fds: Vec<i32>)
        ensures
            fds@.to_set() == self@.dom(),
    {
        let mut fds: Vec<i32> = Vec::new();
        for fd in keys: self.pending.keys()
            invariant
                fds@ == keys.seq().unref().take(keys.index()),
                keys.index() == keys.seq().len() ==> fds@ == keys.seq().unref(),
                keys.seq().unref().to_set() == self.pending@.dom(),
        {
            fds.push(*fd);
            assert(keys.seq().unref().take(keys.index() + 1) =~= keys.seq().unref().take(
                keys.index(),
            ).push(*fd));
        }
        assert(self@.dom() =~= self.pending@.dom());
        fds
    }

    /// When the next handshake runs out of time.
    pub fn next_deadline(&self) -> (deadline: Option<u64>)
        ensures
            match deadline {
                Some(at) => {
                    &&& exists|fd: i32| #[trigger] self@.contains_key(fd) && self@[fd].deadline == at
                    &&& forall|fd: i32| #[trigger]
                        self@.contains_key(fd) ==> at <= self@[fd].deadline
                },
                None => self@ == Map::<i32, ConnectionView>::empty(),
            },
    {
        let fds = self.descriptors();
        let mut earliest: Option<u64> = None;
        let mut index: usize = 0;
        while index < fds.len()
            invariant
                index <= fds@.len(),
                fds@.to_set() == self@.dom(),
                match earliest {
                    Some(at) => {
                        &&& exists|fd: i32| #[trigger]
                            self@.contains_key(fd) && self@[fd].deadline == at
                        &&& forall|i: int| 0 <= i < index ==> at <= self@[#[trigger] fds@[i]].deadline
                    },
                    None => index == 0,
                },
            decreases fds@.len() - index,
        {
            assert(fds@.to_set().contains(fds@[index as int]));
            assert(self@.contains_key(fds@[index as int]));
            match self.deadline_of(fds[index]) {
                Some(deadline) => {
                    earliest = match earliest {
                        Some(at) => Some(
                            if deadline < at {
                                deadline
                            } else {
                                at
                            },
                        ),
                        None => Some(deadline),
                    };
                },
                None => {},
            }
            index = index + 1;
        }
        proof {
            assert forall|fd: i32| #[trigger] self@.contains_key(fd) implies exists|i: int|
                0 <= i < fds@.len() && #[trigger] fds@[i] == fd by {
                assert(fds@.to_set().contains(fd));
            }
            if earliest is None {
                assert(self@ =~= Map::<i32, ConnectionView>::empty());
            }
        }
        earliest
    }

    /// Drops every connection whose time is up.
    fn expire(&mut self, now: u64)
        requires
            sound(old(self)@),
        ensures
            survivors(old(self)@, final(self)@, now),
            final(self).listening() == old(self).listening(),
            final(self).socket() == old(self).socket(),
            sound(final(self)@),
    {
        let fds = self.descriptors();
        let mut index: usize = 0;
        while index < fds.len()
            invariant
                index <= fds@.len(),
                fds@.to_set() == old(self)@.dom(),
                sound(self@),
                self.listening() == old(self).listening(),
                self.socket() == old(self).socket(),
                forall|fd: i32| #[trigger]
                    self@.contains_key(fd) ==> old(self)@.contains_key(fd) && self@[fd] == old(
                        self,
                    )@[fd],
                forall|fd: i32| #[trigger]
                    old(self)@.contains_key(fd) && old(self)@[fd].deadline > now
                        ==> self@.contains_key(fd),
                forall|i: int|
                    0 <= i < index && self@.contains_key(#[trigger] fds@[i])
                        ==> self@[fds@[i]].deadline > now,
            decreases fds@.len() - index,
        {
            let _ = self.still_open(fds[index], now);
            index = index + 1;
        }
        proof {
            assert forall|fd: i32| #[trigger] self@.contains_key(fd) implies old(
                self,
            )@[fd].deadline > now by {
                assert(fds@.to_set().contains(fd));
                let i = choose|i: int| 0 <= i < fds@.len() && fds@[i] == fd;
                assert(self@.contains_key(fds@[i]));
            }
        }
    }

    /// Whether the listener must be turned off or on again.
    pub fn listener_step(&self) -> (step: Maintenance)
        ensures
            step == listener_change(self@.dom().len(), self.listening()),
    {
        let count: usize = self.pending_count();
        if count >= MAX_PENDING_HANDSHAKES && self.listener_enabled {
            Maintenance::DisableListener
        } else if count < MAX_PENDING_HANDSHAKES && !self.listener_enabled {
            Maintenance::EnableListener
        } else {
            Maintenance::Nothing
        }
    }

    /// Notes that the listener was turned off or on again.
    pub fn listener_changed(&mut self, enabled: bool)
        ensures
            final(self)@ == old(self)@,
            final(self).listening() == enabled,
            final(self).socket() == old(self).socket(),
    {
        self.listener_enabled = enabled;
    }

    /// Drops what has run out of time and decides about the listener. Only an
    /// event that came while the listener was already enabled leads to an
    /// accept; a listener that is turned on again waits for its next event.
    fn maintain(&mut self, listener_ready: bool, now: u64) -> (step: Maintenance)
        requires
            sound(old(self)@),
        ensures
            survivors(old(self)@, final(self)@, now),
            step == (if listener_ready && old(self).listening() && final(self)@.dom().len()
                < MAX_PENDING_HANDSHAKES {
                Maintenance::Accept
            } else {
                listener_change(final(self)@.dom().len(), old(self).listening())
            }),
            final(self).listening() == old(self).listening(),
            final(self).socket() == old(self).socket(),
            sound(final(self)@),
    {
        self.expire(now);
        if listener_ready && self.listener_enabled && self.pending_count()
            < MAX_PENDING_HANDSHAKES {
            return Maintenance::Accept;
        }
        self.listener_step()
    }

    /// Cleans up before the loop sleeps.
    pub fn prepare_wait(&mut self, now: u64) -> (step: Maintenance)
        requires
            sound(old(self)@),
        ensures
            survivors(old(self)@, final(self)@, now),
            step == listener_change(final(self)@.dom().len(), old(self).listening()),
            final(self).listening() == old(self).listening(),
            final(self).socket() == old(self).socket(),
            sound(final(self)@),
    {
        self.maintain(false, now)
    }

    /// Cleans up after one batch of events. Connections are accepted only now,
    /// so that a new descriptor never receives an event of this batch.
    pub fn finish_event_batch(&mut self, listener_ready: bool, now: u64) -> (step: Maintenance)
        requires
            sound(old(self)@),
        ensures
            survivors(old(self)@, final(self)@, now),
            step == (if listener_ready && old(self).listening() && final(self)@.dom().len()
                < MAX_PENDING_HANDSHAKES {
                Maintenance::Accept
            } else {
                listener_change(final(self)@.dom().len(), old(self).listening())
            }),
            final(self).listening() == old(self).listening(),
            final(self).socket() == old(self).socket(),
            sound(final(self)@),
    {
        self.maintain(listener_ready, now)
    }

    /// Whether another connection is accepted in this batch.
    pub fn accept_connections(&self, attempts: usize) -> (more: bool)
        ensures
            more == (self@.dom().len() < MAX_PENDING_HANDSHAKES && attempts
                < MAX_ACCEPTS_PER_BATCH),
    {
        self.pending_count() < MAX_PENDING_HANDSHAKES && attempts < MAX_ACCEPTS_PER_BATCH
    }

    /// Starts the handshake of an accepted and authenticated connection.
    pub fn register_accepted(&mut self, fd: i32, accepted_at: u64)
        requires
            sound(old(self)@),
            old(self)@.dom().len() < MAX_PENDING_HANDSHAKES,
        ensures
            final(self)@ == old(self)@.insert(
                fd,
                ConnectionView {
                    deadline: handshake_deadline(accepted_at),
                    state: PendingStateView::Reading(Seq::empty()),
                },
            ),
            final(self).listening() == old(self).listening(),
            final(self).socket() == old(self).socket(),
            sound(final(self)@),
    {
        let deadline: u64 = accepted_at.saturating_add(HANDSHAKE_TIMEOUT);
        self.hold(fd, PendingConnection { deadline, state: PendingState::Reading(Vec::new()) });
    }
}

/// Reads, requests, responses and writes never move the deadline that a
/// connection got when it was accepted.
pub proof fn handshake_deadlines_never_move(
    pending: Map<i32, ConnectionView>,
    fd: i32,
    other: i32,
    bytes: Seq<u8>,
    line: Result<Seq<u8>, FailureView>,
    disposition: ResponseDisposition,
    count: Option<nat>,
    writable_armed: bool,
    now: u64,
)
    requires
        pending.contains_key(other),
    ensures
        received(pending, fd, bytes).0.contains_key(other) ==> received(
            pending,
            fd,
            bytes,
        ).0[other].deadline == pending[other].deadline,
        awaiting(pending, fd)[other].deadline == pending[other].deadline,
        queued(pending, fd, line, disposition, now).0.contains_key(other) ==> queued(
            pending,
            fd,
            line,
            disposition,
            now,
        ).0[other].deadline == pending[other].deadline,
        wrote(pending, fd, count, writable_armed, now).0.contains_key(other) ==> wrote(
            pending,
            fd,
            count,
            writable_armed,
            now,
        ).0[other].deadline == pending[other].deadline,
{
}

/// What happens on one connection leaves every other connection as it is.
pub proof fn connections_are_independent(
    pending: Map<i32, ConnectionView>,
    fd: i32,
    other: i32,
    bytes: Seq<u8>,
    line: Result<Seq<u8>, FailureView>,
    disposition: ResponseDisposition,
    count: Option<nat>,
    writable_armed: bool,
    now: u64,
)
    requires
        pending.contains_key(other),
        fd != other,
    ensures
        received(pending, fd, bytes).0.contains_key(other),
        received(pending, fd, bytes).0[other] == pending[other],
        awaiting(pending, fd)[other] == pending[other],
        queued(pending, fd, line, disposition, now).0.contains_key(other),
        queued(pending, fd, line, disposition, now).0[other] == pending[other],
        wrote(pending, fd, count, writable_armed, now).0.contains_key(other),
        wrote(pending, fd, count, writable_armed, now).0[other] == pending[other],
{
}

/// A request that arrives in two fragments is framed as if it had arrived in
/// one.
pub proof fn fragments_frame_like_the_whole(
    pending: Map<i32, ConnectionView>,
    fd: i32,
    first: Seq<u8>,
    second: Seq<u8>,
)
    requires
        first.len() > 0,
        second.len() > 0,
        first.len() + second.len() <= room(pending, fd),
        received(pending, fd, first).1 is Nothing,
    ensures
        received(received(pending, fd, first).0, fd, second) == received(
            pending,
            fd,
            first + second,
        ),
{
    let buffer = pending[fd].state->Reading_0;
    assert((buffer + first) + second =~= buffer + (first + second));
    let once = received(pending, fd, first + second).0;
    let twice = received(received(pending, fd, first).0, fd, second).0;
    assert(once =~= twice);
}

/// A framed request is one line: its only newline is its last byte, and it
/// fits one message.
pub proof fn framed_requests_are_single_lines(
    pending: Map<i32, ConnectionView>,
    fd: i32,
    bytes: Seq<u8>,
)
    requires
        bytes.len() <= room(pending, fd),
        received(pending, fd, bytes).1 is Line,
    ensures
        ({
            let line = received(pending, fd, bytes).1->Line_0;
            &&& 0 < line.len() <= MAX_MESSAGE_BYTES
            &&& line.last() == 10
            &&& forall|i: int| 0 <= i < line.len() - 1 ==> line[i] != 10
        }),
{
    newline_is_the_first(pending[fd].state->Reading_0 + bytes);
}

/// However a response is split into writes, each byte is sent once and in
/// order: what was sent before, followed by what was just written, is what
/// counts as sent afterwards.
pub proof fn writes_send_each_byte_once(
    pending: Map<i32, ConnectionView>,
    fd: i32,
    count: nat,
    writable_armed: bool,
    now: u64,
)
    requires
        sound(pending),
        pending.contains_key(fd),
        pending[fd].state is Writing,
        count <= chunk_of(
            pending[fd].state->Writing_response,
            pending[fd].state->Writing_offset,
        ).len(),
        wrote(pending, fd, Some(count), writable_armed, now).0.contains_key(fd),
    ensures
        ({
            let before = pending[fd].state;
            let after = wrote(pending, fd, Some(count), writable_armed, now).0[fd].state;
            let response = before->Writing_response;
            &&& after is Writing
            &&& after->Writing_response == response
            &&& response.take(after->Writing_offset) == response.take(before->Writing_offset)
                + chunk_of(response, before->Writing_offset).take(count as int)
        }),
{
    let response = pending[fd].state->Writing_response;
    let offset = pending[fd].state->Writing_offset;
    assert(sound_connection(pending[fd]));
    assert(response.take(offset + count) =~= response.take(offset) + chunk_of(
        response,
        offset,
    ).take(count as int));
}

/// A connection becomes a subscriber only once its whole response is written.
pub proof fn subscribers_have_their_first_status(
    pending: Map<i32, ConnectionView>,
    fd: i32,
    count: Option<nat>,
    writable_armed: bool,
    now: u64,
)
    requires
        wrote(pending, fd, count, writable_armed, now).1 is Promote,
    ensures
        pending[fd].state is Writing,
        pending[fd].state->Writing_disposition is Subscribe,
        count is Some,
        pending[fd].state->Writing_offset + count->Some_0
            == pending[fd].state->Writing_response.len(),
{
}

/// A connection has 5 seconds for its handshake, and only the user's own
/// processes are let in.
pub proof fn handshakes_are_limited(peer_uid: u32, uid: u32, accepted_at: u64, now: u64)
    requires
        accepted_at + 5_000_000_000 <= u64::MAX,
    ensures
        handshake_deadline(accepted_at) == accepted_at + 5_000_000_000,
        peer_fault(peer_uid, uid, accepted_at, now) is None <==> peer_uid == uid && now
            < accepted_at + 5_000_000_000,
{
}

/// What was read so far is kept until a line is whole, which is then handed
/// over from its start. An end before that closes the connection, and too much
/// without a line break is refused.
pub proof fn requests_are_collected(
    pending: Map<i32, ConnectionView>,
    fd: i32,
    bytes: Seq<u8>,
)
    requires
        pending.contains_key(fd),
        pending[fd].state is Reading,
    ensures
        ({
            let before = pending[fd].state->Reading_0;
            let (after, got) = received(pending, fd, bytes);
            &&& bytes.len() == 0 && before.len() < 65536 ==> !after.contains_key(fd) && got
                is Nothing
            &&& bytes.len() == 0 && before.len() == 65536 ==> got is Reject
            &&& bytes.len() > 0 ==> {
                &&& after.contains_key(fd)
                &&& after[fd].state == PendingStateView::Reading(before + bytes)
                &&& got is Line <==> (before + bytes).contains(10u8)
                &&& got is Line ==> (before + bytes).take(got->Line_0.len() as int) == got->Line_0
                &&& got is Reject <==> !(before + bytes).contains(10u8) && (before + bytes).len()
                    == 65536
            }
        }),
{
    let before = pending[fd].state->Reading_0;
    let grown = before + bytes;
    newline_is_the_first(grown);
    if first_newline(grown) is Some {
        let at = first_newline(grown)->0 as int;
        assert(grown[at] == 10u8);
        assert(grown.take(at + 1).len() == at + 1);
    } else if grown.contains(10u8) {
        let i = choose|i: int| 0 <= i < grown.len() && grown[i] == 10u8;
        assert(grown[i] != 10u8);
    }
}

/// A response is written to the connection that waits for one, from its start,
/// as long as its time is not over. One for a connection that is gone or late
/// is dropped, and one for any other connection is a fault.
pub proof fn responses_go_to_those_who_wait(
    pending: Map<i32, ConnectionView>,
    fd: i32,
    response: Seq<u8>,
    disposition: ResponseDisposition,
    now: u64,
)
    ensures
        ({
            let (after, due) = queued(pending, fd, Ok(response), disposition, now);
            let waits = pending.contains_key(fd) && now < pending[fd].deadline;
            &&& due == Ok::<bool, FailureView>(true) <==> waits && pending[fd].state
                is AwaitingResponse
            &&& due is Err <==> waits && !(pending[fd].state is AwaitingResponse)
            &&& due == Ok::<bool, FailureView>(true) ==> after[fd].state == (
            PendingStateView::Writing { response, offset: 0, disposition })
            &&& due != Ok::<bool, FailureView>(true) ==> !after.contains_key(fd)
        }),
{
}

/// A response that was written whole ends a connection for one request, and
/// makes a subscriber of the other kind. One that was not is written on as soon
/// as that is possible, and a late or broken connection is closed.
pub proof fn written_responses_end_the_exchange(
    pending: Map<i32, ConnectionView>,
    fd: i32,
    count: nat,
    writable_armed: bool,
    now: u64,
)
    requires
        pending.contains_key(fd),
        pending[fd].state is Writing,
    ensures
        ({
            let offset = pending[fd].state->Writing_offset + count;
            let whole = offset == pending[fd].state->Writing_response.len();
            let kind = pending[fd].state->Writing_disposition;
            let late = now >= pending[fd].deadline || count == 0;
            let (after, step) = wrote(pending, fd, Some(count), writable_armed, now);
            &&& late ==> !after.contains_key(fd) && step is Nothing
            &&& !late && whole && kind is Close ==> !after.contains_key(fd) && step is Nothing
            &&& !late && whole && kind is Subscribe ==> after.contains_key(fd) && step == (
            WriteStep::Promote { unwatch: writable_armed })
            &&& !late && !whole ==> after.contains_key(fd) && after[fd].state is Writing
                && after[fd].state->Writing_offset == offset && (writable_armed ==> step
                is Nothing) && (!writable_armed ==> step is WatchWritable)
        }),
{
}

/// New connections are listened for exactly while fewer than 16 are pending.
pub proof fn listeners_follow_the_load(count: nat, listening: bool)
    ensures
        listener_change(count, listening) is DisableListener <==> count >= 16 && listening,
        listener_change(count, listening) is EnableListener <==> count < 16 && !listening,
        !(listener_change(count, listening) is Accept),
{
}

/// What is read at a time fits what is left of a message, and at most 4096
/// bytes; a connection that is late or not reading is left alone.
pub proof fn reads_fit_the_message(pending: Map<i32, ConnectionView>, fd: i32, now: u64)
    requires
        sound(pending),
    ensures
        read_plan(pending, fd, now) is Read <==> pending.contains_key(fd) && now
            < pending[fd].deadline && pending[fd].state is Reading,
        read_plan(pending, fd, now) matches ReadPlan::Read { limit } ==> limit <= 4096 && limit
            <= room(pending, fd) && (room(pending, fd) > 0 ==> limit > 0),
{
}

} // verus!
