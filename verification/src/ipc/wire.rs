//! What requests and responses look like on the wire.

#[allow(unused_imports)]
use vstd::prelude::*;
use crate::failure::{Failure, FailureKind};
#[allow(unused_imports)]
use crate::failure::{failure, fault_of, FailureView};
use crate::protocol::{Command, Request, Response, MAX_MESSAGE_BYTES, PROTOCOL_VERSION};

verus! {

pub const TOO_LONG: &'static str = "request exceeds 64 KiB";

pub const UNSUPPORTED: &'static str = "unsupported IPC protocol version";

pub const INVALID: &'static str = "request JSON is invalid";

/// Where the first newline stands.
pub open spec fn first_newline(bytes: Seq<u8>) -> Option<nat>
    decreases bytes.len(),
{
    if bytes.len() == 0 {
        None
    } else if bytes[0] == 10 {
        Some(0)
    } else {
        match first_newline(bytes.drop_first()) {
            Some(at) => Some(at + 1),
            None => None,
        }
    }
}

/// What a request asks of the agent.
#[derive(Clone, Copy, Debug)]
pub enum RequestAction {
    OneShot(Command),
    Subscribe,
    Reject(&'static str),
}

/// The newline found is the first one, and none is missed.
pub proof fn newline_is_the_first(bytes: Seq<u8>)
    ensures
        match first_newline(bytes) {
            Some(at) => {
                &&& at < bytes.len()
                &&& bytes[at as int] == 10
                &&& forall|i: int| 0 <= i < at ==> bytes[i] != 10
            },
            None => forall|i: int| 0 <= i < bytes.len() ==> bytes[i] != 10,
        },
    decreases bytes.len(),
{
    if bytes.len() > 0 && bytes[0] != 10 {
        let rest = bytes.drop_first();
        newline_is_the_first(rest);
        assert forall|i: int| 0 < i < bytes.len() implies bytes[i] == rest[i - 1] by {}
    }
}

/// Finds the first newline.
pub fn find_newline(bytes: &Vec<u8>) -> (found: Option<usize>)
    ensures
        match first_newline(bytes@) {
            Some(at) => found == Some(at as usize) && at < bytes@.len(),
            None => found is None,
        },
{
    let mut index: usize = 0;
    proof {
        newline_is_the_first(bytes@);
    }
    while index < bytes.len()
        invariant
            index <= bytes@.len(),
            forall|i: int| 0 <= i < index ==> bytes@[i] != 10,
            match first_newline(bytes@) {
                Some(at) => {
                    &&& at < bytes@.len()
                    &&& bytes@[at as int] == 10
                    &&& forall|i: int| 0 <= i < at ==> bytes@[i] != 10
                },
                None => forall|i: int| 0 <= i < bytes@.len() ==> bytes@[i] != 10,
            },
        decreases bytes@.len() - index,
    {
        if bytes[index] == 10 {
            return Some(index);
        }
        index = index + 1;
    }
    None
}

/// What a request line asks, given what its JSON holds.
pub open spec fn requested(line: Seq<u8>, parsed: Option<Request>) -> RequestAction {
    if line.len() > MAX_MESSAGE_BYTES {
        RequestAction::Reject(TOO_LONG)
    } else {
        match parsed {
            Some(request) => if request.version != PROTOCOL_VERSION {
                RequestAction::Reject(UNSUPPORTED)
            } else if request.command == Command::Subscribe {
                RequestAction::Subscribe
            } else {
                RequestAction::OneShot(request.command)
            },
            None => RequestAction::Reject(INVALID),
        }
    }
}

/// Decides what a request line asks. `parsed` is the request that its JSON
/// holds, if it is one.
pub fn classify_request(line: &Vec<u8>, parsed: Option<Request>) -> (action: RequestAction)
    ensures
        action == requested(line@, parsed),
{
    if line.len() as u64 > MAX_MESSAGE_BYTES {
        return RequestAction::Reject(TOO_LONG);
    }
    match parsed {
        Some(request) => {
            if request.version != PROTOCOL_VERSION {
                RequestAction::Reject(UNSUPPORTED)
            } else if request.command == Command::Subscribe {
                RequestAction::Subscribe
            } else {
                RequestAction::OneShot(request.command)
            }
        },
        None => RequestAction::Reject(INVALID),
    }
}

/// The failure of a response whose line would not fit one message.
pub open spec fn response_too_long() -> FailureView {
    failure(FailureKind::InvalidData, "OpenCodeServerAgent response exceeds 64 KiB"@)
}

/// The line that carries a body, or why it cannot be sent.
pub open spec fn response_line(body: Result<Seq<u8>, Seq<char>>) -> Result<Seq<u8>, FailureView> {
    match body {
        Err(error) => Err(failure(FailureKind::InvalidData, error)),
        Ok(json) => if json.len() + 1 > MAX_MESSAGE_BYTES {
            Err(response_too_long())
        } else {
            Ok(json.push(10u8))
        },
    }
}

/// The content of a serialized body.
pub open spec fn body_view(body: Result<Vec<u8>, String>) -> Result<Seq<u8>, Seq<char>> {
    match body {
        Ok(json) => Ok(json@),
        Err(error) => Err(error@),
    }
}

/// The content of an encoded line.
pub open spec fn line_view(line: Result<Vec<u8>, Failure>) -> Result<Seq<u8>, FailureView> {
    match line {
        Ok(bytes) => Ok(bytes@),
        Err(error) => Err(error.deep_view()),
    }
}

/// Makes the line of a response from its JSON. A message is the JSON and its
/// newline, and the whole line must fit.
pub fn encode_response(body: Result<Vec<u8>, String>) -> (line: Result<Vec<u8>, Failure>)
    ensures
        line_view(line) == response_line(body_view(body)),
{
    match body {
        Err(error) => Err(Failure { kind: FailureKind::InvalidData, message: error }),
        Ok(json) => {
            let length: usize = json.len();
            if length >= MAX_MESSAGE_BYTES as usize {
                return Err(
                    Failure::new(
                        FailureKind::InvalidData,
                        "OpenCodeServerAgent response exceeds 64 KiB",
                    ),
                );
            }
            let mut encoded = json;
            encoded.push(10);
            Ok(encoded)
        },
    }
}

/// Makes the line of a pushed status from the JSON of its response: the same
/// envelope that answers a request.
pub fn encode_status_push(body: Result<Vec<u8>, String>) -> (line: Result<Vec<u8>, Failure>)
    ensures
        line_view(line) == response_line(body_view(body)),
{
    encode_response(body)
}

/// Makes the line of a request from its JSON.
pub fn encode_request(body: Vec<u8>) -> (line: Vec<u8>)
    ensures
        line@ == body@.push(10u8),
{
    let mut encoded = body;
    encoded.push(10);
    encoded
}

/// A response speaks the protocol only where its own version and that of the
/// status inside it are the current one.
pub open spec fn speaks_protocol(response: Response) -> bool {
    &&& response.version == PROTOCOL_VERSION
    &&& response.status matches Some(status) ==> status.protocol_version == PROTOCOL_VERSION
}

/// Accepts the reply to a request: the line that arrived and the response that
/// its JSON holds, or why it holds none.
pub fn send_request(line: &Vec<u8>, parsed: Result<Response, String>) -> (outcome: Result<
    Response,
    Failure,
>)
    ensures
        fault_of(outcome) == (if line@.len() > MAX_MESSAGE_BYTES {
            Some(response_too_long())
        } else {
            match parsed {
                Err(error) => Some(failure(FailureKind::InvalidData, error@)),
                Ok(response) => if speaks_protocol(response) {
                    None
                } else {
                    Some(
                        failure(
                            FailureKind::InvalidData,
                            "OpenCodeServerAgent response uses an unsupported IPC protocol version"@,
                        ),
                    )
                },
            }
        }),
        outcome matches Ok(response) ==> parsed == Ok::<Response, String>(response),
{
    if line.len() as u64 > MAX_MESSAGE_BYTES {
        return Err(
            Failure::new(
                FailureKind::InvalidData,
                "OpenCodeServerAgent response exceeds 64 KiB",
            ),
        );
    }
    match parsed {
        Err(error) => Err(Failure { kind: FailureKind::InvalidData, message: error }),
        Ok(response) => {
            let status_speaks = match &response.status {
                Some(status) => status.protocol_version == PROTOCOL_VERSION,
                None => true,
            };
            if response.version != PROTOCOL_VERSION || !status_speaks {
                return Err(
                    Failure::new(
                        FailureKind::InvalidData,
                        "OpenCodeServerAgent response uses an unsupported IPC protocol version",
                    ),
                );
            }
            Ok(response)
        },
    }
}

/// What occupies the path of the control socket.
#[derive(Clone, Copy, Debug, PartialEq, Eq, Structural)]
pub struct SocketFacts {
    pub is_socket: bool,
    /// Something accepted a connection on it.
    pub answers: bool,
}

/// Decides what happens to an entry at the socket's path before the agent
/// binds there. Returns whether the entry is removed.
pub fn prepare_socket_path(entry: Option<SocketFacts>) -> (outcome: Result<bool, Failure>)
    ensures
        match entry {
            None => outcome == Ok::<bool, Failure>(false),
            Some(facts) => if !facts.is_socket {
                fault_of(outcome) == Some(
                    failure(
                        FailureKind::AlreadyExists,
                        "control socket path exists and is not a Unix-domain socket"@,
                    ),
                )
            } else if facts.answers {
                fault_of(outcome) == Some(
                    failure(
                        FailureKind::AddrInUse,
                        "another OpenCodeServerAgent is already listening"@,
                    ),
                )
            } else {
                outcome == Ok::<bool, Failure>(true)
            },
        },
{
    match entry {
        None => Ok(false),
        Some(facts) => {
            if !facts.is_socket {
                return Err(
                    Failure::new(
                        FailureKind::AlreadyExists,
                        "control socket path exists and is not a Unix-domain socket",
                    ),
                );
            }
            if facts.answers {
                return Err(
                    Failure::new(
                        FailureKind::AddrInUse,
                        "another OpenCodeServerAgent is already listening",
                    ),
                );
            }
            Ok(true)
        },
    }
}

/// A line that is sent is never longer than a reader accepts, and ends in its
/// only framing newline.
pub proof fn sent_lines_fit_one_message(body: Seq<u8>)
    ensures
        match response_line(Ok(body)) {
            Ok(line) => {
                &&& line.len() <= MAX_MESSAGE_BYTES
                &&& line.last() == 10
                &&& line.drop_last() == body
            },
            Err(_) => body.len() >= MAX_MESSAGE_BYTES,
        },
{
    if body.len() + 1 <= MAX_MESSAGE_BYTES {
        assert(body.push(10u8).drop_last() =~= body);
    }
}

/// A request is carried out exactly where it fits one message, could be read
/// and speaks this protocol; a subscription is told from any other command.
pub proof fn understood_requests_are_carried_out(line: Seq<u8>, parsed: Option<Request>)
    ensures
        ({
            let action = requested(line, parsed);
            let good = line.len() <= 65536 && parsed is Some && parsed->0.version == 6;
            &&& action is Reject <==> !good
            &&& good && parsed->0.command is Subscribe ==> action is Subscribe
            &&& good && !(parsed->0.command is Subscribe) ==> action == RequestAction::OneShot(
                parsed->0.command,
            )
            &&& line.len() > 65536 ==> action == RequestAction::Reject(TOO_LONG)
            &&& line.len() <= 65536 && parsed is None ==> action == RequestAction::Reject(INVALID)
            &&& line.len() <= 65536 && parsed is Some && parsed->0.version != 6 ==> action
                == RequestAction::Reject(UNSUPPORTED)
        }),
{
}

} // verus!
