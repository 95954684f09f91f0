//! Asking OpenCode whether it is healthy: the request, the attempts to
//! connect, and what the answer means.

#[allow(unused_imports)]
use vstd::prelude::*;
use base64::Engine;
use crate::config::{format_endpoint, health_hostname, ValidatedConfig};
#[allow(unused_imports)]
use crate::config::{endpoint_text, reachable_hostname, ValidatedConfigView};
use crate::failure::{Failure, FailureKind};
#[allow(unused_imports)]
use crate::failure::{failure, fault_of, FailureView};
#[allow(unused_imports)]
use crate::process::planned;
use crate::text::{byte_len, chars_of, decimal, decode_text, join, parse_number, text_of};
#[allow(unused_imports)]
use crate::text::{
    decimal_text, decimal_value, decimals_denote_their_number, denoted_number, unbracketed,
    written_numbers_are_read_back,
};

verus! {

pub const MAX_RESPONSE_BYTES: u64 = 32 * 1024;

/// How many of the resolved addresses are tried.
pub const MAX_ADDRESSES: usize = 8;

/// The longest version that is accepted, in bytes.
pub const MAX_VERSION_BYTES: usize = 128;

/// What the health endpoint reported.
#[derive(Debug, PartialEq, Eq)]
pub struct HealthResult {
    pub healthy: bool,
    pub version: String,
}

/// The mathematical content of a [`HealthResult`].
pub struct HealthResultView {
    pub healthy: bool,
    pub version: Seq<char>,
}

impl DeepView for HealthResult {
    type V = HealthResultView;

    open spec fn deep_view(&self) -> HealthResultView {
        HealthResultView { healthy: self.healthy, version: self.version@ }
    }
}

impl Clone for HealthResult {
    fn clone(&self) -> (copy: Self)
        ensures
            copy == *self,
    {
        HealthResult { healthy: self.healthy, version: self.version.clone() }
    }
}

/// Why no health was reported. A rejected credential is told apart because
/// its remedy differs.
#[derive(Debug, PartialEq, Eq)]
pub enum HealthError {
    Io(Failure),
    Protocol(String),
    Unauthorized,
}

/// The mathematical content of a [`HealthError`].
pub enum HealthErrorView {
    Io(FailureView),
    Protocol(Seq<char>),
    Unauthorized,
}

impl DeepView for HealthError {
    type V = HealthErrorView;

    open spec fn deep_view(&self) -> HealthErrorView {
        match self {
            HealthError::Io(error) => HealthErrorView::Io(error.deep_view()),
            HealthError::Protocol(message) => HealthErrorView::Protocol(message@),
            HealthError::Unauthorized => HealthErrorView::Unauthorized,
        }
    }
}

impl HealthErrorView {
    /// What a person is told.
    pub open spec fn text(self) -> Seq<char> {
        match self {
            HealthErrorView::Io(error) => error.message,
            HealthErrorView::Protocol(message) => message,
            HealthErrorView::Unauthorized =>
                "health endpoint rejected the credential (HTTP 401)"@,
        }
    }
}

impl HealthError {
    /// What a person is told.
    pub fn text(&self) -> (text: String)
        ensures
            text@ == self.deep_view().text(),
    {
        match self {
            HealthError::Io(error) => error.message.clone(),
            HealthError::Protocol(message) => message.clone(),
            HealthError::Unauthorized =>
                "health endpoint rejected the credential (HTTP 401)".to_owned(),
        }
    }
}

impl vstd::std_specs::convert::FromSpecImpl<Failure> for HealthError {
    open spec fn obeys_from_spec() -> bool {
        true
    }

    open spec fn from_spec(error: Failure) -> HealthError {
        HealthError::Io(error)
    }
}

impl From<Failure> for HealthError {
    fn from(error: Failure) -> HealthError {
        HealthError::Io(error)
    }
}

/// The content of a check.
pub open spec fn health_view(outcome: Result<HealthResult, HealthError>) -> Result<
    HealthResultView,
    HealthErrorView,
> {
    match outcome {
        Ok(result) => Ok(result.deep_view()),
        Err(error) => Err(error.deep_view()),
    }
}

/// The standard base 64 encoding of some bytes, with padding.
pub uninterp spec fn base64_text(bytes: Seq<u8>) -> Seq<char>;

/// `base64::engine::general_purpose::STANDARD` encodes the bytes of `text` as
/// [`base64_text`] names.
#[verifier::external_body]
pub(crate) fn encode_base64(text: &str) -> (encoded: String)
    ensures
        encoded@ == base64_text(vstd::utf8::encode_utf8(text@)),
{
    base64::engine::general_purpose::STANDARD.encode(text)
}

/// Where a health request goes and with which credential.
#[derive(PartialEq, Eq)]
pub struct HealthTarget {
    pub hostname: String,
    pub port: u16,
    pub username: String,
    pub password: String,
}

/// The mathematical content of a [`HealthTarget`].
pub struct HealthTargetView {
    pub hostname: Seq<char>,
    pub port: u16,
    pub username: Seq<char>,
    pub password: Seq<char>,
}

impl DeepView for HealthTarget {
    type V = HealthTargetView;

    open spec fn deep_view(&self) -> HealthTargetView {
        HealthTargetView {
            hostname: self.hostname@,
            port: self.port,
            username: self.username@,
            password: self.password@,
        }
    }
}

/// Where a server that runs under a configuration is asked.
pub open spec fn asked_at(config: ValidatedConfigView) -> HealthTargetView {
    HealthTargetView {
        hostname: reachable_hostname(config.source.hostname),
        port: config.source.port,
        username: config.effective_username,
        password: config.source.password,
    }
}

/// The credential line of a request: none without a password.
pub open spec fn authorization_line(username: Seq<char>, password: Seq<char>) -> Seq<char> {
    if password.len() == 0 {
        Seq::empty()
    } else {
        "Authorization: Basic "@ + base64_text(
            vstd::utf8::encode_utf8(username.push(':') + password),
        ) + "\r\n"@
    }
}

/// A health request.
pub open spec fn request_text(
    hostname: Seq<char>,
    port: u16,
    username: Seq<char>,
    password: Seq<char>,
) -> Seq<char> {
    "GET /global/health HTTP/1.1\r\nHost: "@ + endpoint_text(hostname, port) + "\r\n"@
        + authorization_line(username, password)
        + "Accept: application/json\r\nConnection: close\r\n\r\n"@
}

/// Where to ask about a configuration: a wildcard address is asked through
/// the loopback address.
pub fn check(config: &ValidatedConfig) -> (target: HealthTarget)
    ensures
        target.deep_view() == asked_at(config.deep_view()),
        target.hostname@ == reachable_hostname(config.source.hostname@),
        target.port == config.source.port,
        target.username@ == config.effective_username@,
        target.password@ == config.source.password@,
{
    HealthTarget {
        hostname: health_hostname(config.source.hostname.as_str()).to_owned(),
        port: config.source.port,
        username: config.effective_username.clone(),
        password: config.source.password.clone(),
    }
}

impl HealthTarget {
    /// The host to resolve, without brackets.
    pub fn resolve_host(&self) -> (host: String)
        ensures
            host@ == unbracketed(self.hostname@),
    {
        crate::text::strip_brackets(self.hostname.as_str())
    }

    /// The request to send.
    pub fn request_health(&self) -> (request: String)
        ensures
            request@ == request_text(
                self.hostname@,
                self.port,
                self.username@,
                self.password@,
            ),
    {
        let host = format_endpoint(self.hostname.as_str(), self.port);
        let authorization = if self.password.as_str().is_empty() {
            String::new()
        } else {
            let mut credential = self.username.clone();
            credential.push(':');
            let credential = join(credential.as_str(), self.password.as_str());
            let encoded = encode_base64(credential.as_str());
            let line = join("Authorization: Basic ", encoded.as_str());
            join(line.as_str(), "\r\n")
        };
        proof {
            if self.password@.len() == 0 {
                assert(authorization@ =~= authorization_line(self.username@, self.password@));
            }
        }
        let request = join("GET /global/health HTTP/1.1\r\nHost: ", host.as_str());
        let request = join(request.as_str(), "\r\n");
        let request = join(request.as_str(), authorization.as_str());
        join(request.as_str(), "Accept: application/json\r\nConnection: close\r\n\r\n")
    }
}

/// A request without a password carries no credential line: it is the same
/// whatever the user name is.
pub proof fn no_password_means_no_credential(
    hostname: Seq<char>,
    port: u16,
    first: Seq<char>,
    second: Seq<char>,
)
    ensures
        request_text(hostname, port, first, Seq::empty()) == request_text(
            hostname,
            port,
            second,
            Seq::empty(),
        ),
{
}

/// How many of the resolved addresses are tried; none at all is a failure.
pub fn resolve_addresses(resolved: usize) -> (outcome: Result<usize, Failure>)
    ensures
        fault_of(outcome) == (if resolved == 0 {
            Some(failure(FailureKind::AddrNotAvailable, "hostname resolved to no address"@))
        } else {
            None
        }),
        outcome matches Ok(count) ==> count == (if resolved < MAX_ADDRESSES {
            resolved
        } else {
            MAX_ADDRESSES
        }),
{
    if resolved == 0 {
        return Err(
            Failure::new(FailureKind::AddrNotAvailable, "hostname resolved to no address"),
        );
    }
    if resolved < MAX_ADDRESSES {
        Ok(resolved)
    } else {
        Ok(MAX_ADDRESSES)
    }
}

/// The next step of connecting to one of several addresses.
#[derive(Debug, PartialEq, Eq)]
pub enum ConnectStep {
    /// Try the address with this index for at most this long.
    Attempt { index: usize, timeout: u64 },
    Fail(Failure),
}

/// What a failed attempt to connect leads to: the last error, or that there
/// was nothing to try.
pub open spec fn connect_fault(last_error: Option<FailureView>) -> FailureView {
    match last_error {
        Some(error) => error,
        None => failure(FailureKind::AddrNotAvailable, "no address resolved"@),
    }
}

/// Decides the next attempt: the addresses share one total timeout, and none
/// is tried after it.
pub fn connect_addresses_with(
    count: usize,
    index: usize,
    timeout: u64,
    elapsed: u64,
    last_error: Option<Failure>,
) -> (step: ConnectStep)
    ensures
        match step {
            ConnectStep::Attempt { index: next, timeout: limit } => {
                &&& next == index < count
                &&& elapsed < timeout
                &&& limit == timeout - elapsed
            },
            ConnectStep::Fail(error) => {
                &&& index >= count || elapsed >= timeout
                &&& error.deep_view() == connect_fault(last_error.deep_view())
            },
        },
{
    if index < count && elapsed < timeout {
        return ConnectStep::Attempt { index, timeout: timeout - elapsed };
    }
    match last_error {
        Some(error) => ConnectStep::Fail(error),
        None => ConnectStep::Fail(
            Failure::new(FailureKind::AddrNotAvailable, "no address resolved"),
        ),
    }
}

/// The end of the head at or after a position: where its blank line begins.
pub open spec fn boundary_at(bytes: Seq<u8>, at: int) -> bool {
    &&& 0 <= at
    &&& at + 4 <= bytes.len()
    &&& bytes[at] == 13
    &&& bytes[at + 1] == 10
    &&& bytes[at + 2] == 13
    &&& bytes[at + 3] == 10
}

/// Finds the first blank line.
pub fn header_end(bytes: &[u8]) -> (end: Option<usize>)
    ensures
        match end {
            Some(at) => boundary_at(bytes@, at as int) && forall|i: int|
                0 <= i < at ==> !boundary_at(bytes@, i),
            None => forall|i: int| !boundary_at(bytes@, i),
        },
{
    let length: usize = bytes.len();
    if length < 4 {
        return None;
    }
    let mut at: usize = 0;
    while at <= length - 4
        invariant
            at <= length - 3,
            4 <= length == bytes@.len(),
            forall|i: int| 0 <= i < at ==> !boundary_at(bytes@, i),
        decreases length - at,
    {
        if bytes[at] == 13 && bytes[at + 1] == 10 && bytes[at + 2] == 13 && bytes[at + 3] == 10 {
            return Some(at);
        }
        at = at + 1;
    }
    None
}

/// The separators within a line of the head.
pub open spec fn is_ascii_space(c: char) -> bool {
    c == ' ' || c == '\t' || c == '\n' || c == '\r' || c == '\x0c'
}

/// The words of a line.
pub open spec fn words(line: Seq<char>) -> Seq<Seq<char>>
    decreases line.len(),
{
    if line.len() == 0 {
        Seq::empty()
    } else {
        let before = words(line.drop_last());
        if is_ascii_space(line.last()) {
            before
        } else if line.len() >= 2 && !is_ascii_space(line[line.len() - 2]) {
            before.drop_last().push(before.last().push(line.last()))
        } else {
            before.push(seq![line.last()])
        }
    }
}

/// The first line of some text.
pub open spec fn first_line(text: Seq<char>) -> Seq<char>
    decreases text.len(),
{
    if text.len() == 0 || text[0] == '\n' {
        Seq::empty()
    } else {
        seq![text[0]] + first_line(text.drop_first())
    }
}

/// The first line is the part before the first line break.
proof fn first_line_is_a_prefix(text: Seq<char>, at: int)
    requires
        0 <= at <= text.len(),
        forall|i: int| 0 <= i < at ==> text[i] != '\n',
        at == text.len() || text[at] == '\n',
    ensures
        first_line(text) == text.take(at),
    decreases text.len(),
{
    if text.len() == 0 || text[0] == '\n' {
        assert(text.take(at) =~= Seq::<char>::empty());
    } else {
        let rest = text.drop_first();
        first_line_is_a_prefix(rest, at - 1);
        assert(text.take(at) =~= seq![text[0]] + rest.take(at - 1));
    }
}

/// Splits a line into its words. The second one is all that is asked for.
fn second_word(line: &Vec<char>) -> (word: Option<String>)
    ensures
        word.deep_view() == (if words(line@).len() >= 2 {
            Some(words(line@)[1])
        } else {
            None
        }),
{
    let mut found: Vec<(usize, usize)> = Vec::new();
    let mut inside = false;
    let mut index: usize = 0;
    proof {
        assert(line@.take(0) =~= Seq::<char>::empty());
    }
    while index < line.len()
        invariant
            index <= line@.len(),
            inside == (index > 0 && !is_ascii_space(line@[index - 1])),
            inside ==> found@.len() > 0 && found@.last().1 == index,
            words(line@.take(index as int)).len() == found@.len(),
            forall|k: int|
                #![trigger found@[k]]
                0 <= k < found@.len() ==> found@[k].0 <= found@[k].1 <= index && words(
                    line@.take(index as int),
                )[k] == line@.subrange(found@[k].0 as int, found@[k].1 as int),
        decreases line@.len() - index,
    {
        let ghost prefix = line@.take(index as int + 1);
        let ghost before = words(line@.take(index as int));
        let ghost earlier = found@;
        proof {
            assert(prefix.drop_last() =~= line@.take(index as int));
            assert(prefix.last() == line@[index as int]);
        }
        let c = line[index];
        if c == ' ' || c == '\t' || c == '\n' || c == '\r' || c == '\x0c' {
            inside = false;
        } else if inside {
            let last: usize = found.len() - 1;
            let (from, _) = found[last];
            found.set(last, (from, index + 1));
            proof {
                assert(prefix[prefix.len() - 2] == line@[index - 1]);
                assert(before.last() == line@.subrange(from as int, index as int));
                assert(line@.subrange(from as int, index as int + 1) =~= line@.subrange(
                    from as int,
                    index as int,
                ).push(c));
                assert forall|k: int|
                    #![trigger found@[k]]
                    0 <= k < found@.len() implies found@[k].0 <= found@[k].1 <= index + 1
                    && words(prefix)[k] == line@.subrange(found@[k].0 as int, found@[k].1 as int) by {
                    if k < last {
                        assert(found@[k] == earlier[k]);
                    }
                }
            }
        } else {
            found.push((index, index + 1));
            inside = true;
            proof {
                if index > 0 {
                    assert(prefix[prefix.len() - 2] == line@[index - 1]);
                }
                assert(line@.subrange(index as int, index as int + 1) =~= seq![c]);
                assert(words(prefix) == before.push(seq![c]));
                assert forall|k: int|
                    #![trigger found@[k]]
                    0 <= k < found@.len() implies found@[k].0 <= found@[k].1 <= index + 1
                    && words(prefix)[k] == line@.subrange(found@[k].0 as int, found@[k].1 as int) by {
                    if k < earlier.len() {
                        assert(found@[k] == earlier[k]);
                    }
                }
            }
        }
        index = index + 1;
    }
    proof {
        assert(line@.take(index as int) =~= line@);
    }
    if found.len() < 2 {
        return None;
    }
    let (from, to) = found[1];
    assert(found@[1] == (from, to));
    Some(text_of(line, from, to))
}

/// The status code that a word denotes.
pub open spec fn status_code(word: Seq<char>) -> Option<nat> {
    denoted_number(word, u16::MAX as nat)
}

/// What the head of a response amounts to: where the body begins, or why the
/// response is of no use.
pub open spec fn head_of(bytes: Seq<u8>, end: int) -> Result<int, HealthErrorView> {
    let head = bytes.take(end);
    if !vstd::utf8::valid_utf8(head) {
        Err(HealthErrorView::Protocol("health response headers are not UTF-8"@))
    } else if end == 0 {
        Err(HealthErrorView::Protocol("health response is empty"@))
    } else {
        let line = words(first_line(vstd::utf8::decode_utf8(head)));
        let status = if line.len() >= 2 {
            status_code(line[1])
        } else {
            None
        };
        match status {
            None => Err(HealthErrorView::Protocol("health response status is invalid"@)),
            Some(code) => if code == 401 {
                Err(HealthErrorView::Unauthorized)
            } else if code != 200 {
                Err(HealthErrorView::Protocol("health endpoint returned HTTP "@ + decimal_text(code)))
            } else {
                Ok(end + 4)
            },
        }
    }
}

/// Where the first blank line begins.
pub open spec fn first_boundary(bytes: Seq<u8>, at: int) -> bool {
    boundary_at(bytes, at) && forall|i: int| 0 <= i < at ==> !boundary_at(bytes, i)
}

/// What a whole response amounts to.
pub open spec fn response_head(bytes: Seq<u8>) -> Result<int, HealthErrorView> {
    if exists|at: int| first_boundary(bytes, at) {
        head_of(bytes, choose|at: int| first_boundary(bytes, at))
    } else {
        Err(HealthErrorView::Protocol("health response has no header boundary"@))
    }
}

/// The content of a head.
pub open spec fn head_view(outcome: Result<usize, HealthError>) -> Result<int, HealthErrorView> {
    match outcome {
        Ok(at) => Ok(at as int),
        Err(error) => Err(error.deep_view()),
    }
}

/// Reads the head of a response and finds its body.
pub fn parse_head(bytes: &[u8]) -> (outcome: Result<usize, HealthError>)
    ensures
        head_view(outcome) == response_head(bytes@),
        outcome matches Ok(at) ==> at <= bytes@.len(),
{
    let end = match header_end(bytes) {
        Some(end) => end,
        None => {
            return Err(
                HealthError::Protocol("health response has no header boundary".to_owned()),
            );
        },
    };
    proof {
        assert(first_boundary(bytes@, end as int));
        let chosen = choose|at: int| first_boundary(bytes@, at);
        assert(chosen == end);
    }
    let total: usize = bytes.len();
    assert(end + 4 <= total);
    let mut head: Vec<u8> = Vec::new();
    let mut index: usize = 0;
    while index < end
        invariant
            index <= end <= bytes@.len(),
            head@ == bytes@.take(index as int),
        decreases end - index,
    {
        head.push(bytes[index]);
        proof {
            assert(bytes@.take(index as int + 1) =~= bytes@.take(index as int).push(
                bytes@[index as int],
            ));
        }
        index = index + 1;
    }
    let ghost head_bytes = head@;
    let text = match decode_text(head) {
        Some(text) => text,
        None => {
            return Err(HealthError::Protocol("health response headers are not UTF-8".to_owned()));
        },
    };
    if end == 0 {
        return Err(HealthError::Protocol("health response is empty".to_owned()));
    }
    let chars = chars_of(text.as_str());
    let mut length: usize = 0;
    while length < chars.len() && chars[length] != '\n'
        invariant
            length <= chars@.len(),
            forall|i: int| 0 <= i < length ==> chars@[i] != '\n',
        decreases chars@.len() - length,
    {
        length = length + 1;
    }
    let line = chars_of(text_of(&chars, 0, length).as_str());
    proof {
        first_line_is_a_prefix(chars@, length as int);
        assert(line@ =~= chars@.take(length as int));
    }
    let status = match second_word(&line) {
        Some(word) => parse_number(word.as_str(), u16::MAX as u32),
        None => None,
    };
    match status {
        None => Err(HealthError::Protocol("health response status is invalid".to_owned())),
        Some(code) => {
            if code == 401 {
                return Err(HealthError::Unauthorized);
            }
            if code != 200 {
                return Err(
                    HealthError::Protocol(
                        join("health endpoint returned HTTP ", decimal(code as u64).as_str()),
                    ),
                );
            }
            Ok(end + 4)
        },
    }
}

/// What the body of a response says.
pub struct HealthBody {
    pub healthy: bool,
    pub version: String,
}

/// What a parsed body amounts to.
pub open spec fn body_of(parsed: Result<HealthBody, String>) -> Result<
    HealthResultView,
    HealthErrorView,
> {
    match parsed {
        Err(message) => Err(HealthErrorView::Protocol("health JSON is invalid: "@ + message@)),
        Ok(body) => if body.version@.len() == 0 || vstd::utf8::encode_utf8(body.version@).len()
            > MAX_VERSION_BYTES {
            Err(HealthErrorView::Protocol("health response version is missing or too long"@))
        } else {
            Ok(HealthResultView { healthy: body.healthy, version: body.version@ })
        },
    }
}

/// Reads a response. `parsed` is the body as JSON; it counts only where the
/// head is that of a success.
pub fn parse_response(bytes: &[u8], parsed: Result<HealthBody, String>) -> (outcome: Result<
    HealthResult,
    HealthError,
>)
    ensures
        health_view(outcome) == (match response_head(bytes@) {
            Err(error) => Err(error),
            Ok(_) => body_of(parsed),
        }),
{
    match parse_head(bytes) {
        Ok(_) => {},
        Err(error) => return Err(error),
    }
    match parsed {
        Err(message) => Err(
            HealthError::Protocol(join("health JSON is invalid: ", message.as_str())),
        ),
        Ok(body) => {
            if body.version.as_str().is_empty() || byte_len(body.version.as_str())
                > MAX_VERSION_BYTES {
                return Err(
                    HealthError::Protocol(
                        "health response version is missing or too long".to_owned(),
                    ),
                );
            }
            Ok(HealthResult { healthy: body.healthy, version: body.version })
        },
    }
}

/// Refuses a response that is too long. One byte more than is accepted is
/// read so that this can be told.
pub fn check_response_size(length: usize) -> (outcome: Result<(), HealthError>)
    ensures
        match outcome {
            Ok(()) => length <= MAX_RESPONSE_BYTES,
            Err(error) => length > MAX_RESPONSE_BYTES && error.deep_view()
                == HealthErrorView::Protocol("health response exceeds 32 KiB"@),
        },
{
    if length as u64 > MAX_RESPONSE_BYTES {
        return Err(HealthError::Protocol("health response exceeds 32 KiB".to_owned()));
    }
    Ok(())
}

/// A request asks for the health at the endpoint of the server, ends in the
/// empty line that ends every request, and carries the user name and password
/// on a line of their own exactly where there is a password.
pub proof fn requests_carry_endpoint_and_credential(
    hostname: Seq<char>,
    port: u16,
    username: Seq<char>,
    password: Seq<char>,
)
    ensures
        ({
            let start = "GET /global/health HTTP/1.1\r\nHost: "@ + endpoint_text(hostname, port)
                + "\r\n"@;
            let end = "Accept: application/json\r\nConnection: close\r\n\r\n"@;
            let credential = "Authorization: Basic "@ + base64_text(
                vstd::utf8::encode_utf8(username + seq![':'] + password),
            ) + "\r\n"@;
            let request = request_text(hostname, port, username, password);
            &&& password.len() == 0 ==> request == start + end
            &&& password.len() > 0 ==> request == start + credential + end
        }),
{
    let start = "GET /global/health HTTP/1.1\r\nHost: "@ + endpoint_text(hostname, port) + "\r\n"@;
    assert(username.push(':') + password =~= username + seq![':'] + password);
    assert(start + Seq::<char>::empty() =~= start);
}

/// White space ends a word and starts no empty one.
proof fn words_end_at_white_space(line: Seq<char>, word: Seq<char>, space: char)
    requires
        is_ascii_space(space),
        word.len() > 0,
        forall|i: int| 0 <= i < word.len() ==> !is_ascii_space(#[trigger] word[i]),
    ensures
        words(word) == seq![word],
        words(line.push(space)) == words(line),
        words(line.push(space) + word) == words(line).push(word),
    decreases word.len(),
{
    assert(line.push(space).drop_last() =~= line);
    let whole = line.push(space) + word;
    let front = word.drop_last();
    assert(whole.last() == word.last());
    assert(!is_ascii_space(word[word.len() - 1]));
    if word.len() == 1 {
        assert(word =~= seq![word.last()]);
        assert(whole.drop_last() =~= line.push(space));
        assert(whole[whole.len() - 2] == space);
        assert(words(word.drop_last()) == Seq::<Seq<char>>::empty());
        assert(words(line.push(space)) == words(line));
        assert(seq![whole.last()] =~= word);
        assert(words(word) =~= seq![word]);
        assert(words(whole) =~= words(line).push(word));
    } else {
        assert forall|i: int| 0 <= i < front.len() implies !is_ascii_space(#[trigger] front[i]) by {
            assert(word[i] == front[i]);
        }
        words_end_at_white_space(line, front, space);
        assert(whole.drop_last() =~= line.push(space) + front);
        assert(whole[whole.len() - 2] == front.last());
        assert(!is_ascii_space(word[word.len() - 2]));
        assert(front.push(word.last()) =~= word);
        let before = words(line).push(front);
        assert(before.drop_last() =~= words(line));
        assert(seq![front].drop_last() =~= Seq::<Seq<char>>::empty());
        assert(words(whole) =~= words(line).push(word));
        assert(words(word) =~= seq![word]);
    }
}

/// The status of a response is the second word of its first line: 200 leads to
/// the body, which starts right after the empty line, 401 means that the
/// password was rejected, and any other status is an error.
pub proof fn statuses_decide_the_response(
    bytes: Seq<u8>,
    end: int,
    protocol: Seq<char>,
    code: nat,
    reason: Seq<char>,
)
    requires
        first_boundary(bytes, end),
        end > 0,
        vstd::utf8::valid_utf8(bytes.take(end)),
        protocol.len() > 0,
        forall|i: int| 0 <= i < protocol.len() ==> !is_ascii_space(#[trigger] protocol[i]),
        reason.len() > 0,
        forall|i: int| 0 <= i < reason.len() ==> !is_ascii_space(#[trigger] reason[i]),
        first_line(vstd::utf8::decode_utf8(bytes.take(end))) == protocol.push(' ')
            + decimal_text(code) + seq![' '] + reason,
    ensures
        code == 200 ==> response_head(bytes) == Ok::<int, HealthErrorView>(end + 4),
        code == 401 ==> response_head(bytes) == Err::<int, HealthErrorView>(
            HealthErrorView::Unauthorized,
        ),
        code != 200 && code != 401 ==> response_head(bytes) matches Err(
            HealthErrorView::Protocol(_),
        ),
{
    let chosen = choose|at: int| first_boundary(bytes, at);
    assert(first_boundary(bytes, chosen));
    assert(chosen == end) by {
        if chosen < end {
            assert(!boundary_at(bytes, chosen));
        } else if chosen > end {
            assert(!boundary_at(bytes, end));
        }
    }
    let number = decimal_text(code);
    decimals_denote_their_number(code);
    assert forall|i: int| 0 <= i < number.len() implies !is_ascii_space(#[trigger] number[i]) by {
        assert('0' <= number[i] <= '9');
    }
    words_end_at_white_space(protocol, number, ' ');
    words_end_at_white_space(Seq::empty(), protocol, ' ');
    let head = protocol.push(' ') + number;
    words_end_at_white_space(head, reason, ' ');
    let line = first_line(vstd::utf8::decode_utf8(bytes.take(end)));
    assert(line =~= head.push(' ') + reason);
    assert(words(line) =~= seq![protocol, number, reason]);
    written_numbers_are_read_back(code, u16::MAX as nat);
}

/// A response is understood exactly where its body could be read and names a
/// version of at most 128 bytes, and says what the body says.
pub proof fn bodies_are_taken_at_their_word(parsed: Result<HealthBody, String>)
    ensures
        body_of(parsed) is Ok <==> parsed is Ok && 0 < parsed->Ok_0.version@.len()
            && vstd::utf8::encode_utf8(parsed->Ok_0.version@).len() <= 128,
        body_of(parsed) matches Ok(result) ==> result.healthy == parsed->Ok_0.healthy
            && result.version == parsed->Ok_0.version@,
        body_of(parsed) matches Err(error) ==> error is Protocol,
{
}

/// A server is asked where it was told to listen, and with the user name and
/// password that it was given, if it was given any.
pub proof fn servers_are_asked_where_they_listen(config: ValidatedConfigView)
    ensures
        ({
            let target = asked_at(config);
            let plan = planned(config);
            &&& decimal_value(plan.arguments[4]) == target.port
            &&& plan.arguments[2] != "0.0.0.0"@ && plan.arguments[2] != "::"@ && plan.arguments[2]
                != "[::]"@ ==> target.hostname == plan.arguments[2]
            &&& target.password.len() > 0 <==> plan.credentials is Some
            &&& target.password.len() > 0 ==> plan.credentials == Some(
                (target.username, target.password),
            )
        }),
{
    decimals_denote_their_number(config.source.port as nat);
}

} // verus!
