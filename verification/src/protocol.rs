//! The messages exchanged with the agent and the facts a status carries.

#[allow(unused_imports)]
use vstd::prelude::*;
use crate::config::ValidationReport;
use crate::text::{clone_text, same_optional_text, same_text};

verus! {

pub const PROTOCOL_VERSION: u32 = 6;

pub const MAX_MESSAGE_BYTES: u64 = 64 * 1024;

/// A request to the agent.
#[derive(Clone, Copy, Debug, PartialEq, Eq, Structural)]
pub enum Command {
    Status,
    Start,
    Stop,
    ContinueStop,
    ForceStop,
    Restart,
    RefreshFda,
    RefreshCredentials,
    /// The Keychain item was just changed: the password held in memory is no
    /// longer current, and it must not be read again from the background.
    CredentialChanged,
    /// The Keychain item was deleted: its absence is already proven.
    CredentialRemoved,
    ValidateConfig,
    Subscribe,
}

/// A versioned command.
#[derive(Clone, Copy, Debug, PartialEq, Eq, Structural)]
pub struct Request {
    pub version: u32,
    pub command: Command,
}

impl Request {
    /// A request of the current protocol version.
    pub fn new(command: Command) -> (request: Request)
        ensures
            request == (Request { version: PROTOCOL_VERSION, command }),
    {
        Request { version: PROTOCOL_VERSION, command }
    }
}

#[derive(Clone, Copy, Debug, PartialEq, Eq, Structural)]
pub enum DesiredState {
    Running,
    Stopped,
}

#[derive(Clone, Copy, Debug, PartialEq, Eq, Structural)]
pub enum ServerState {
    Stopped,
    Starting,
    Healthy,
    Unhealthy,
    Stopping,
    StopTimedOut,
    WaitingToRestart,
    Failed,
}

#[derive(Clone, Copy, Debug, PartialEq, Eq, Structural)]
pub enum HealthState {
    Unknown,
    Healthy,
    Unhealthy,
}

#[derive(Clone, Copy, Debug, PartialEq, Eq, Structural)]
pub enum FdaState {
    Verified,
    NotVerified,
    UnableToDetermine,
}

/// Whether the OpenCode password in the login keychain is usable by the
/// agent. `AccessPending` never means "not configured".
#[derive(Clone, Copy, Debug, PartialEq, Eq, Structural)]
pub enum PasswordState {
    NotConfigured,
    AccessPending,
    Configured,
}

/// The lifecycle actions that the agent can accept right now.
#[derive(Clone, Copy, Debug, PartialEq, Eq, Structural)]
pub struct ActionCapabilities {
    pub start: bool,
    pub stop: bool,
    pub restart: bool,
    pub continue_stop: bool,
    pub force_stop: bool,
}

#[derive(Clone, Copy, Debug, PartialEq, Eq, Structural)]
pub enum NotificationKind {
    Failure,
    Recovered,
    FinalFailure,
}

/// One event that a person should be told about.
#[derive(Debug, PartialEq, Eq)]
pub struct NotificationEvent {
    pub event_id: String,
    pub kind: NotificationKind,
    pub title: String,
    pub message: String,
}

/// The mathematical content of a [`NotificationEvent`].
pub struct NotificationView {
    pub event_id: Seq<char>,
    pub kind: NotificationKind,
    pub title: Seq<char>,
    pub message: Seq<char>,
}

impl DeepView for NotificationEvent {
    type V = NotificationView;

    open spec fn deep_view(&self) -> NotificationView {
        NotificationView {
            event_id: self.event_id@,
            kind: self.kind,
            title: self.title@,
            message: self.message@,
        }
    }
}

impl Clone for NotificationEvent {
    fn clone(&self) -> (copy: Self)
        ensures
            copy == *self,
    {
        NotificationEvent {
            event_id: self.event_id.clone(),
            kind: self.kind,
            title: self.title.clone(),
            message: self.message.clone(),
        }
    }
}

impl NotificationEvent {
    /// Whether both events have the same content.
    pub fn same_as(&self, other: &NotificationEvent) -> (same: bool)
        ensures
            same == (self.deep_view() == other.deep_view()),
    {
        same_text(self.event_id.as_str(), other.event_id.as_str()) && self.kind == other.kind
            && same_text(self.title.as_str(), other.title.as_str()) && same_text(
            self.message.as_str(),
            other.message.as_str(),
        )
    }
}

/// Copies an optional event.
pub fn clone_notification(event: &Option<NotificationEvent>) -> (copy: Option<NotificationEvent>)
    ensures
        copy == *event,
        copy.deep_view() == event.deep_view(),
{
    match event {
        Some(value) => Some(value.clone()),
        None => None,
    }
}

/// Whether both are absent or have the same content.
pub fn same_notification(
    left: &Option<NotificationEvent>,
    right: &Option<NotificationEvent>,
) -> (same: bool)
    ensures
        same == (left.deep_view() == right.deep_view()),
{
    match (left, right) {
        (None, None) => true,
        (Some(a), Some(b)) => a.same_as(b),
        _ => false,
    }
}

/// A snapshot of everything the agent reports.
#[derive(Debug, PartialEq, Eq)]
pub struct Status {
    pub protocol_version: u32,
    pub agent_version: String,
    pub agent_uptime_seconds: u64,
    pub desired_state: DesiredState,
    pub server_state: ServerState,
    pub health: HealthState,
    pub fda: FdaState,
    pub uptime_seconds: Option<u64>,
    pub endpoint: String,
    pub username: String,
    pub password_state: PasswordState,
    pub authentication_enabled: bool,
    pub action_capabilities: ActionCapabilities,
    pub installed_version: Option<String>,
    pub running_version: Option<String>,
    pub version_pending: bool,
    pub config_pending: bool,
    pub config_error: Option<String>,
    pub last_error: Option<String>,
    pub pid: Option<u32>,
    pub stop_grace_remaining_seconds: Option<u64>,
    pub notification: Option<NotificationEvent>,
    pub process_started_at_unix_seconds: Option<u64>,
    /// The bundle version that this agent was built from.
    pub bundle_version: String,
}

/// The mathematical content of a [`Status`].
pub struct StatusView {
    pub protocol_version: u32,
    pub agent_version: Seq<char>,
    pub agent_uptime_seconds: u64,
    pub desired_state: DesiredState,
    pub server_state: ServerState,
    pub health: HealthState,
    pub fda: FdaState,
    pub uptime_seconds: Option<u64>,
    pub endpoint: Seq<char>,
    pub username: Seq<char>,
    pub password_state: PasswordState,
    pub authentication_enabled: bool,
    pub action_capabilities: ActionCapabilities,
    pub installed_version: Option<Seq<char>>,
    pub running_version: Option<Seq<char>>,
    pub version_pending: bool,
    pub config_pending: bool,
    pub config_error: Option<Seq<char>>,
    pub last_error: Option<Seq<char>>,
    pub pid: Option<u32>,
    pub stop_grace_remaining_seconds: Option<u64>,
    pub notification: Option<NotificationView>,
    pub process_started_at_unix_seconds: Option<u64>,
    pub bundle_version: Seq<char>,
}

impl DeepView for Status {
    type V = StatusView;

    open spec fn deep_view(&self) -> StatusView {
        StatusView {
            protocol_version: self.protocol_version,
            agent_version: self.agent_version@,
            agent_uptime_seconds: self.agent_uptime_seconds,
            desired_state: self.desired_state,
            server_state: self.server_state,
            health: self.health,
            fda: self.fda,
            uptime_seconds: self.uptime_seconds,
            endpoint: self.endpoint@,
            username: self.username@,
            password_state: self.password_state,
            authentication_enabled: self.authentication_enabled,
            action_capabilities: self.action_capabilities,
            installed_version: self.installed_version.deep_view(),
            running_version: self.running_version.deep_view(),
            version_pending: self.version_pending,
            config_pending: self.config_pending,
            config_error: self.config_error.deep_view(),
            last_error: self.last_error.deep_view(),
            pid: self.pid,
            stop_grace_remaining_seconds: self.stop_grace_remaining_seconds,
            notification: self.notification.deep_view(),
            process_started_at_unix_seconds: self.process_started_at_unix_seconds,
            bundle_version: self.bundle_version@,
        }
    }
}

impl Clone for Status {
    fn clone(&self) -> (copy: Self)
        ensures
            copy == *self,
    {
        Status {
            protocol_version: self.protocol_version,
            agent_version: self.agent_version.clone(),
            agent_uptime_seconds: self.agent_uptime_seconds,
            desired_state: self.desired_state,
            server_state: self.server_state,
            health: self.health,
            fda: self.fda,
            uptime_seconds: self.uptime_seconds,
            endpoint: self.endpoint.clone(),
            username: self.username.clone(),
            password_state: self.password_state,
            authentication_enabled: self.authentication_enabled,
            action_capabilities: self.action_capabilities,
            installed_version: clone_text(&self.installed_version),
            running_version: clone_text(&self.running_version),
            version_pending: self.version_pending,
            config_pending: self.config_pending,
            config_error: clone_text(&self.config_error),
            last_error: clone_text(&self.last_error),
            pid: self.pid,
            stop_grace_remaining_seconds: self.stop_grace_remaining_seconds,
            notification: clone_notification(&self.notification),
            process_started_at_unix_seconds: self.process_started_at_unix_seconds,
            bundle_version: self.bundle_version.clone(),
        }
    }
}

/// The status fields that subscribers care about. Volatile counters are
/// left out so that a quiet system does not produce a push every second.
#[derive(Debug, PartialEq, Eq)]
pub struct StatusFingerprint {
    pub desired_state: DesiredState,
    pub server_state: ServerState,
    pub health: HealthState,
    pub fda: FdaState,
    pub endpoint: String,
    pub username: String,
    pub password_state: PasswordState,
    pub action_capabilities: ActionCapabilities,
    pub installed_version: Option<String>,
    pub running_version: Option<String>,
    pub version_pending: bool,
    pub config_pending: bool,
    pub config_error: Option<String>,
    pub last_error: Option<String>,
    pub pid: Option<u32>,
    pub notification: Option<NotificationEvent>,
    pub process_started_at_unix_seconds: Option<u64>,
}

/// The mathematical content of a [`StatusFingerprint`].
pub struct StatusFingerprintView {
    pub desired_state: DesiredState,
    pub server_state: ServerState,
    pub health: HealthState,
    pub fda: FdaState,
    pub endpoint: Seq<char>,
    pub username: Seq<char>,
    pub password_state: PasswordState,
    pub action_capabilities: ActionCapabilities,
    pub installed_version: Option<Seq<char>>,
    pub running_version: Option<Seq<char>>,
    pub version_pending: bool,
    pub config_pending: bool,
    pub config_error: Option<Seq<char>>,
    pub last_error: Option<Seq<char>>,
    pub pid: Option<u32>,
    pub notification: Option<NotificationView>,
    pub process_started_at_unix_seconds: Option<u64>,
}

impl DeepView for StatusFingerprint {
    type V = StatusFingerprintView;

    open spec fn deep_view(&self) -> StatusFingerprintView {
        StatusFingerprintView {
            desired_state: self.desired_state,
            server_state: self.server_state,
            health: self.health,
            fda: self.fda,
            endpoint: self.endpoint@,
            username: self.username@,
            password_state: self.password_state,
            action_capabilities: self.action_capabilities,
            installed_version: self.installed_version.deep_view(),
            running_version: self.running_version.deep_view(),
            version_pending: self.version_pending,
            config_pending: self.config_pending,
            config_error: self.config_error.deep_view(),
            last_error: self.last_error.deep_view(),
            pid: self.pid,
            notification: self.notification.deep_view(),
            process_started_at_unix_seconds: self.process_started_at_unix_seconds,
        }
    }
}

/// What a status reduces to for subscribers.
pub open spec fn fingerprint_of(status: Status) -> StatusFingerprint {
    StatusFingerprint {
        desired_state: status.desired_state,
        server_state: status.server_state,
        health: status.health,
        fda: status.fda,
        endpoint: status.endpoint,
        username: status.username,
        password_state: status.password_state,
        action_capabilities: status.action_capabilities,
        installed_version: status.installed_version,
        running_version: status.running_version,
        version_pending: status.version_pending,
        config_pending: status.config_pending,
        config_error: status.config_error,
        last_error: status.last_error,
        pid: status.pid,
        notification: status.notification,
        process_started_at_unix_seconds: status.process_started_at_unix_seconds,
    }
}

impl vstd::std_specs::convert::FromSpecImpl<&Status> for StatusFingerprint {
    open spec fn obeys_from_spec() -> bool {
        true
    }

    open spec fn from_spec(status: &Status) -> StatusFingerprint {
        fingerprint_of(*status)
    }
}

impl From<&Status> for StatusFingerprint {
    fn from(status: &Status) -> StatusFingerprint {
        StatusFingerprint {
            desired_state: status.desired_state,
            server_state: status.server_state,
            health: status.health,
            fda: status.fda,
            endpoint: status.endpoint.clone(),
            username: status.username.clone(),
            password_state: status.password_state,
            action_capabilities: status.action_capabilities,
            installed_version: clone_text(&status.installed_version),
            running_version: clone_text(&status.running_version),
            version_pending: status.version_pending,
            config_pending: status.config_pending,
            config_error: clone_text(&status.config_error),
            last_error: clone_text(&status.last_error),
            pid: status.pid,
            notification: clone_notification(&status.notification),
            process_started_at_unix_seconds: status.process_started_at_unix_seconds,
        }
    }
}

impl StatusFingerprint {
    /// Whether subscribers would see the same status.
    pub fn same_as(&self, other: &StatusFingerprint) -> (same: bool)
        ensures
            same == (self.deep_view() == other.deep_view()),
    {
        self.desired_state == other.desired_state && self.server_state == other.server_state
            && self.health == other.health && self.fda == other.fda && same_text(
            self.endpoint.as_str(),
            other.endpoint.as_str(),
        ) && same_text(self.username.as_str(), other.username.as_str()) && self.password_state
            == other.password_state && self.action_capabilities == other.action_capabilities
            && same_optional_text(&self.installed_version, &other.installed_version)
            && same_optional_text(&self.running_version, &other.running_version)
            && self.version_pending == other.version_pending && self.config_pending
            == other.config_pending && same_optional_text(&self.config_error, &other.config_error)
            && same_optional_text(&self.last_error, &other.last_error) && self.pid == other.pid
            && same_notification(&self.notification, &other.notification)
            && self.process_started_at_unix_seconds == other.process_started_at_unix_seconds
    }
}

/// Subscribers do not see a status change when only the volatile counters,
/// or the fields fixed for the life of an agent, differ.
pub proof fn fingerprint_ignores_volatile_counters(
    status: Status,
    agent_uptime_seconds: u64,
    uptime_seconds: Option<u64>,
    stop_grace_remaining_seconds: Option<u64>,
    authentication_enabled: bool,
)
    ensures
        fingerprint_of(
            Status {
                agent_uptime_seconds,
                uptime_seconds,
                stop_grace_remaining_seconds,
                authentication_enabled,
                ..status
            },
        ) == fingerprint_of(status),
{
}

/// Subscribers see every change of the lifecycle: two statuses with the same
/// fingerprint agree on state, health, capabilities and the managed process.
pub proof fn fingerprint_reflects_lifecycle(first: Status, second: Status)
    requires
        fingerprint_of(first).deep_view() == fingerprint_of(second).deep_view(),
    ensures
        first.desired_state == second.desired_state,
        first.server_state == second.server_state,
        first.health == second.health,
        first.action_capabilities == second.action_capabilities,
        first.pid == second.pid,
        first.last_error.deep_view() == second.last_error.deep_view(),
{
}

/// The agent's answer to one request.
#[derive(Debug, PartialEq, Eq)]
pub struct Response {
    pub version: u32,
    pub ok: bool,
    pub error: Option<String>,
    pub status: Option<Status>,
    pub validation: Option<ValidationReport>,
}

impl Response {
    /// The request was carried out.
    pub fn success(status: Status) -> (response: Response)
        ensures
            response == (Response {
                version: PROTOCOL_VERSION,
                ok: true,
                error: None,
                status: Some(status),
                validation: None,
            }),
    {
        Response {
            version: PROTOCOL_VERSION,
            ok: true,
            error: None,
            status: Some(status),
            validation: None,
        }
    }

    /// The configuration was examined; the answer is positive exactly when
    /// the report is.
    pub fn validation(report: ValidationReport, status: Status) -> (response: Response)
        ensures
            response == (Response {
                version: PROTOCOL_VERSION,
                ok: report.valid,
                error: None,
                status: Some(status),
                validation: Some(report),
            }),
    {
        Response {
            version: PROTOCOL_VERSION,
            ok: report.valid,
            error: None,
            status: Some(status),
            validation: Some(report),
        }
    }

    /// The request was refused.
    pub fn error(message: String, status: Option<Status>) -> (response: Response)
        ensures
            response == (Response {
                version: PROTOCOL_VERSION,
                ok: false,
                error: Some(message),
                status,
                validation: None,
            }),
    {
        Response {
            version: PROTOCOL_VERSION,
            ok: false,
            error: Some(message),
            status,
            validation: None,
        }
    }
}

/// Subscribers see every change that a person can see: two statuses with the
/// same fingerprint agree on versions, configuration, errors, access and
/// notification too.
pub proof fn fingerprint_reflects_what_is_shown(first: Status, second: Status)
    requires
        fingerprint_of(first).deep_view() == fingerprint_of(second).deep_view(),
    ensures
        first.fda == second.fda,
        first.endpoint@ == second.endpoint@,
        first.username@ == second.username@,
        first.password_state == second.password_state,
        first.installed_version.deep_view() == second.installed_version.deep_view(),
        first.running_version.deep_view() == second.running_version.deep_view(),
        first.version_pending == second.version_pending,
        first.config_pending == second.config_pending,
        first.config_error.deep_view() == second.config_error.deep_view(),
        first.notification.deep_view() == second.notification.deep_view(),
        first.process_started_at_unix_seconds == second.process_started_at_unix_seconds,
{
}

} // verus!
