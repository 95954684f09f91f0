//! The supervisor of one OpenCode process.
//!
//! The supervisor performs no input or output itself. It keeps a stack of
//! [`Task`]s; [`Supervisor::step`] runs the topmost one and says by an
//! [`Effect`] what must be done before the next. Whoever drives it performs
//! the effect and hands back a [`Reply`].

#[allow(unused_imports)]
use vstd::prelude::*;
use crate::config::ValidatedConfig;
#[allow(unused_imports)]
use crate::config::ValidatedConfigView;
use crate::config_fingerprint::{ConfigFingerprint, ConfigFingerprintKey};
#[allow(unused_imports)]
use crate::config_fingerprint::ConfigFingerprintView;
use crate::failure::Failure;
#[allow(unused_imports)]
use crate::failure::{failure, FailureView};
use crate::health::{HealthError, HealthResult};
use crate::keychain::KeychainRead;
use crate::platform::ProcessSnapshot;
use crate::process::{ExitReason, ManagedProcess, RecordIdentity, SpawnError};
#[allow(unused_imports)]
use crate::process::ManagedProcessView;
use crate::process_cleanup::PendingGroupCleanup;
use crate::protocol::{Command, DesiredState, FdaState, HealthState, ServerState};
use crate::runtime_state::{ProcessRecord, RuntimeState, RuntimeStateSaveOutcome};
#[allow(unused_imports)]
use crate::runtime_state::{ProcessRecordView, RuntimeStateView};
use self::credential::{
    CredentialActions, CredentialController, CredentialFacts, WorkerMessage,
};
#[allow(unused_imports)]
use self::credential::CredentialView;
use self::health_worker::{HealthCheckCompletion, HealthCheckCoordinator, HealthCheckKey};
#[allow(unused_imports)]
use self::health_worker::{HealthChecksView, HealthCompletionView, HealthKeyView};
use self::version::{VersionQueryCoordinator, VersionQueryResult};
#[allow(unused_imports)]
use self::version::VersionView;

pub mod behavior;
pub mod configuration;
pub mod convergence;
pub mod credential;
pub mod full_disk_access;
pub mod health;
pub mod health_worker;
pub mod installed_version;
pub mod launch_transaction;
pub mod lifecycle;
pub mod notification;
pub mod observation;
pub mod process_exit;
pub mod reattach;
pub mod reattach_policy;
pub mod runtime_durability;
pub mod single_process;
pub mod status;
pub mod steps;
pub mod version;

verus! {

/// One second, in the nanoseconds that all instants and delays are given in.
pub const SECOND: u64 = 1_000_000_000;

pub const HEALTH_INTERVAL: u64 = 3_000_000_000;

pub const STARTING_HEALTH_INTERVAL: u64 = 1_000_000_000;

pub const CONFIG_RECHECK_INTERVAL: u64 = 60_000_000_000;

/// How long one installed-version query may take.
pub const DEFAULT_VERSION_QUERY_TIMEOUT: u64 = 30_000_000_000;

pub const VERSION_IN_FLIGHT_RECHECK: u64 = 200_000_000;

pub const HEALTH_TIMEOUT: u64 = 2_000_000_000;

pub const HEALTH_IN_FLIGHT_RECHECK: u64 = 200_000_000;

pub const HEALTH_OBSERVATION_BOUND: u64 = 10_000_000_000;

/// A health check that exceeded its bound is polled less often.
pub const HEALTH_OVERDUE_RECHECK: u64 = 5_000_000_000;

pub const GRACEFUL_STOP: u64 = 15_000_000_000;

pub const STARTUP_HEALTH_ALLOWANCE: u64 = 15_000_000_000;

pub const STABLE_RUN_INTERVAL: u64 = 300_000_000_000;

/// How often it is checked whether an unverified process is gone.
pub const UNVERIFIED_CHECK_INTERVAL: u64 = 3_000_000_000;

/// A process that was just stopped can hold its endpoint for a moment.
pub const PORT_RELEASE_RETRY_INTERVAL: u64 = 250_000_000;

pub const PORT_RELEASE_RETRY_BUDGET: u64 = 10_000_000_000;

pub const CREDENTIAL_REFRESH_RECHECK: u64 = 200_000_000;

/// How long a start waits for the configured address to be assigned.
pub const DEFAULT_NETWORK_WAIT_BUDGET: u64 = 60_000_000_000;

/// How soon a failed write of the runtime state is tried again.
pub const RUNTIME_STATE_RETRY_INTERVAL: u64 = 1_000_000_000;

/// The delays before the automatic recovery attempts.
pub const RESTART_BACKOFF: [u64; 5] = [
    1_000_000_000,
    2_000_000_000,
    5_000_000_000,
    15_000_000_000,
    30_000_000_000,
];

/// The instant some time after another, as far as it can be represented.
pub open spec fn later(now: u64, delay: u64) -> u64 {
    if now + delay > u64::MAX {
        u64::MAX
    } else {
        (now + delay) as u64
    }
}

/// The instant `delay` after `now`.
pub fn after(now: u64, delay: u64) -> (at: u64)
    ensures
        at == later(now, delay),
{
    if now > u64::MAX - delay {
        u64::MAX
    } else {
        now + delay
    }
}

/// Why a start is attempted.
#[derive(Clone, Copy, Debug, PartialEq, Eq, Structural)]
pub enum StartTrigger {
    /// A request, or an agent that boots while OpenCode is meant to run.
    Cold,
    /// Automatic recovery after an unexpected exit.
    Recovery,
    /// Our own stop came first, so the endpoint may not be released yet.
    AfterStop,
}

/// A command that waits for its desired state to become durable.
#[derive(Clone, Copy, Debug, PartialEq, Eq, Structural)]
pub enum PendingLifecycleIntent {
    Start,
    Stop,
    Restart,
}

/// What follows once a clear or an unwound launch is durable.
#[derive(Clone, Copy, Debug, PartialEq, Eq, Structural)]
pub enum PendingDurableConvergence {
    Start(StartTrigger),
    Stop,
}

/// Time budgets.
#[derive(Clone, Copy, Debug, PartialEq, Eq, Structural)]
pub struct SupervisorOptions {
    pub network_wait_budget: u64,
    pub version_query_timeout: u64,
}

impl Default for SupervisorOptions {
    fn default() -> (options: Self)
        ensures
            options == (SupervisorOptions {
                network_wait_budget: DEFAULT_NETWORK_WAIT_BUDGET,
                version_query_timeout: DEFAULT_VERSION_QUERY_TIMEOUT,
            }),
    {
        SupervisorOptions {
            network_wait_budget: DEFAULT_NETWORK_WAIT_BUDGET,
            version_query_timeout: DEFAULT_VERSION_QUERY_TIMEOUT,
        }
    }
}

/// How a write of the runtime state ended.
#[derive(Clone, Copy, Debug, PartialEq, Eq, Structural)]
pub enum RuntimePersistence {
    Durable,
    /// Nothing was written: the previous state still stands.
    Failed,
    /// The new state may be visible but is not known to be durable.
    Uncertain,
}

/// What a write of the runtime state was for.
#[derive(Clone, Copy, Debug, PartialEq, Eq, Structural)]
pub enum SaveThen {
    /// A command's desired state; the earlier one comes back on failure.
    DesiredState { intent: PendingLifecycleIntent, previous: DesiredState },
    /// The marker without which nothing is started.
    LaunchMarker(StartTrigger),
    Committed,
    SurvivorCommitted,
    LaunchAborted(StartTrigger),
    IdentityUpgraded,
    RecordCleared { explicit: bool, exit: ExitReason },
    RecordDiscarded { converge: bool },
    HealthVersion,
    Retry,
    RetryUnwound,
    BootCleared,
    /// A failure to make it durable is a failure of the server.
    FailUnlessDurable,
    Nothing,
}

/// What a health observation was for.
#[derive(Clone, Copy, Debug, PartialEq, Eq, Structural)]
pub enum HealthThen {
    Done,
    Poll,
    Dispatch,
}

/// The parts of a tick, in order.
#[derive(Clone, Copy, Debug, PartialEq, Eq, Structural)]
pub enum TickStage {
    Retry,
    Process,
    Unverified,
    StopTimeout,
    Recovery,
    PortRetry,
    Config,
    HealthPoll,
    HealthDispatch,
    Version,
    Credential,
    Stable,
}

/// What a person is notified of.
#[derive(Clone, Copy, Debug, PartialEq, Eq, Structural)]
pub enum Notice {
    UnexpectedStop,
    RecoveryExhausted,
    Recovered,
    HealthRecovered,
    Unhealthy,
    Unauthorized,
}

/// One piece of work. The comments name the reply that a task takes, where it
/// takes one.
#[derive(Clone, Copy, Debug, PartialEq, Eq, Structural)]
pub enum Task {
    BootMerge,
    /// [`Reply::Credential`]
    BootMerged,
    BootReattach,
    BootSettle,
    /// [`Reply::Identity`]
    ReattachInspected,
    /// [`Reply::Group`]
    ReattachGroup,
    /// [`Reply::Health`]
    ReattachHealth,
    /// [`Reply::Identity`]
    ReattachRechecked,
    Command(Command),
    Apply(PendingLifecycleIntent),
    StartApplied,
    StopApplied,
    BeginStop { restarting: bool },
    /// [`Reply::Signaled`]
    Terminated { restarting: bool },
    /// [`Reply::Signaled`]
    Killed,
    /// [`Reply::Fda`]
    FdaProbed,
    /// [`Reply::Team`]
    TeamsCompared,
    StartNow(StartTrigger),
    Launch(StartTrigger),
    /// [`Reply::Spawned`]
    Spawned(StartTrigger),
    RefreshConfig,
    /// [`Reply::Config`]
    ConfigLoaded,
    /// [`Reply::Credential`]
    CredentialProbed,
    /// [`Reply::Started`]
    ReadStarted,
    RecheckStale,
    /// [`Reply::Identity`]
    StaleInspected,
    /// [`Reply::Identity`]
    StaleConfirmed,
    ConfigChecked,
    /// [`Reply::Saved`]
    AwaitSave(SaveThen),
    Persisted { purpose: SaveThen, persistence: RuntimePersistence },
    Notify(Notice),
    /// [`Reply::EventId`]
    NoticeIdentified(Notice),
    PollProcess,
    /// [`Reply::Snapshot`]
    IdentitySeen,
    PollExit,
    /// [`Reply::Exit`]
    ExitPolled { explicit: bool },
    /// [`Reply::Group`]
    LeaderGone { explicit: bool },
    ScheduleRestart,
    /// [`Reply::Identity`]
    UnverifiedInspected,
    /// [`Reply::Group`]
    UnverifiedGroup,
    SyncHealth(HealthThen),
    /// [`Reply::Identity`]
    HealthSynced(HealthThen),
    /// [`Reply::HealthMessage`]
    HealthPolled { identity_holds: bool },
    /// [`Reply::Identity`]
    HealthJudged,
    /// [`Reply::Started`]
    HealthStarted,
    PollVersion,
    /// [`Reply::Started`]
    VersionStarted,
    /// [`Reply::VersionMessage`]
    VersionPolled,
    /// [`Reply::CredentialMessage`]
    CredentialPolled,
    Tick(TickStage),
}

/// Whose record is inspected.
#[derive(Clone, Copy, Debug, PartialEq, Eq, Structural)]
pub enum Subject {
    /// The record in the runtime state.
    Recorded,
    /// The record of the process under supervision.
    Managed,
}

/// How a process is asked to stop.
#[derive(Clone, Copy, Debug, PartialEq, Eq, Structural)]
pub enum StopSignal {
    Terminate,
    Kill,
}

/// What must be done before the next step.
#[derive(Clone, Copy, Debug, PartialEq, Eq, Structural)]
pub enum Effect {
    /// Nothing is left to do.
    Idle,
    /// Nothing: take the next step at once.
    Continue,
    /// Write the runtime state.
    SaveRuntime,
    /// Load and validate the configuration file.
    LoadConfig,
    /// Look for the keychain item of the account in hand, and compare the
    /// marker with this build and its team.
    ProbeCredential,
    /// Compare the team of the marker with that of this build.
    CompareTeams,
    /// Clear or record the marker of the account in hand, or start reading
    /// its password.
    Credentials(CredentialActions),
    InspectIdentity(Subject),
    ObserveGroup(Subject),
    /// Start OpenCode as the launch in hand says.
    Spawn,
    /// Signal the group of the process under supervision.
    Signal(StopSignal),
    /// Take a snapshot of the owned child.
    SnapshotChild,
    /// Poll the process under supervision for its exit.
    PollExit,
    /// Draw a fresh notification identifier.
    NewEventId,
    /// Check the health under the configuration in hand, and wait for it.
    CheckHealth,
    /// Start the health check in hand.
    StartHealthCheck,
    PollHealthCheck,
    /// Start asking the configured executable for its version.
    StartVersionQuery,
    PollVersionQuery,
    PollCredentialRead,
    /// Probe for Full Disk Access.
    ProbeFda,
}

/// The outcome of a health check that was waited for.
#[derive(Debug, PartialEq, Eq)]
pub enum HealthAnswer {
    Healthy(String),
    Unhealthy,
    Failed,
}

/// The mathematical content of a [`HealthAnswer`].
pub enum HealthAnswerView {
    Healthy(Seq<char>),
    Unhealthy,
    Failed,
}

impl DeepView for HealthAnswer {
    type V = HealthAnswerView;

    open spec fn deep_view(&self) -> HealthAnswerView {
        match self {
            HealthAnswer::Healthy(version) => HealthAnswerView::Healthy(version@),
            HealthAnswer::Unhealthy => HealthAnswerView::Unhealthy,
            HealthAnswer::Failed => HealthAnswerView::Failed,
        }
    }
}

/// What an effect gave.
pub enum Reply {
    Nothing,
    Saved(RuntimeStateSaveOutcome),
    Config(Result<ValidatedConfig, String>),
    Credential(CredentialFacts),
    Team(bool),
    Started(bool),
    Identity(Result<RecordIdentity, ()>),
    Group(Result<bool, ()>),
    Spawned(Result<ManagedProcess, SpawnError>),
    Signaled(Result<(), Failure>),
    Snapshot { snapshot: Result<ProcessSnapshot, Failure>, same_executable: bool },
    Exit { cleanup: Option<PendingGroupCleanup>, exit: Result<Option<ExitReason>, Failure> },
    EventId(Option<String>),
    Health(HealthAnswer),
    HealthMessage(WorkerMessage<Result<HealthResult, HealthError>>),
    CredentialMessage(WorkerMessage<KeychainRead>),
    VersionMessage(WorkerMessage<VersionQueryResult>),
    Fda(FdaState),
}

/// A start that was prepared.
pub struct Launch {
    pub config: ValidatedConfig,
    pub fingerprint: ConfigFingerprint,
}

/// The mathematical content of a [`Launch`].
pub struct LaunchView {
    pub config: ValidatedConfigView,
    pub fingerprint: ConfigFingerprintView,
}

impl DeepView for Launch {
    type V = LaunchView;

    open spec fn deep_view(&self) -> LaunchView {
        LaunchView {
            config: self.config.deep_view(),
            fingerprint: self.fingerprint.deep_view(),
        }
    }
}

/// A health check that was prepared.
pub struct HealthTask {
    pub key: HealthCheckKey,
    pub config: ValidatedConfig,
}

/// The mathematical content of a [`HealthTask`].
pub struct HealthTaskView {
    pub key: HealthKeyView,
    pub config: ValidatedConfigView,
}

impl DeepView for HealthTask {
    type V = HealthTaskView;

    open spec fn deep_view(&self) -> HealthTaskView {
        HealthTaskView { key: self.key.deep_view(), config: self.config.deep_view() }
    }
}

/// How far the runtime state in memory matches what was written.
pub struct Durability {
    /// A state file that exists but cannot be read is not a first run: no
    /// process may be started on it.
    pub loaded: bool,
    /// The state in memory is known to match what was written.
    pub reliable: bool,
    pub retry_pending: bool,
    pub retry_at: Option<u64>,
    pub error: Option<String>,
    /// The launch marker must be durably cleared before another launch.
    pub clear_requested: bool,
    /// An exit whose cleared record is not durable yet: whether it followed a
    /// request, and how the process ended.
    pub pending_exit: Option<(bool, ExitReason)>,
    pub pending_intent: Option<PendingLifecycleIntent>,
    pub pending_convergence: Option<PendingDurableConvergence>,
}

/// The mathematical content of a [`Durability`].
pub struct DurabilityView {
    pub loaded: bool,
    pub reliable: bool,
    pub retry_pending: bool,
    pub retry_at: Option<u64>,
    pub error: Option<Seq<char>>,
    pub clear_requested: bool,
    pub pending_exit: Option<(bool, ExitReason)>,
    pub pending_intent: Option<PendingLifecycleIntent>,
    pub pending_convergence: Option<PendingDurableConvergence>,
}

impl Durability {
    pub open spec fn model(self) -> DurabilityView {
        DurabilityView {
            loaded: self.loaded,
            reliable: self.reliable,
            retry_pending: self.retry_pending,
            retry_at: self.retry_at,
            error: self.error.deep_view(),
            clear_requested: self.clear_requested,
            pending_exit: self.pending_exit,
            pending_intent: self.pending_intent,
            pending_convergence: self.pending_convergence,
        }
    }
}

/// The instants that matter, in nanoseconds.
#[derive(Clone, Copy, Debug, PartialEq, Eq, Structural)]
pub struct Timers {
    pub agent_started: u64,
    pub last_config_check: u64,
    /// When the running tick began.
    pub tick_at: u64,
    pub last_health_check: Option<u64>,
    pub process_started: Option<u64>,
    pub stop_deadline: Option<u64>,
    pub next_restart: Option<u64>,
    pub next_port_retry: Option<u64>,
    pub port_release_deadline: Option<u64>,
    pub network_wait_deadline: Option<u64>,
    pub unverified_check_at: Option<u64>,
}

/// What is known of the server.
#[derive(Clone, Copy, Debug, PartialEq, Eq, Structural)]
pub struct Server {
    pub state: ServerState,
    pub health: HealthState,
    pub fda: FdaState,
    pub restart_after_stop: bool,
    /// The leader exited on its own while members of its group remain.
    pub group_cleanup_recovery: bool,
    pub pending_start_trigger: Option<StartTrigger>,
    pub restart_attempt_index: usize,
    pub recovery_incident_active: bool,
    pub health_incident_active: bool,
    pub health_failures: u32,
    /// Moves on whenever the process or configuration under check changes.
    pub health_generation: u64,
    /// The record may describe a live process that could not be verified.
    pub unverified_process_record: bool,
    /// A verified process runs under an outdated configuration.
    pub stale_config_process: bool,
}

/// The texts that a status shows.
pub struct Texts {
    pub installed_version: Option<String>,
    pub running_version: Option<String>,
    pub config_error: Option<String>,
    pub last_error: Option<String>,
}

/// The mathematical content of [`Texts`].
pub struct TextsView {
    pub installed_version: Option<Seq<char>>,
    pub running_version: Option<Seq<char>>,
    pub config_error: Option<Seq<char>>,
    pub last_error: Option<Seq<char>>,
}

impl Texts {
    pub open spec fn model(self) -> TextsView {
        TextsView {
            installed_version: self.installed_version.deep_view(),
            running_version: self.running_version.deep_view(),
            config_error: self.config_error.deep_view(),
            last_error: self.last_error.deep_view(),
        }
    }
}

/// What the task at hand works on.
pub struct Hand {
    /// The account that an effect is about.
    pub account: String,
    /// The configuration that an effect is about.
    pub draft: Option<ValidatedConfig>,
    pub launch: Option<Launch>,
    pub spawn_error: Option<Failure>,
    /// The record that comes back if its clear fails.
    pub evidence: Option<ProcessRecord>,
    pub answer: Option<HealthAnswer>,
    pub completion: Option<HealthCheckCompletion>,
    pub health_task: Option<HealthTask>,
    /// Why the last command failed.
    pub failure: Option<Failure>,
}

/// The mathematical content of a [`Hand`].
pub struct HandView {
    pub account: Seq<char>,
    pub draft: Option<ValidatedConfigView>,
    pub launch: Option<LaunchView>,
    pub spawn_error: Option<FailureView>,
    pub evidence: Option<ProcessRecordView>,
    pub answer: Option<HealthAnswerView>,
    pub completion: Option<HealthCompletionView>,
    pub health_task: Option<HealthTaskView>,
    pub failure: Option<FailureView>,
}

impl Hand {
    pub open spec fn model(self) -> HandView {
        HandView {
            account: self.account@,
            draft: self.draft.deep_view(),
            launch: self.launch.deep_view(),
            spawn_error: self.spawn_error.deep_view(),
            evidence: self.evidence.deep_view(),
            answer: self.answer.deep_view(),
            completion: self.completion.deep_view(),
            health_task: self.health_task.deep_view(),
            failure: self.failure.deep_view(),
        }
    }
}

/// The state of the supervisor.
pub struct Supervisor {
    pub config_fingerprint_key: ConfigFingerprintKey,
    pub options: SupervisorOptions,
    pub durable: Durability,
    pub timers: Timers,
    pub server: Server,
    pub texts: Texts,
    pub hand: Hand,
    pub runtime: RuntimeState,
    pub process: Option<ManagedProcess>,
    pub latest_config: Option<ValidatedConfig>,
    pub active_config: Option<ValidatedConfig>,
    pub credentials: CredentialController,
    pub version_queries: VersionQueryCoordinator,
    pub health_checks: HealthCheckCoordinator,
    pub health_generation_basis: Option<HealthCheckKey>,
    pub tasks: Vec<Task>,
}

/// The mathematical content of a [`Supervisor`].
pub struct SupervisorView {
    pub key: Seq<u8>,
    pub options: SupervisorOptions,
    pub durable: DurabilityView,
    pub timers: Timers,
    pub server: Server,
    pub texts: TextsView,
    pub hand: HandView,
    pub runtime: RuntimeStateView,
    pub process: Option<ManagedProcessView>,
    pub latest_config: Option<ValidatedConfigView>,
    pub active_config: Option<ValidatedConfigView>,
    pub credentials: CredentialView,
    pub version_queries: VersionView,
    pub health_checks: HealthChecksView,
    pub health_generation_basis: Option<HealthKeyView>,
    pub tasks: Seq<Task>,
}

impl Supervisor {
    /// The mathematical content of the state.
    pub open spec fn model(self) -> SupervisorView {
        SupervisorView {
            key: self.config_fingerprint_key.secret(),
            options: self.options,
            durable: self.durable.model(),
            timers: self.timers,
            server: self.server,
            texts: self.texts.model(),
            hand: self.hand.model(),
            runtime: self.runtime.deep_view(),
            process: self.process.deep_view(),
            latest_config: self.latest_config.deep_view(),
            active_config: self.active_config.deep_view(),
            credentials: self.credentials.deep_view(),
            version_queries: self.version_queries.deep_view(),
            health_checks: self.health_checks.deep_view(),
            health_generation_basis: self.health_generation_basis.deep_view(),
            tasks: self.tasks@,
        }
    }
}

/// A state and what must be done next.
pub struct Next {
    pub state: SupervisorView,
    pub effect: Effect,
}

/// A state that needs nothing before the next step.
pub open spec fn go_on(state: SupervisorView) -> Next {
    Next { state, effect: Effect::Continue }
}

impl Server {
    /// The server failed and nothing is known of its health.
    pub open spec fn failing(self) -> Server {
        Server { state: ServerState::Failed, health: HealthState::Unknown, ..self }
    }
}

impl SupervisorView {
    /// The same state with one more task on top.
    pub open spec fn with_task(self, task: Task) -> SupervisorView {
        SupervisorView { tasks: self.tasks.push(task), ..self }
    }

    /// The server failed and nothing is known of its health.
    pub open spec fn failing(self) -> SupervisorView {
        SupervisorView { server: self.server.failing(), ..self }
    }

    /// The same state with an error to show.
    pub open spec fn saying(self, text: Seq<char>) -> SupervisorView {
        SupervisorView { texts: TextsView { last_error: Some(text), ..self.texts }, ..self }
    }

    /// The same state without an error to show.
    pub open spec fn silent(self) -> SupervisorView {
        SupervisorView { texts: TextsView { last_error: None, ..self.texts }, ..self }
    }

    /// The same state with a failed command.
    pub open spec fn refusing(self, fault: FailureView) -> SupervisorView {
        SupervisorView { hand: HandView { failure: Some(fault), ..self.hand }, ..self }
    }

    /// The same state without retries of a start.
    pub open spec fn without_retries(self) -> SupervisorView {
        SupervisorView {
            timers: Timers {
                next_port_retry: None,
                port_release_deadline: None,
                network_wait_deadline: None,
                ..self.timers
            },
            server: Server { pending_start_trigger: None, ..self.server },
            ..self
        }
    }

    /// The process is being stopped, or took too long to stop.
    pub open spec fn stopping(self) -> bool {
        self.server.state is Stopping || self.server.state is StopTimedOut
    }

    /// The same state with another record.
    pub open spec fn recording(self, record: Option<ProcessRecordView>) -> SupervisorView {
        SupervisorView { runtime: RuntimeStateView { process: record, ..self.runtime }, ..self }
    }
}

impl Supervisor {
    fn push(&mut self, task: Task)
        ensures
            final(self).model() == old(self).model().with_task(task),
    {
        self.tasks.push(task);
    }

    fn fail(&mut self)
        ensures
            final(self).model() == old(self).model().failing(),
    {
        self.server.state = ServerState::Failed;
        self.server.health = HealthState::Unknown;
    }

    fn say(&mut self, text: &str)
        ensures
            final(self).model() == old(self).model().saying(text@),
    {
        self.texts.last_error = Some(text.to_owned());
    }

    fn drop_retries(&mut self)
        ensures
            final(self).model() == old(self).model().without_retries(),
    {
        self.timers.next_port_retry = None;
        self.timers.port_release_deadline = None;
        self.timers.network_wait_deadline = None;
        self.server.pending_start_trigger = None;
    }

    fn is_stopping(&self) -> (stopping: bool)
        ensures
            stopping == self.model().stopping(),
    {
        match self.server.state {
            ServerState::Stopping | ServerState::StopTimedOut => true,
            _ => false,
        }
    }
}

} // verus!
