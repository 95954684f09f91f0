//! The stand-in for OpenCode that the supervision tests run: how it behaves
//! is chosen by marker files beside its executable.

#[allow(unused_imports)]
use vstd::prelude::*;
use vstd::string::StringExecFns;
#[allow(unused_imports)]
use crate::health::base64_text;
use crate::health::encode_base64;
use crate::platform::ProcessSnapshot;
#[allow(unused_imports)]
use crate::process::spawn_arguments;
#[allow(unused_imports)]
use crate::text::{
    decimal_text, denoted_number, pieces_view, split, trimmed, written_numbers_are_read_back,
};
use crate::text::{
    byte_len, chars_of, decimal, join, parse_number, same_text, split_text, text_of, trim_text,
};

verus! {

pub const HOLD_ENDPOINT_MARKER: &'static str = "hold-endpoint";

pub const HANG_ON_VERSION_MARKER: &'static str = "hang-on-version";

pub const HANG_PID_LOG: &'static str = "hang-on-version.pids";

pub const JOIN_PARENT_GROUP_MARKER: &'static str = "join-parent-process-group";

/// Holds the group that `serve` joins.
pub const JOIN_GROUP_OF_MARKER: &'static str = "join-group-of.pgid";

/// Written once a group was joined.
pub const JOINED_GROUP_READY_MARKER: &'static str = "joined-group.ready";

pub const GROUP_ESCAPE_HOLD_MARKER: &'static str = "group-escape.hold";

pub const GROUP_ESCAPE_RELEASE_MARKER: &'static str = "group-escape.release";

/// Every health request is answered as unhealthy.
pub const UNHEALTHY_HEALTH_MARKER: &'static str = "unhealthy-health";

/// Holds the group that `serve` joins when it is first connected to.
pub const ESCAPE_ON_ACCEPT_PGID_MARKER: &'static str = "escape-on-accept.pgid";

pub const IGNORE_SIGTERM_MARKER: &'static str = "ignore-sigterm";

/// Written once the termination signal is ignored.
pub const IGNORE_SIGTERM_READY_MARKER: &'static str = "ignore-sigterm.ready";

pub const HOLD_VERSION_STDOUT_MARKER: &'static str = "hold-version-stdout";

pub const SILENT_VERSION_DESCENDANT_MARKER: &'static str = "silent-version-descendant";

pub const VERSION_OUTPUT_DESCENDANT_MARKER: &'static str = "version-output-descendant";

pub const FAST_EXIT_VERSION_DESCENDANT_MARKER: &'static str = "fast-exit-version-descendant";

/// The leader stays while this exists, its descendant alive beside it.
pub const LEADER_EXIT_DESCENDANT_MARKER: &'static str = "leader-exit-descendant";

pub const LEADER_EXIT_DESCENDANT_PID_LOG: &'static str = "leader-exit-descendant.pids";

pub const LEADER_EXIT_DESCENDANT_READY: &'static str = "leader-exit-descendant.ready";

pub const CLOSE_VERSION_STDOUT_MARKER: &'static str = "close-version-stdout-then-live";

pub const FLOOD_VERSION_STDOUT_MARKER: &'static str = "flood-version-stdout";

pub const INVALID_VERSION_OUTPUT_MARKER: &'static str = "invalid-version-output";

pub const PRE_EXEC_GATE_MARKER: &'static str = "pre-exec-gate";

pub const PRE_EXEC_RELEASE_MARKER: &'static str = "pre-exec.release";

pub const PORT_RESERVATION_HELD_MARKER: &'static str = "port-reservation-held";

pub const PORT_RESERVATION_RELEASE_MARKER: &'static str = "port-reservation.release";

pub const PORT_BIND_READY_MARKER: &'static str = "port-bind.ready";

/// What the stand-in is run as.
#[derive(Clone, Copy, Debug, PartialEq, Eq, Structural)]
pub enum FixtureMode {
    Version,
    Serve,
    Wait,
    Ignore,
    Tree,
    Hold,
    Unknown,
}

/// The mode that the first argument names; without one the stand-in waits.
pub open spec fn mode_named(argument: Option<Seq<char>>) -> FixtureMode {
    match argument {
        None => FixtureMode::Wait,
        Some(name) => if name == "--version"@ {
            FixtureMode::Version
        } else if name == "serve"@ {
            FixtureMode::Serve
        } else if name == "wait"@ {
            FixtureMode::Wait
        } else if name == "ignore"@ {
            FixtureMode::Ignore
        } else if name == "tree"@ {
            FixtureMode::Tree
        } else if name == "hold"@ {
            FixtureMode::Hold
        } else {
            FixtureMode::Unknown
        },
    }
}

/// Reads the mode from the first argument.
pub fn fixture_mode(argument: Option<&str>) -> (mode: FixtureMode)
    ensures
        mode == mode_named(
            match argument {
                Some(name) => Some(name@),
                None => None,
            },
        ),
{
    let name = match argument {
        Some(name) => name,
        None => return FixtureMode::Wait,
    };
    if same_text(name, "--version") {
        FixtureMode::Version
    } else if same_text(name, "serve") {
        FixtureMode::Serve
    } else if same_text(name, "wait") {
        FixtureMode::Wait
    } else if same_text(name, "ignore") {
        FixtureMode::Ignore
    } else if same_text(name, "tree") {
        FixtureMode::Tree
    } else if same_text(name, "hold") {
        FixtureMode::Hold
    } else {
        FixtureMode::Unknown
    }
}

/// Reads the process group that a marker file holds.
pub fn marker_pgid(content: &str) -> (group: Option<u32>)
    ensures
        match group {
            Some(pgid) => denoted_number(trimmed(content@), u32::MAX as nat) == Some(pgid as nat),
            None => denoted_number(trimmed(content@), u32::MAX as nat) is None,
        },
{
    let kept = trim_text(content);
    parse_number(kept.as_str(), u32::MAX)
}

/// The parts of `--version`, in order. The markers are looked at anew for
/// each of them.
#[derive(Clone, Copy, Debug, PartialEq, Eq, Structural)]
pub enum VersionPhase {
    Enter,
    /// Leave the group, and stay away for as long as it is asked for.
    Escape,
    Answer,
}

impl VersionPhase {
    /// The part after this one, if any.
    pub fn following(self) -> (next: Option<VersionPhase>)
        ensures
            next == (match self {
                VersionPhase::Enter => Some(VersionPhase::Escape),
                VersionPhase::Escape => Some(VersionPhase::Answer),
                VersionPhase::Answer => None,
            }),
    {
        match self {
            VersionPhase::Enter => Some(VersionPhase::Escape),
            VersionPhase::Escape => Some(VersionPhase::Answer),
            VersionPhase::Answer => None,
        }
    }
}

/// The markers that shape an answer to `--version`.
#[derive(Clone, Copy, Debug, PartialEq, Eq, Structural)]
pub struct VersionMarkers {
    pub pre_exec_gate: bool,
    pub escape_hold: bool,
    pub escape_group: Option<u32>,
    pub silent_descendant: bool,
    pub output_descendant: bool,
    pub fast_exit_descendant: bool,
    pub hold_stdout: bool,
    pub hang: bool,
    pub close_stdout: bool,
    pub flood_stdout: bool,
    pub invalid_output: bool,
}

/// One thing that `--version` does.
#[derive(Clone, Copy, Debug, PartialEq, Eq, Structural)]
pub enum VersionAction {
    /// Wait to be let in.
    AwaitRelease,
    NoteReady,
    /// Leave the identity of this process where it can be found.
    PublishPid,
    /// Join another group, and say so.
    EscapeToGroup(u32),
    /// Wait until the hold is lifted or released.
    AwaitEscapeRelease,
    /// Start a waiting descendant; it keeps standard output open where
    /// `inherits_stdout` holds.
    SpawnWaiter { inherits_stdout: bool },
    /// Record the leader and its descendant.
    LogBoth,
    /// Record the leader alone.
    LogLeader,
    NoteDescendant,
    NoteInheritedStdout,
    WriteVersion,
    /// Write a version that ends in a control character.
    WriteInvalidVersion,
    /// Write far more than any version is long.
    Flood,
    CloseStdout,
    NoteClosed { explicitly: bool },
    SleepForever,
}

/// What `--version` does before it answers.
pub open spec fn entry_script(markers: VersionMarkers) -> Seq<VersionAction> {
    (if markers.pre_exec_gate {
        seq![VersionAction::AwaitRelease]
    } else {
        Seq::empty()
    }) + seq![VersionAction::NoteReady, VersionAction::PublishPid]
}

/// How `--version` leaves its group, where it is told to.
pub open spec fn escape_script(markers: VersionMarkers) -> Seq<VersionAction> {
    if markers.escape_hold && markers.escape_group is Some {
        seq![
            VersionAction::EscapeToGroup(markers.escape_group->0),
            VersionAction::AwaitEscapeRelease,
        ]
    } else {
        Seq::empty()
    }
}

/// What a part of `--version` consists of.
pub open spec fn version_script(phase: VersionPhase, markers: VersionMarkers) -> Seq<VersionAction> {
    match phase {
        VersionPhase::Enter => entry_script(markers),
        VersionPhase::Escape => escape_script(markers),
        VersionPhase::Answer => answer_script(markers),
    }
}

/// How `--version` answers: the first marker that is present decides.
pub open spec fn answer_script(markers: VersionMarkers) -> Seq<VersionAction> {
    if markers.silent_descendant {
        seq![
            VersionAction::SpawnWaiter { inherits_stdout: false },
            VersionAction::LogBoth,
            VersionAction::NoteDescendant,
            VersionAction::NoteClosed { explicitly: false },
        ]
    } else if markers.output_descendant {
        seq![
            VersionAction::WriteVersion,
            VersionAction::SpawnWaiter { inherits_stdout: false },
            VersionAction::LogBoth,
            VersionAction::NoteDescendant,
            VersionAction::NoteClosed { explicitly: false },
        ]
    } else if markers.fast_exit_descendant {
        seq![
            VersionAction::SpawnWaiter { inherits_stdout: false },
            VersionAction::LogBoth,
            VersionAction::NoteDescendant,
        ]
    } else if markers.hold_stdout {
        seq![
            VersionAction::SpawnWaiter { inherits_stdout: true },
            VersionAction::LogBoth,
            VersionAction::NoteDescendant,
            VersionAction::NoteInheritedStdout,
        ]
    } else if markers.hang {
        seq![VersionAction::LogLeader, VersionAction::SleepForever]
    } else if markers.close_stdout {
        seq![
            VersionAction::LogLeader,
            VersionAction::WriteVersion,
            VersionAction::CloseStdout,
            VersionAction::NoteClosed { explicitly: true },
            VersionAction::SleepForever,
        ]
    } else if markers.flood_stdout {
        seq![VersionAction::LogLeader, VersionAction::Flood, VersionAction::SleepForever]
    } else if markers.invalid_output {
        seq![
            VersionAction::WriteInvalidVersion,
            VersionAction::NoteClosed { explicitly: false },
        ]
    } else {
        seq![VersionAction::WriteVersion, VersionAction::NoteClosed { explicitly: false }]
    }
}

/// Lists what a part of `--version` consists of.
pub fn version(phase: VersionPhase, markers: VersionMarkers) -> (script: Vec<VersionAction>)
    ensures
        script@ == version_script(phase, markers),
{
    match phase {
        VersionPhase::Enter => {
            let mut script: Vec<VersionAction> = Vec::new();
            if markers.pre_exec_gate {
                script.push(VersionAction::AwaitRelease);
            }
            script.push(VersionAction::NoteReady);
            script.push(VersionAction::PublishPid);
            assert(script@ =~= entry_script(markers));
            script
        },
        VersionPhase::Escape => {
            let mut script: Vec<VersionAction> = Vec::new();
            if markers.escape_hold {
                if let Some(group) = markers.escape_group {
                    script.push(VersionAction::EscapeToGroup(group));
                    script.push(VersionAction::AwaitEscapeRelease);
                }
            }
            assert(script@ =~= escape_script(markers));
            script
        },
        VersionPhase::Answer => answer(markers),
    }
}

/// Lists how `--version` answers.
fn answer(markers: VersionMarkers) -> (script: Vec<VersionAction>)
    ensures
        script@ == answer_script(markers),
{
    let mut script: Vec<VersionAction> = Vec::new();
    let descends = markers.silent_descendant || markers.output_descendant
        || markers.fast_exit_descendant || markers.hold_stdout;
    if descends {
        let writes = !markers.silent_descendant && markers.output_descendant;
        let inherits_stdout = !markers.silent_descendant && !markers.output_descendant
            && !markers.fast_exit_descendant;
        if writes {
            script.push(VersionAction::WriteVersion);
        }
        script.push(VersionAction::SpawnWaiter { inherits_stdout });
        script.push(VersionAction::LogBoth);
        script.push(VersionAction::NoteDescendant);
        if inherits_stdout {
            script.push(VersionAction::NoteInheritedStdout);
        } else if markers.silent_descendant || markers.output_descendant {
            script.push(VersionAction::NoteClosed { explicitly: false });
        }
    } else if markers.hang || markers.close_stdout || markers.flood_stdout {
        script.push(VersionAction::LogLeader);
        if !markers.hang {
            if markers.close_stdout {
                script.push(VersionAction::WriteVersion);
                script.push(VersionAction::CloseStdout);
                script.push(VersionAction::NoteClosed { explicitly: true });
            } else {
                script.push(VersionAction::Flood);
            }
        }
        script.push(VersionAction::SleepForever);
    } else {
        if markers.invalid_output {
            script.push(VersionAction::WriteInvalidVersion);
        } else {
            script.push(VersionAction::WriteVersion);
        }
        script.push(VersionAction::NoteClosed { explicitly: false });
    }
    assert(script@ =~= answer_script(markers));
    script
}

/// What the trace says of an action: the event and its detail.
pub open spec fn traced(action: VersionAction, waiter: u32) -> Option<(Seq<char>, Seq<char>)> {
    match action {
        VersionAction::AwaitRelease => Some(("pre-exec-entered"@, "waiting-for-release"@)),
        VersionAction::NoteReady => Some(("exec-ready"@, "version"@)),
        VersionAction::EscapeToGroup(group) => Some(
            ("group-escape"@, "pgid="@ + decimal_text(group as nat)),
        ),
        VersionAction::NoteDescendant => Some(
            ("descendant-spawned"@, "pid="@ + decimal_text(waiter as nat)),
        ),
        VersionAction::NoteInheritedStdout => Some(
            ("stdout-inherited"@, "pid="@ + decimal_text(waiter as nat)),
        ),
        VersionAction::NoteClosed { explicitly } => Some(
            (
                "stdout-close"@,
                if explicitly {
                    "explicit"@
                } else {
                    "leader-return"@
                },
            ),
        ),
        _ => None,
    }
}

/// Words what the trace says of an action.
pub fn version_event(action: VersionAction, waiter: u32) -> (event: Option<
    (&'static str, String),
>)
    ensures
        match (event, traced(action, waiter)) {
            (Some((name, detail)), Some((traced_name, traced_detail))) => name@ == traced_name
                && detail@ == traced_detail,
            (None, None) => true,
            _ => false,
        },
{
    match action {
        VersionAction::AwaitRelease => Some(
            ("pre-exec-entered", "waiting-for-release".to_owned()),
        ),
        VersionAction::NoteReady => Some(("exec-ready", "version".to_owned())),
        VersionAction::EscapeToGroup(group) => Some(
            ("group-escape", join("pgid=", decimal(group as u64).as_str())),
        ),
        VersionAction::NoteDescendant => Some(
            ("descendant-spawned", join("pid=", decimal(waiter as u64).as_str())),
        ),
        VersionAction::NoteInheritedStdout => Some(
            ("stdout-inherited", join("pid=", decimal(waiter as u64).as_str())),
        ),
        VersionAction::NoteClosed { explicitly } => Some(
            (
                "stdout-close",
                if explicitly {
                    "explicit".to_owned()
                } else {
                    "leader-return".to_owned()
                },
            ),
        ),
        _ => None,
    }
}

/// How the identity of the answering process is published.
pub open spec fn published(pid: u32, snapshot: Option<ProcessSnapshot>) -> Seq<char> {
    let named = "pid="@ + decimal_text(pid as nat);
    match snapshot {
        Some(seen) => named + ";pgid="@ + decimal_text(seen.process_group_id as nat) + ";start="@
            + decimal_text(seen.start_seconds as nat) + "."@ + decimal_text(
            seen.start_microseconds as nat,
        ),
        None => named,
    }
}

/// Words the identity of the answering process.
pub fn publish_version_pid(pid: u32, snapshot: &Option<ProcessSnapshot>) -> (detail: String)
    ensures
        detail@ == published(pid, *snapshot),
{
    let mut detail = join("pid=", decimal(pid as u64).as_str());
    if let Some(seen) = snapshot {
        detail.append(";pgid=");
        detail.append(decimal(seen.process_group_id as u64).as_str());
        detail.append(";start=");
        detail.append(decimal(seen.start_seconds).as_str());
        detail.append(".");
        detail.append(decimal(seen.start_microseconds).as_str());
    }
    detail
}

/// Where `serve` listens.
#[derive(Debug, PartialEq, Eq)]
pub struct ServeOptions {
    pub hostname: String,
    pub port: u16,
}

/// The options as far as the arguments from `from` on were read; nothing
/// where an argument is not understood.
pub open spec fn options_from(
    arguments: Seq<Seq<char>>,
    from: int,
    hostname: Option<Seq<char>>,
    port: Option<nat>,
) -> Option<(Option<Seq<char>>, Option<nat>)>
    decreases arguments.len() + 1 - from,
{
    if from < 0 || from >= arguments.len() {
        Some((hostname, port))
    } else if arguments[from] == "--hostname"@ {
        options_from(
            arguments,
            from + 2,
            if from + 1 < arguments.len() {
                Some(arguments[from + 1])
            } else {
                None
            },
            port,
        )
    } else if arguments[from] == "--port"@ {
        options_from(
            arguments,
            from + 2,
            hostname,
            if from + 1 < arguments.len() {
                denoted_number(arguments[from + 1], u16::MAX as nat)
            } else {
                None
            },
        )
    } else if arguments[from] == "--mdns"@ {
        options_from(arguments, from + 1, hostname, port)
    } else {
        None
    }
}

/// Reads the arguments of `serve`. Without a host it is the loopback address,
/// and without a port any free one.
pub fn serve_options(arguments: &Vec<String>) -> (options: Option<ServeOptions>)
    ensures
        match options_from(pieces_view(arguments@), 0, None, None) {
            Some((hostname, port)) => options matches Some(read) && read.hostname@ == (
            match hostname {
                Some(host) => host,
                None => "127.0.0.1"@,
            }) && read.port == (match port {
                Some(number) => number,
                None => 0,
            }),
            None => options is None,
        },
{
    let ghost views = pieces_view(arguments@);
    let mut hostname: Option<String> = None;
    let mut port: Option<u32> = None;
    let mut index: usize = 0;
    let ghost mut host_view: Option<Seq<char>> = None;
    let ghost mut port_view: Option<nat> = None;
    while index < arguments.len()
        invariant
            views == pieces_view(arguments@),
            host_view == hostname.deep_view(),
            port_view == (match port {
                Some(number) => Some(number as nat),
                None => None,
            }),
            port matches Some(number) ==> number <= u16::MAX,
            options_from(views, 0, None, None) == options_from(
                views,
                index as int,
                host_view,
                port_view,
            ),
        decreases arguments@.len() - index,
    {
        let argument = arguments[index].as_str();
        let total: usize = arguments.len();
        assert(views[index as int] == argument@);
        if same_text(argument, "--hostname") {
            if total - index > 1 {
                hostname = Some(arguments[index + 1].clone());
                assert(views[index as int + 1] == arguments@[index as int + 1]@);
                index = index + 2;
            } else {
                hostname = None;
                assert(options_from(views, index as int + 2, None, port_view) == options_from(
                    views,
                    total as int,
                    None,
                    port_view,
                ));
                index = total;
            }
        } else if same_text(argument, "--port") {
            if total - index > 1 {
                port = parse_number(arguments[index + 1].as_str(), u16::MAX as u32);
                assert(views[index as int + 1] == arguments@[index as int + 1]@);
                index = index + 2;
            } else {
                port = None;
                assert(options_from(views, index as int + 2, host_view, None) == options_from(
                    views,
                    total as int,
                    host_view,
                    None,
                ));
                index = total;
            }
        } else if same_text(argument, "--mdns") {
            index = index + 1;
        } else {
            return None;
        }
        proof {
            host_view = hostname.deep_view();
            port_view = match port {
                Some(number) => Some(number as nat),
                None => None,
            };
        }
    }
    Some(
        ServeOptions {
            hostname: match hostname {
                Some(host) => host,
                None => "127.0.0.1".to_owned(),
            },
            port: match port {
                Some(number) => number as u16,
                None => 0,
            },
        },
    )
}

/// The markers that shape how `serve` starts.
#[derive(Clone, Copy, Debug, PartialEq, Eq, Structural)]
pub struct ServeMarkers {
    pub ignore_sigterm: bool,
    pub join_group: Option<u32>,
    pub port_reserved: bool,
    pub hold_endpoint: bool,
}

/// One thing that `serve` does before it answers anyone.
#[derive(Clone, Copy, Debug, PartialEq, Eq, Structural)]
pub enum ServeAction {
    IgnoreSigterm,
    /// Read the arguments; one that is not understood ends the stand-in.
    ReadOptions,
    JoinGroup(u32),
    SleepForever,
    AwaitPort,
    Bind,
    SpawnPortHolder,
    AcceptConnections,
}

/// What `serve` does before it answers anyone. One that ignores the
/// termination signal never listens.
pub open spec fn serve_script(markers: ServeMarkers) -> Seq<ServeAction> {
    let ignoring = if markers.ignore_sigterm {
        seq![ServeAction::IgnoreSigterm]
    } else {
        Seq::empty()
    };
    let joining = match markers.join_group {
        Some(group) => seq![ServeAction::JoinGroup(group)],
        None => Seq::empty(),
    };
    let listening = if markers.ignore_sigterm {
        seq![ServeAction::SleepForever]
    } else {
        (if markers.port_reserved {
            seq![ServeAction::AwaitPort]
        } else {
            Seq::empty()
        }) + seq![ServeAction::Bind] + (if markers.hold_endpoint {
            seq![ServeAction::SpawnPortHolder]
        } else {
            Seq::empty()
        }) + seq![ServeAction::AcceptConnections]
    };
    ignoring + seq![ServeAction::ReadOptions] + joining + listening
}

/// Lists what `serve` does before it answers anyone.
pub fn serve(markers: ServeMarkers) -> (script: Vec<ServeAction>)
    ensures
        script@ == serve_script(markers),
{
    let mut script: Vec<ServeAction> = Vec::new();
    if markers.ignore_sigterm {
        script.push(ServeAction::IgnoreSigterm);
    }
    script.push(ServeAction::ReadOptions);
    match markers.join_group {
        Some(group) => {
            script.push(ServeAction::JoinGroup(group));
        },
        None => {},
    }
    if markers.ignore_sigterm {
        script.push(ServeAction::SleepForever);
    } else {
        if markers.port_reserved {
            script.push(ServeAction::AwaitPort);
        }
        script.push(ServeAction::Bind);
        if markers.hold_endpoint {
            script.push(ServeAction::SpawnPortHolder);
        }
        script.push(ServeAction::AcceptConnections);
    }
    assert(script@ =~= serve_script(markers));
    script
}

/// The markers that shape how a connection is served.
#[derive(Clone, Copy, Debug, PartialEq, Eq, Structural)]
pub struct ConnectionMarkers {
    pub join_parent_group: bool,
    pub escape_group: Option<u32>,
    pub leader_exits: bool,
}

/// One thing that `serve` does with a connection.
#[derive(Clone, Copy, Debug, PartialEq, Eq, Structural)]
pub enum ConnectionAction {
    JoinParentGroup,
    EscapeToGroup(u32),
    /// Start a descendant that ignores the termination signal, and record it.
    SpawnStubbornDescendant,
    AwaitDescendantReady,
    Respond,
    /// Close the connection, stay while the marker exists, and exit.
    ExitWhenReleased,
}

/// What `serve` does with a connection. Any change of group comes before the
/// response, so that the response implies it.
pub open spec fn connection_script(markers: ConnectionMarkers) -> Seq<ConnectionAction> {
    (if markers.join_parent_group {
        seq![ConnectionAction::JoinParentGroup]
    } else {
        Seq::empty()
    }) + (match markers.escape_group {
        Some(group) => seq![ConnectionAction::EscapeToGroup(group)],
        None => Seq::empty(),
    }) + (if markers.leader_exits {
        seq![
            ConnectionAction::SpawnStubbornDescendant,
            ConnectionAction::AwaitDescendantReady,
            ConnectionAction::Respond,
            ConnectionAction::ExitWhenReleased,
        ]
    } else {
        seq![ConnectionAction::Respond]
    })
}

/// Lists what `serve` does with a connection.
pub fn serve_connection(markers: ConnectionMarkers) -> (script: Vec<ConnectionAction>)
    ensures
        script@ == connection_script(markers),
{
    let mut script: Vec<ConnectionAction> = Vec::new();
    if markers.join_parent_group {
        script.push(ConnectionAction::JoinParentGroup);
    }
    match markers.escape_group {
        Some(group) => {
            script.push(ConnectionAction::EscapeToGroup(group));
        },
        None => {},
    }
    if markers.leader_exits {
        script.push(ConnectionAction::SpawnStubbornDescendant);
        script.push(ConnectionAction::AwaitDescendantReady);
        script.push(ConnectionAction::Respond);
        script.push(ConnectionAction::ExitWhenReleased);
    } else {
        script.push(ConnectionAction::Respond);
    }
    assert(script@ =~= connection_script(markers));
    script
}

/// How long a port holder waits for its parent, in nanoseconds.
pub const HOLD_RELEASE_AFTER: u64 = 1_000_000_000;

/// How long a port holder lives at most, in nanoseconds.
pub const HOLD_DEADLINE: u64 = 30_000_000_000;

/// What a port holder does next.
#[derive(Clone, Copy, Debug, PartialEq, Eq, Structural)]
pub enum HoldStep {
    /// Keep the port a little longer, and exit.
    ReleaseSoon,
    GoOn,
    Exit,
}

/// Decides how a port holder goes on.
pub fn hold(parent_exists: bool, now: u64, release_after: u64, deadline: u64) -> (step: HoldStep)
    ensures
        step == (if now >= deadline {
            HoldStep::Exit
        } else if !parent_exists || now >= release_after {
            HoldStep::ReleaseSoon
        } else {
            HoldStep::GoOn
        }),
{
    if now >= deadline {
        HoldStep::Exit
    } else if !parent_exists || now >= release_after {
        HoldStep::ReleaseSoon
    } else {
        HoldStep::GoOn
    }
}

/// A line without the carriage return at its end.
pub open spec fn without_return(line: Seq<char>) -> Seq<char> {
    if line.len() > 0 && line.last() == '\r' {
        line.drop_last()
    } else {
        line
    }
}

/// Whether some line of `text` is `wanted`. A line ends in a newline, with or
/// without a carriage return before it; what follows the last newline is a
/// line of its own.
pub open spec fn has_line(text: Seq<char>, wanted: Seq<char>) -> bool {
    let pieces = split(text, '\n');
    ||| exists|i: int|
        0 <= i < pieces.len() - 1 && without_return(#[trigger] pieces[i]) == wanted
    ||| pieces.last().len() > 0 && pieces.last() == wanted
}

fn strip_return(line: &str) -> (stripped: String)
    ensures
        stripped@ == without_return(line@),
{
    let chars = chars_of(line);
    let length: usize = chars.len();
    if length > 0 && chars[length - 1] == '\r' {
        let stripped = text_of(&chars, 0, length - 1);
        assert(stripped@ =~= line@.drop_last());
        return stripped;
    }
    line.to_owned()
}

/// Looks for a line.
fn find_line(text: &str, wanted: &str) -> (found: bool)
    ensures
        found == has_line(text@, wanted@),
{
    let pieces = split_text(text, '\n');
    let ghost views = split(text@, '\n');
    let last: usize = pieces.len() - 1;
    let mut index: usize = 0;
    while index < last
        invariant
            index <= last,
            last == pieces@.len() - 1,
            views == pieces_view(pieces@),
            views == split(text@, '\n'),
            forall|i: int| 0 <= i < index ==> without_return(#[trigger] views[i]) != wanted@,
        decreases last - index,
    {
        let line = strip_return(pieces[index].as_str());
        assert(views[index as int] == pieces@[index as int]@);
        if same_text(line.as_str(), wanted) {
            return true;
        }
        index = index + 1;
    }
    assert(views.last() == pieces@[last as int]@);
    !pieces[last].as_str().is_empty() && same_text(pieces[last].as_str(), wanted)
}

/// How a health request is answered.
#[derive(Clone, Copy, Debug, PartialEq, Eq, Structural)]
pub enum HealthReply {
    Unauthorized,
    Served { healthy: bool },
}

/// The credential line that a request must carry.
pub open spec fn expected_credential(username: Seq<char>, password: Seq<char>) -> Seq<char> {
    "Authorization: Basic "@ + base64_text(vstd::utf8::encode_utf8(username.push(':') + password))
}

/// Decides how a health request is answered: where there is a password, the
/// request must carry its credential line.
pub fn respond_to_health(request: &str, username: &str, password: &str, healthy: bool) -> (reply:
    HealthReply)
    ensures
        reply == (if password@.len() > 0 && !has_line(
            request@,
            expected_credential(username@, password@),
        ) {
            HealthReply::Unauthorized
        } else {
            HealthReply::Served { healthy }
        }),
{
    if !password.is_empty() {
        let mut credential = username.to_owned();
        credential.push(':');
        credential.append(password);
        let encoded = encode_base64(credential.as_str());
        let expected = join("Authorization: Basic ", encoded.as_str());
        if !find_line(request, expected.as_str()) {
            return HealthReply::Unauthorized;
        }
    }
    HealthReply::Served { healthy }
}

/// The body of an answer.
pub open spec fn reply_body(healthy: bool) -> Seq<char> {
    if healthy {
        "{\"healthy\":true,\"version\":\"test-fixture-1\"}"@
    } else {
        "{\"healthy\":false,\"version\":\"test-fixture-1\"}"@
    }
}

/// What goes over the wire for an answer.
pub open spec fn reply_text(reply: HealthReply) -> Seq<char> {
    match reply {
        HealthReply::Unauthorized =>
            "HTTP/1.1 401 Unauthorized\r\nContent-Length: 0\r\nConnection: close\r\n\r\n"@,
        HealthReply::Served { healthy } =>
            "HTTP/1.1 200 OK\r\nContent-Type: application/json\r\nContent-Length: "@
            + decimal_text(vstd::utf8::encode_utf8(reply_body(healthy)).len())
            + "\r\nConnection: close\r\n\r\n"@ + reply_body(healthy),
    }
}

/// Writes out an answer.
pub fn encode_reply(reply: HealthReply) -> (text: String)
    ensures
        text@ == reply_text(reply),
{
    match reply {
        HealthReply::Unauthorized =>
            "HTTP/1.1 401 Unauthorized\r\nContent-Length: 0\r\nConnection: close\r\n\r\n".to_owned(),
        HealthReply::Served { healthy } => {
            let body = if healthy {
                "{\"healthy\":true,\"version\":\"test-fixture-1\"}"
            } else {
                "{\"healthy\":false,\"version\":\"test-fixture-1\"}"
            };
            let length = decimal(byte_len(body) as u64);
            let mut text = join(
                "HTTP/1.1 200 OK\r\nContent-Type: application/json\r\nContent-Length: ",
                length.as_str(),
            );
            text.append("\r\nConnection: close\r\n\r\n");
            text.append(body);
            text
        },
    }
}

/// The stand-in understands the arguments that OpenCode is started with, and
/// serves the host and port that they name.
pub proof fn starts_are_understood(hostname: Seq<char>, port: u16, mdns: bool)
    ensures
        options_from(spawn_arguments(hostname, port, mdns).skip(1), 0, None, None) == Some(
            (Some(hostname), Some(port as nat)),
        ),
        mode_named(Some(spawn_arguments(hostname, port, mdns)[0])) is Serve,
{
    let arguments = spawn_arguments(hostname, port, mdns).skip(1);
    reveal_strlit("--hostname");
    reveal_strlit("--port");
    reveal_strlit("--mdns");
    reveal_strlit("serve");
    reveal_strlit("--version");
    assert("--port"@[2] == 'p' && "--mdns"@[2] == 'm');
    assert("serve"@.len() == 5 && "--version"@.len() == 9);
    assert(arguments[0] == "--hostname"@);
    assert(arguments[1] == hostname);
    assert(arguments[2] == "--port"@);
    assert(arguments[3] == decimal_text(port as nat));
    written_numbers_are_read_back(port as nat, u16::MAX as nat);
    reveal_with_fuel(options_from, 4);
    if mdns {
        assert(arguments.len() == 5);
        assert(arguments[4] == "--mdns"@);
    } else {
        assert(arguments.len() == 4);
    }
}

} // verus!
