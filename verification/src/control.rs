//! The command-line client: what its arguments mean, when a wait is over, and
//! what it prints.

#[allow(unused_imports)]
use vstd::prelude::*;
use vstd::string::StringExecFns;
use crate::protocol::{Command, FdaState, Response, ServerState, Status};
#[allow(unused_imports)]
use crate::protocol::StatusView;
use crate::config::ValidationReport;
#[allow(unused_imports)]
use crate::text::{decimal_text, pieces_view};
use crate::text::{decimal, join, same_text};

verus! {

/// How long `stop` waits, in nanoseconds.
pub const STOP_WAIT: u64 = 18_000_000_000;

/// How long `restart` waits, in nanoseconds.
pub const RESTART_WAIT: u64 = 35_000_000_000;

/// How long the client sleeps between two looks, in nanoseconds.
pub const WAIT_INTERVAL: u64 = 250_000_000;

pub const USAGE: &'static str =
    "Usage: opencodeserverctl <status [--json] | start | stop [--force] | restart [--force] | logs | version | validate-config [--json]>";

/// What the client was asked to do.
#[derive(Clone, Copy, Debug, PartialEq, Eq, Structural)]
pub enum Invocation {
    Status { json: bool },
    Start,
    Stop { force: bool },
    Restart { force: bool },
    Logs,
    Version,
    ValidateConfig { json: bool },
    Help,
}

/// Whether an argument is the one flag that a command takes.
pub open spec fn is_allowed(argument: Seq<char>, allowed: Option<Seq<char>>) -> bool {
    allowed matches Some(flag) && argument == flag
}

/// The first argument from `from` on that the command does not take.
pub open spec fn unexpected_argument(
    arguments: Seq<Seq<char>>,
    from: int,
    allowed: Option<Seq<char>>,
) -> Option<Seq<char>>
    decreases arguments.len() - from,
{
    if from < 0 || from >= arguments.len() {
        None
    } else if is_allowed(arguments[from], allowed) {
        unexpected_argument(arguments, from + 1, allowed)
    } else {
        Some(arguments[from])
    }
}

/// Whether a flag stands among the arguments after the command.
pub open spec fn has_flag(arguments: Seq<Seq<char>>, flag: Seq<char>) -> bool {
    exists|i: int| 1 <= i < arguments.len() && #[trigger] arguments[i] == flag
}

/// The invocation of a command that takes at most one flag.
pub open spec fn flagged(
    arguments: Seq<Seq<char>>,
    allowed: Option<Seq<char>>,
    invocation: Invocation,
) -> Result<Invocation, Seq<char>> {
    match unexpected_argument(arguments, 1, allowed) {
        Some(argument) => Err("unexpected argument: "@ + argument),
        None => Ok(invocation),
    }
}

/// What a list of arguments asks for.
pub open spec fn invoked(arguments: Seq<Seq<char>>) -> Result<Invocation, Seq<char>> {
    if arguments.len() == 0 {
        Err("a command is required"@)
    } else {
        let command = arguments[0];
        if command == "status"@ {
            flagged(
                arguments,
                Some("--json"@),
                Invocation::Status { json: has_flag(arguments, "--json"@) },
            )
        } else if command == "start"@ {
            flagged(arguments, None, Invocation::Start)
        } else if command == "stop"@ {
            flagged(
                arguments,
                Some("--force"@),
                Invocation::Stop { force: has_flag(arguments, "--force"@) },
            )
        } else if command == "restart"@ {
            flagged(
                arguments,
                Some("--force"@),
                Invocation::Restart { force: has_flag(arguments, "--force"@) },
            )
        } else if command == "logs"@ {
            flagged(arguments, None, Invocation::Logs)
        } else if command == "version"@ {
            flagged(arguments, None, Invocation::Version)
        } else if command == "validate-config"@ {
            flagged(
                arguments,
                Some("--json"@),
                Invocation::ValidateConfig { json: has_flag(arguments, "--json"@) },
            )
        } else if command == "help"@ || command == "--help"@ || command == "-h"@ {
            Ok(Invocation::Help)
        } else {
            Err("unknown command: "@ + command)
        }
    }
}

/// Refuses the first argument after the command that the command does not
/// take.
pub fn ensure_only_flags(arguments: &Vec<String>, allowed: Option<&str>) -> (outcome: Result<
    (),
    String,
>)
    ensures
        match unexpected_argument(
            pieces_view(arguments@),
            1,
            match allowed {
                Some(flag) => Some(flag@),
                None => None,
            },
        ) {
            Some(argument) => outcome matches Err(message) && message@ == "unexpected argument: "@
                + argument,
            None => outcome is Ok,
        },
{
    let ghost views = pieces_view(arguments@);
    let ghost flag_view = match allowed {
        Some(flag) => Some(flag@),
        None => None,
    };
    let mut index: usize = 1;
    while index < arguments.len()
        invariant
            1 <= index,
            views == pieces_view(arguments@),
            flag_view == (match allowed {
                Some(flag) => Some(flag@),
                None => None,
            }),
            unexpected_argument(views, 1, flag_view) == unexpected_argument(
                views,
                index as int,
                flag_view,
            ),
        decreases arguments@.len() - index,
    {
        let argument = arguments[index].as_str();
        assert(views[index as int] == argument@);
        let expected = match allowed {
            Some(flag) => same_text(argument, flag),
            None => false,
        };
        if !expected {
            return Err(join("unexpected argument: ", argument));
        }
        index = index + 1;
    }
    Ok(())
}

/// Looks for a flag among the arguments after the command.
fn find_flag(arguments: &Vec<String>, flag: &str) -> (found: bool)
    ensures
        found == has_flag(pieces_view(arguments@), flag@),
{
    let ghost views = pieces_view(arguments@);
    let mut index: usize = 1;
    while index < arguments.len()
        invariant
            1 <= index,
            views == pieces_view(arguments@),
            forall|i: int| 1 <= i < index && i < views.len() ==> #[trigger] views[i] != flag@,
        decreases arguments@.len() - index,
    {
        assert(views[index as int] == arguments@[index as int]@);
        if same_text(arguments[index].as_str(), flag) {
            return true;
        }
        index = index + 1;
    }
    false
}

/// Checks the flags of a command.
fn with_flag(arguments: &Vec<String>, allowed: Option<&str>, invocation: Invocation) -> (outcome:
    Result<Invocation, String>)
    ensures
        match flagged(
            pieces_view(arguments@),
            match allowed {
                Some(flag) => Some(flag@),
                None => None,
            },
            invocation,
        ) {
            Ok(chosen) => outcome == Ok::<Invocation, String>(chosen),
            Err(text) => outcome matches Err(message) && message@ == text,
        },
{
    match ensure_only_flags(arguments, allowed) {
        Ok(()) => Ok(invocation),
        Err(message) => Err(message),
    }
}

/// Reads the arguments that follow the program's name.
pub fn parse_arguments(arguments: &Vec<String>) -> (outcome: Result<Invocation, String>)
    ensures
        match invoked(pieces_view(arguments@)) {
            Ok(chosen) => outcome == Ok::<Invocation, String>(chosen),
            Err(text) => outcome matches Err(message) && message@ == text,
        },
{
    if arguments.len() == 0 {
        return Err("a command is required".to_owned());
    }
    let command = arguments[0].as_str();
    assert(pieces_view(arguments@)[0] == command@);
    if same_text(command, "status") {
        let json = find_flag(arguments, "--json");
        return with_flag(arguments, Some("--json"), Invocation::Status { json });
    }
    if same_text(command, "start") {
        return with_flag(arguments, None, Invocation::Start);
    }
    if same_text(command, "stop") {
        let force = find_flag(arguments, "--force");
        return with_flag(arguments, Some("--force"), Invocation::Stop { force });
    }
    if same_text(command, "restart") {
        let force = find_flag(arguments, "--force");
        return with_flag(arguments, Some("--force"), Invocation::Restart { force });
    }
    if same_text(command, "logs") {
        return with_flag(arguments, None, Invocation::Logs);
    }
    if same_text(command, "version") {
        return with_flag(arguments, None, Invocation::Version);
    }
    if same_text(command, "validate-config") {
        let json = find_flag(arguments, "--json");
        return with_flag(arguments, Some("--json"), Invocation::ValidateConfig { json });
    }
    if same_text(command, "help") || same_text(command, "--help") || same_text(command, "-h") {
        return Ok(Invocation::Help);
    }
    Err(join("unknown command: ", command))
}

/// Takes a response that carried out its request; a refused request is the
/// error that the agent gave.
pub fn accept_response(response: Response) -> (outcome: Result<Response, String>)
    ensures
        response.ok ==> outcome == Ok::<Response, String>(response),
        !response.ok ==> match response.error {
            Some(error) => outcome == Err::<Response, String>(error),
            None => outcome matches Err(message) && message@
                == "OpenCodeServerAgent rejected the request"@,
        },
{
    if response.ok {
        return Ok(response);
    }
    match response.error {
        Some(error) => Err(error),
        None => Err("OpenCodeServerAgent rejected the request".to_owned()),
    }
}

/// Takes the status out of a response.
pub fn response_status(response: Response) -> (outcome: Result<Status, String>)
    ensures
        match response.status {
            Some(status) => outcome == Ok::<Status, String>(status),
            None => outcome matches Err(message) && message@
                == "OpenCodeServerAgent returned no status"@,
        },
{
    match response.status {
        Some(status) => Ok(status),
        None => Err("OpenCodeServerAgent returned no status".to_owned()),
    }
}

/// What a waiting client does after a look at the server.
#[derive(Clone, Copy, Debug)]
pub enum WaitStep {
    /// The wait is over; the status is printed.
    Done,
    /// Ask for a forced stop, and go on waiting.
    ForceStop,
    /// The wait has failed; the status is printed.
    Fail(&'static str),
    GoOn,
}

pub const STOP_TIMED_OUT: &'static str =
    "graceful stop timed out; use `stop --force` or retry later";

pub const STOP_WAIT_EXPIRED: &'static str =
    "timed out waiting for OpenCodeServerAgent to finish stopping OpenCode";

pub const RESTART_BLOCKED: &'static str =
    "restart is waiting for graceful stop; use `restart --force` if needed";

pub const RESTART_FAILED: &'static str = "restart failed";

pub const RESTART_WAIT_EXPIRED: &'static str =
    "timed out waiting for a healthy restarted OpenCode";

/// Decides how a `stop` goes on.
pub fn wait_for_stop(state: ServerState, force: bool) -> (step: WaitStep)
    ensures
        step == (if state is Stopped {
            WaitStep::Done
        } else if state is StopTimedOut {
            if force {
                WaitStep::ForceStop
            } else {
                WaitStep::Fail(STOP_TIMED_OUT)
            }
        } else {
            WaitStep::GoOn
        }),
{
    match state {
        ServerState::Stopped => WaitStep::Done,
        ServerState::StopTimedOut => {
            if force {
                WaitStep::ForceStop
            } else {
                WaitStep::Fail(STOP_TIMED_OUT)
            }
        },
        _ => WaitStep::GoOn,
    }
}

/// Decides how a `restart` goes on.
pub fn wait_for_restart(state: ServerState, force: bool) -> (step: WaitStep)
    ensures
        step == (if state is Healthy {
            WaitStep::Done
        } else if state is StopTimedOut {
            if force {
                WaitStep::ForceStop
            } else {
                WaitStep::Fail(RESTART_BLOCKED)
            }
        } else if state is Failed {
            WaitStep::Fail(RESTART_FAILED)
        } else {
            WaitStep::GoOn
        }),
{
    match state {
        ServerState::Healthy => WaitStep::Done,
        ServerState::StopTimedOut => {
            if force {
                WaitStep::ForceStop
            } else {
                WaitStep::Fail(RESTART_BLOCKED)
            }
        },
        ServerState::Failed => WaitStep::Fail(RESTART_FAILED),
        _ => WaitStep::GoOn,
    }
}

/// The command that an invocation sends first, if it sends one.
pub fn first_command(invocation: Invocation) -> (command: Option<Command>)
    ensures
        command == (match invocation {
            Invocation::Status { .. } => Some(Command::Status),
            Invocation::Start => Some(Command::Start),
            Invocation::Stop { .. } => Some(Command::Stop),
            Invocation::Restart { .. } => Some(Command::Restart),
            Invocation::ValidateConfig { .. } => Some(Command::ValidateConfig),
            Invocation::Logs => None,
            Invocation::Version => None,
            Invocation::Help => None,
        }),
{
    match invocation {
        Invocation::Status { .. } => Some(Command::Status),
        Invocation::Start => Some(Command::Start),
        Invocation::Stop { .. } => Some(Command::Stop),
        Invocation::Restart { .. } => Some(Command::Restart),
        Invocation::ValidateConfig { .. } => Some(Command::ValidateConfig),
        Invocation::Logs => None,
        Invocation::Version => None,
        Invocation::Help => None,
    }
}

/// The words for a server state.
pub open spec fn label_of(state: ServerState) -> Seq<char> {
    match state {
        ServerState::Stopped => "Stopped"@,
        ServerState::Starting => "Starting"@,
        ServerState::Healthy => "Healthy"@,
        ServerState::Unhealthy => "Running, unhealthy"@,
        ServerState::Stopping => "Stopping"@,
        ServerState::StopTimedOut => "Waiting after graceful timeout"@,
        ServerState::WaitingToRestart => "Waiting to restart"@,
        ServerState::Failed => "Failed"@,
    }
}

/// Names a server state.
pub fn state_label(state: ServerState) -> (label: &'static str)
    ensures
        label@ == label_of(state),
{
    match state {
        ServerState::Stopped => "Stopped",
        ServerState::Starting => "Starting",
        ServerState::Healthy => "Healthy",
        ServerState::Unhealthy => "Running, unhealthy",
        ServerState::Stopping => "Stopping",
        ServerState::StopTimedOut => "Waiting after graceful timeout",
        ServerState::WaitingToRestart => "Waiting to restart",
        ServerState::Failed => "Failed",
    }
}

/// The words for what is known about Full Disk Access.
pub open spec fn fda_words(state: FdaState) -> Seq<char> {
    match state {
        FdaState::Verified => "Verified"@,
        FdaState::NotVerified => "NotVerified"@,
        FdaState::UnableToDetermine => "UnableToDetermine"@,
    }
}

fn fda_label(state: FdaState) -> (label: &'static str)
    ensures
        label@ == fda_words(state),
{
    match state {
        FdaState::Verified => "Verified",
        FdaState::NotVerified => "NotVerified",
        FdaState::UnableToDetermine => "UnableToDetermine",
    }
}

/// A version, or that it is unknown.
pub open spec fn version_words(version: Option<Seq<char>>) -> Seq<char> {
    match version {
        Some(text) => text,
        None => "unknown"@,
    }
}

fn version_label(version: &Option<String>) -> (label: &str)
    ensures
        label@ == version_words(version.deep_view()),
{
    match version {
        Some(text) => text.as_str(),
        None => "unknown",
    }
}

/// The detail that a status shows: its configuration error before its last
/// error.
pub open spec fn detail_of(status: StatusView) -> Option<Seq<char>> {
    match status.config_error {
        Some(error) => Some(error),
        None => status.last_error,
    }
}

/// The lines that describe a status.
pub open spec fn described(status: StatusView) -> Seq<Seq<char>> {
    seq![
        "OpenCode:           "@ + label_of(status.server_state),
        "Endpoint:           "@ + status.endpoint,
        "OpenCode:           running "@ + version_words(status.running_version) + " / installed "@
            + version_words(status.installed_version),
        "Full Disk Access:   "@ + fda_words(status.fda),
        "Username:           "@ + status.username,
        "Authentication:     "@ + (if status.authentication_enabled {
            "Configured"@
        } else {
            "Not enabled"@
        }),
    ] + (match status.uptime_seconds {
        Some(seconds) => seq![
            "Uptime:             "@ + decimal_text(seconds as nat) + "s"@,
        ],
        None => Seq::empty(),
    }) + (if status.config_pending {
        seq!["Configuration:      Pending restart"@]
    } else {
        Seq::empty()
    }) + (match detail_of(status) {
        Some(error) => seq!["Detail:             "@ + error],
        None => Seq::empty(),
    })
}

/// Describes a status, line by line.
pub fn print_status(status: &Status) -> (lines: Vec<String>)
    ensures
        pieces_view(lines@) == described(status.deep_view()),
{
    let mut lines: Vec<String> = Vec::new();
    lines.push(join("OpenCode:           ", state_label(status.server_state)));
    lines.push(join("Endpoint:           ", status.endpoint.as_str()));
    let mut versions = join(
        "OpenCode:           running ",
        version_label(&status.running_version),
    );
    versions.append(" / installed ");
    versions.append(version_label(&status.installed_version));
    lines.push(versions);
    lines.push(join("Full Disk Access:   ", fda_label(status.fda)));
    lines.push(join("Username:           ", status.username.as_str()));
    lines.push(
        join(
            "Authentication:     ",
            if status.authentication_enabled {
                "Configured"
            } else {
                "Not enabled"
            },
        ),
    );
    let ghost fixed = pieces_view(lines@);
    match status.uptime_seconds {
        Some(seconds) => {
            let digits = decimal(seconds);
            let mut uptime = join("Uptime:             ", digits.as_str());
            uptime.append("s");
            lines.push(uptime);
        },
        None => {},
    }
    let ghost timed = pieces_view(lines@);
    if status.config_pending {
        lines.push("Configuration:      Pending restart".to_owned());
    }
    let ghost pending = pieces_view(lines@);
    match &status.config_error {
        Some(error) => {
            lines.push(join("Detail:             ", error.as_str()));
        },
        None => match &status.last_error {
            Some(error) => {
                lines.push(join("Detail:             ", error.as_str()));
            },
            None => {},
        },
    }
    proof {
        let view = status.deep_view();
        assert(timed =~= fixed + (match view.uptime_seconds {
            Some(seconds) => seq!["Uptime:             "@ + decimal_text(seconds as nat) + "s"@],
            None => Seq::empty(),
        }));
        assert(pending =~= timed + (if view.config_pending {
            seq!["Configuration:      Pending restart"@]
        } else {
            Seq::empty()
        }));
        assert(pieces_view(lines@) =~= pending + (match detail_of(view) {
            Some(error) => seq!["Detail:             "@ + error],
            None => Seq::empty(),
        }));
        assert(fixed =~= described(view).take(6));
        assert(pieces_view(lines@) =~= described(view));
    }
    lines
}

/// The line for a configuration that was found valid.
pub fn valid_configuration(report: &ValidationReport) -> (line: String)
    ensures
        line@ == "Configuration is valid. OpenCode: "@ + (match report.selected_executable {
            Some(path) => path@,
            None => "automatic"@,
        }),
{
    join(
        "Configuration is valid. OpenCode: ",
        match &report.selected_executable {
            Some(path) => path.as_str(),
            None => "automatic",
        },
    )
}

/// Only the flag that a command takes may follow it.
proof fn other_arguments_are_unexpected(
    arguments: Seq<Seq<char>>,
    from: int,
    allowed: Option<Seq<char>>,
)
    requires
        0 <= from,
    ensures
        unexpected_argument(arguments, from, allowed) is None <==> forall|i: int|
            from <= i < arguments.len() ==> allowed == Some(#[trigger] arguments[i]),
    decreases arguments.len() - from,
{
    if from < arguments.len() {
        other_arguments_are_unexpected(arguments, from + 1, allowed);
        if is_allowed(arguments[from], allowed) {
            assert(allowed == Some(arguments[from]));
            assert forall|i: int|
                from <= i < arguments.len() && (forall|j: int|
                    from + 1 <= j < arguments.len() ==> allowed == Some(
                        #[trigger] arguments[j],
                    )) implies allowed == Some(#[trigger] arguments[i]) by {
            }
        }
    }
}

/// The first argument names the command; status and validation take "--json",
/// stop and restart take "--force", and nothing else may follow. Whatever is
/// understood was named.
pub proof fn arguments_name_their_command(arguments: Seq<Seq<char>>)
    ensures
        arguments.len() == 0 ==> invoked(arguments) is Err,
        ({
            let named = arguments.len() > 0;
            let first = arguments[0];
            let bare = arguments.len() == 1;
            let json = exists|i: int| 1 <= i < arguments.len() && #[trigger] arguments[i]
                == "--json"@;
            let force = exists|i: int| 1 <= i < arguments.len() && #[trigger] arguments[i]
                == "--force"@;
            match invoked(arguments) {
                Ok(Invocation::Status { json: wanted }) => named && first == "status"@ && wanted
                    == json,
                Ok(Invocation::Start) => named && first == "start"@ && bare,
                Ok(Invocation::Stop { force: wanted }) => named && first == "stop"@ && wanted
                    == force,
                Ok(Invocation::Restart { force: wanted }) => named && first == "restart"@ && wanted
                    == force,
                Ok(Invocation::Logs) => named && first == "logs"@ && bare,
                Ok(Invocation::Version) => named && first == "version"@ && bare,
                Ok(Invocation::ValidateConfig { json: wanted }) => named && first
                    == "validate-config"@ && wanted == json,
                Ok(Invocation::Help) => named && (first == "help"@ || first == "--help"@ || first
                    == "-h"@),
                Err(_) => true,
            }
        }),
{
    if arguments.len() > 0 {
        other_arguments_are_unexpected(arguments, 1, None);
        if arguments.len() > 1 {
            assert(None::<Seq<char>> != Some(arguments[1]));
        }
    }
}

/// No two commands have the same name.
proof fn names_differ()
    ensures
        "status"@.len() == 6,
        "start"@.len() == 5,
        "stop"@.len() == 4,
        "restart"@.len() == 7,
        "logs"@.len() == 4,
        "version"@.len() == 7,
        "validate-config"@.len() == 15,
        "help"@.len() == 4,
        "--help"@.len() == 6,
        "-h"@.len() == 2,
        "stop"@ != "logs"@,
        "stop"@ != "help"@,
        "logs"@ != "help"@,
        "restart"@ != "version"@,
        "status"@ != "--help"@,
{
    reveal_strlit("status");
    reveal_strlit("start");
    reveal_strlit("stop");
    reveal_strlit("restart");
    reveal_strlit("logs");
    reveal_strlit("version");
    reveal_strlit("validate-config");
    reveal_strlit("help");
    reveal_strlit("--help");
    reveal_strlit("-h");
    assert("stop"@[1] != "logs"@[1]);
    assert("stop"@[0] != "help"@[0]);
    assert("logs"@[0] != "help"@[0]);
    assert("restart"@[0] != "version"@[0]);
    assert("status"@[0] != "--help"@[0]);
}

/// Every command is understood by its name, alone or with its flag.
pub proof fn named_commands_are_understood(arguments: Seq<Seq<char>>)
    requires
        arguments.len() > 0,
    ensures
        ({
            let first = arguments[0];
            let json = forall|i: int|
                1 <= i < arguments.len() ==> #[trigger] arguments[i] == "--json"@;
            let force = forall|i: int|
                1 <= i < arguments.len() ==> #[trigger] arguments[i] == "--force"@;
            let bare = arguments.len() == 1;
            &&& first == "status"@ && json ==> invoked(arguments) is Ok && invoked(
                arguments,
            )->Ok_0 is Status
            &&& first == "start"@ && bare ==> invoked(arguments) == Ok::<Invocation, Seq<char>>(
                Invocation::Start,
            )
            &&& first == "stop"@ && force ==> invoked(arguments) is Ok && invoked(
                arguments,
            )->Ok_0 is Stop
            &&& first == "restart"@ && force ==> invoked(arguments) is Ok && invoked(
                arguments,
            )->Ok_0 is Restart
            &&& first == "logs"@ && bare ==> invoked(arguments) == Ok::<Invocation, Seq<char>>(
                Invocation::Logs,
            )
            &&& first == "version"@ && bare ==> invoked(arguments) == Ok::<Invocation, Seq<char>>(
                Invocation::Version,
            )
            &&& first == "validate-config"@ && json ==> invoked(arguments) is Ok
                && invoked(arguments)->Ok_0 is ValidateConfig
            &&& first == "help"@ || first == "--help"@ || first == "-h"@ ==> invoked(arguments)
                == Ok::<Invocation, Seq<char>>(Invocation::Help)
        }),
{
    names_differ();
    other_arguments_are_unexpected(arguments, 1, None);
    other_arguments_are_unexpected(arguments, 1, Some("--json"@));
    other_arguments_are_unexpected(arguments, 1, Some("--force"@));
}

/// A printed status names the state, the endpoint, the versions, the user and
/// the access, and goes on with the uptime of a process, a configuration that
/// waits for a restart, and what is wrong, each only where there is one.
pub proof fn printed_statuses_say_everything(status: StatusView)
    ensures
        ({
            let lines = described(status);
            let error = if status.config_error is Some {
                status.config_error
            } else {
                status.last_error
            };
            let up: int = if status.uptime_seconds is Some {
                1
            } else {
                0
            };
            let pending: int = if status.config_pending {
                1
            } else {
                0
            };
            let detail: int = if error is Some {
                1
            } else {
                0
            };
            &&& lines.len() == 6 + up + pending + detail
            &&& status.server_state is Healthy ==> lines[0] == "OpenCode:           "@ + "Healthy"@
            &&& status.server_state is Stopped ==> lines[0] == "OpenCode:           "@ + "Stopped"@
            &&& status.server_state is Starting ==> lines[0] == "OpenCode:           "@
                + "Starting"@
            &&& status.server_state is Stopping ==> lines[0] == "OpenCode:           "@
                + "Stopping"@
            &&& status.server_state is Failed ==> lines[0] == "OpenCode:           "@ + "Failed"@
            &&& status.server_state is Unhealthy ==> lines[0] == "OpenCode:           "@
                + "Running, unhealthy"@
            &&& status.server_state is WaitingToRestart ==> lines[0] == "OpenCode:           "@
                + "Waiting to restart"@
            &&& status.server_state is StopTimedOut ==> lines[0] == "OpenCode:           "@
                + "Waiting after graceful timeout"@
            &&& lines[1] == "Endpoint:           "@ + status.endpoint
            &&& status.running_version is Some && status.installed_version is Some ==> lines[2]
                == "OpenCode:           running "@ + status.running_version->0 + " / installed "@
                + status.installed_version->0
            &&& lines[4] == "Username:           "@ + status.username
            &&& status.authentication_enabled ==> lines[5] == "Authentication:     "@
                + "Configured"@
            &&& !status.authentication_enabled ==> lines[5] == "Authentication:     "@
                + "Not enabled"@
            &&& status.config_pending ==> lines[6 + up]
                == "Configuration:      Pending restart"@
            &&& error is Some ==> lines.last() == "Detail:             "@ + error->0
        }),
{
}

} // verus!
