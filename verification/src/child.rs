//! The child app-server process.

use vstd::prelude::*;

use crate::cli::{StartArgs, StartArgsView};
use crate::homes::{codex_home, Home, HomeError};
use crate::text::{join, join3};

verus! {

/// How long the child may take to become ready, in seconds.
pub const CHILD_READY_TIMEOUT_SECS: u64 = 15;

/// How long the relay sleeps between two looks at the child, in milliseconds.
pub const CHILD_POLL_MILLIS: u64 = 25;

/// The name of the child's socket in its runtime directory.
pub const SOCKET_FILE: &'static str = "app-server.sock";

/// What a stream of the child is connected to.
#[derive(Debug, Clone, Copy, PartialEq, Eq, Structural)]
pub enum ChildStream {
    /// Nothing.
    Null,
    /// The same stream of the relay.
    Inherited,
}

/// How to start the child.
#[derive(Debug)]
pub struct ChildCommand {
    pub program: String,
    pub arguments: Vec<String>,
    /// The variables to set, on top of the relay's own environment.
    pub environment: Vec<(String, String)>,
    pub stdin: ChildStream,
    pub stdout: ChildStream,
    pub stderr: ChildStream,
    /// Whether the child is killed when the relay lets go of it.
    pub kill_on_drop: bool,
}

pub struct ChildCommandView {
    pub program: Seq<char>,
    pub arguments: Seq<Seq<char>>,
    pub environment: Seq<(Seq<char>, Seq<char>)>,
    pub stdin: ChildStream,
    pub stdout: ChildStream,
    pub stderr: ChildStream,
    pub kill_on_drop: bool,
}

impl View for ChildCommand {
    type V = ChildCommandView;

    open spec fn view(&self) -> ChildCommandView {
        ChildCommandView {
            program: self.program@,
            arguments: self.arguments@.map_values(|argument: String| argument@),
            environment: self.environment@.map_values(|variable: (String, String)| (variable.0@, variable.1@)),
            stdin: self.stdin,
            stdout: self.stdout,
            stderr: self.stderr,
            kill_on_drop: self.kill_on_drop,
        }
    }
}

/// The variables that are set for a child with this home.
pub open spec fn environment_for(codex_home: Option<Seq<char>>) -> Seq<(Seq<char>, Seq<char>)> {
    match codex_home {
        Some(path) => seq![("CODEX_HOME"@, path)],
        None => seq![],
    }
}

/// The child is the Codex executable as an app-server that listens on the
/// socket.  Its environment is the relay's but for its home, where one is given.
/// It reads nothing and writes only to the relay's stderr, and does not outlive
/// the relay.
pub open spec fn child_command_for(args: StartArgsView, socket_path: Seq<char>) -> ChildCommandView {
    ChildCommandView {
        program: args.codex,
        arguments: seq!["app-server"@, "--listen"@, "unix://"@ + socket_path],
        environment: environment_for(args.codex_home),
        stdin: ChildStream::Null,
        stdout: ChildStream::Null,
        stderr: ChildStream::Inherited,
        kill_on_drop: true,
    }
}

/// How to start the child so that it listens on a socket.
pub fn child_command(args: &StartArgs, socket_path: &str) -> (command: ChildCommand)
    ensures
        command@ == child_command_for(args@, socket_path@),
{
    let mut arguments: Vec<String> = Vec::new();
    arguments.push("app-server".to_owned());
    arguments.push("--listen".to_owned());
    arguments.push(join("unix://", socket_path));
    let mut environment: Vec<(String, String)> = Vec::new();
    if let Some(codex_home) = &args.codex_home {
        environment.push(("CODEX_HOME".to_owned(), codex_home.clone()));
    }
    let command = ChildCommand {
        program: args.codex.clone(),
        arguments,
        environment,
        stdin: ChildStream::Null,
        stdout: ChildStream::Null,
        stderr: ChildStream::Inherited,
        kill_on_drop: true,
    };
    proof {
        assert(command@.environment =~= child_command_for(args@, socket_path@).environment);
        assert(command@.arguments =~= child_command_for(args@, socket_path@).arguments);
    }
    command
}

/// Why the child does not become ready.
#[derive(Debug)]
pub enum ChildError {
    NoRuntimeDirectory,
    NotStarted,
    NotInspected,
    Exited(String),
    TimedOut,
}

/// What an error says, apart from its cause.  `codex` is the executable.
pub open spec fn child_error_text(error: ChildError, codex: Seq<char>) -> Seq<char> {
    match error {
        ChildError::NoRuntimeDirectory => "failed to create relay runtime directory"@,
        ChildError::NotStarted => "failed to start Codex executable "@ + codex,
        ChildError::NotInspected => "failed to inspect child app-server"@,
        ChildError::Exited(status) => "child app-server exited with "@ + status@
            + " before becoming ready"@,
        ChildError::TimedOut => "timed out waiting for child app-server socket"@,
    }
}

impl ChildError {
    /// What the error says, apart from its cause.
    pub fn message(&self, codex: &str) -> (text: String)
        ensures
            text@ == child_error_text(*self, codex@),
    {
        match self {
            ChildError::NoRuntimeDirectory => "failed to create relay runtime directory".to_owned(),
            ChildError::NotStarted => join("failed to start Codex executable ", codex),
            ChildError::NotInspected => "failed to inspect child app-server".to_owned(),
            ChildError::Exited(status) => join3(
                "child app-server exited with ",
                status.as_str(),
                " before becoming ready",
            ),
            ChildError::TimedOut => "timed out waiting for child app-server socket".to_owned(),
        }
    }
}

/// What happens while the child starts.
#[derive(Debug)]
pub enum ChildEvent {
    /// The runtime directory was made, with this place for the socket.
    DirectoryMade { socket_path: String },
    /// The process was started.
    Spawned,
    /// The step at hand failed.
    Failed,
    /// A look at the child: the status with which it has exited, if it has, and
    /// whether its socket exists.
    Looked { exit_status: Option<String>, socket_exists: bool },
    /// The time for the child to become ready has run out.
    TimedOut,
}

/// What the relay does next to start the child.
#[derive(Debug)]
pub enum ChildAction {
    /// Make a runtime directory for the socket.
    MakeDirectory,
    /// Start the process.
    Spawn { command: ChildCommand },
    /// Look at the child.
    Look,
    /// Sleep, then look at the child again.
    SleepAndLook,
    /// The child is ready.
    Ready,
    /// The child will not become ready.
    Fail(ChildError),
    /// Nothing: the event does not belong here.
    Nothing,
}

pub enum ChildActionView {
    MakeDirectory,
    Spawn { command: ChildCommandView },
    Look,
    SleepAndLook,
    Ready,
    Fail(ChildError),
    Nothing,
}

impl View for ChildAction {
    type V = ChildActionView;

    open spec fn view(&self) -> ChildActionView {
        match self {
            ChildAction::MakeDirectory => ChildActionView::MakeDirectory,
            ChildAction::Spawn { command } => ChildActionView::Spawn { command: command@ },
            ChildAction::Look => ChildActionView::Look,
            ChildAction::SleepAndLook => ChildActionView::SleepAndLook,
            ChildAction::Ready => ChildActionView::Ready,
            ChildAction::Fail(error) => ChildActionView::Fail(*error),
            ChildAction::Nothing => ChildActionView::Nothing,
        }
    }
}

/// How far the start of the child has come.
#[derive(Debug, Clone, Copy, PartialEq, Eq, Structural)]
pub enum ChildPhase {
    MakingDirectory,
    Spawning,
    Looking,
    Ended,
}

/// What comes of a look at the child.  A child that has exited is no good,
/// though its socket be there.
pub open spec fn look_next(exit_status: Option<String>, socket_exists: bool) -> (
    ChildPhase,
    ChildActionView,
) {
    match exit_status {
        Some(status) => (ChildPhase::Ended, ChildActionView::Fail(ChildError::Exited(status))),
        None => if socket_exists {
            (ChildPhase::Ended, ChildActionView::Ready)
        } else {
            (ChildPhase::Looking, ChildActionView::SleepAndLook)
        },
    }
}

/// What the relay does on an event while the child starts.
pub open spec fn child_next(args: StartArgsView, phase: ChildPhase, event: ChildEvent) -> (
    ChildPhase,
    ChildActionView,
) {
    match (phase, event) {
        (ChildPhase::MakingDirectory, ChildEvent::DirectoryMade { socket_path }) => (
            ChildPhase::Spawning,
            ChildActionView::Spawn { command: child_command_for(args, socket_path@) },
        ),
        (ChildPhase::MakingDirectory, ChildEvent::Failed) => (
            ChildPhase::Ended,
            ChildActionView::Fail(ChildError::NoRuntimeDirectory),
        ),
        (ChildPhase::Spawning, ChildEvent::Spawned) => (ChildPhase::Looking, ChildActionView::Look),
        (ChildPhase::Spawning, ChildEvent::Failed) => (
            ChildPhase::Ended,
            ChildActionView::Fail(ChildError::NotStarted),
        ),
        (ChildPhase::Looking, ChildEvent::Looked { exit_status, socket_exists }) => look_next(
            exit_status,
            socket_exists,
        ),
        (ChildPhase::Looking, ChildEvent::Failed) => (
            ChildPhase::Ended,
            ChildActionView::Fail(ChildError::NotInspected),
        ),
        (ChildPhase::Looking, ChildEvent::TimedOut) => (
            ChildPhase::Ended,
            ChildActionView::Fail(ChildError::TimedOut),
        ),
        (phase, _) => (phase, ChildActionView::Nothing),
    }
}

/// How the start of the child begins: with a directory for its socket.
pub open spec fn child_start(args: StartArgs) -> (ChildRuntime, ChildActionView) {
    (ChildRuntime { phase: ChildPhase::MakingDirectory, args }, ChildActionView::MakeDirectory)
}

/// The start of the child.
#[derive(Debug)]
pub struct ChildRuntime {
    pub phase: ChildPhase,
    pub args: StartArgs,
}

impl ChildRuntime {
    /// Begins the start of the child, with the first thing to do for it.
    pub fn start(args: StartArgs) -> (started: (ChildRuntime, ChildAction))
        ensures
            started.0 == (ChildRuntime { phase: ChildPhase::MakingDirectory, args }),
            started.1@ == ChildActionView::MakeDirectory,
            (started.0, started.1@) == child_start(args),
    {
        (ChildRuntime { phase: ChildPhase::MakingDirectory, args }, ChildAction::MakeDirectory)
    }

    /// Takes an event.
    pub fn step(&mut self, event: ChildEvent) -> (action: ChildAction)
        ensures
            final(self).args == old(self).args,
            (final(self).phase, action@) == child_next(old(self).args@, old(self).phase, event),
    {
        let (phase, action) = match (self.phase, event) {
            (ChildPhase::MakingDirectory, ChildEvent::DirectoryMade { socket_path }) => (
                ChildPhase::Spawning,
                ChildAction::Spawn { command: child_command(&self.args, socket_path.as_str()) },
            ),
            (ChildPhase::MakingDirectory, ChildEvent::Failed) => (
                ChildPhase::Ended,
                ChildAction::Fail(ChildError::NoRuntimeDirectory),
            ),
            (ChildPhase::Spawning, ChildEvent::Spawned) => (ChildPhase::Looking, ChildAction::Look),
            (ChildPhase::Spawning, ChildEvent::Failed) => (
                ChildPhase::Ended,
                ChildAction::Fail(ChildError::NotStarted),
            ),
            (ChildPhase::Looking, ChildEvent::Looked { exit_status, socket_exists }) => {
                if let Some(status) = exit_status {
                    (ChildPhase::Ended, ChildAction::Fail(ChildError::Exited(status)))
                } else if socket_exists {
                    (ChildPhase::Ended, ChildAction::Ready)
                } else {
                    (ChildPhase::Looking, ChildAction::SleepAndLook)
                }
            },
            (ChildPhase::Looking, ChildEvent::Failed) => (
                ChildPhase::Ended,
                ChildAction::Fail(ChildError::NotInspected),
            ),
            (ChildPhase::Looking, ChildEvent::TimedOut) => (
                ChildPhase::Ended,
                ChildAction::Fail(ChildError::TimedOut),
            ),
            (phase, _) => (phase, ChildAction::Nothing),
        };
        self.phase = phase;
        action
    }
}

/// The child is started from the executable, its socket and its own home alone:
/// nothing else that the relay was given, its credentials included, is passed on.
pub proof fn law_child_gets_nothing_of_the_relay(
    first: StartArgsView,
    second: StartArgsView,
    socket_path: Seq<char>,
)
    requires
        first.codex == second.codex,
        first.codex_home == second.codex_home,
    ensures
        child_command_for(first, socket_path) == child_command_for(second, socket_path),
{
}

/// The child and its enrollment share a home: the one that is given, or else the
/// one that any Codex in the same environment uses.
pub proof fn law_child_and_enrollment_share_a_home(
    args: StartArgs,
    codex_home_variable: Option<String>,
    user_home: Option<String>,
    socket_path: Seq<char>,
    home: Home,
)
    requires
        codex_home(args.codex_home, codex_home_variable, user_home) == Ok::<Home, HomeError>(home),
    ensures
        ({
            let environment = child_command_for(args@, socket_path).environment;
            if args.codex_home is Some {
                home matches Home::At(path) && environment == seq![("CODEX_HOME"@, path@)]
            } else {
                &&& environment == Seq::<(Seq<char>, Seq<char>)>::empty()
                &&& codex_home(None, codex_home_variable, user_home) == Ok::<Home, HomeError>(home)
            }
        }),
{
}

/// How far the start of the child comes by a sequence of events, and what the
/// relay does on each.
pub open spec fn child_run(
    args: StartArgsView,
    phase: ChildPhase,
    events: Seq<ChildEvent>,
) -> (ChildPhase, Seq<ChildActionView>)
    decreases events.len(),
{
    if events.len() == 0 {
        (phase, Seq::empty())
    } else {
        let before = child_run(args, phase, events.drop_last());
        let last = child_next(args, before.0, events.last());
        (last.0, before.1.push(last.1))
    }
}

proof fn lemma_child_run(args: StartArgsView, phase: ChildPhase, events: Seq<ChildEvent>)
    ensures
        ({
            let run = child_run(args, phase, events);
            &&& run.1.len() == events.len()
            &&& forall|i: int|
                0 <= i < events.len() && (#[trigger] run.1[i]) is Spawn ==> run.0
                    != ChildPhase::MakingDirectory
        }),
    decreases events.len(),
{
    if events.len() > 0 {
        let init = events.drop_last();
        lemma_child_run(args, phase, init);
        let run = child_run(args, phase, events);
        assert forall|i: int| 0 <= i < events.len() && (#[trigger] run.1[i]) is Spawn implies run.0
            != ChildPhase::MakingDirectory by {
            if i < init.len() {
                assert(child_run(args, phase, init).1[i] is Spawn);
            }
        }
    }
}

/// The process is started at most once.
pub proof fn law_child_is_spawned_once(
    args: StartArgsView,
    phase: ChildPhase,
    events: Seq<ChildEvent>,
    i: int,
    j: int,
)
    requires
        0 <= i < j < events.len(),
        child_run(args, phase, events).1[i] is Spawn,
    ensures
        !(child_run(args, phase, events).1[j] is Spawn),
    decreases events.len(),
{
    let init = events.drop_last();
    lemma_child_run(args, phase, init);
    assert(child_run(args, phase, init).1[i] is Spawn);
    if j < init.len() {
        law_child_is_spawned_once(args, phase, init, i, j);
    }
}

/// The child is taken for ready only on a look that finds it running, with its
/// socket there.
pub proof fn law_ready_means_running_and_listening(
    args: StartArgsView,
    phase: ChildPhase,
    event: ChildEvent,
)
    requires
        child_next(args, phase, event).1 is Ready,
    ensures
        event == (ChildEvent::Looked { exit_status: None, socket_exists: true }),
{
}

/// The child runs the executable that is asked for, as an app-server on the
/// socket.  It gets the home that is asked for and no other variable, reads
/// nothing, writes only to the relay's stderr, and dies with the relay.
pub proof fn law_child_runs_what_is_asked_for(args: StartArgsView, socket_path: Seq<char>)
    ensures
        ({
            let command = child_command_for(args, socket_path);
            &&& command.program == args.codex
            &&& command.arguments.len() == 3
            &&& command.arguments[0] == "app-server"@
            &&& command.arguments[1] == "--listen"@
            &&& command.arguments[2] == "unix://"@ + socket_path
            &&& match args.codex_home {
                Some(home) => {
                    &&& command.environment.len() == 1
                    &&& command.environment[0].0 == "CODEX_HOME"@
                    &&& command.environment[0].1 == home
                },
                None => command.environment.len() == 0,
            }
            &&& command.stdin == ChildStream::Null
            &&& command.stdout == ChildStream::Null
            &&& command.stderr == ChildStream::Inherited
            &&& command.kill_on_drop
        }),
{
}

/// The process is started exactly when its directory was made, by a command for
/// the arguments of the run and the socket in that directory.
pub proof fn law_child_is_spawned_on_its_socket(
    args: StartArgsView,
    phase: ChildPhase,
    event: ChildEvent,
    command: ChildCommandView,
)
    ensures
        child_next(args, phase, event).1 == (ChildActionView::Spawn { command }) <==> {
            &&& phase == ChildPhase::MakingDirectory
            &&& event matches ChildEvent::DirectoryMade { socket_path }
            &&& command == child_command_for(args, socket_path@)
        },
{
}

/// A child that was started is looked at until it is ready: it is ready exactly
/// when it runs and its socket is there, and while it runs without its socket the
/// relay sleeps and looks again.
pub proof fn law_child_is_watched(args: StartArgsView, phase: ChildPhase, event: ChildEvent)
    ensures
        ({
            let action = child_next(args, phase, event).1;
            &&& action is Look <==> phase == ChildPhase::Spawning && event == ChildEvent::Spawned
            &&& action is Ready <==> phase == ChildPhase::Looking && event == (ChildEvent::Looked {
                exit_status: None,
                socket_exists: true,
            })
            &&& action is SleepAndLook <==> phase == ChildPhase::Looking && event == (
            ChildEvent::Looked { exit_status: None, socket_exists: false })
            &&& !(action is MakeDirectory)
        }),
{
}

/// Why the child does not become ready: each error comes exactly on what it
/// speaks of.
pub proof fn law_child_fails_for_a_reason(
    args: StartArgsView,
    phase: ChildPhase,
    event: ChildEvent,
    error: ChildError,
)
    ensures
        child_next(args, phase, event).1 == ChildActionView::Fail(error) <==> match error {
            ChildError::NoRuntimeDirectory => phase == ChildPhase::MakingDirectory && event
                == ChildEvent::Failed,
            ChildError::NotStarted => phase == ChildPhase::Spawning && event == ChildEvent::Failed,
            ChildError::NotInspected => phase == ChildPhase::Looking && event == ChildEvent::Failed,
            ChildError::Exited(status) => {
                &&& phase == ChildPhase::Looking
                &&& event matches ChildEvent::Looked { exit_status, .. }
                &&& exit_status == Some(status)
            },
            ChildError::TimedOut => phase == ChildPhase::Looking && event == ChildEvent::TimedOut,
        },
{
}

/// How far the start of the child is after an action: at what it does, or at its
/// end; and an event that does not belong leaves it where it was.
pub proof fn law_child_is_at_what_it_does(args: StartArgsView, phase: ChildPhase, event: ChildEvent)
    ensures
        ({
            let (after, action) = child_next(args, phase, event);
            after == match action {
                ChildActionView::MakeDirectory => ChildPhase::MakingDirectory,
                ChildActionView::Spawn { .. } => ChildPhase::Spawning,
                ChildActionView::Look => ChildPhase::Looking,
                ChildActionView::SleepAndLook => ChildPhase::Looking,
                ChildActionView::Ready => ChildPhase::Ended,
                ChildActionView::Fail(_) => ChildPhase::Ended,
                ChildActionView::Nothing => phase,
            }
        }),
{
}

/// An executable that could not be started is named, and a child that exited is
/// told with its status; nothing else that is said depends on either.
pub proof fn law_child_errors_say_why(
    error: ChildError,
    status: String,
    codex: Seq<char>,
    other_codex: Seq<char>,
)
    ensures
        child_error_text(ChildError::NotStarted, codex) == "failed to start Codex executable "@
            + codex,
        child_error_text(ChildError::Exited(status), codex) == "child app-server exited with "@
            + status@ + " before becoming ready"@,
        !(error is NotStarted) ==> child_error_text(error, codex) == child_error_text(
            error,
            other_codex,
        ),
{
}

/// The child has fifteen seconds to become ready, and is looked at forty times a
/// second.
pub proof fn law_child_has_its_time()
    ensures
        CHILD_READY_TIMEOUT_SECS == 15,
        CHILD_POLL_MILLIS * 40 == 1000,
{
}

/// Nothing of a command or an action is lost from view.
pub proof fn law_child_is_seen_whole(command: ChildCommand, action: ChildAction, i: int)
    ensures
        command@.program == command.program@,
        command@.arguments.len() == command.arguments@.len(),
        0 <= i < command.arguments@.len() ==> command@.arguments[i] == command.arguments@[i]@,
        command@.environment.len() == command.environment@.len(),
        0 <= i < command.environment@.len() ==> command@.environment[i].0
            == command.environment@[i].0@ && command@.environment[i].1
            == command.environment@[i].1@,
        command@.stdin == command.stdin,
        command@.stdout == command.stdout,
        command@.stderr == command.stderr,
        command@.kill_on_drop == command.kill_on_drop,
        match (action, action@) {
            (ChildAction::MakeDirectory, ChildActionView::MakeDirectory) => true,
            (ChildAction::Spawn { command }, ChildActionView::Spawn { command: c }) => c == command@,
            (ChildAction::Look, ChildActionView::Look) => true,
            (ChildAction::SleepAndLook, ChildActionView::SleepAndLook) => true,
            (ChildAction::Ready, ChildActionView::Ready) => true,
            (ChildAction::Fail(error), ChildActionView::Fail(e)) => e == error,
            (ChildAction::Nothing, ChildActionView::Nothing) => true,
            _ => false,
        },
{
}

/// The start of the child begins with a directory for its socket, and keeps the
/// arguments of the run.
pub proof fn law_child_begins_with_its_directory(args: StartArgs)
    ensures
        child_start(args).0.phase == ChildPhase::MakingDirectory,
        child_start(args).0.args == args,
        child_start(args).1 is MakeDirectory,
{
}

} // verus!
