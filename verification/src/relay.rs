//! One run of the relay: from the check of its login to its shutdown.

use vstd::prelude::*;

use crate::cli::{PairingMode, StartArgs};
use crate::homes::Home;
use crate::login::{credentials_in, login_start, relay_credentials, Credentials, LoginAction};
use crate::pairing::PairingTicket;
use crate::text::{copy_text, decimal, join, join3, signed_text};

verus! {

/// How long the relay waits for the remote-control websocket, in seconds.
pub const REMOTE_CONTROL_READY_TIMEOUT_SECS: u64 = 15;

/// How long the relay waits for the remote-control task to end, in seconds.
pub const REMOTE_CONTROL_STOP_TIMEOUT_SECS: u64 = 5;

/// The model provider that the enrollment state is opened for.
pub const STATE_PROVIDER: &'static str = "openai";

/// A login that the relay finds in its home.
#[derive(Debug, Clone, Copy, PartialEq, Eq, Structural)]
pub enum AuthKind {
    Chatgpt,
    ChatgptAuthTokens,
    /// Any other login, such as by an API key.
    Other,
}

/// Whether the relay may use a login.
pub open spec fn is_chatgpt_login(auth: Option<AuthKind>) -> bool {
    auth == Some(AuthKind::Chatgpt) || auth == Some(AuthKind::ChatgptAuthTokens)
}

/// Why a run of the relay fails.
#[derive(Debug)]
pub enum RelayError {
    NotChatgptLogin,
    NotAuthenticated,
    /// A step of the start failed; its own error says why.
    StartFailed,
    DisabledBeforePairing,
    ErroredBeforePairing,
    StatusClosed,
    StatusTimedOut,
    PairingFailed,
    NoPairingCode,
    TransportClosed,
    ChildExited(String),
    ChildWaitFailed,
    RemoteStopped,
    RemotePanicked,
    /// Ctrl-C cannot be waited for; its own error says why.
    SignalFailed,
}

/// What an error says, apart from its cause; `None` where the cause says it all.
pub open spec fn relay_error_text(error: RelayError) -> Option<Seq<char>> {
    match error {
        RelayError::NotChatgptLogin => Some(
            "relay authentication is not a ChatGPT login; run `codex-relay login`"@,
        ),
        RelayError::NotAuthenticated => Some(
            "relay is not authenticated; run `codex-relay login` first"@,
        ),
        RelayError::StartFailed => None,
        RelayError::DisabledBeforePairing => Some("remote control became disabled before pairing"@),
        RelayError::ErroredBeforePairing => Some(
            "remote-control websocket failed before pairing; check the relay account and backend URL"@,
        ),
        RelayError::StatusClosed => Some("remote-control status channel closed before pairing"@),
        RelayError::StatusTimedOut => Some(
            "timed out waiting for the remote-control websocket before pairing"@,
        ),
        RelayError::PairingFailed => Some("failed to create a manual remote-control pairing code"@),
        RelayError::NoPairingCode => Some(
            "remote-control backend did not return the requested manual pairing code"@,
        ),
        RelayError::TransportClosed => Some("remote-control transport event channel closed"@),
        RelayError::ChildExited(status) => Some(
            "child app-server exited unexpectedly with "@ + status@,
        ),
        RelayError::ChildWaitFailed => Some("failed to wait for child app-server"@),
        RelayError::RemoteStopped => Some("remote-control transport stopped unexpectedly"@),
        RelayError::RemotePanicked => Some("remote-control task panicked"@),
        RelayError::SignalFailed => None,
    }
}

impl RelayError {
    /// What the error says, apart from its cause; `None` where the cause says
    /// it all.
    pub fn message(&self) -> (text: Option<String>)
        ensures
            match text {
                Some(text) => relay_error_text(*self) == Some(text@),
                None => relay_error_text(*self) is None,
            },
    {
        match self {
            RelayError::NotChatgptLogin => Some(
                "relay authentication is not a ChatGPT login; run `codex-relay login`".to_owned(),
            ),
            RelayError::NotAuthenticated => Some(
                "relay is not authenticated; run `codex-relay login` first".to_owned(),
            ),
            RelayError::StartFailed => None,
            RelayError::DisabledBeforePairing => Some(
                "remote control became disabled before pairing".to_owned(),
            ),
            RelayError::ErroredBeforePairing => Some(
                "remote-control websocket failed before pairing; check the relay account and backend URL".to_owned(),
            ),
            RelayError::StatusClosed => Some(
                "remote-control status channel closed before pairing".to_owned(),
            ),
            RelayError::StatusTimedOut => Some(
                "timed out waiting for the remote-control websocket before pairing".to_owned(),
            ),
            RelayError::PairingFailed => Some(
                "failed to create a manual remote-control pairing code".to_owned(),
            ),
            RelayError::NoPairingCode => Some(
                "remote-control backend did not return the requested manual pairing code".to_owned(),
            ),
            RelayError::TransportClosed => Some(
                "remote-control transport event channel closed".to_owned(),
            ),
            RelayError::ChildExited(status) => Some(
                join("child app-server exited unexpectedly with ", status.as_str()),
            ),
            RelayError::ChildWaitFailed => Some("failed to wait for child app-server".to_owned()),
            RelayError::RemoteStopped => Some(
                "remote-control transport stopped unexpectedly".to_owned(),
            ),
            RelayError::RemotePanicked => Some("remote-control task panicked".to_owned()),
            RelayError::SignalFailed => None,
        }
    }
}

/// The state of the remote-control websocket.
#[derive(Debug)]
pub enum RemoteControlConnectionStatus {
    Disabled,
    Connecting,
    Connected { server_name: String, environment_id: Option<String> },
    Errored,
}

/// What a run of the relay is to do.
#[derive(Debug)]
pub struct RelayPlan {
    pub relay_home: Home,
    pub codex_home: Home,
    pub args: StartArgs,
    pub mode: PairingMode,
}

/// How to look for a login.
#[derive(Debug)]
pub struct LoginLookup {
    pub credentials: Credentials,
    /// Whether an API key in the environment will do.
    pub api_key_from_environment: bool,
    /// The backend that the login is for.
    pub remote_control_url: String,
}

/// The login of a run is the one in the relay's home, for the backend of the
/// run.  An API key in the environment will not do.
pub open spec fn lookup_for(plan: RelayPlan) -> LoginLookup {
    LoginLookup {
        credentials: credentials_in(plan.relay_home),
        api_key_from_environment: false,
        remote_control_url: plan.args.remote_control_url,
    }
}

/// How a run looks for its login.
pub fn login_lookup(plan: &RelayPlan) -> (lookup: LoginLookup)
    ensures
        lookup == lookup_for(*plan),
{
    LoginLookup {
        credentials: relay_credentials(&plan.relay_home),
        api_key_from_environment: false,
        remote_control_url: plan.args.remote_control_url.clone(),
    }
}

/// What happens during a run of the relay.
#[derive(Debug)]
pub enum RelayEvent {
    /// The login that the relay's home holds, if it holds one.
    Login(Option<AuthKind>),
    /// The step at hand was done.
    Done,
    /// The step at hand failed.
    Failed,
    /// The identity of this installation.
    InstallationId(String),
    /// The state of the remote-control websocket.
    Status(RemoteControlConnectionStatus),
    /// The state of the websocket will not be reported any more.
    StatusClosed,
    /// The time for the step at hand has run out.
    TimedOut,
    /// What the backend answers to the request for a pairing code.
    Pairing { manual_pairing_code: Option<String>, expires_at: i64 },
    /// The bridges have ended in good order.
    BridgesEnded,
    /// The bridges have ended because the transport is gone.
    BridgesFailed,
    /// The child app-server has exited with this status.
    ChildExited(String),
    /// The child app-server cannot be waited for.
    ChildWaitFailed,
    /// The remote-control task has ended.
    RemoteStopped,
    /// The remote-control task has panicked.
    RemotePanicked,
    /// Ctrl-C was pressed.
    Interrupted,
    /// Ctrl-C cannot be waited for.
    SignalFailed,
    /// The child is down; whether the remote-control task has ended too.
    ChildStopped { remote_finished: bool },
}

/// How a run ends.
#[derive(Debug)]
pub enum Outcome {
    Success,
    Failure(RelayError),
}

/// What the relay does next.
#[derive(Debug)]
pub enum RelayAction {
    /// Look for a login.
    FindLogin { lookup: LoginLookup },
    /// Open the enrollment state in a home, for a model provider.
    OpenState { home: Home, provider: &'static str },
    /// Load or create the installation identity in a home.
    LoadInstallationId { home: Home },
    /// Start remote control by the backend, under this identity and name.  It is
    /// allowed if `allowed`, and enabled from the start if `enabled`, for this run
    /// alone if `ephemeral`.
    StartRemoteControl {
        remote_control_url: String,
        installation_id: String,
        name: Option<String>,
        allowed: bool,
        enabled: bool,
        ephemeral: bool,
    },
    /// Start the child app-server.
    StartChild { args: StartArgs },
    /// Begin to wait for the remote-control websocket.
    AwaitWebsocket,
    /// Wait for the next state of the websocket, within the same time.
    AwaitChange,
    /// Ask the backend for a pairing code that can be typed in.
    CreatePairing { manual_code: bool, server_name: String, environment_id: Option<String> },
    /// Bridge connections until something stops the relay, and watch over
    /// `ticket` if there is one.
    Bridge { ticket: Option<PairingTicket> },
    /// Tell everything to shut down, kill the child, and wait for its end.
    StopChild,
    /// Wait for the remote-control task to end.
    AwaitRemote,
    /// End the run, after the remote-control task is aborted if `abort_remote`.
    Exit { outcome: Outcome, abort_remote: bool },
    /// Nothing: the event does not belong here.
    Nothing,
}

/// How far a run has come.
#[derive(Debug)]
pub enum RelayPhase {
    FindingLogin,
    OpeningState,
    LoadingInstallationId,
    StartingRemoteControl,
    StartingChild,
    AwaitingWebsocket,
    CreatingPairing,
    Bridging,
    StoppingChild { outcome: Outcome },
    AwaitingRemote { outcome: Outcome },
    Exited,
}

/// The end of a run by an error that leaves everything to the end of the
/// process.
pub open spec fn give_up(error: RelayError) -> (RelayPhase, RelayAction) {
    (
        RelayPhase::Exited,
        RelayAction::Exit { outcome: Outcome::Failure(error), abort_remote: false },
    )
}

/// The orderly shutdown of a run.
pub open spec fn shut_down(outcome: Outcome) -> (RelayPhase, RelayAction) {
    (RelayPhase::StoppingChild { outcome }, RelayAction::StopChild)
}

/// What a run does on the state of the websocket while it waits for it.
pub open spec fn status_next(status: RemoteControlConnectionStatus) -> (RelayPhase, RelayAction) {
    match status {
        RemoteControlConnectionStatus::Connected { server_name, environment_id } => (
            RelayPhase::CreatingPairing,
            RelayAction::CreatePairing { manual_code: true, server_name, environment_id },
        ),
        RemoteControlConnectionStatus::Connecting => (
            RelayPhase::AwaitingWebsocket,
            RelayAction::AwaitChange,
        ),
        RemoteControlConnectionStatus::Disabled => give_up(RelayError::DisabledBeforePairing),
        RemoteControlConnectionStatus::Errored => give_up(RelayError::ErroredBeforePairing),
    }
}

/// What a run does on an event, and how far it comes.
pub open spec fn relay_next(plan: RelayPlan, phase: RelayPhase, event: RelayEvent) -> (
    RelayPhase,
    RelayAction,
) {
    match (phase, event) {
        (RelayPhase::FindingLogin, RelayEvent::Login(auth)) => if is_chatgpt_login(auth) {
            (RelayPhase::OpeningState, RelayAction::OpenState { home: plan.codex_home, provider: STATE_PROVIDER })
        } else if auth is Some {
            give_up(RelayError::NotChatgptLogin)
        } else {
            give_up(RelayError::NotAuthenticated)
        },
        (RelayPhase::OpeningState, RelayEvent::Done) => (
            RelayPhase::LoadingInstallationId,
            RelayAction::LoadInstallationId { home: plan.codex_home },
        ),
        (RelayPhase::LoadingInstallationId, RelayEvent::InstallationId(installation_id)) => (
            RelayPhase::StartingRemoteControl,
            RelayAction::StartRemoteControl {
                remote_control_url: plan.args.remote_control_url,
                installation_id,
                name: plan.args.name,
                allowed: true,
                enabled: true,
                ephemeral: true,
            },
        ),
        (RelayPhase::StartingRemoteControl, RelayEvent::Done) => (
            RelayPhase::StartingChild,
            RelayAction::StartChild { args: plan.args },
        ),
        (RelayPhase::StartingChild, RelayEvent::Done) => match plan.mode {
            PairingMode::Manual => (RelayPhase::AwaitingWebsocket, RelayAction::AwaitWebsocket),
            PairingMode::NoPairing => (RelayPhase::Bridging, RelayAction::Bridge { ticket: None }),
        },
        (RelayPhase::OpeningState, RelayEvent::Failed) => give_up(RelayError::StartFailed),
        (RelayPhase::LoadingInstallationId, RelayEvent::Failed) => give_up(RelayError::StartFailed),
        (RelayPhase::StartingRemoteControl, RelayEvent::Failed) => give_up(RelayError::StartFailed),
        (RelayPhase::StartingChild, RelayEvent::Failed) => give_up(RelayError::StartFailed),
        (RelayPhase::AwaitingWebsocket, RelayEvent::Status(status)) => status_next(status),
        (RelayPhase::AwaitingWebsocket, RelayEvent::StatusClosed) => give_up(
            RelayError::StatusClosed,
        ),
        (RelayPhase::AwaitingWebsocket, RelayEvent::TimedOut) => give_up(RelayError::StatusTimedOut),
        (RelayPhase::CreatingPairing, RelayEvent::Pairing { manual_pairing_code, expires_at }) => match manual_pairing_code {
            Some(manual_code) => (
                RelayPhase::Bridging,
                RelayAction::Bridge { ticket: Some(PairingTicket { manual_code, expires_at }) },
            ),
            None => give_up(RelayError::NoPairingCode),
        },
        (RelayPhase::CreatingPairing, RelayEvent::Failed) => give_up(RelayError::PairingFailed),
        (RelayPhase::Bridging, RelayEvent::BridgesEnded) => shut_down(Outcome::Success),
        (RelayPhase::Bridging, RelayEvent::BridgesFailed) => shut_down(
            Outcome::Failure(RelayError::TransportClosed),
        ),
        (RelayPhase::Bridging, RelayEvent::ChildExited(status)) => shut_down(
            Outcome::Failure(RelayError::ChildExited(status)),
        ),
        (RelayPhase::Bridging, RelayEvent::RemoteStopped) => shut_down(
            Outcome::Failure(RelayError::RemoteStopped),
        ),
        (RelayPhase::Bridging, RelayEvent::Interrupted) => shut_down(Outcome::Success),
        (RelayPhase::Bridging, RelayEvent::SignalFailed) => shut_down(
            Outcome::Failure(RelayError::SignalFailed),
        ),
        (RelayPhase::Bridging, RelayEvent::ChildWaitFailed) => give_up(RelayError::ChildWaitFailed),
        (RelayPhase::Bridging, RelayEvent::RemotePanicked) => give_up(RelayError::RemotePanicked),
        (RelayPhase::StoppingChild { outcome }, RelayEvent::ChildStopped { remote_finished }) => if remote_finished {
            (RelayPhase::Exited, RelayAction::Exit { outcome, abort_remote: false })
        } else {
            (RelayPhase::AwaitingRemote { outcome }, RelayAction::AwaitRemote)
        },
        (RelayPhase::AwaitingRemote { outcome }, RelayEvent::Done) => (
            RelayPhase::Exited,
            RelayAction::Exit { outcome, abort_remote: false },
        ),
        (RelayPhase::AwaitingRemote { outcome }, RelayEvent::TimedOut) => (
            RelayPhase::Exited,
            RelayAction::Exit { outcome, abort_remote: true },
        ),
        (phase, _) => (phase, RelayAction::Nothing),
    }
}

/// The verdict on a login.
pub fn check_login(auth: Option<AuthKind>) -> (verdict: Result<(), RelayError>)
    ensures
        match verdict {
            Ok(()) => is_chatgpt_login(auth),
            Err(RelayError::NotAuthenticated) => auth is None,
            Err(RelayError::NotChatgptLogin) => auth == Some(AuthKind::Other),
            Err(_) => false,
        },
{
    match auth {
        Some(AuthKind::Chatgpt) | Some(AuthKind::ChatgptAuthTokens) => Ok(()),
        Some(AuthKind::Other) => Err(RelayError::NotChatgptLogin),
        None => Err(RelayError::NotAuthenticated),
    }
}

fn exit_with(error: RelayError) -> (next: (RelayPhase, RelayAction))
    ensures
        next == give_up(error),
{
    (
        RelayPhase::Exited,
        RelayAction::Exit { outcome: Outcome::Failure(error), abort_remote: false },
    )
}

fn stop_with(outcome: Outcome) -> (next: (RelayPhase, RelayAction))
    ensures
        next == shut_down(outcome),
{
    (RelayPhase::StoppingChild { outcome }, RelayAction::StopChild)
}

/// What a run does on the state of the websocket while it waits for it.
pub fn websocket_status(status: RemoteControlConnectionStatus) -> (next: (RelayPhase, RelayAction))
    ensures
        next == status_next(status),
{
    match status {
        RemoteControlConnectionStatus::Connected { server_name, environment_id } => (
            RelayPhase::CreatingPairing,
            RelayAction::CreatePairing { manual_code: true, server_name, environment_id },
        ),
        RemoteControlConnectionStatus::Connecting => (
            RelayPhase::AwaitingWebsocket,
            RelayAction::AwaitChange,
        ),
        RemoteControlConnectionStatus::Disabled => exit_with(RelayError::DisabledBeforePairing),
        RemoteControlConnectionStatus::Errored => exit_with(RelayError::ErroredBeforePairing),
    }
}

/// How a run begins.
pub open spec fn relay_start(plan: RelayPlan) -> (RelayPhase, RelayAction) {
    (
        RelayPhase::FindingLogin,
        RelayAction::FindLogin { lookup: lookup_for(plan) },
    )
}

/// Begins a run.
pub fn begin_relay(plan: &RelayPlan) -> (start: (RelayPhase, RelayAction))
    ensures
        start == relay_start(*plan),
{
    (
        RelayPhase::FindingLogin,
        RelayAction::FindLogin { lookup: login_lookup(plan) },
    )
}

/// Takes an event of a run that has come to `phase`.
pub fn run_relay(plan: &RelayPlan, phase: RelayPhase, event: RelayEvent) -> (next: (
    RelayPhase,
    RelayAction,
))
    ensures
        next == relay_next(*plan, phase, event),
{
    match (phase, event) {
        (RelayPhase::FindingLogin, RelayEvent::Login(auth)) => match check_login(auth) {
            Ok(()) => (
                RelayPhase::OpeningState,
                RelayAction::OpenState { home: plan.codex_home.copy(), provider: STATE_PROVIDER },
            ),
            Err(error) => exit_with(error),
        },
        (RelayPhase::OpeningState, RelayEvent::Done) => (
            RelayPhase::LoadingInstallationId,
            RelayAction::LoadInstallationId { home: plan.codex_home.copy() },
        ),
        (RelayPhase::LoadingInstallationId, RelayEvent::InstallationId(installation_id)) => (
            RelayPhase::StartingRemoteControl,
            RelayAction::StartRemoteControl {
                remote_control_url: plan.args.remote_control_url.clone(),
                installation_id,
                name: copy_text(&plan.args.name),
                allowed: true,
                enabled: true,
                ephemeral: true,
            },
        ),
        (RelayPhase::StartingRemoteControl, RelayEvent::Done) => (
            RelayPhase::StartingChild,
            RelayAction::StartChild { args: plan.args.copy() },
        ),
        (RelayPhase::StartingChild, RelayEvent::Done) => match plan.mode {
            PairingMode::Manual => (RelayPhase::AwaitingWebsocket, RelayAction::AwaitWebsocket),
            PairingMode::NoPairing => (RelayPhase::Bridging, RelayAction::Bridge { ticket: None }),
        },
        (RelayPhase::OpeningState, RelayEvent::Failed) => exit_with(RelayError::StartFailed),
        (RelayPhase::LoadingInstallationId, RelayEvent::Failed) => exit_with(
            RelayError::StartFailed,
        ),
        (RelayPhase::StartingRemoteControl, RelayEvent::Failed) => exit_with(
            RelayError::StartFailed,
        ),
        (RelayPhase::StartingChild, RelayEvent::Failed) => exit_with(RelayError::StartFailed),
        (RelayPhase::AwaitingWebsocket, RelayEvent::Status(status)) => websocket_status(status),
        (RelayPhase::AwaitingWebsocket, RelayEvent::StatusClosed) => exit_with(
            RelayError::StatusClosed,
        ),
        (RelayPhase::AwaitingWebsocket, RelayEvent::TimedOut) => exit_with(
            RelayError::StatusTimedOut,
        ),
        (RelayPhase::CreatingPairing, RelayEvent::Pairing { manual_pairing_code, expires_at }) => match manual_pairing_code {
            Some(manual_code) => (
                RelayPhase::Bridging,
                RelayAction::Bridge { ticket: Some(PairingTicket { manual_code, expires_at }) },
            ),
            None => exit_with(RelayError::NoPairingCode),
        },
        (RelayPhase::CreatingPairing, RelayEvent::Failed) => exit_with(RelayError::PairingFailed),
        (RelayPhase::Bridging, RelayEvent::BridgesEnded) => stop_with(Outcome::Success),
        (RelayPhase::Bridging, RelayEvent::BridgesFailed) => stop_with(
            Outcome::Failure(RelayError::TransportClosed),
        ),
        (RelayPhase::Bridging, RelayEvent::ChildExited(status)) => stop_with(
            Outcome::Failure(RelayError::ChildExited(status)),
        ),
        (RelayPhase::Bridging, RelayEvent::RemoteStopped) => stop_with(
            Outcome::Failure(RelayError::RemoteStopped),
        ),
        (RelayPhase::Bridging, RelayEvent::Interrupted) => stop_with(Outcome::Success),
        (RelayPhase::Bridging, RelayEvent::SignalFailed) => stop_with(
            Outcome::Failure(RelayError::SignalFailed),
        ),
        (RelayPhase::Bridging, RelayEvent::ChildWaitFailed) => exit_with(
            RelayError::ChildWaitFailed,
        ),
        (RelayPhase::Bridging, RelayEvent::RemotePanicked) => exit_with(RelayError::RemotePanicked),
        (RelayPhase::StoppingChild { outcome }, RelayEvent::ChildStopped { remote_finished }) => if remote_finished {
            (RelayPhase::Exited, RelayAction::Exit { outcome, abort_remote: false })
        } else {
            (RelayPhase::AwaitingRemote { outcome }, RelayAction::AwaitRemote)
        },
        (RelayPhase::AwaitingRemote { outcome }, RelayEvent::Done) => (
            RelayPhase::Exited,
            RelayAction::Exit { outcome, abort_remote: false },
        ),
        (RelayPhase::AwaitingRemote { outcome }, RelayEvent::TimedOut) => (
            RelayPhase::Exited,
            RelayAction::Exit { outcome, abort_remote: true },
        ),
        (phase, _) => (phase, RelayAction::Nothing),
    }
}

/// The name of an environment for a reader.
pub open spec fn environment_name(environment_id: Option<String>) -> Seq<char> {
    match environment_id {
        Some(id) => id@,
        None => "unknown"@,
    }
}

/// The lines that the relay prints before it takes an action.
pub open spec fn action_lines(action: RelayAction) -> Seq<Seq<char>> {
    match action {
        RelayAction::AwaitWebsocket => seq![
            "Waiting for the remote-control websocket to connect..."@,
        ],
        RelayAction::CreatePairing { server_name, environment_id, .. } => seq![
            "Remote-control websocket connected as "@ + server_name@ + " (environment "@
                + environment_name(environment_id) + ")."@,
        ],
        RelayAction::Bridge { ticket: Some(ticket) } => seq![
            "Pairing code: "@ + ticket.manual_code@,
            "Pairing expires at Unix time "@ + decimal(ticket.expires_at as int),
            "Waiting for ChatGPT to claim the pairing code..."@,
            "Relay connected; press Ctrl-C to stop."@,
        ],
        RelayAction::Bridge { ticket: None } => seq!["Relay connected; press Ctrl-C to stop."@],
        _ => seq![],
    }
}

/// The characters of a list of lines.
pub open spec fn lines_view(lines: Seq<String>) -> Seq<Seq<char>> {
    lines.map_values(|line: String| line@)
}

impl RelayAction {
    /// The lines to print before the action is taken.
    pub fn lines(&self) -> (lines: Vec<String>)
        ensures
            lines_view(lines@) == action_lines(*self),
    {
        let mut lines: Vec<String> = Vec::new();
        match self {
            RelayAction::AwaitWebsocket => {
                lines.push("Waiting for the remote-control websocket to connect...".to_owned());
            },
            RelayAction::CreatePairing { server_name, environment_id, .. } => {
                let environment: &str = match environment_id {
                    Some(id) => id.as_str(),
                    None => "unknown",
                };
                let connected = join3(
                    "Remote-control websocket connected as ",
                    server_name.as_str(),
                    " (environment ",
                );
                lines.push(join3(connected.as_str(), environment, ")."));
            },
            RelayAction::Bridge { ticket } => {
                if let Some(ticket) = ticket {
                    lines.push(join("Pairing code: ", ticket.manual_code.as_str()));
                    lines.push(
                        join(
                            "Pairing expires at Unix time ",
                            signed_text(ticket.expires_at).as_str(),
                        ),
                    );
                    lines.push("Waiting for ChatGPT to claim the pairing code...".to_owned());
                }
                lines.push("Relay connected; press Ctrl-C to stop.".to_owned());
            },
            _ => {},
        }
        proof {
            assert(lines_view(lines@) =~= action_lines(*self));
        }
        lines
    }
}

/// How far a run comes by a sequence of events, and what it does on each.
pub open spec fn relay_run(plan: RelayPlan, phase: RelayPhase, events: Seq<RelayEvent>) -> (
    RelayPhase,
    Seq<RelayAction>,
)
    decreases events.len(),
{
    if events.len() == 0 {
        (phase, Seq::empty())
    } else {
        let before = relay_run(plan, phase, events.drop_last());
        let last = relay_next(plan, before.0, events.last());
        (last.0, before.1.push(last.1))
    }
}

proof fn lemma_run_len(plan: RelayPlan, phase: RelayPhase, events: Seq<RelayEvent>)
    ensures
        relay_run(plan, phase, events).1.len() == events.len(),
    decreases events.len(),
{
    if events.len() > 0 {
        lemma_run_len(plan, phase, events.drop_last());
    }
}

proof fn lemma_run_at(plan: RelayPlan, phase: RelayPhase, events: Seq<RelayEvent>, i: int)
    requires
        0 <= i < events.len(),
    ensures
        relay_run(plan, phase, events).1.len() == events.len(),
        relay_run(plan, phase, events).1[i] == relay_next(
            plan,
            relay_run(plan, phase, events.take(i)).0,
            events[i],
        ).1,
        relay_run(plan, phase, events.take(i + 1)).0 == relay_next(
            plan,
            relay_run(plan, phase, events.take(i)).0,
            events[i],
        ).0,
    decreases events.len(),
{
    let init = events.drop_last();
    lemma_run_len(plan, phase, init);
    if i == events.len() - 1 {
        assert(events.take(i) =~= init);
        assert(events.take(i + 1) =~= events);
    } else {
        lemma_run_at(plan, phase, init, i);
        assert(init.take(i) =~= events.take(i));
        assert(init.take(i + 1) =~= events.take(i + 1));
        assert(init[i] == events[i]);
    }
}

/// Whether a ChatGPT login is among the events.
pub open spec fn logged_in(events: Seq<RelayEvent>) -> bool {
    exists|i: int|
        0 <= i < events.len() && (#[trigger] events[i] matches RelayEvent::Login(auth)
            && is_chatgpt_login(auth))
}

proof fn lemma_phase_after_login(plan: RelayPlan, events: Seq<RelayEvent>)
    ensures
        ({
            let phase = relay_run(plan, RelayPhase::FindingLogin, events).0;
            phase is FindingLogin || phase is Exited || logged_in(events)
        }),
    decreases events.len(),
{
    if events.len() > 0 {
        let init = events.drop_last();
        lemma_phase_after_login(plan, init);
        if logged_in(init) {
            let i = choose|i: int|
                0 <= i < init.len() && (#[trigger] init[i] matches RelayEvent::Login(auth)
                    && is_chatgpt_login(auth));
            assert(events[i] == init[i]);
        } else {
            assert(events[events.len() - 1] == events.last());
        }
    }
}

/// Without a ChatGPT login a run does nothing but end: it opens no state,
/// connects to nothing and starts no child.
pub proof fn law_nothing_is_done_without_login(plan: RelayPlan, events: Seq<RelayEvent>, i: int)
    requires
        0 <= i < events.len(),
        !logged_in(events),
    ensures
        ({
            let action = relay_run(plan, RelayPhase::FindingLogin, events).1[i];
            action is Nothing || action is Exit
        }),
{
    lemma_run_at(plan, RelayPhase::FindingLogin, events, i);
    lemma_phase_after_login(plan, events.take(i));
    if logged_in(events.take(i)) {
        let k = choose|k: int|
            0 <= k < i && (#[trigger] events.take(i)[k] matches RelayEvent::Login(auth)
                && is_chatgpt_login(auth));
        assert(events[k] == events.take(i)[k]);
    }
    if let RelayEvent::Login(auth) = events[i] {
        assert(!is_chatgpt_login(auth));
    }
}

/// The credentials come from the relay's home; the enrollment state and the
/// installation identity live in the child's home.
pub proof fn law_homes_are_kept_apart(
    plan: RelayPlan,
    phase: RelayPhase,
    events: Seq<RelayEvent>,
    i: int,
)
    requires
        0 <= i < events.len(),
    ensures
        relay_start(plan).1 matches RelayAction::FindLogin { lookup } && lookup.credentials.home
            == plan.relay_home,
        match relay_run(plan, phase, events).1[i] {
            RelayAction::FindLogin { lookup } => lookup.credentials.home == plan.relay_home,
            RelayAction::OpenState { home, .. } => home == plan.codex_home,
            RelayAction::LoadInstallationId { home } => home == plan.codex_home,
            _ => true,
        },
{
    lemma_run_at(plan, phase, events, i);
}

/// A run looks for its login where a login puts it: in a file of the relay's
/// home, whichever way the user logged in.  The home of the child does not
/// matter for it.
pub proof fn law_login_is_found_where_it_was_put(
    plan: RelayPlan,
    other_codex_home: Home,
    browser: bool,
)
    ensures
        ({
            let lookup = lookup_for(plan);
            &&& lookup.credentials.in_file
            &&& match login_start(plan.relay_home, browser).1 {
                LoginAction::DeviceCode { credentials } => credentials == lookup.credentials,
                LoginAction::StartServer { credentials } => credentials == lookup.credentials,
                _ => false,
            }
            &&& lookup_for(RelayPlan { codex_home: other_codex_home, ..plan }) == lookup
        }),
{
}

/// Whether a run that has come to `phase` is pairing, or about to.
pub open spec fn is_pairing(phase: RelayPhase) -> bool {
    phase is AwaitingWebsocket || phase is CreatingPairing
}

proof fn lemma_pairing_needs_mode(plan: RelayPlan, events: Seq<RelayEvent>)
    ensures
        is_pairing(relay_run(plan, RelayPhase::FindingLogin, events).0) ==> plan.mode
            == PairingMode::Manual,
    decreases events.len(),
{
    if events.len() > 0 {
        lemma_pairing_needs_mode(plan, events.drop_last());
    }
}

/// A pairing code is asked for only in a run that is to pair, only once the
/// websocket is connected, and always as one that can be typed in.  A ticket is
/// watched over only with the code that the backend gave for it.
pub proof fn law_pairing_follows_connection(plan: RelayPlan, events: Seq<RelayEvent>, i: int)
    requires
        0 <= i < events.len(),
    ensures
        match relay_run(plan, RelayPhase::FindingLogin, events).1[i] {
            RelayAction::CreatePairing { manual_code, .. } => {
                &&& manual_code
                &&& plan.mode == PairingMode::Manual
                &&& events[i] matches RelayEvent::Status(status) && status is Connected
            },
            RelayAction::Bridge { ticket: Some(ticket) } => {
                &&& plan.mode == PairingMode::Manual
                &&& events[i] == (RelayEvent::Pairing {
                    manual_pairing_code: Some(ticket.manual_code),
                    expires_at: ticket.expires_at,
                })
            },
            RelayAction::Bridge { ticket: None } => plan.mode == PairingMode::NoPairing,
            _ => true,
        },
{
    lemma_run_at(plan, RelayPhase::FindingLogin, events, i);
    lemma_pairing_needs_mode(plan, events.take(i));
}

/// How many steps lie behind a run that has come to `phase`.
pub open spec fn steps_behind(phase: RelayPhase) -> int {
    match phase {
        RelayPhase::FindingLogin => 0,
        RelayPhase::OpeningState => 1,
        RelayPhase::LoadingInstallationId => 2,
        RelayPhase::StartingRemoteControl => 3,
        RelayPhase::StartingChild => 4,
        RelayPhase::AwaitingWebsocket => 5,
        RelayPhase::CreatingPairing => 6,
        RelayPhase::Bridging => 7,
        RelayPhase::StoppingChild { .. } => 8,
        RelayPhase::AwaitingRemote { .. } => 9,
        RelayPhase::Exited => 10,
    }
}

proof fn lemma_steps_grow(
    plan: RelayPlan,
    phase: RelayPhase,
    events: Seq<RelayEvent>,
    from: int,
    to: int,
)
    requires
        0 <= from <= to <= events.len(),
    ensures
        steps_behind(relay_run(plan, phase, events.take(from)).0) <= steps_behind(
            relay_run(plan, phase, events.take(to)).0,
        ),
    decreases to - from,
{
    if from < to {
        lemma_run_at(plan, phase, events, from);
        lemma_steps_grow(plan, phase, events, from + 1, to);
    }
}

/// Each part of a run is started at most once: the remote-control transport, the
/// child app-server, the pairing and the bridges.
pub proof fn law_parts_are_started_once(
    plan: RelayPlan,
    phase: RelayPhase,
    events: Seq<RelayEvent>,
    i: int,
    j: int,
)
    requires
        0 <= i < j < events.len(),
    ensures
        ({
            let actions = relay_run(plan, phase, events).1;
            &&& !(actions[i] is StartRemoteControl && actions[j] is StartRemoteControl)
            &&& !(actions[i] is StartChild && actions[j] is StartChild)
            &&& !(actions[i] is CreatePairing && actions[j] is CreatePairing)
            &&& !(actions[i] is Bridge && actions[j] is Bridge)
        }),
{
    lemma_run_at(plan, phase, events, i);
    lemma_run_at(plan, phase, events, j);
    lemma_steps_grow(plan, phase, events, i + 1, j);
}

/// While the relay bridges connections, the exit of the child and the end of
/// the remote-control transport both end the run, with an error, and Ctrl-C ends
/// it without one.  In each of these cases the child is shut down first.
pub proof fn law_relay_ends_with_its_parts(plan: RelayPlan, status: String)
    ensures
        relay_next(plan, RelayPhase::Bridging, RelayEvent::ChildExited(status)) == shut_down(
            Outcome::Failure(RelayError::ChildExited(status)),
        ),
        relay_next(plan, RelayPhase::Bridging, RelayEvent::RemoteStopped) == shut_down(
            Outcome::Failure(RelayError::RemoteStopped),
        ),
        relay_next(plan, RelayPhase::Bridging, RelayEvent::BridgesFailed) == shut_down(
            Outcome::Failure(RelayError::TransportClosed),
        ),
        relay_next(plan, RelayPhase::Bridging, RelayEvent::Interrupted) == shut_down(
            Outcome::Success,
        ),
{
}

/// Whether a run that has come to `phase` can only end, with `outcome`.
pub open spec fn bound_for(phase: RelayPhase, outcome: Outcome) -> bool {
    ||| phase == (RelayPhase::StoppingChild { outcome })
    ||| phase == (RelayPhase::AwaitingRemote { outcome })
    ||| phase is Exited
}

proof fn lemma_bound(plan: RelayPlan, outcome: Outcome, events: Seq<RelayEvent>)
    ensures
        bound_for(
            relay_run(plan, RelayPhase::StoppingChild { outcome }, events).0,
            outcome,
        ),
    decreases events.len(),
{
    if events.len() > 0 {
        lemma_bound(plan, outcome, events.drop_last());
    }
}

/// Once a shutdown has begun, the run goes nowhere else, and ends with the
/// outcome that began it.
pub proof fn law_shutdown_keeps_its_outcome(
    plan: RelayPlan,
    outcome: Outcome,
    events: Seq<RelayEvent>,
    i: int,
)
    requires
        0 <= i < events.len(),
    ensures
        match relay_run(plan, RelayPhase::StoppingChild { outcome }, events).1[i] {
            RelayAction::Exit { outcome: end, .. } => end == outcome,
            RelayAction::AwaitRemote => true,
            RelayAction::Nothing => true,
            _ => false,
        },
{
    lemma_run_at(plan, RelayPhase::StoppingChild { outcome }, events, i);
    lemma_bound(plan, outcome, events.take(i));
}

/// A shutdown comes to its end: once the child is down, the run exits as soon as
/// the remote-control task has ended or the time for that has run out.
pub proof fn law_shutdown_exits(
    plan: RelayPlan,
    outcome: Outcome,
    remote_finished: bool,
    last: RelayEvent,
)
    requires
        last is Done || last is TimedOut,
    ensures
        ({
            let events = seq![RelayEvent::ChildStopped { remote_finished }, last];
            let run = relay_run(plan, RelayPhase::StoppingChild { outcome }, events);
            &&& run.0 is Exited
            &&& run.1[if remote_finished {
                0
            } else {
                1
            }] == (RelayAction::Exit { outcome, abort_remote: !remote_finished && last is TimedOut })
        }),
{
    let phase = RelayPhase::StoppingChild { outcome };
    let first = seq![RelayEvent::ChildStopped { remote_finished }];
    let events = seq![RelayEvent::ChildStopped { remote_finished }, last];
    assert(first.drop_last() =~= Seq::<RelayEvent>::empty());
    assert(events.drop_last() =~= first);
    assert(relay_run(plan, phase, first.drop_last()).0 == phase);
    assert(relay_run(plan, phase, first).1.len() == 1);
}

/// A run that has exited does nothing more.
pub proof fn law_exit_is_final(plan: RelayPlan, phase: RelayPhase, events: Seq<RelayEvent>, i: int, j: int)
    requires
        0 <= i < j < events.len(),
        relay_run(plan, phase, events).1[i] is Exit,
    ensures
        relay_run(plan, phase, events).1[j] is Nothing,
{
    lemma_run_at(plan, phase, events, i);
    lemma_run_at(plan, phase, events, j);
    lemma_exited_stays(plan, phase, events, i + 1, j);
}

proof fn lemma_exited_stays(
    plan: RelayPlan,
    phase: RelayPhase,
    events: Seq<RelayEvent>,
    from: int,
    to: int,
)
    requires
        0 <= from <= to <= events.len(),
        relay_run(plan, phase, events.take(from)).0 is Exited,
    ensures
        relay_run(plan, phase, events.take(to)).0 is Exited,
    decreases to - from,
{
    if from < to {
        lemma_run_at(plan, phase, events, from);
        lemma_exited_stays(plan, phase, events, from + 1, to);
    }
}

/// In every run and at every step, what is started is what the plan says: the
/// child with the arguments of the run, remote control with its backend, its name
/// and the identity that was just loaded, the state in the child's home, and the
/// login sought in a file of the relay's home, for that backend and by no key of
/// the environment.
pub proof fn law_run_follows_its_plan(
    plan: RelayPlan,
    phase: RelayPhase,
    events: Seq<RelayEvent>,
    i: int,
)
    requires
        0 <= i < events.len(),
    ensures
        match relay_run(plan, phase, events).1[i] {
            RelayAction::StartChild { args } => args == plan.args,
            RelayAction::StartRemoteControl {
                remote_control_url,
                installation_id,
                name,
                allowed,
                enabled,
                ephemeral,
            } => {
                &&& remote_control_url == plan.args.remote_control_url
                &&& name == plan.args.name
                &&& events[i] == RelayEvent::InstallationId(installation_id)
                &&& allowed && enabled && ephemeral
            },
            RelayAction::OpenState { home, provider } => home == plan.codex_home && provider@
                == "openai"@,
            RelayAction::LoadInstallationId { home } => home == plan.codex_home,
            _ => true,
        },
        relay_start(plan).0 is FindingLogin,
        relay_start(plan).1 matches RelayAction::FindLogin { lookup } && {
            &&& lookup.credentials.home == plan.relay_home
            &&& lookup.credentials.in_file
            &&& lookup.credentials.forced_workspace is None
            &&& !lookup.api_key_from_environment
            &&& lookup.remote_control_url == plan.args.remote_control_url
        },
{
    lemma_run_at(plan, phase, events, i);
}

/// The steps of the start follow one another, each exactly when the one before it
/// is done, and the first exactly on a ChatGPT login.
pub proof fn law_start_goes_step_by_step(plan: RelayPlan, phase: RelayPhase, event: RelayEvent)
    ensures
        ({
            let action = relay_next(plan, phase, event).1;
            &&& action is OpenState <==> {
                &&& phase is FindingLogin
                &&& event matches RelayEvent::Login(auth)
                &&& auth == Some(AuthKind::Chatgpt) || auth == Some(AuthKind::ChatgptAuthTokens)
            }
            &&& action is LoadInstallationId <==> phase is OpeningState && event is Done
            &&& action is StartRemoteControl <==> phase is LoadingInstallationId && event
                is InstallationId
            &&& action is StartChild <==> phase is StartingRemoteControl && event is Done
            &&& action is AwaitWebsocket <==> phase is StartingChild && event is Done && plan.mode
                == PairingMode::Manual
            &&& !(action is FindLogin)
        }),
{
}

/// The relay waits for the next state of the websocket exactly while it is
/// connecting, and asks for a manual code exactly when it is connected, as which
/// it then tells.
pub proof fn law_websocket_is_waited_for(
    plan: RelayPlan,
    phase: RelayPhase,
    event: RelayEvent,
    server_name: String,
    environment_id: Option<String>,
)
    ensures
        ({
            let action = relay_next(plan, phase, event).1;
            &&& action is AwaitChange <==> phase is AwaitingWebsocket && event == RelayEvent::Status(
                RemoteControlConnectionStatus::Connecting,
            )
            &&& action == (RelayAction::CreatePairing {
                manual_code: true,
                server_name,
                environment_id,
            }) <==> phase is AwaitingWebsocket && event == RelayEvent::Status(
                RemoteControlConnectionStatus::Connected { server_name, environment_id },
            )
            &&& action matches RelayAction::CreatePairing { manual_code, .. } ==> manual_code
        }),
{
}

/// The relay bridges connections exactly when the child has started and no code
/// is to be made, or when the backend has given the code that was asked for; and
/// in that case it watches over just that code, until just the time that the
/// backend set.
pub proof fn law_bridging_follows_the_start(
    plan: RelayPlan,
    phase: RelayPhase,
    event: RelayEvent,
    manual_code: String,
    expires_at: i64,
)
    ensures
        ({
            let action = relay_next(plan, phase, event).1;
            &&& action == (RelayAction::Bridge { ticket: None }) <==> phase is StartingChild && event
                is Done && plan.mode == PairingMode::NoPairing
            &&& action == (RelayAction::Bridge {
                ticket: Some(PairingTicket { manual_code, expires_at }),
            }) <==> phase is CreatingPairing && event == (RelayEvent::Pairing {
                manual_pairing_code: Some(manual_code),
                expires_at,
            })
        }),
{
}

/// The relay shuts down exactly when something stops it while it bridges, and
/// with the outcome that fits: success when it was interrupted or the bridges
/// ended in good order, and otherwise the error of what stopped it.
pub proof fn law_shutdown_has_its_reason(
    plan: RelayPlan,
    phase: RelayPhase,
    event: RelayEvent,
    outcome: Outcome,
)
    ensures
        ({
            let (after, action) = relay_next(plan, phase, event);
            (action is StopChild && after == (RelayPhase::StoppingChild { outcome })) <==> phase
                is Bridging && match outcome {
                Outcome::Success => event is Interrupted || event is BridgesEnded,
                Outcome::Failure(RelayError::TransportClosed) => event is BridgesFailed,
                Outcome::Failure(RelayError::ChildExited(status)) => event
                    == RelayEvent::ChildExited(status),
                Outcome::Failure(RelayError::RemoteStopped) => event is RemoteStopped,
                Outcome::Failure(RelayError::SignalFailed) => event is SignalFailed,
                _ => false,
            }
        }),
{
}

/// The relay waits for the remote-control task exactly when the child is down and
/// the task is not, and aborts it exactly when that takes too long.
pub proof fn law_remote_task_is_waited_for(
    plan: RelayPlan,
    phase: RelayPhase,
    event: RelayEvent,
    outcome: Outcome,
)
    ensures
        ({
            let (after, action) = relay_next(plan, phase, event);
            &&& (action is AwaitRemote && after == (RelayPhase::AwaitingRemote { outcome })) <==> (
            phase == (RelayPhase::StoppingChild { outcome }) && event == (
            RelayEvent::ChildStopped { remote_finished: false }))
            &&& action == (RelayAction::Exit { outcome, abort_remote: true }) <==> (phase == (
            RelayPhase::AwaitingRemote { outcome }) && event is TimedOut)
        }),
{
}

/// A run exits without an abort exactly when its shutdown is complete, with the
/// outcome that it was shut down for, or when it cannot go on, with the error of
/// what failed.
pub proof fn law_exit_has_its_reason(
    plan: RelayPlan,
    phase: RelayPhase,
    event: RelayEvent,
    outcome: Outcome,
)
    ensures
        relay_next(plan, phase, event).1 == (RelayAction::Exit { outcome, abort_remote: false }) <==> {
            ||| phase == (RelayPhase::StoppingChild { outcome }) && event == (
            RelayEvent::ChildStopped { remote_finished: true })
            ||| phase == (RelayPhase::AwaitingRemote { outcome }) && event is Done
            ||| outcome matches Outcome::Failure(error) && match error {
                RelayError::NotChatgptLogin => phase is FindingLogin && event == RelayEvent::Login(
                    Some(AuthKind::Other),
                ),
                RelayError::NotAuthenticated => phase is FindingLogin && event
                    == RelayEvent::Login(None),
                RelayError::StartFailed => event is Failed && (phase is OpeningState || phase
                    is LoadingInstallationId || phase is StartingRemoteControl || phase
                    is StartingChild),
                RelayError::DisabledBeforePairing => phase is AwaitingWebsocket && event
                    == RelayEvent::Status(RemoteControlConnectionStatus::Disabled),
                RelayError::ErroredBeforePairing => phase is AwaitingWebsocket && event
                    == RelayEvent::Status(RemoteControlConnectionStatus::Errored),
                RelayError::StatusClosed => phase is AwaitingWebsocket && event is StatusClosed,
                RelayError::StatusTimedOut => phase is AwaitingWebsocket && event is TimedOut,
                RelayError::PairingFailed => phase is CreatingPairing && event is Failed,
                RelayError::NoPairingCode => {
                    &&& phase is CreatingPairing
                    &&& event matches RelayEvent::Pairing { manual_pairing_code, .. }
                    &&& manual_pairing_code is None
                },
                RelayError::ChildWaitFailed => phase is Bridging && event is ChildWaitFailed,
                RelayError::RemotePanicked => phase is Bridging && event is RemotePanicked,
                _ => false,
            }
        },
{
    if let RelayEvent::Login(Some(auth)) = event {
        assert(auth == AuthKind::Chatgpt || auth == AuthKind::ChatgptAuthTokens || auth
            == AuthKind::Other);
    }
}

/// How far a run is after an action: at what it does, or at its end; and an event
/// that does not belong leaves it where it was.
pub proof fn law_run_is_at_what_it_does(plan: RelayPlan, phase: RelayPhase, event: RelayEvent)
    ensures
        ({
            let (after, action) = relay_next(plan, phase, event);
            match action {
                RelayAction::FindLogin { .. } => after is FindingLogin,
                RelayAction::OpenState { .. } => after is OpeningState,
                RelayAction::LoadInstallationId { .. } => after is LoadingInstallationId,
                RelayAction::StartRemoteControl { .. } => after is StartingRemoteControl,
                RelayAction::StartChild { .. } => after is StartingChild,
                RelayAction::AwaitWebsocket => after is AwaitingWebsocket,
                RelayAction::AwaitChange => after is AwaitingWebsocket,
                RelayAction::CreatePairing { .. } => after is CreatingPairing,
                RelayAction::Bridge { .. } => after is Bridging,
                RelayAction::StopChild => after is StoppingChild,
                RelayAction::AwaitRemote => after is AwaitingRemote,
                RelayAction::Exit { .. } => after is Exited,
                RelayAction::Nothing => after == phase,
            }
        }),
{
}

/// A child that exited is told with its status.
pub proof fn law_exit_of_the_child_is_told(status: String)
    ensures
        relay_error_text(RelayError::ChildExited(status)) == Some(
            "child app-server exited unexpectedly with "@ + status@,
        ),
{
}

/// What the user is told: the name under which the websocket is connected, with
/// its environment where that is known; the code, with the time when it expires;
/// that the relay waits; and that it runs.  Nothing is said of anything else.
pub proof fn law_user_is_told(action: RelayAction)
    ensures
        ({
            let lines = action_lines(action);
            match action {
                RelayAction::AwaitWebsocket => lines.len() == 1 && lines[0]
                    == "Waiting for the remote-control websocket to connect..."@,
                RelayAction::CreatePairing { server_name, environment_id, .. } => lines.len() == 1
                    && match environment_id {
                    Some(id) => lines[0] == "Remote-control websocket connected as "@ + server_name@
                        + " (environment "@ + id@ + ")."@,
                    None => lines[0] == "Remote-control websocket connected as "@ + server_name@
                        + " (environment "@ + "unknown"@ + ")."@,
                },
                RelayAction::Bridge { ticket: Some(ticket) } => {
                    &&& lines.len() == 4
                    &&& lines[0] == "Pairing code: "@ + ticket.manual_code@
                    &&& lines[1] == "Pairing expires at Unix time "@ + decimal(
                        ticket.expires_at as int,
                    )
                    &&& lines[2] == "Waiting for ChatGPT to claim the pairing code..."@
                    &&& lines[3] == "Relay connected; press Ctrl-C to stop."@
                },
                RelayAction::Bridge { ticket: None } => lines.len() == 1 && lines[0]
                    == "Relay connected; press Ctrl-C to stop."@,
                _ => lines.len() == 0,
            }
        }),
{
}

/// The websocket has fifteen seconds to connect, and the remote-control task five
/// to end.
pub proof fn law_remote_control_has_its_time()
    ensures
        REMOTE_CONTROL_READY_TIMEOUT_SECS == 15,
        REMOTE_CONTROL_STOP_TIMEOUT_SECS == 5,
{
}

/// No line and no part of a line is lost from view.
pub proof fn law_lines_are_seen_whole(lines: Seq<String>, i: int)
    ensures
        lines_view(lines).len() == lines.len(),
        0 <= i < lines.len() ==> lines_view(lines)[i] == lines[i]@,
{
}

} // verus!
