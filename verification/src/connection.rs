//! One remote client's connection to the child app-server: a WebSocket over a
//! Unix socket, which carries JSON-RPC messages both ways.

use vstd::prelude::*;

use crate::message::{
    child_error_text, child_message, parse_child_message, CheckView, ChildMessageError,
    ChildMessageErrorView, OutgoingMessage, OutgoingView, ProtocolCheck,
};
use crate::text::join;

verus! {

/// The URL of the WebSocket handshake with the child.
pub const UDS_HANDSHAKE_URL: &'static str = "ws://localhost/rpc";

/// A frame that the child sends.
#[derive(Debug)]
pub enum ChildFrame {
    /// A text, and what the app-server protocol says of it.
    Text { text: String, check: ProtocolCheck },
    Binary(Vec<u8>),
    Ping(Vec<u8>),
    Pong(Vec<u8>),
    Close,
    /// A raw frame, which a reader never gets to see.
    Raw,
}

pub enum FrameView {
    Text { text: Seq<char>, check: CheckView },
    Binary(Seq<u8>),
    Ping(Seq<u8>),
    Pong(Seq<u8>),
    Close,
    Raw,
}

impl View for ChildFrame {
    type V = FrameView;

    open spec fn view(&self) -> FrameView {
        match self {
            ChildFrame::Text { text, check } => FrameView::Text { text: text@, check: check@ },
            ChildFrame::Binary(bytes) => FrameView::Binary(bytes@),
            ChildFrame::Ping(payload) => FrameView::Ping(payload@),
            ChildFrame::Pong(payload) => FrameView::Pong(payload@),
            ChildFrame::Close => FrameView::Close,
            ChildFrame::Raw => FrameView::Raw,
        }
    }
}

/// What happens to a connection.
#[derive(Debug)]
pub enum ConnectionEvent {
    /// The socket was opened, the handshake was made, or a frame or message
    /// was delivered.
    Done,
    /// The same could not be done.
    Failed,
    /// The remote client sends a message, given by its JSON text.
    FromRemote(String),
    /// A message of the remote client cannot be written as JSON.
    SerializeFailed,
    /// No further message of the remote client will come.
    RemoteGone,
    /// The child sends a frame.
    FromChild(ChildFrame),
    /// The child's stream of frames has ended.
    ChildGone,
    /// The child's stream of frames broke.
    ChildFailed,
}

pub enum EventView {
    Done,
    Failed,
    FromRemote(Seq<char>),
    SerializeFailed,
    RemoteGone,
    FromChild(FrameView),
    ChildGone,
    ChildFailed,
}

impl View for ConnectionEvent {
    type V = EventView;

    open spec fn view(&self) -> EventView {
        match self {
            ConnectionEvent::Done => EventView::Done,
            ConnectionEvent::Failed => EventView::Failed,
            ConnectionEvent::FromRemote(text) => EventView::FromRemote(text@),
            ConnectionEvent::SerializeFailed => EventView::SerializeFailed,
            ConnectionEvent::RemoteGone => EventView::RemoteGone,
            ConnectionEvent::FromChild(frame) => EventView::FromChild(frame@),
            ConnectionEvent::ChildGone => EventView::ChildGone,
            ConnectionEvent::ChildFailed => EventView::ChildFailed,
        }
    }
}

/// Why a connection cannot be made, or breaks.
#[derive(Debug)]
pub enum ConnectionError {
    ConnectFailed,
    HandshakeFailed,
    SerializeFailed,
    SendFailed,
    InvalidMessage(ChildMessageError),
    RemoteClosed,
    PongFailed,
    BinaryFrame,
    WebSocketFailed,
}

pub enum ConnectionErrorView {
    ConnectFailed,
    HandshakeFailed,
    SerializeFailed,
    SendFailed,
    InvalidMessage(ChildMessageErrorView),
    RemoteClosed,
    PongFailed,
    BinaryFrame,
    WebSocketFailed,
}

impl View for ConnectionError {
    type V = ConnectionErrorView;

    open spec fn view(&self) -> ConnectionErrorView {
        match self {
            ConnectionError::ConnectFailed => ConnectionErrorView::ConnectFailed,
            ConnectionError::HandshakeFailed => ConnectionErrorView::HandshakeFailed,
            ConnectionError::SerializeFailed => ConnectionErrorView::SerializeFailed,
            ConnectionError::SendFailed => ConnectionErrorView::SendFailed,
            ConnectionError::InvalidMessage(error) => ConnectionErrorView::InvalidMessage(error@),
            ConnectionError::RemoteClosed => ConnectionErrorView::RemoteClosed,
            ConnectionError::PongFailed => ConnectionErrorView::PongFailed,
            ConnectionError::BinaryFrame => ConnectionErrorView::BinaryFrame,
            ConnectionError::WebSocketFailed => ConnectionErrorView::WebSocketFailed,
        }
    }
}

/// What an error says, apart from its cause.  `socket_path` is the child's
/// socket.
pub open spec fn connection_error_text(
    error: ConnectionErrorView,
    socket_path: Seq<char>,
) -> Seq<char> {
    match error {
        ConnectionErrorView::ConnectFailed => "failed to connect to "@ + socket_path,
        ConnectionErrorView::HandshakeFailed => "child app-server WebSocket handshake failed"@,
        ConnectionErrorView::SerializeFailed => "failed to serialize remote JSON-RPC message"@,
        ConnectionErrorView::SendFailed => "failed to send JSON-RPC message to child app-server"@,
        ConnectionErrorView::InvalidMessage(_) => "child app-server sent invalid JSON-RPC"@,
        ConnectionErrorView::RemoteClosed => "remote connection closed"@,
        ConnectionErrorView::PongFailed => "failed to answer child app-server ping"@,
        ConnectionErrorView::BinaryFrame => "child app-server sent an unsupported binary frame"@,
        ConnectionErrorView::WebSocketFailed => "child app-server WebSocket failed"@,
    }
}

/// The cause of an error, where the library knows it.
pub open spec fn connection_error_cause(error: ConnectionErrorView) -> Option<Seq<char>> {
    match error {
        ConnectionErrorView::InvalidMessage(cause) => child_error_text(cause),
        _ => None,
    }
}

impl ConnectionError {
    /// What the error says, apart from its cause.
    pub fn message(&self, socket_path: &str) -> (text: String)
        ensures
            text@ == connection_error_text(self@, socket_path@),
    {
        match self {
            ConnectionError::ConnectFailed => join("failed to connect to ", socket_path),
            ConnectionError::HandshakeFailed => "child app-server WebSocket handshake failed".to_owned(),
            ConnectionError::SerializeFailed => "failed to serialize remote JSON-RPC message".to_owned(),
            ConnectionError::SendFailed => "failed to send JSON-RPC message to child app-server".to_owned(),
            ConnectionError::InvalidMessage(_) => "child app-server sent invalid JSON-RPC".to_owned(),
            ConnectionError::RemoteClosed => "remote connection closed".to_owned(),
            ConnectionError::PongFailed => "failed to answer child app-server ping".to_owned(),
            ConnectionError::BinaryFrame => "child app-server sent an unsupported binary frame".to_owned(),
            ConnectionError::WebSocketFailed => "child app-server WebSocket failed".to_owned(),
        }
    }

    /// The cause of the error, where the library knows it.
    pub fn cause(&self) -> (text: Option<String>)
        ensures
            match text {
                Some(text) => connection_error_cause(self@) == Some(text@),
                None => connection_error_cause(self@) is None,
            },
    {
        match self {
            ConnectionError::InvalidMessage(cause) => cause.message(),
            _ => None,
        }
    }
}

/// What the relay reports when a connection breaks; `failure` is the error with
/// its causes.
pub open spec fn closed_text(failure: Seq<char>) -> Seq<char> {
    "Local app-server bridge closed: "@ + failure
}

/// What the relay reports when a connection breaks; `failure` is the error with
/// its causes.
pub fn closed_report(failure: &str) -> (text: String)
    ensures
        text@ == "Local app-server bridge closed: "@ + failure@,
        text@ == closed_text(failure@),
{
    join("Local app-server bridge closed: ", failure)
}

/// What the relay does next for a connection.
#[derive(Debug)]
pub enum ConnectionAction {
    /// Open the child's socket.
    OpenSocket { socket_path: String },
    /// Make the WebSocket handshake over it, with this URL.
    Handshake { url: String },
    /// The connection could not be made.
    Refuse(ConnectionError),
    /// Wait for the next message of either side.
    Listen,
    /// Send a text frame to the child.
    SendText(String),
    /// Answer a ping of the child.
    SendPong(Vec<u8>),
    /// Forward a message to the remote client.
    Forward(OutgoingMessage),
    /// End the connection: close the child's side if `close_child`, report
    /// `failure` if there is one, and signal the disconnection to the remote
    /// side if `disconnect`.
    Finish { close_child: bool, failure: Option<ConnectionError>, disconnect: bool },
    /// Nothing: the event does not belong here.
    Nothing,
}

pub enum ActionView {
    OpenSocket { socket_path: Seq<char> },
    Handshake { url: Seq<char> },
    Refuse(ConnectionErrorView),
    Listen,
    SendText(Seq<char>),
    SendPong(Seq<u8>),
    Forward(OutgoingView),
    Finish { close_child: bool, failure: Option<ConnectionErrorView>, disconnect: bool },
    Nothing,
}

impl View for ConnectionAction {
    type V = ActionView;

    open spec fn view(&self) -> ActionView {
        match self {
            ConnectionAction::OpenSocket { socket_path } => ActionView::OpenSocket {
                socket_path: socket_path@,
            },
            ConnectionAction::Handshake { url } => ActionView::Handshake { url: url@ },
            ConnectionAction::Refuse(error) => ActionView::Refuse(error@),
            ConnectionAction::Listen => ActionView::Listen,
            ConnectionAction::SendText(text) => ActionView::SendText(text@),
            ConnectionAction::SendPong(payload) => ActionView::SendPong(payload@),
            ConnectionAction::Forward(message) => ActionView::Forward(message@),
            ConnectionAction::Finish { close_child, failure, disconnect } => ActionView::Finish {
                close_child: *close_child,
                failure: match failure {
                    Some(error) => Some(error@),
                    None => None,
                },
                disconnect: *disconnect,
            },
            ConnectionAction::Nothing => ActionView::Nothing,
        }
    }
}

/// How far a connection has come.
#[derive(Debug, Clone, Copy, PartialEq, Eq, Structural)]
pub enum ConnectionPhase {
    OpeningSocket,
    Handshaking,
    Listening,
    SendingText,
    SendingPong,
    Forwarding,
    Ended,
}

/// The end of a connection in good order.
pub open spec fn closed(disconnectable: bool) -> ActionView {
    ActionView::Finish { close_child: true, failure: None, disconnect: disconnectable }
}

/// The end of a connection by a failure, which leaves the child's side as it is.
pub open spec fn broken(error: ConnectionErrorView, disconnectable: bool) -> ActionView {
    ActionView::Finish { close_child: false, failure: Some(error), disconnect: disconnectable }
}

/// What a connection that listens does with an event, and where it comes.
pub open spec fn listening_next(event: EventView, disconnectable: bool) -> (
    ConnectionPhase,
    ActionView,
) {
    match event {
        EventView::FromRemote(text) => (ConnectionPhase::SendingText, ActionView::SendText(text)),
        EventView::SerializeFailed => (
            ConnectionPhase::Ended,
            broken(ConnectionErrorView::SerializeFailed, disconnectable),
        ),
        EventView::RemoteGone => (ConnectionPhase::Ended, closed(disconnectable)),
        EventView::FromChild(frame) => match frame {
            FrameView::Text { text, check } => match child_message(text, check) {
                Ok(message) => (ConnectionPhase::Forwarding, ActionView::Forward(message)),
                Err(error) => (
                    ConnectionPhase::Ended,
                    broken(ConnectionErrorView::InvalidMessage(error), disconnectable),
                ),
            },
            FrameView::Ping(payload) => (ConnectionPhase::SendingPong, ActionView::SendPong(payload)),
            FrameView::Pong(_) => (ConnectionPhase::Listening, ActionView::Listen),
            FrameView::Raw => (ConnectionPhase::Listening, ActionView::Listen),
            FrameView::Close => (ConnectionPhase::Ended, closed(disconnectable)),
            FrameView::Binary(_) => (
                ConnectionPhase::Ended,
                broken(ConnectionErrorView::BinaryFrame, disconnectable),
            ),
        },
        EventView::ChildGone => (ConnectionPhase::Ended, closed(disconnectable)),
        EventView::ChildFailed => (
            ConnectionPhase::Ended,
            broken(ConnectionErrorView::WebSocketFailed, disconnectable),
        ),
        _ => (ConnectionPhase::Listening, ActionView::Nothing),
    }
}

/// What a connection does with an event, and where it comes.
pub open spec fn connection_next(
    phase: ConnectionPhase,
    event: EventView,
    disconnectable: bool,
) -> (ConnectionPhase, ActionView) {
    match (phase, event) {
        (ConnectionPhase::OpeningSocket, EventView::Done) => (
            ConnectionPhase::Handshaking,
            ActionView::Handshake { url: UDS_HANDSHAKE_URL@ },
        ),
        (ConnectionPhase::OpeningSocket, EventView::Failed) => (
            ConnectionPhase::Ended,
            ActionView::Refuse(ConnectionErrorView::ConnectFailed),
        ),
        (ConnectionPhase::Handshaking, EventView::Done) => (
            ConnectionPhase::Listening,
            ActionView::Listen,
        ),
        (ConnectionPhase::Handshaking, EventView::Failed) => (
            ConnectionPhase::Ended,
            ActionView::Refuse(ConnectionErrorView::HandshakeFailed),
        ),
        (ConnectionPhase::Listening, event) => listening_next(event, disconnectable),
        (ConnectionPhase::SendingText, EventView::Done) => (
            ConnectionPhase::Listening,
            ActionView::Listen,
        ),
        (ConnectionPhase::SendingText, EventView::Failed) => (
            ConnectionPhase::Ended,
            broken(ConnectionErrorView::SendFailed, disconnectable),
        ),
        (ConnectionPhase::SendingPong, EventView::Done) => (
            ConnectionPhase::Listening,
            ActionView::Listen,
        ),
        (ConnectionPhase::SendingPong, EventView::Failed) => (
            ConnectionPhase::Ended,
            broken(ConnectionErrorView::PongFailed, disconnectable),
        ),
        (ConnectionPhase::Forwarding, EventView::Done) => (
            ConnectionPhase::Listening,
            ActionView::Listen,
        ),
        (ConnectionPhase::Forwarding, EventView::Failed) => (
            ConnectionPhase::Ended,
            broken(ConnectionErrorView::RemoteClosed, disconnectable),
        ),
        (phase, _) => (phase, ActionView::Nothing),
    }
}

/// How a connection begins: with its socket.  Whether the remote side can be told
/// of a disconnection is kept for its end.
pub open spec fn connection_start(socket_path: Seq<char>, disconnectable: bool) -> (
    ConnectionPhase,
    bool,
    ActionView,
) {
    (ConnectionPhase::OpeningSocket, disconnectable, ActionView::OpenSocket { socket_path })
}

/// A connection of a remote client to the child.
#[derive(Debug)]
pub struct Connection {
    pub phase: ConnectionPhase,
    /// Whether the remote side can be told of a disconnection.
    pub disconnectable: bool,
}

impl Connection {
    /// A connection over the child's socket that is yet to be made, and the first
    /// thing to do for it.
    pub fn connect_child(socket_path: &str, disconnectable: bool) -> (started: (
        Connection,
        ConnectionAction,
    ))
        ensures
            started.0.phase == ConnectionPhase::OpeningSocket,
            started.0.disconnectable == disconnectable,
            started.1@ == (ActionView::OpenSocket { socket_path: socket_path@ }),
            (started.0.phase, started.0.disconnectable, started.1@) == connection_start(
                socket_path@,
                disconnectable,
            ),
    {
        (
            Connection { phase: ConnectionPhase::OpeningSocket, disconnectable },
            ConnectionAction::OpenSocket { socket_path: socket_path.to_owned() },
        )
    }

    fn close(&mut self) -> (action: ConnectionAction)
        ensures
            final(self).phase == ConnectionPhase::Ended,
            final(self).disconnectable == old(self).disconnectable,
            action@ == closed(old(self).disconnectable),
    {
        self.phase = ConnectionPhase::Ended;
        ConnectionAction::Finish { close_child: true, failure: None, disconnect: self.disconnectable }
    }

    fn fail(&mut self, error: ConnectionError) -> (action: ConnectionAction)
        ensures
            final(self).phase == ConnectionPhase::Ended,
            final(self).disconnectable == old(self).disconnectable,
            action@ == broken(error@, old(self).disconnectable),
    {
        self.phase = ConnectionPhase::Ended;
        ConnectionAction::Finish {
            close_child: false,
            failure: Some(error),
            disconnect: self.disconnectable,
        }
    }

    fn goes_on(&mut self, phase: ConnectionPhase, action: ConnectionAction) -> (same: ConnectionAction)
        ensures
            final(self).phase == phase,
            final(self).disconnectable == old(self).disconnectable,
            same == action,
    {
        self.phase = phase;
        action
    }

    /// Takes an event while the connection listens to both sides.
    pub fn run_connection(&mut self, event: ConnectionEvent) -> (action: ConnectionAction)
        requires
            old(self).phase == ConnectionPhase::Listening,
        ensures
            final(self).disconnectable == old(self).disconnectable,
            (final(self).phase, action@) == listening_next(event@, old(self).disconnectable),
    {
        match event {
            ConnectionEvent::FromRemote(text) => self.goes_on(
                ConnectionPhase::SendingText,
                ConnectionAction::SendText(text),
            ),
            ConnectionEvent::SerializeFailed => self.fail(ConnectionError::SerializeFailed),
            ConnectionEvent::RemoteGone => self.close(),
            ConnectionEvent::FromChild(frame) => match frame {
                ChildFrame::Text { text, check } => match parse_child_message(text.as_str(), check) {
                    Ok(message) => self.goes_on(
                        ConnectionPhase::Forwarding,
                        ConnectionAction::Forward(message),
                    ),
                    Err(error) => self.fail(ConnectionError::InvalidMessage(error)),
                },
                ChildFrame::Ping(payload) => self.goes_on(
                    ConnectionPhase::SendingPong,
                    ConnectionAction::SendPong(payload),
                ),
                ChildFrame::Pong(_) => ConnectionAction::Listen,
                ChildFrame::Raw => ConnectionAction::Listen,
                ChildFrame::Close => self.close(),
                ChildFrame::Binary(_) => self.fail(ConnectionError::BinaryFrame),
            },
            ConnectionEvent::ChildGone => self.close(),
            ConnectionEvent::ChildFailed => self.fail(ConnectionError::WebSocketFailed),
            _ => ConnectionAction::Nothing,
        }
    }

    /// Takes an event.
    pub fn step(&mut self, event: ConnectionEvent) -> (action: ConnectionAction)
        ensures
            final(self).disconnectable == old(self).disconnectable,
            (final(self).phase, action@) == connection_next(
                old(self).phase,
                event@,
                old(self).disconnectable,
            ),
    {
        match (self.phase, event) {
            (ConnectionPhase::OpeningSocket, ConnectionEvent::Done) => self.goes_on(
                ConnectionPhase::Handshaking,
                ConnectionAction::Handshake { url: UDS_HANDSHAKE_URL.to_owned() },
            ),
            (ConnectionPhase::OpeningSocket, ConnectionEvent::Failed) => self.goes_on(
                ConnectionPhase::Ended,
                ConnectionAction::Refuse(ConnectionError::ConnectFailed),
            ),
            (ConnectionPhase::Handshaking, ConnectionEvent::Failed) => self.goes_on(
                ConnectionPhase::Ended,
                ConnectionAction::Refuse(ConnectionError::HandshakeFailed),
            ),
            (ConnectionPhase::Listening, event) => self.run_connection(event),
            (ConnectionPhase::Ended, _) => ConnectionAction::Nothing,
            (_, ConnectionEvent::Done) => self.goes_on(
                ConnectionPhase::Listening,
                ConnectionAction::Listen,
            ),
            (ConnectionPhase::SendingText, ConnectionEvent::Failed) => self.fail(
                ConnectionError::SendFailed,
            ),
            (ConnectionPhase::SendingPong, ConnectionEvent::Failed) => self.fail(
                ConnectionError::PongFailed,
            ),
            (ConnectionPhase::Forwarding, ConnectionEvent::Failed) => self.fail(
                ConnectionError::RemoteClosed,
            ),
            _ => ConnectionAction::Nothing,
        }
    }
}

/// Where a connection comes by a sequence of events, and what it does on each.
pub open spec fn connection_run(
    phase: ConnectionPhase,
    events: Seq<EventView>,
    disconnectable: bool,
) -> (ConnectionPhase, Seq<ActionView>)
    decreases events.len(),
{
    if events.len() == 0 {
        (phase, Seq::empty())
    } else {
        let before = connection_run(phase, events.drop_last(), disconnectable);
        let last = connection_next(before.0, events.last(), disconnectable);
        (last.0, before.1.push(last.1))
    }
}

proof fn lemma_run_at(
    phase: ConnectionPhase,
    events: Seq<EventView>,
    disconnectable: bool,
    i: int,
)
    requires
        0 <= i < events.len(),
    ensures
        connection_run(phase, events, disconnectable).1.len() == events.len(),
        connection_run(phase, events, disconnectable).1[i] == connection_next(
            connection_run(phase, events.take(i), disconnectable).0,
            events[i],
            disconnectable,
        ).1,
    decreases events.len(),
{
    let init = events.drop_last();
    lemma_run_len(phase, init, disconnectable);
    if i == events.len() - 1 {
        assert(events.take(i) =~= init);
    } else {
        lemma_run_at(phase, init, disconnectable, i);
        assert(init.take(i) =~= events.take(i));
        assert(init[i] == events[i]);
    }
}

proof fn lemma_run_len(phase: ConnectionPhase, events: Seq<EventView>, disconnectable: bool)
    ensures
        connection_run(phase, events, disconnectable).1.len() == events.len(),
    decreases events.len(),
{
    if events.len() > 0 {
        lemma_run_len(phase, events.drop_last(), disconnectable);
    }
}

/// What reaches one side of a connection was sent by the other: a message that
/// is forwarded to the remote client is the one that the child sent just then,
/// a text that is sent to the child is the one that the remote client sent just
/// then, and a pong answers the ping of just then with the ping's payload.
pub proof fn law_only_what_was_sent_is_delivered(
    phase: ConnectionPhase,
    events: Seq<EventView>,
    disconnectable: bool,
    i: int,
)
    requires
        0 <= i < events.len(),
    ensures
        match connection_run(phase, events, disconnectable).1[i] {
            ActionView::Forward(message) => {
                &&& events[i] matches EventView::FromChild(FrameView::Text { text, check })
                &&& child_message(text, check) == Ok::<OutgoingView, ChildMessageErrorView>(message)
            },
            ActionView::SendText(text) => events[i] == EventView::FromRemote(text),
            ActionView::SendPong(payload) => events[i] == EventView::FromChild(
                FrameView::Ping(payload),
            ),
            _ => true,
        },
{
    lemma_run_at(phase, events, disconnectable, i);
}

/// Only messages of the app-server protocol are forwarded: a request or a
/// notification only where the protocol has it for one.
pub proof fn law_only_the_protocol_is_forwarded(
    phase: ConnectionPhase,
    events: Seq<EventView>,
    disconnectable: bool,
    i: int,
)
    requires
        0 <= i < events.len(),
    ensures
        match connection_run(phase, events, disconnectable).1[i] {
            ActionView::Forward(OutgoingView::Request(_)) => {
                &&& events[i] matches EventView::FromChild(FrameView::Text { check, .. })
                &&& check.request
            },
            ActionView::Forward(OutgoingView::AppServerNotification(_)) => {
                &&& events[i] matches EventView::FromChild(FrameView::Text { check, .. })
                &&& check.notification
            },
            _ => true,
        },
{
    lemma_run_at(phase, events, disconnectable, i);
}

/// Whether an action ends a connection, or the attempt to make one.
pub open spec fn is_end(action: ActionView) -> bool {
    action is Finish || action is Refuse
}

proof fn lemma_ended_stays(
    phase: ConnectionPhase,
    events: Seq<EventView>,
    disconnectable: bool,
    i: int,
)
    requires
        0 <= i < events.len(),
        is_end(connection_run(phase, events, disconnectable).1[i]),
    ensures
        connection_run(phase, events, disconnectable).0 == ConnectionPhase::Ended,
    decreases events.len(),
{
    let init = events.drop_last();
    lemma_run_len(phase, init, disconnectable);
    if i < init.len() {
        assert(connection_run(phase, init, disconnectable).1[i] == connection_run(
            phase,
            events,
            disconnectable,
        ).1[i]);
        lemma_ended_stays(phase, init, disconnectable, i);
    }
}

/// A connection ends once: after its end it does nothing more.
pub proof fn law_end_is_final(
    phase: ConnectionPhase,
    events: Seq<EventView>,
    disconnectable: bool,
    i: int,
    j: int,
)
    requires
        0 <= i < j < events.len(),
        is_end(connection_run(phase, events, disconnectable).1[i]),
    ensures
        connection_run(phase, events, disconnectable).1[j] == ActionView::Nothing,
{
    lemma_run_at(phase, events, disconnectable, i);
    lemma_run_at(phase, events, disconnectable, j);
    lemma_run_at(phase, events.take(j), disconnectable, i);
    assert(events.take(j).take(i) =~= events.take(i));
    assert(events.take(j)[i] == events[i]);
    lemma_ended_stays(phase, events.take(j), disconnectable, i);
}

/// However a connection that was made ends, the remote side is told of the
/// disconnection, where it can be told.
pub proof fn law_end_disconnects_the_client(
    phase: ConnectionPhase,
    events: Seq<EventView>,
    disconnectable: bool,
    i: int,
)
    requires
        0 <= i < events.len(),
    ensures
        connection_run(phase, events, disconnectable).1[i] matches ActionView::Finish {
            disconnect,
            ..
        } ==> disconnect == disconnectable,
{
    lemma_run_at(phase, events, disconnectable, i);
}

/// What a connection that listens delivers on an event.
pub open spec fn answer(event: EventView) -> Option<ActionView> {
    match event {
        EventView::FromRemote(text) => Some(ActionView::SendText(text)),
        EventView::FromChild(FrameView::Text { text, check }) => match child_message(text, check) {
            Ok(message) => Some(ActionView::Forward(message)),
            Err(_) => None,
        },
        EventView::FromChild(FrameView::Ping(payload)) => Some(ActionView::SendPong(payload)),
        _ => None,
    }
}

/// Whether an event leaves a connection that listens open.
pub open spec fn keeps_open(event: EventView) -> bool {
    ||| answer(event) is Some
    ||| event matches EventView::FromChild(FrameView::Pong(_))
    ||| event == EventView::FromChild(FrameView::Raw)
}

/// The answers to a sequence of events, in order.
pub open spec fn answers(events: Seq<EventView>) -> Seq<ActionView>
    decreases events.len(),
{
    if events.len() == 0 {
        Seq::empty()
    } else {
        match answer(events.last()) {
            Some(action) => answers(events.drop_last()).push(action),
            None => answers(events.drop_last()),
        }
    }
}

/// A sequence of events in which every delivery that an event asks for succeeds
/// before the next event comes.
pub open spec fn all_delivered(events: Seq<EventView>) -> Seq<EventView>
    decreases events.len(),
{
    if events.len() == 0 {
        Seq::empty()
    } else {
        let before = all_delivered(events.drop_last()).push(events.last());
        if answer(events.last()) is Some {
            before.push(EventView::Done)
        } else {
            before
        }
    }
}

/// The deliveries among a sequence of actions.
pub open spec fn deliveries(actions: Seq<ActionView>) -> Seq<ActionView>
    decreases actions.len(),
{
    if actions.len() == 0 {
        Seq::empty()
    } else {
        match actions.last() {
            ActionView::SendText(_) | ActionView::SendPong(_) | ActionView::Forward(_) => deliveries(
                actions.drop_last(),
            ).push(actions.last()),
            _ => deliveries(actions.drop_last()),
        }
    }
}

/// As long as nothing ends a connection, the messages of each side reach the
/// other and every ping is answered: each once, and in the order in which the
/// events came.
pub proof fn law_delivered_in_order(events: Seq<EventView>, disconnectable: bool)
    requires
        forall|i: int| 0 <= i < events.len() ==> keeps_open(#[trigger] events[i]),
    ensures
        connection_run(ConnectionPhase::Listening, all_delivered(events), disconnectable).0
            == ConnectionPhase::Listening,
        deliveries(
            connection_run(ConnectionPhase::Listening, all_delivered(events), disconnectable).1,
        ) == answers(events),
    decreases events.len(),
{
    let listening = ConnectionPhase::Listening;
    if events.len() > 0 {
        let init = events.drop_last();
        let event = events.last();
        assert forall|i: int| 0 <= i < init.len() implies keeps_open(#[trigger] init[i]) by {
            assert(keeps_open(events[i]));
        }
        assert(keeps_open(events[events.len() - 1]));
        law_delivered_in_order(init, disconnectable);
        let done = all_delivered(init);
        let before = connection_run(listening, done, disconnectable);
        let one = done.push(event);
        assert(one.drop_last() =~= done);
        let action = connection_next(listening, event, disconnectable).1;
        assert(connection_run(listening, one, disconnectable).1 == before.1.push(action));
        assert(before.1.push(action).drop_last() =~= before.1);
        if answer(event) is Some {
            let two = one.push(EventView::Done);
            assert(two.drop_last() =~= one);
            let acts = before.1.push(action).push(ActionView::Listen);
            assert(connection_run(listening, two, disconnectable).1 == acts);
            assert(acts.drop_last() =~= before.1.push(action));
            assert(deliveries(before.1.push(action)) == answers(events));
            assert(deliveries(acts) == answers(events));
        }
    }
}

/// What goes to either side of a connection, and when: a text to the child
/// exactly when the remote client sends it, a pong exactly on a ping with the same
/// payload, and a message to the remote client exactly when the child sends it.
pub proof fn law_deliveries_have_their_reason(
    phase: ConnectionPhase,
    event: EventView,
    disconnectable: bool,
    text: Seq<char>,
    payload: Seq<u8>,
    message: OutgoingView,
)
    ensures
        ({
            let action = connection_next(phase, event, disconnectable).1;
            let listening = phase == ConnectionPhase::Listening;
            &&& action == ActionView::SendText(text) <==> listening && event == EventView::FromRemote(
                text,
            )
            &&& action == ActionView::SendPong(payload) <==> listening && event
                == EventView::FromChild(FrameView::Ping(payload))
            &&& action == ActionView::Forward(message) <==> {
                &&& listening
                &&& event matches EventView::FromChild(FrameView::Text { text: sent, check })
                &&& child_message(sent, check) == Ok::<OutgoingView, ChildMessageErrorView>(message)
            }
        }),
{
}

/// A connection ends in good order exactly when the remote client has no more to
/// say or the child closes its side; then the child's side is closed, and the
/// remote side told of it where it can be.
pub proof fn law_orderly_end_has_its_reason(
    phase: ConnectionPhase,
    event: EventView,
    disconnectable: bool,
)
    ensures
        ({
            let action = connection_next(phase, event, disconnectable).1;
            let over = phase == ConnectionPhase::Listening && (event == EventView::RemoteGone || event
                == EventView::ChildGone || event == EventView::FromChild(FrameView::Close));
            &&& over <==> action == (ActionView::Finish {
                close_child: true,
                failure: None,
                disconnect: disconnectable,
            })
            &&& over <==> (action matches ActionView::Finish { failure, .. } && failure is None)
            &&& over <==> (action matches ActionView::Finish { close_child, .. } && close_child)
        }),
{
}

/// Why a connection breaks: each error comes exactly on the event that it speaks
/// of.  The child's side is left as it is, and the remote side told of it where it
/// can be.
pub proof fn law_breaks_have_their_reason(
    phase: ConnectionPhase,
    event: EventView,
    disconnectable: bool,
    error: ConnectionErrorView,
)
    ensures
        connection_next(phase, event, disconnectable).1 == (ActionView::Finish {
            close_child: false,
            failure: Some(error),
            disconnect: disconnectable,
        }) <==> match error {
            ConnectionErrorView::SerializeFailed => phase == ConnectionPhase::Listening && event
                == EventView::SerializeFailed,
            ConnectionErrorView::SendFailed => phase == ConnectionPhase::SendingText && event
                == EventView::Failed,
            ConnectionErrorView::InvalidMessage(cause) => {
                &&& phase == ConnectionPhase::Listening
                &&& event matches EventView::FromChild(FrameView::Text { text, check })
                &&& child_message(text, check) == Err::<OutgoingView, ChildMessageErrorView>(cause)
            },
            ConnectionErrorView::RemoteClosed => phase == ConnectionPhase::Forwarding && event
                == EventView::Failed,
            ConnectionErrorView::PongFailed => phase == ConnectionPhase::SendingPong && event
                == EventView::Failed,
            ConnectionErrorView::BinaryFrame => {
                &&& phase == ConnectionPhase::Listening
                &&& event matches EventView::FromChild(FrameView::Binary(_))
            },
            ConnectionErrorView::WebSocketFailed => phase == ConnectionPhase::Listening && event
                == EventView::ChildFailed,
            ConnectionErrorView::ConnectFailed => false,
            ConnectionErrorView::HandshakeFailed => false,
        },
        connection_next(phase, event, disconnectable).1 matches ActionView::Finish {
            close_child,
            failure: Some(_),
            disconnect,
        } ==> !close_child && disconnect == disconnectable,
{
}

/// How a connection is made: the handshake follows the opened socket, with the
/// child's URL; a connection is refused exactly when one of the two fails, with
/// the error of that one; and a socket is opened but once, at the beginning.
pub proof fn law_connection_is_made_in_order(
    phase: ConnectionPhase,
    event: EventView,
    disconnectable: bool,
    url: Seq<char>,
    error: ConnectionErrorView,
)
    ensures
        ({
            let action = connection_next(phase, event, disconnectable).1;
            &&& action == (ActionView::Handshake { url }) <==> phase
                == ConnectionPhase::OpeningSocket && event == EventView::Done && url
                == "ws://localhost/rpc"@
            &&& action == ActionView::Refuse(error) <==> event == EventView::Failed && ((phase
                == ConnectionPhase::OpeningSocket && error == ConnectionErrorView::ConnectFailed)
                || (phase == ConnectionPhase::Handshaking && error
                == ConnectionErrorView::HandshakeFailed))
            &&& !(action is OpenSocket)
        }),
{
}

/// A connection listens again exactly when what it was at is done, or on a frame
/// that asks for nothing.
pub proof fn law_connection_listens_on(
    phase: ConnectionPhase,
    event: EventView,
    disconnectable: bool,
)
    ensures
        connection_next(phase, event, disconnectable).1 is Listen <==> match phase {
            ConnectionPhase::Handshaking => event == EventView::Done,
            ConnectionPhase::SendingText => event == EventView::Done,
            ConnectionPhase::SendingPong => event == EventView::Done,
            ConnectionPhase::Forwarding => event == EventView::Done,
            ConnectionPhase::Listening => event == EventView::FromChild(FrameView::Raw) || (
            event matches EventView::FromChild(FrameView::Pong(_))),
            _ => false,
        },
{
}

/// Where a connection is after an action: at what it does, or at its end; and an
/// event that does not belong leaves it where it was.
pub proof fn law_connection_is_at_what_it_does(
    phase: ConnectionPhase,
    event: EventView,
    disconnectable: bool,
)
    ensures
        ({
            let (after, action) = connection_next(phase, event, disconnectable);
            after == match action {
                ActionView::OpenSocket { .. } => ConnectionPhase::OpeningSocket,
                ActionView::Handshake { .. } => ConnectionPhase::Handshaking,
                ActionView::Listen => ConnectionPhase::Listening,
                ActionView::SendText(_) => ConnectionPhase::SendingText,
                ActionView::SendPong(_) => ConnectionPhase::SendingPong,
                ActionView::Forward(_) => ConnectionPhase::Forwarding,
                ActionView::Finish { .. } => ConnectionPhase::Ended,
                ActionView::Refuse(_) => ConnectionPhase::Ended,
                ActionView::Nothing => phase,
            }
        }),
{
}

/// A failure to connect is told with the socket, and a message of the child that
/// is none with the reader's words.  No other error has a cause of its own.
pub proof fn law_connection_errors_say_why(
    error: ConnectionErrorView,
    socket_path: Seq<char>,
    other_path: Seq<char>,
)
    ensures
        error is ConnectFailed ==> connection_error_text(error, socket_path)
            == "failed to connect to "@ + socket_path,
        !(error is ConnectFailed) ==> connection_error_text(error, socket_path)
            == connection_error_text(error, other_path),
        error is InvalidMessage ==> connection_error_text(error, socket_path)
            == "child app-server sent invalid JSON-RPC"@,
        connection_error_cause(error) == match error {
            ConnectionErrorView::InvalidMessage(cause) => child_error_text(cause),
            _ => None,
        },
{
}

/// Nothing of a frame or an event is lost from view.
pub proof fn law_connection_input_is_seen_whole(frame: ChildFrame, event: ConnectionEvent)
    ensures
        match (frame, frame@) {
            (ChildFrame::Text { text, check }, FrameView::Text { text: t, check: c }) => t == text@
                && c == check@,
            (ChildFrame::Binary(bytes), FrameView::Binary(b)) => b == bytes@,
            (ChildFrame::Ping(payload), FrameView::Ping(p)) => p == payload@,
            (ChildFrame::Pong(payload), FrameView::Pong(p)) => p == payload@,
            (ChildFrame::Close, FrameView::Close) => true,
            (ChildFrame::Raw, FrameView::Raw) => true,
            _ => false,
        },
        match (event, event@) {
            (ConnectionEvent::Done, EventView::Done) => true,
            (ConnectionEvent::Failed, EventView::Failed) => true,
            (ConnectionEvent::FromRemote(text), EventView::FromRemote(t)) => t == text@,
            (ConnectionEvent::SerializeFailed, EventView::SerializeFailed) => true,
            (ConnectionEvent::RemoteGone, EventView::RemoteGone) => true,
            (ConnectionEvent::FromChild(frame), EventView::FromChild(f)) => f == frame@,
            (ConnectionEvent::ChildGone, EventView::ChildGone) => true,
            (ConnectionEvent::ChildFailed, EventView::ChildFailed) => true,
            _ => false,
        },
{
}

/// Nothing of an error or an action is lost from view.
pub proof fn law_connection_output_is_seen_whole(error: ConnectionError, action: ConnectionAction)
    ensures
        match (error, error@) {
            (ConnectionError::ConnectFailed, ConnectionErrorView::ConnectFailed) => true,
            (ConnectionError::HandshakeFailed, ConnectionErrorView::HandshakeFailed) => true,
            (ConnectionError::SerializeFailed, ConnectionErrorView::SerializeFailed) => true,
            (ConnectionError::SendFailed, ConnectionErrorView::SendFailed) => true,
            (ConnectionError::InvalidMessage(cause), ConnectionErrorView::InvalidMessage(c)) => c
                == cause@,
            (ConnectionError::RemoteClosed, ConnectionErrorView::RemoteClosed) => true,
            (ConnectionError::PongFailed, ConnectionErrorView::PongFailed) => true,
            (ConnectionError::BinaryFrame, ConnectionErrorView::BinaryFrame) => true,
            (ConnectionError::WebSocketFailed, ConnectionErrorView::WebSocketFailed) => true,
            _ => false,
        },
        match (action, action@) {
            (
                ConnectionAction::OpenSocket { socket_path },
                ActionView::OpenSocket { socket_path: p },
            ) => p == socket_path@,
            (ConnectionAction::Handshake { url }, ActionView::Handshake { url: u }) => u == url@,
            (ConnectionAction::Refuse(error), ActionView::Refuse(e)) => e == error@,
            (ConnectionAction::Listen, ActionView::Listen) => true,
            (ConnectionAction::SendText(text), ActionView::SendText(t)) => t == text@,
            (ConnectionAction::SendPong(payload), ActionView::SendPong(p)) => p == payload@,
            (ConnectionAction::Forward(message), ActionView::Forward(m)) => m == message@,
            (
                ConnectionAction::Finish { close_child, failure, disconnect },
                ActionView::Finish { close_child: c, failure: f, disconnect: d },
            ) => c == close_child && d == disconnect && match (failure, f) {
                (Some(error), Some(e)) => e == error@,
                (None, None) => true,
                _ => false,
            },
            (ConnectionAction::Nothing, ActionView::Nothing) => true,
            _ => false,
        },
{
}

/// A connection begins by opening the child's socket; a broken one is reported
/// with its failure.
pub proof fn law_connection_begins_with_its_socket(
    socket_path: Seq<char>,
    disconnectable: bool,
    failure: Seq<char>,
)
    ensures
        connection_start(socket_path, disconnectable).0 == ConnectionPhase::OpeningSocket,
        connection_start(socket_path, disconnectable).1 == disconnectable,
        connection_start(socket_path, disconnectable).2 == (ActionView::OpenSocket { socket_path }),
        closed_text(failure) == "Local app-server bridge closed: "@ + failure,
{
}

} // verus!
