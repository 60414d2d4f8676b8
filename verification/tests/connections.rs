use codex_relay::bridge::{refusal_report, BridgeAction, BridgeEvent, Bridges};
use codex_relay::connection::{
    closed_report, ChildFrame, Connection, ConnectionAction, ConnectionError, ConnectionEvent, ConnectionPhase,
    UDS_HANDSHAKE_URL,
};
use codex_relay::json::JsonValue;
use codex_relay::message::{ChildMessageError, OutgoingMessage, ProtocolCheck, RequestId};

fn listening() -> Connection {
    Connection {
        phase: ConnectionPhase::Listening,
        disconnectable: true,
    }
}

/// A text that the protocol takes.
fn text(text: &str) -> ChildFrame {
    ChildFrame::Text {
        text: text.to_string(),
        check: ProtocolCheck {
            request: true,
            notification: true,
            other_error: None,
        },
    }
}

fn from_child(frame: ChildFrame) -> ConnectionEvent {
    ConnectionEvent::FromChild(frame)
}

fn failure(action: ConnectionAction) -> ConnectionError {
    match action {
        ConnectionAction::Finish {
            close_child: false,
            failure: Some(error),
            disconnect: true,
        } => error,
        other => panic!("expected a failure, got {:?}", other),
    }
}

fn is_orderly_end(action: &ConnectionAction) -> bool {
    matches!(
        action,
        ConnectionAction::Finish {
            close_child: true,
            failure: None,
            disconnect: true
        }
    )
}

#[test]
fn bridge_forwards_messages_control_frames_and_disconnects() {
    let (mut connection, action) = Connection::connect_child("/run/s.sock", true);
    assert!(
        matches!(action, ConnectionAction::OpenSocket { socket_path } if socket_path == "/run/s.sock")
    );
    assert!(matches!(
        connection.step(ConnectionEvent::Done),
        ConnectionAction::Handshake { url } if url == UDS_HANDSHAKE_URL
    ));
    assert!(matches!(
        connection.step(ConnectionEvent::Done),
        ConnectionAction::Listen
    ));

    let expected_incoming = r#"{"method":"initialized"}"#;
    let sent = connection.step(ConnectionEvent::FromRemote(expected_incoming.to_string()));
    assert!(matches!(sent, ConnectionAction::SendText(text) if text == expected_incoming));
    assert!(matches!(
        connection.step(ConnectionEvent::Done),
        ConnectionAction::Listen
    ));

    let answered = connection.step(from_child(ChildFrame::Ping(vec![1, 2, 3])));
    assert!(matches!(answered, ConnectionAction::SendPong(payload) if payload == vec![1, 2, 3]));
    assert!(matches!(
        connection.step(ConnectionEvent::Done),
        ConnectionAction::Listen
    ));

    let response = text(r#"{"id":7,"result":{"ok":true}}"#);
    let ConnectionAction::Forward(OutgoingMessage::Response(forwarded)) =
        connection.step(from_child(response))
    else {
        panic!("expected a forwarded response");
    };
    assert!(matches!(forwarded.id, RequestId::Integer(7)));
    assert!(matches!(forwarded.result, JsonValue::Object(value) if value.to_string() == r#"{"ok":true}"#));
    assert!(matches!(
        connection.step(ConnectionEvent::Done),
        ConnectionAction::Listen
    ));

    assert!(is_orderly_end(
        &connection.step(from_child(ChildFrame::Close))
    ));
}

#[test]
fn handshake_goes_to_the_local_rpc_url() {
    assert_eq!(UDS_HANDSHAKE_URL, "ws://localhost/rpc");
}

#[test]
fn connections_that_cannot_be_made_are_refused() {
    let (mut connection, _) = Connection::connect_child("/run/s.sock", true);
    let ConnectionAction::Refuse(error) = connection.step(ConnectionEvent::Failed) else {
        panic!("expected a refusal");
    };
    assert_eq!(error.message("/run/s.sock"), "failed to connect to /run/s.sock");

    let (mut connection, _) = Connection::connect_child("/run/s.sock", true);
    connection.step(ConnectionEvent::Done);
    let ConnectionAction::Refuse(error) = connection.step(ConnectionEvent::Failed) else {
        panic!("expected a refusal");
    };
    assert_eq!(error.message("/s"), "child app-server WebSocket handshake failed");
    assert_eq!(connection.phase, ConnectionPhase::Ended);
}

#[test]
fn failed_deliveries_break_the_connection() {
    let mut connection = listening();
    connection.step(ConnectionEvent::FromRemote("{}".to_string()));
    let error = failure(connection.step(ConnectionEvent::Failed));
    assert_eq!(
        error.message(""),
        "failed to send JSON-RPC message to child app-server"
    );

    let mut connection = listening();
    connection.step(from_child(ChildFrame::Ping(vec![])));
    let error = failure(connection.step(ConnectionEvent::Failed));
    assert_eq!(error.message(""), "failed to answer child app-server ping");

    let mut connection = listening();
    connection.step(from_child(text(r#"{"method":"m"}"#)));
    let error = failure(connection.step(ConnectionEvent::Failed));
    assert_eq!(error.message(""), "remote connection closed");
}

#[test]
fn messages_that_the_protocol_refuses_are_not_forwarded() {
    for message in [r#"{"id":1,"method":"m"}"#, r#"{"method":"m"}"#] {
        let mut connection = listening();
        let frame = ChildFrame::Text {
            text: message.to_string(),
            check: ProtocolCheck {
                request: false,
                notification: false,
                other_error: None,
            },
        };
        let error = failure(connection.step(from_child(frame)));
        assert_eq!(error.message(""), "child app-server sent invalid JSON-RPC");
        assert!(error.cause().is_none());
        assert!(matches!(
            error,
            ConnectionError::InvalidMessage(
                ChildMessageError::InvalidRequest | ChildMessageError::InvalidNotification
            )
        ));
        assert_eq!(connection.phase, ConnectionPhase::Ended);
    }
}

#[test]
fn bad_input_breaks_the_connection() {
    let error = failure(listening().step(from_child(text("[]"))));
    assert_eq!(error.message(""), "child app-server sent invalid JSON-RPC");
    assert_eq!(
        error.cause().as_deref(),
        Some("invalid type: sequence, expected a map at line 1 column 0")
    );

    let error = failure(listening().step(from_child(ChildFrame::Binary(vec![0]))));
    assert_eq!(
        error.message(""),
        "child app-server sent an unsupported binary frame"
    );

    let error = failure(listening().step(ConnectionEvent::ChildFailed));
    assert_eq!(error.message(""), "child app-server WebSocket failed");

    let error = failure(listening().step(ConnectionEvent::SerializeFailed));
    assert_eq!(
        error.message(""),
        "failed to serialize remote JSON-RPC message"
    );
}

#[test]
fn broken_connections_are_reported_with_their_failure() {
    assert_eq!(
        closed_report("remote connection closed: channel closed"),
        "Local app-server bridge closed: remote connection closed: channel closed"
    );
}

#[test]
fn either_side_may_end_the_connection_in_good_order() {
    assert!(is_orderly_end(&listening().step(ConnectionEvent::RemoteGone)));
    assert!(is_orderly_end(&listening().step(ConnectionEvent::ChildGone)));
    assert!(is_orderly_end(&listening().run_connection(from_child(ChildFrame::Close))));
}

#[test]
fn pongs_and_raw_frames_are_ignored() {
    let mut connection = listening();
    assert!(matches!(
        connection.step(from_child(ChildFrame::Pong(vec![9]))),
        ConnectionAction::Listen
    ));
    assert!(matches!(
        connection.step(from_child(ChildFrame::Raw)),
        ConnectionAction::Listen
    ));
    assert_eq!(connection.phase, ConnectionPhase::Listening);
}

#[test]
fn messages_arrive_in_order() {
    let mut connection = listening();
    let mut forwarded = Vec::new();
    for n in 0..5 {
        let response = text(&format!("{{\"id\":{n},\"result\":null}}"));
        if let ConnectionAction::Forward(OutgoingMessage::Response(response)) =
            connection.step(from_child(response))
        {
            if let RequestId::Integer(id) = response.id {
                forwarded.push(id);
            }
        }
        connection.step(ConnectionEvent::Done);
    }
    assert_eq!(forwarded, vec![0, 1, 2, 3, 4]);
}

#[test]
fn ended_connections_do_nothing() {
    let mut connection = listening();
    connection.step(ConnectionEvent::RemoteGone);
    for event in [
        ConnectionEvent::Done,
        ConnectionEvent::FromRemote("{}".to_string()),
        from_child(ChildFrame::Ping(vec![1])),
        ConnectionEvent::ChildGone,
    ] {
        assert!(matches!(connection.step(event), ConnectionAction::Nothing));
    }
}

#[test]
fn connections_without_a_way_to_disconnect_end_quietly() {
    let mut connection = Connection {
        phase: ConnectionPhase::Listening,
        disconnectable: false,
    };
    assert!(matches!(
        connection.step(ConnectionEvent::RemoteGone),
        ConnectionAction::Finish {
            disconnect: false,
            ..
        }
    ));
}

fn incoming(connection: u64, message: &'static str) -> BridgeEvent<&'static str> {
    BridgeEvent::Incoming {
        connection,
        message,
    }
}

fn take(bridges: &mut Bridges, event: BridgeEvent<&'static str>) -> BridgeAction<&'static str> {
    bridges.bridge_connections(event)
}

fn open(bridges: &mut Bridges, connection: u64) -> (u64, Option<u64>) {
    let action = take(bridges, BridgeEvent::Opened { connection });
    assert!(matches!(action, BridgeAction::Connect { connection: c } if c == connection));
    assert!(bridges.has_room());
    match take(bridges, BridgeEvent::Connected) {
        BridgeAction::Keep { bridge, abort } => (bridge, abort),
        other => panic!("expected a bridge to keep, got {:?}", other),
    }
}

#[test]
fn every_client_gets_a_bridge_of_its_own() {
    let mut bridges = Bridges::new();
    assert_eq!(open(&mut bridges, 1), (0, None));
    assert_eq!(open(&mut bridges, 2), (1, None));

    let first = take(&mut bridges, incoming(1, "m"));
    assert!(matches!(first, BridgeAction::Deliver { bridge: 0, message: "m" }));
    take(&mut bridges, BridgeEvent::Delivered);
    let second = take(&mut bridges, incoming(2, "n"));
    assert!(matches!(second, BridgeAction::Deliver { bridge: 1, message: "n" }));
}

#[test]
fn a_new_bridge_replaces_and_aborts_the_previous_one() {
    let mut bridges = Bridges::new();
    assert_eq!(open(&mut bridges, 1), (0, None));
    assert_eq!(open(&mut bridges, 1), (1, Some(0)));
    assert_eq!(bridges.entries(), vec![(1, 1)]);
}

#[test]
fn a_failed_connection_is_isolated_to_its_client() {
    let mut bridges = Bridges::new();
    open(&mut bridges, 1);
    open(&mut bridges, 2);
    take(&mut bridges, BridgeEvent::Opened { connection: 2 });
    let action = take(&mut bridges, BridgeEvent::ConnectFailed {
        disconnectable: true,
    });
    assert!(matches!(
        action,
        BridgeAction::Refuse {
            connection: 2,
            disconnect: true
        }
    ));
    let mut entries = bridges.entries();
    entries.sort();
    assert_eq!(entries, vec![(1, 0), (2, 1)]);
    assert_eq!(
        refusal_report(2),
        "Failed to open local bridge for remote connection 2: "
    );
}

#[test]
fn closed_clients_are_aborted_and_get_nothing() {
    let mut bridges = Bridges::new();
    open(&mut bridges, 1);
    assert!(matches!(
        take(&mut bridges, BridgeEvent::Closed { connection: 1 }),
        BridgeAction::Abort { bridge: 0 }
    ));
    assert!(matches!(
        take(&mut bridges, BridgeEvent::Closed { connection: 1 }),
        BridgeAction::Listen
    ));
    assert!(matches!(
        take(&mut bridges, incoming(1, "m")),
        BridgeAction::Listen
    ));
}

#[test]
fn a_bridge_that_takes_no_messages_is_let_go() {
    let mut bridges = Bridges::new();
    open(&mut bridges, 1);
    take(&mut bridges, incoming(1, "m"));
    assert!(matches!(
        take(&mut bridges, BridgeEvent::DeliveryFailed),
        BridgeAction::Listen
    ));
    assert!(bridges.entries().is_empty());
}

#[test]
fn shutdown_aborts_every_bridge() {
    let mut bridges = Bridges::new();
    for n in 0..4 {
        open(&mut bridges, n);
    }
    let BridgeAction::Stop { mut abort } = take(&mut bridges, BridgeEvent::Shutdown) else {
        panic!("expected the end");
    };
    abort.sort();
    assert_eq!(abort, vec![(0, 0), (1, 1), (2, 2), (3, 3)]);
    assert!(matches!(
        take(&mut bridges, BridgeEvent::Opened { connection: 9 }),
        BridgeAction::Nothing
    ));
}

#[test]
fn the_end_of_the_transport_is_a_failure() {
    let mut bridges = Bridges::new();
    open(&mut bridges, 1);
    assert!(matches!(
        take(&mut bridges, BridgeEvent::TransportClosed),
        BridgeAction::Fail
    ));
}

#[test]
fn bridges_get_the_messages_of_their_clients_in_order() {
    let mut bridges = Bridges::new();
    open(&mut bridges, 1);
    open(&mut bridges, 2);
    let mut delivered = Vec::new();
    for event in [incoming(1, "a"), incoming(2, "b"), incoming(1, "c"), incoming(2, "d")] {
        if let BridgeAction::Deliver { bridge, message } = take(&mut bridges, event) {
            delivered.push((bridge, message));
        }
        take(&mut bridges, BridgeEvent::Delivered);
    }
    assert_eq!(delivered, vec![(0, "a"), (1, "b"), (0, "c"), (1, "d")]);

    open(&mut bridges, 1);
    let action = take(&mut bridges, incoming(1, "e"));
    assert!(matches!(action, BridgeAction::Deliver { bridge: 2, message: "e" }));
}
