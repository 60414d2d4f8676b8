use codex_relay::json::{JsonObject, JsonValue};
use codex_relay::message::{
    message_from_object, parse_child_message, read_error_object, read_request_id,
    ChildMessageError, JSONRPCErrorError, OutgoingMessage, OutgoingResponse, ProtocolCheck,
    RequestId,
};
use serde_json::Value;

fn value_of(value: &JsonValue) -> Value {
    match value {
        JsonValue::Null => Value::Null,
        JsonValue::Bool(b) => Value::Bool(*b),
        JsonValue::Text(text) => Value::String(text.clone()),
        JsonValue::Number(text) => serde_json::from_str(text).expect("the text is JSON"),
        JsonValue::Array(value) | JsonValue::Object(value) => value.clone(),
    }
}

fn object_of(object: &JsonObject) -> Value {
    let mut map = serde_json::Map::new();
    for (key, value) in &object.members {
        map.insert(key.clone(), value_of(value));
    }
    Value::Object(map)
}

fn message_value(message: &OutgoingMessage) -> Value {
    match message {
        OutgoingMessage::Request(object) | OutgoingMessage::AppServerNotification(object) => {
            object_of(object)
        }
        OutgoingMessage::Response(response) => object_of(&response.to_object()),
        OutgoingMessage::Error(error) => {
            let mut map = serde_json::Map::new();
            map.insert("id".to_string(), value_of(&error.id.to_value()));
            map.insert("error".to_string(), object_of(&error.error.to_object()));
            Value::Object(map)
        }
    }
}

/// The protocol takes requests and notifications alike.
fn taken() -> ProtocolCheck {
    ProtocolCheck {
        request: true,
        notification: true,
        other_error: None,
    }
}

/// The protocol takes neither requests nor notifications.
fn not_taken() -> ProtocolCheck {
    ProtocolCheck {
        request: false,
        notification: false,
        other_error: None,
    }
}

fn parsed(text: &str) -> OutgoingMessage {
    parse_child_message(text, taken()).expect("valid JSON-RPC should parse")
}

fn refused(text: &str) -> ChildMessageError {
    parse_child_message(text, taken()).expect_err("no JSON-RPC message")
}

fn object(members: Vec<(&str, JsonValue)>) -> JsonObject {
    JsonObject {
        members: members
            .into_iter()
            .map(|(key, value)| (key.to_string(), value))
            .collect(),
    }
}

fn number(text: &str) -> JsonValue {
    JsonValue::Number(text.to_string())
}

#[test]
fn parses_every_child_jsonrpc_message_kind() {
    let cases = [
        r#"{"id":1,"method":"currentTime/read","params":{"threadId":"thread-1"}}"#,
        r#"{"method":"thread/closed","params":{"threadId":"thread-1"}}"#,
        r#"{"id":1,"result":null}"#,
        r#"{"id":1,"error":{"code":-32600,"message":"bad request"}}"#,
    ];

    for message in cases {
        let parsed = parse_child_message(message, taken()).expect("valid JSON-RPC should parse");
        assert_eq!(
            message_value(&parsed),
            serde_json::from_str::<Value>(message).expect("test JSON-RPC should deserialize")
        );
    }
}

#[test]
fn rejects_non_object_child_message() {
    let error = parse_child_message("[]", taken()).expect_err("array is not a JSON-RPC message");

    assert_eq!(
        error.message().as_deref(),
        Some("invalid type: sequence, expected a map at line 1 column 0")
    );
}

#[test]
fn message_kinds_go_by_their_members() {
    assert!(matches!(
        parsed(r#"{"method":"m","id":null}"#),
        OutgoingMessage::Request(_)
    ));
    assert!(matches!(
        parsed(r#"{"method":"m","result":1}"#),
        OutgoingMessage::AppServerNotification(_)
    ));
    assert!(matches!(
        parsed(r#"{"id":"a","result":1,"error":2}"#),
        OutgoingMessage::Response(_)
    ));
    assert!(matches!(
        parsed(r#"{"id":"a","error":{"code":1,"message":"m"}}"#),
        OutgoingMessage::Error(_)
    ));
}

#[test]
fn requests_keep_all_their_members() {
    let text = r#"{"jsonrpc":"2.0","id":7,"method":"m","params":[1,{"a":null}],"x":1.5,"y":true}"#;
    assert_eq!(
        message_value(&parsed(text)),
        serde_json::from_str::<Value>(text).expect("the text is JSON")
    );
}

#[test]
fn error_responses_keep_code_message_and_data() {
    let text = r#"{"id":"r-1","error":{"code":-9223372036854775808,"message":"m","data":{"k":[1]}}}"#;
    let OutgoingMessage::Error(error) = parsed(text) else {
        panic!("expected an error response");
    };
    assert!(matches!(&error.id, RequestId::String(id) if id == "r-1"));
    assert_eq!(error.error.code, i64::MIN);
    assert_eq!(error.error.message, "m");
    assert_eq!(
        message_value(&OutgoingMessage::Error(error)),
        serde_json::from_str::<Value>(text).expect("the text is JSON")
    );
}

#[test]
fn null_data_is_no_data() {
    let OutgoingMessage::Error(error) =
        parsed(r#"{"id":1,"error":{"code":1,"message":"m","data":null}}"#)
    else {
        panic!("expected an error response");
    };
    assert!(error.error.data.is_none());
}

#[test]
fn broken_json_is_refused_with_the_reader_s_words() {
    let error = refused("{");
    assert!(matches!(error, ChildMessageError::InvalidJson(_)));
    assert_eq!(
        error.message().as_deref(),
        Some("EOF while parsing an object at line 1 column 1")
    );
}

#[test]
fn responses_need_a_string_or_an_integer_as_id() {
    for text in [
        r#"{"result":1}"#,
        r#"{"id":null,"result":1}"#,
        r#"{"id":1.0,"result":1}"#,
        r#"{"id":9223372036854775808,"result":1}"#,
        r#"{"id":[1],"error":{"code":1,"message":"m"}}"#,
        r#"{}"#,
    ] {
        let error = refused(text);
        assert!(matches!(error, ChildMessageError::InvalidRequestId));
        assert_eq!(
            error.message().as_deref(),
            Some("data did not match any variant of untagged enum RequestId")
        );
    }
}

#[test]
fn error_responses_need_an_error_object() {
    for text in [
        r#"{"id":1}"#,
        r#"{"id":1,"error":null}"#,
        r#"{"id":1,"error":"m"}"#,
        r#"{"id":1,"error":{"message":"m"}}"#,
        r#"{"id":1,"error":{"code":1}}"#,
        r#"{"id":1,"error":{"code":"1","message":"m"}}"#,
        r#"{"id":1,"error":{"code":1,"message":2}}"#,
    ] {
        let error = refused(text);
        assert!(matches!(error, ChildMessageError::InvalidErrorObject(_)));
        assert!(error.message().is_none());
    }
}

#[test]
fn a_refused_error_object_is_kept_for_its_reader() {
    let ChildMessageError::InvalidErrorObject(refused) =
        refused(r#"{"id":1,"error":{"code":"1","message":"m"}}"#)
    else {
        panic!("expected a refused error object");
    };
    assert_eq!(value_of(&refused).to_string(), r#"{"code":"1","message":"m"}"#);

    let ChildMessageError::InvalidErrorObject(refused) = parse_child_message(r#"{"id":1}"#, taken())
        .expect_err("the error is missing")
    else {
        panic!("expected a refused error object");
    };
    assert!(matches!(refused, JsonValue::Null));
}

#[test]
fn nested_numbers_are_read_once() {
    let text = r#"{"id":1,"error":{"code":1,"message":"m","data":[122.416294033786585,1e-7]}}"#;
    let OutgoingMessage::Error(error) = parsed(text) else {
        panic!("expected an error response");
    };
    let whole = serde_json::from_str::<Value>(text).expect("the text is JSON");
    assert!(matches!(&error.error.data, Some(JsonValue::Array(data)) if *data == whole["error"]["data"]));
}

#[test]
fn members_are_told_apart_by_kind() {
    let OutgoingMessage::Request(object) =
        parsed(r#"{"id":-3,"method":"m","a":null,"b":false,"c":[ 1 ],"d":{ "e" : 2 }}"#)
    else {
        panic!("expected a request");
    };
    assert!(matches!(object.get("id"), Some(JsonValue::Number(n)) if n == "-3"));
    assert!(matches!(object.get("method"), Some(JsonValue::Text(t)) if t == "m"));
    assert!(matches!(object.get("a"), Some(JsonValue::Null)));
    assert!(matches!(object.get("b"), Some(JsonValue::Bool(false))));
    assert!(matches!(object.get("c"), Some(JsonValue::Array(v)) if v.to_string() == "[1]"));
    assert!(matches!(object.get("d"), Some(JsonValue::Object(v)) if v.to_string() == "{\"e\":2}"));
    assert!(object.get("f").is_none());
    assert!(matches!(object.get_or_null("f"), JsonValue::Null));
    assert!(object.contains_key("a"));
}

#[test]
fn objects_are_read_as_messages_without_their_text() {
    let response = object(vec![("id", number("5")), ("result", JsonValue::Bool(true))]);
    let Ok(OutgoingMessage::Response(response)) = message_from_object(response, None, taken()) else {
        panic!("expected a response");
    };
    assert!(matches!(response.id, RequestId::Integer(5)));
    assert!(matches!(response.result, JsonValue::Bool(true)));

    let error = object(vec![("id", number("5"))]);
    let details = object(vec![
        ("message", JsonValue::Text("m".to_string())),
        ("code", number("-1")),
    ]);
    let Ok(OutgoingMessage::Error(error)) = message_from_object(error, Some(details), taken()) else {
        panic!("expected an error response");
    };
    assert_eq!(error.error.code, -1);
}

#[test]
fn request_ids_are_read_back_as_written() {
    for n in [0, 7, -1, i64::MAX, i64::MIN] {
        let value = RequestId::Integer(n).to_value();
        assert!(matches!(read_request_id(&value), Some(RequestId::Integer(m)) if m == n));
    }
    let value = RequestId::String("7".to_string()).to_value();
    assert!(matches!(read_request_id(&value), Some(RequestId::String(id)) if id == "7"));
    assert!(read_request_id(&JsonValue::Bool(true)).is_none());
    assert!(read_request_id(&number("7.0")).is_none());
}

#[test]
fn responses_are_written_with_id_and_result() {
    let response = OutgoingResponse {
        id: RequestId::Integer(7),
        result: JsonValue::Object(serde_json::from_str("{\"ok\":true}").expect("the text is JSON")),
    };
    assert_eq!(
        object_of(&response.to_object()).to_string(),
        r#"{"id":7,"result":{"ok":true}}"#
    );
}

#[test]
fn error_objects_are_read_back_as_written() {
    let error = JSONRPCErrorError {
        code: -32600,
        data: Some(JsonValue::Bool(false)),
        message: "m".to_string(),
    };
    let again = read_error_object(&error.to_object()).expect("the object is an error object");
    assert_eq!(again.code, -32600);
    assert_eq!(again.message, "m");
    assert!(matches!(again.data, Some(JsonValue::Bool(false))));
}

#[test]
fn requests_that_the_protocol_refuses_are_no_messages() {
    let text = r#"{"id":1,"method":"no/such/method","result":null}"#;
    let error = parse_child_message(text, not_taken()).expect_err("no such method");
    assert!(matches!(error, ChildMessageError::InvalidRequest));
    assert!(error.message().is_none());

    let check = ProtocolCheck {
        request: false,
        notification: true,
        other_error: None,
    };
    assert!(parse_child_message(text, check).is_err());
}

#[test]
fn notifications_that_the_protocol_refuses_are_no_messages() {
    let text = r#"{"method":"no/such/method","result":null}"#;
    let check = ProtocolCheck {
        request: true,
        notification: false,
        other_error: None,
    };
    let error = parse_child_message(text, check).expect_err("no such method");
    assert!(matches!(error, ChildMessageError::InvalidNotification));
    assert!(error.message().is_none());
}

#[test]
fn responses_do_not_depend_on_the_protocol() {
    let response = parse_child_message(r#"{"id":1,"result":2}"#, not_taken());
    assert!(matches!(response, Ok(OutgoingMessage::Response(_))));
    let error = parse_child_message(r#"{"id":1,"error":{"code":1,"message":"m"}}"#, not_taken());
    assert!(matches!(error, Ok(OutgoingMessage::Error(_))));
}

#[test]
fn errors_of_another_form_are_read_by_the_protocol() {
    let text = r#"{"id":1,"error":[1,null,"m"]}"#;
    let check = ProtocolCheck {
        request: false,
        notification: false,
        other_error: Some(JSONRPCErrorError {
            code: 1,
            data: None,
            message: "m".to_string(),
        }),
    };
    let Ok(OutgoingMessage::Error(error)) = parse_child_message(text, check) else {
        panic!("expected an error response");
    };
    assert_eq!(error.error.code, 1);
    assert!(matches!(error.id, RequestId::Integer(1)));
    assert!(parse_child_message(text, not_taken()).is_err());
}
