//! JSON-RPC messages that the child app-server sends.

use vstd::prelude::*;

use crate::json::{
    as_object, has_member, json_members, member, member_or_null, members_in, option_members,
    parse_object, same_members, JsonObject, JsonValue, JsonView, Members,
};
use crate::text::{decimal, read_signed, signed_text, text_view};

verus! {

/// The identifier of a JSON-RPC request.
#[derive(Debug)]
pub enum RequestId {
    String(String),
    Integer(i64),
}

pub enum RequestIdView {
    String(Seq<char>),
    Integer(i64),
}

impl View for RequestId {
    type V = RequestIdView;

    open spec fn view(&self) -> RequestIdView {
        match self {
            RequestId::String(text) => RequestIdView::String(text@),
            RequestId::Integer(n) => RequestIdView::Integer(*n),
        }
    }
}

/// The error object of a JSON-RPC error response.
#[derive(Debug)]
pub struct JSONRPCErrorError {
    pub code: i64,
    pub data: Option<JsonValue>,
    pub message: String,
}

pub struct ErrorView {
    pub code: i64,
    pub data: Option<JsonView>,
    pub message: Seq<char>,
}

pub open spec fn option_view(value: Option<JsonValue>) -> Option<JsonView> {
    match value {
        Some(v) => Some(v@),
        None => None,
    }
}

impl View for JSONRPCErrorError {
    type V = ErrorView;

    open spec fn view(&self) -> ErrorView {
        ErrorView { code: self.code, data: option_view(self.data), message: self.message@ }
    }
}

/// A response to a request of the remote client.
#[derive(Debug)]
pub struct OutgoingResponse {
    pub id: RequestId,
    pub result: JsonValue,
}

/// An error response to a request of the remote client.
#[derive(Debug)]
pub struct OutgoingError {
    pub error: JSONRPCErrorError,
    pub id: RequestId,
}

/// A message on its way from the child app-server to the remote client.
#[derive(Debug)]
pub enum OutgoingMessage {
    Request(JsonObject),
    AppServerNotification(JsonObject),
    Response(OutgoingResponse),
    Error(OutgoingError),
}

pub enum OutgoingView {
    Request(Members),
    AppServerNotification(Members),
    Response { id: RequestIdView, result: JsonView },
    Error { id: RequestIdView, error: ErrorView },
}

impl View for OutgoingMessage {
    type V = OutgoingView;

    open spec fn view(&self) -> OutgoingView {
        match self {
            OutgoingMessage::Request(object) => OutgoingView::Request(object@),
            OutgoingMessage::AppServerNotification(object) => OutgoingView::AppServerNotification(object@),
            OutgoingMessage::Response(response) => OutgoingView::Response {
                id: response.id@,
                result: response.result@,
            },
            OutgoingMessage::Error(error) => OutgoingView::Error {
                id: error.id@,
                error: error.error@,
            },
        }
    }
}

/// What the types of the app-server protocol say of a text of the child.
#[derive(Debug)]
pub struct ProtocolCheck {
    /// Whether it is a request of the protocol.
    pub request: bool,
    /// Whether it is a notification of the protocol.
    pub notification: bool,
    /// What they read from an `error` that is no object, if they take it.
    pub other_error: Option<JSONRPCErrorError>,
}

pub struct CheckView {
    pub request: bool,
    pub notification: bool,
    pub other_error: Option<ErrorView>,
}

impl View for ProtocolCheck {
    type V = CheckView;

    open spec fn view(&self) -> CheckView {
        CheckView {
            request: self.request,
            notification: self.notification,
            other_error: match self.other_error {
                Some(error) => Some(error@),
                None => None,
            },
        }
    }
}

/// Why a text of the child is no JSON-RPC message.
#[derive(Debug)]
pub enum ChildMessageError {
    /// The text is no JSON object; the message of the JSON reader.
    InvalidJson(String),
    /// The object has a `method` and an `id`, and is no request of the protocol.
    InvalidRequest,
    /// The object has a `method` and no `id`, and is no notification of the
    /// protocol.
    InvalidNotification,
    /// The `id` of a response is neither a string nor an integer.
    InvalidRequestId,
    /// The `error` of a response, which is no JSON-RPC error object.
    InvalidErrorObject(JsonValue),
}

pub enum ChildMessageErrorView {
    InvalidJson(Seq<char>),
    InvalidRequest,
    InvalidNotification,
    InvalidRequestId,
    InvalidErrorObject(JsonView),
}

impl View for ChildMessageError {
    type V = ChildMessageErrorView;

    open spec fn view(&self) -> ChildMessageErrorView {
        match self {
            ChildMessageError::InvalidJson(message) => ChildMessageErrorView::InvalidJson(message@),
            ChildMessageError::InvalidRequest => ChildMessageErrorView::InvalidRequest,
            ChildMessageError::InvalidNotification => ChildMessageErrorView::InvalidNotification,
            ChildMessageError::InvalidRequestId => ChildMessageErrorView::InvalidRequestId,
            ChildMessageError::InvalidErrorObject(value) => ChildMessageErrorView::InvalidErrorObject(
                value@,
            ),
        }
    }
}

/// What an error says; `None` where the reader of the app-server protocol has
/// the words, which speak of the value that it was given.
pub open spec fn child_error_text(error: ChildMessageErrorView) -> Option<Seq<char>> {
    match error {
        ChildMessageErrorView::InvalidJson(message) => Some(message),
        ChildMessageErrorView::InvalidRequestId => Some(
            "data did not match any variant of untagged enum RequestId"@,
        ),
        ChildMessageErrorView::InvalidRequest => None,
        ChildMessageErrorView::InvalidNotification => None,
        ChildMessageErrorView::InvalidErrorObject(_) => None,
    }
}

impl ChildMessageError {
    /// What the error says; `None` where the reader of the app-server protocol
    /// has the words.
    pub fn message(&self) -> (text: Option<String>)
        ensures
            text_view(text) == child_error_text(self@),
    {
        match self {
            ChildMessageError::InvalidJson(message) => Some(message.clone()),
            ChildMessageError::InvalidRequestId => Some(
                "data did not match any variant of untagged enum RequestId".to_owned(),
            ),
            ChildMessageError::InvalidRequest => None,
            ChildMessageError::InvalidNotification => None,
            ChildMessageError::InvalidErrorObject(_) => None,
        }
    }
}

/// The request identifier that a value is, if it is one: a string, or a number
/// whose text is the decimal numeral of a 64-bit signed integer.
pub open spec fn request_id(value: JsonView) -> Option<RequestIdView> {
    match value {
        JsonView::Text(text) => Some(RequestIdView::String(text)),
        JsonView::Number(text) => match integer(text) {
            Some(n) => Some(RequestIdView::Integer(n)),
            None => None,
        },
        _ => None,
    }
}

/// The 64-bit signed integer whose decimal numeral `text` is, if there is one.
pub open spec fn integer(text: Seq<char>) -> Option<i64> {
    if exists|n: i64| text == #[trigger] decimal(n as int) {
        Some(choose|n: i64| text == #[trigger] decimal(n as int))
    } else {
        None
    }
}

/// Reads the 64-bit signed integer whose decimal numeral `text` is.
fn read_integer(text: &String) -> (n: Option<i64>)
    ensures
        n == integer(text@),
{
    let n = read_signed(text.as_str());
    proof {
        if let Some(value) = n {
            assert(text@ == decimal(value as int));
            crate::text::law_decimal_injective(value, integer(text@).unwrap());
        }
    }
    n
}

/// Reads a value as a request identifier.
pub fn read_request_id(value: &JsonValue) -> (id: Option<RequestId>)
    ensures
        match id {
            Some(id) => request_id(value@) == Some(id@),
            None => request_id(value@) is None,
        },
{
    match value {
        JsonValue::Text(text) => Some(RequestId::String(text.clone())),
        JsonValue::Number(text) => match read_integer(text) {
            Some(n) => Some(RequestId::Integer(n)),
            None => None,
        },
        _ => None,
    }
}

/// The error object that the members of an object make up, if they do: an
/// integer `code`, a string `message`, and any `data`; a null `data` is none.
pub open spec fn error_object(members: Members) -> Option<ErrorView> {
    match (member(members, "code"@), member(members, "message"@)) {
        (Some(JsonView::Number(code)), Some(JsonView::Text(message))) => match integer(code) {
            Some(code) => Some(
                ErrorView {
                    code,
                    data: match member_or_null(members, "data"@) {
                        JsonView::Null => None,
                        value => Some(value),
                    },
                    message,
                },
            ),
            None => None,
        },
        _ => None,
    }
}

/// Reads an object as a JSON-RPC error object.
pub fn read_error_object(object: &JsonObject) -> (error: Option<JSONRPCErrorError>)
    ensures
        match error {
            Some(error) => error_object(object@) == Some(error@),
            None => error_object(object@) is None,
        },
{
    let data = match object.get_or_null("data") {
        JsonValue::Null => None,
        value => Some(value),
    };
    match (object.get("code"), object.get("message")) {
        (Some(JsonValue::Number(code)), Some(JsonValue::Text(message))) => match read_integer(code) {
            Some(code) => Some(JSONRPCErrorError { code, data, message: message.clone() }),
            None => None,
        },
        _ => None,
    }
}

/// The message that an object of the child is.
///
/// An object with a `method` is a request if it has an `id` and a notification
/// otherwise.  Without a `method` it is a response if it has a `result`, and an
/// error response otherwise.  `error` is what the `error` member holds, where
/// that is an object, and `check` what the protocol says of the object: a
/// request or a notification that it refuses is no message, and an `error` of
/// another form is what it reads from it.
pub open spec fn message_of(
    members: Members,
    error: Option<Members>,
    check: CheckView,
) -> Result<OutgoingView, ChildMessageErrorView> {
    let refused = ChildMessageErrorView::InvalidErrorObject(member_or_null(members, "error"@));
    if has_member(members, "method"@) {
        if has_member(members, "id"@) {
            if check.request {
                Ok(OutgoingView::Request(members))
            } else {
                Err(ChildMessageErrorView::InvalidRequest)
            }
        } else if check.notification {
            Ok(OutgoingView::AppServerNotification(members))
        } else {
            Err(ChildMessageErrorView::InvalidNotification)
        }
    } else {
        match request_id(member_or_null(members, "id"@)) {
            None => Err(ChildMessageErrorView::InvalidRequestId),
            Some(id) => match member(members, "result"@) {
                Some(result) => Ok(OutgoingView::Response { id, result }),
                None => match error {
                    Some(error) => match error_object(error) {
                        Some(error) => Ok(OutgoingView::Error { id, error }),
                        None => Err(refused),
                    },
                    None => match check.other_error {
                        Some(error) => Ok(OutgoingView::Error { id, error }),
                        None => Err(refused),
                    },
                },
            },
        }
    }
}

pub open spec fn message_result_view(
    result: Result<OutgoingMessage, ChildMessageError>,
) -> Result<OutgoingView, ChildMessageErrorView> {
    match result {
        Ok(message) => Ok(message@),
        Err(error) => Err(error@),
    }
}

/// The message that an object of the child is; `error` is what its `error`
/// member holds, where that is an object, and `check` what the protocol says of
/// it.
pub fn message_from_object(
    object: JsonObject,
    error: Option<JsonObject>,
    check: ProtocolCheck,
) -> (message: Result<OutgoingMessage, ChildMessageError>)
    ensures
        message_result_view(message) == message_of(object@, option_members(error), check@),
{
    if object.contains_key("method") {
        if object.contains_key("id") {
            if !check.request {
                return Err(ChildMessageError::InvalidRequest);
            }
            return Ok(OutgoingMessage::Request(object));
        }
        if !check.notification {
            return Err(ChildMessageError::InvalidNotification);
        }
        return Ok(OutgoingMessage::AppServerNotification(object));
    }
    let id = match read_request_id(&object.get_or_null("id")) {
        Some(id) => id,
        None => return Err(ChildMessageError::InvalidRequestId),
    };
    if let Some(result) = object.get("result") {
        return Ok(OutgoingMessage::Response(OutgoingResponse { id, result: result.copy() }));
    }
    match error {
        Some(error) => match read_error_object(&error) {
            Some(error) => Ok(OutgoingMessage::Error(OutgoingError { error, id })),
            None => Err(ChildMessageError::InvalidErrorObject(object.get_or_null("error"))),
        },
        None => match check.other_error {
            Some(error) => Ok(OutgoingMessage::Error(OutgoingError { error, id })),
            None => Err(ChildMessageError::InvalidErrorObject(object.get_or_null("error"))),
        },
    }
}

/// What the `error` member of an object holds, where that is an object.
pub open spec fn error_members(members: Members) -> Option<Members> {
    match member(members, "error"@) {
        Some(JsonView::Object(value)) => members_in(value),
        _ => None,
    }
}

/// The message that a text of the child is; `check` is what the protocol says of
/// the text.
pub open spec fn child_message(text: Seq<char>, check: CheckView) -> Result<
    OutgoingView,
    ChildMessageErrorView,
> {
    match json_members(text) {
        Ok(members) => message_of(members, error_members(members), check),
        Err(message) => Err(ChildMessageErrorView::InvalidJson(message)),
    }
}

/// Reads a text of the child as a JSON-RPC message; `check` is what the protocol
/// says of the text.
pub fn parse_child_message(text: &str, check: ProtocolCheck) -> (message: Result<
    OutgoingMessage,
    ChildMessageError,
>)
    ensures
        message_result_view(message) == child_message(text@, check@),
{
    let object = match parse_object(text) {
        Ok(object) => object,
        Err(message) => return Err(ChildMessageError::InvalidJson(message)),
    };
    let error = match object.get("error") {
        Some(JsonValue::Object(value)) => as_object(value),
        _ => None,
    };
    message_from_object(object, error, check)
}

/// The value that a request identifier is.
pub open spec fn id_value(id: RequestIdView) -> JsonView {
    match id {
        RequestIdView::String(text) => JsonView::Text(text),
        RequestIdView::Integer(n) => JsonView::Number(decimal(n as int)),
    }
}

impl RequestId {
    /// The value that the identifier is.
    pub fn to_value(&self) -> (value: JsonValue)
        ensures
            value@ == id_value(self@),
    {
        match self {
            RequestId::String(text) => JsonValue::Text(text.clone()),
            RequestId::Integer(n) => JsonValue::Number(signed_text(*n)),
        }
    }
}

/// The members of a response.
pub open spec fn response_members(id: RequestIdView, result: JsonView) -> Members {
    seq![("id"@, id_value(id)), ("result"@, result)]
}

impl OutgoingResponse {
    /// The response as an object.
    pub fn to_object(&self) -> (object: JsonObject)
        ensures
            object@ == response_members(self.id@, self.result@),
    {
        let mut members: Vec<(String, JsonValue)> = Vec::new();
        members.push(("id".to_owned(), self.id.to_value()));
        members.push(("result".to_owned(), self.result.copy()));
        let object = JsonObject { members };
        proof {
            assert(object@ =~= response_members(self.id@, self.result@));
        }
        object
    }
}

/// The members of an error object; `data` is left out where there is none.
pub open spec fn error_object_members(error: ErrorView) -> Members {
    let required = seq![
        ("code"@, JsonView::Number(decimal(error.code as int))),
        ("message"@, JsonView::Text(error.message)),
    ];
    match error.data {
        Some(data) => required.push(("data"@, data)),
        None => required,
    }
}

impl JSONRPCErrorError {
    /// The error as an object.
    pub fn to_object(&self) -> (object: JsonObject)
        ensures
            object@ == error_object_members(self@),
    {
        let mut members: Vec<(String, JsonValue)> = Vec::new();
        members.push(("code".to_owned(), JsonValue::Number(signed_text(self.code))));
        members.push(("message".to_owned(), JsonValue::Text(self.message.clone())));
        if let Some(data) = &self.data {
            members.push(("data".to_owned(), data.copy()));
        }
        let object = JsonObject { members };
        proof {
            assert(object@ =~= error_object_members(self@));
        }
        object
    }
}

/// Whether every key of an object is one of `keys`.
pub open spec fn keys_among(members: Members, keys: Set<Seq<char>>) -> bool {
    forall|key: Seq<char>| #[trigger] has_member(members, key) ==> keys.contains(key)
}

/// An identifier that is written as a value is read back as it was.
pub proof fn law_request_id_round_trip(id: RequestIdView)
    ensures
        request_id(id_value(id)) == Some(id),
{
    if let RequestIdView::Integer(n) = id {
        let text = decimal(n as int);
        assert(integer(text) is Some);
        crate::text::law_decimal_injective(n, integer(text).unwrap());
    }
}

/// A request or a notification that the protocol takes reaches the remote client
/// with all its members, whatever they are.  One that it refuses is refused,
/// whatever else the object holds: it is never taken for a response.
pub proof fn law_requests_pass_whole_or_not_at_all(
    members: Members,
    error: Option<Members>,
    check: CheckView,
)
    requires
        has_member(members, "method"@),
    ensures
        ({
            let message = message_of(members, error, check);
            if has_member(members, "id"@) {
                if check.request {
                    message == Ok::<OutgoingView, ChildMessageErrorView>(
                        OutgoingView::Request(members),
                    )
                } else {
                    message is Err
                }
            } else if check.notification {
                message == Ok::<OutgoingView, ChildMessageErrorView>(
                    OutgoingView::AppServerNotification(members),
                )
            } else {
                message is Err
            }
        }),
{
}

proof fn lemma_member_two(a: (Seq<char>, JsonView), b: (Seq<char>, JsonView), key: Seq<char>)
    ensures
        member(seq![a, b], key) == if a.0 == key {
            Some(a.1)
        } else if b.0 == key {
            Some(b.1)
        } else {
            None
        },
{
    reveal_with_fuel(member, 3);
    assert(seq![a, b].drop_first() =~= seq![b]);
    assert(seq![b].drop_first() =~= Seq::<(Seq<char>, JsonView)>::empty());
}

/// A response or an error response reaches the remote client under the `id` that
/// the child gave it.
pub proof fn law_responses_keep_their_id(
    members: Members,
    error: Option<Members>,
    check: CheckView,
)
    ensures
        match message_of(members, error, check) {
            Ok(OutgoingView::Response { id, .. }) => member(members, "id"@) == Some(id_value(id)),
            Ok(OutgoingView::Error { id, .. }) => member(members, "id"@) == Some(id_value(id)),
            _ => true,
        },
{
    if let JsonView::Number(text) = member_or_null(members, "id"@) {
        if integer(text) is Some {
            assert(text == decimal(integer(text).unwrap() as int));
        }
    }
}

/// A response that the child sends with an `id` and a `result` and nothing else
/// reaches the remote client with the same `id` and the same `result`.
pub proof fn law_responses_pass_unchanged(
    members: Members,
    error: Option<Members>,
    check: CheckView,
    id: RequestIdView,
    result: JsonView,
)
    requires
        message_of(members, error, check) == Ok::<OutgoingView, ChildMessageErrorView>(
            OutgoingView::Response { id, result },
        ),
        keys_among(members, set!["id"@, "result"@]),
    ensures
        same_members(response_members(id, result), members),
{
    assert forall|key: Seq<char>| #[trigger] member(response_members(id, result), key) == member(
        members,
        key,
    ) by {
        lemma_member_two(("id"@, id_value(id)), ("result"@, result), key);
        assert(has_member(members, key) ==> set!["id"@, "result"@].contains(key));
        reveal_strlit("id");
        reveal_strlit("result");
        assert("id"@.len() == 2 && "result"@.len() == 6);
        let value = member_or_null(members, "id"@);
        if let JsonView::Number(text) = value {
            assert(text == decimal(integer(text).unwrap() as int));
        }
    }
}

/// An error object that the child sends with a `code`, a `message`, perhaps
/// `data` that is not null, and nothing else reaches the remote client unchanged.
pub proof fn law_errors_pass_unchanged(members: Members, error: ErrorView)
    requires
        error_object(members) == Some(error),
        keys_among(members, set!["code"@, "message"@, "data"@]),
        member(members, "data"@) != Some(JsonView::Null),
    ensures
        same_members(error_object_members(error), members),
{
    let code = ("code"@, JsonView::Number(decimal(error.code as int)));
    let message = ("message"@, JsonView::Text(error.message));
    reveal_strlit("code");
    reveal_strlit("message");
    reveal_strlit("data");
    assert("code"@ != "message"@) by {
        assert("code"@.len() == 4 && "message"@.len() == 7);
    }
    assert("code"@ != "data"@) by {
        assert("code"@[0] == 'c' && "data"@[0] == 'd');
    }
    assert("message"@ != "data"@) by {
        assert("data"@.len() == 4 && "message"@.len() == 7);
    }
    assert forall|key: Seq<char>| #[trigger] member(error_object_members(error), key) == member(
        members,
        key,
    ) by {
        assert(has_member(members, key) ==> set!["code"@, "message"@, "data"@].contains(key));
        match error.data {
            Some(data) => {
                let third = ("data"@, data);
                assert(error_object_members(error) =~= seq![code, message, third]);
                assert(seq![code, message, third].drop_first() =~= seq![message, third]);
                lemma_member_two(message, third, key);
            },
            None => {
                lemma_member_two(code, message, key);
            },
        }
        if let Some(JsonView::Number(text)) = member(members, "code"@) {
            assert(text == decimal(integer(text).unwrap() as int));
        }
    }
}

proof fn lemma_integer_of_decimal(n: i64)
    ensures
        integer(decimal(n as int)) == Some(n),
{
    assert(integer(decimal(n as int)) is Some);
    crate::text::law_decimal_injective(n, integer(decimal(n as int)).unwrap());
}

/// Whether a value is the identifier `id`, as JSON has it: a string, or the
/// numeral of an integer.
pub open spec fn stands_for(value: JsonView, id: RequestIdView) -> bool {
    ||| value matches JsonView::Text(text) && id == RequestIdView::String(text)
    ||| value matches JsonView::Number(text) && (id matches RequestIdView::Integer(n) && text
        == decimal(n as int))
}

/// Which values are identifiers: a string is itself, the numeral of a 64-bit
/// signed integer is that integer, and nothing else is one.
pub proof fn law_identifiers_are_strings_and_integers(value: JsonView, text: Seq<char>, n: i64)
    ensures
        request_id(JsonView::Text(text)) == Some(RequestIdView::String(text)),
        request_id(JsonView::Number(decimal(n as int))) == Some(RequestIdView::Integer(n)),
        request_id(JsonView::Number(text)) is Some ==> exists|m: i64|
            text == #[trigger] decimal(m as int),
        !(value is Text) && !(value is Number) ==> request_id(value) is None,
        id_value(RequestIdView::String(text)) == JsonView::Text(text),
        id_value(RequestIdView::Integer(n)) == JsonView::Number(decimal(n as int)),
{
    lemma_integer_of_decimal(n);
}

/// A response reaches the remote client with the identifier and the result that
/// the child gave it: an object without a `method`, with a string or an integer
/// as its `id` and with a `result`, is just that response.
pub proof fn law_response_is_what_the_child_sent(
    members: Members,
    error: Option<Members>,
    check: CheckView,
    id: RequestIdView,
    result: JsonView,
)
    requires
        member(members, "method"@) is None,
        member(members, "id"@) matches Some(value) && stands_for(value, id),
        member(members, "result"@) == Some(result),
    ensures
        message_of(members, error, check) == Ok::<OutgoingView, ChildMessageErrorView>(
            OutgoingView::Response { id, result },
        ),
{
    if let RequestIdView::Integer(n) = id {
        lemma_integer_of_decimal(n);
    }
}

/// An error response reaches the remote client with the identifier, the code, the
/// message and the data that the child gave it: an object without a `method` and
/// a `result`, with an identifier, and with an error object whose `code` is an
/// integer and whose `message` is a string, is just that error.  Data that is null
/// is none.
pub proof fn law_error_is_what_the_child_sent(
    members: Members,
    error: Members,
    check: CheckView,
    id: RequestIdView,
    code: i64,
    message: Seq<char>,
)
    requires
        member(members, "method"@) is None,
        member(members, "result"@) is None,
        member(members, "id"@) matches Some(value) && stands_for(value, id),
        member(error, "code"@) == Some(JsonView::Number(decimal(code as int))),
        member(error, "message"@) == Some(JsonView::Text(message)),
    ensures
        ({
            &&& message_of(members, Some(error), check) matches Ok(OutgoingView::Error {
                id: under,
                error: forwarded,
            })
            &&& under == id
            &&& forwarded.code == code
            &&& forwarded.message == message
            &&& match member(error, "data"@) {
                Some(JsonView::Null) => forwarded.data is None,
                None => forwarded.data is None,
                data => forwarded.data == data,
            }
        }),
{
    lemma_integer_of_decimal(code);
    if let RequestIdView::Integer(n) = id {
        lemma_integer_of_decimal(n);
    }
}

/// An object without a `method` whose `id` is neither a string nor an integer is
/// refused for its `id`, whatever else it holds; and nothing else is.
pub proof fn law_refused_for_the_id(members: Members, error: Option<Members>, check: CheckView)
    ensures
        message_of(members, error, check) == Err::<OutgoingView, ChildMessageErrorView>(
            ChildMessageErrorView::InvalidRequestId,
        ) <==> member(members, "method"@) is None && forall|id: RequestIdView|
            !#[trigger] stands_for(member_or_null(members, "id"@), id),
{
    match member(members, "id"@) {
        Some(JsonView::Text(text)) => {
            assert(stands_for(JsonView::Text(text), RequestIdView::String(text)));
        },
        Some(JsonView::Number(text)) => {
            if integer(text) is Some {
                let n = integer(text).unwrap();
                assert(text == decimal(n as int));
                assert(stands_for(JsonView::Number(text), RequestIdView::Integer(n)));
            } else {
                assert forall|id: RequestIdView| !#[trigger] stands_for(JsonView::Number(text), id) by {
                    if let RequestIdView::Integer(n) = id {
                        assert(text != decimal(n as int));
                    }
                }
            }
        },
        _ => {},
    }
}

/// An error response without a proper error object is refused, with what stands
/// under `error`.
pub proof fn law_refused_for_the_error(
    members: Members,
    error: Option<Members>,
    check: CheckView,
    id: RequestIdView,
)
    requires
        member(members, "method"@) is None,
        member(members, "result"@) is None,
        member(members, "id"@) matches Some(value) && stands_for(value, id),
        match error {
            Some(error) => {
                ||| !(member(error, "message"@) matches Some(JsonView::Text(_)))
                ||| forall|n: i64| #![trigger decimal(n as int)]
                    member(error, "code"@) != Some(JsonView::Number(decimal(n as int)))
            },
            None => check.other_error is None,
        },
    ensures
        message_of(members, error, check) == Err::<OutgoingView, ChildMessageErrorView>(
            ChildMessageErrorView::InvalidErrorObject(
                match member(members, "error"@) {
                    Some(value) => value,
                    None => JsonView::Null,
                },
            ),
        ),
{
    if let RequestIdView::Integer(n) = id {
        lemma_integer_of_decimal(n);
    }
    if let Some(error) = error {
        if let Some(JsonView::Number(code)) = member(error, "code"@) {
            if integer(code) is Some {
                assert(code == decimal(integer(code).unwrap() as int));
            }
        }
    }
}

/// An `error` that is no object is what the protocol reads from it.
pub proof fn law_other_errors_are_the_protocols(
    members: Members,
    check: CheckView,
    id: RequestIdView,
    error: ErrorView,
)
    requires
        member(members, "method"@) is None,
        member(members, "result"@) is None,
        member(members, "id"@) matches Some(value) && stands_for(value, id),
        check.other_error == Some(error),
    ensures
        message_of(members, None, check) == Ok::<OutgoingView, ChildMessageErrorView>(
            OutgoingView::Error { id, error },
        ),
{
    if let RequestIdView::Integer(n) = id {
        lemma_integer_of_decimal(n);
    }
}

/// A request or a notification is taken exactly where the protocol takes it, and
/// refused as what it would be; only an object with a `method` is either.
pub proof fn law_methods_are_requests_and_notifications(
    members: Members,
    error: Option<Members>,
    check: CheckView,
)
    ensures
        ({
            let message = message_of(members, error, check);
            let method = member(members, "method"@) is Some;
            let id = member(members, "id"@) is Some;
            &&& message == Ok::<OutgoingView, ChildMessageErrorView>(OutgoingView::Request(members))
                <==> method && id && check.request
            &&& message == Err::<OutgoingView, ChildMessageErrorView>(
                ChildMessageErrorView::InvalidRequest,
            ) <==> method && id && !check.request
            &&& message == Ok::<OutgoingView, ChildMessageErrorView>(
                OutgoingView::AppServerNotification(members),
            ) <==> method && !id && check.notification
            &&& message == Err::<OutgoingView, ChildMessageErrorView>(
                ChildMessageErrorView::InvalidNotification,
            ) <==> method && !id && !check.notification
            &&& !(message matches Err(ChildMessageErrorView::InvalidJson(_)))
        }),
{
}

/// A text is the message that its object is, where an `error` that is an object
/// counts with its own members; a text that is no object is refused with the
/// reader's words.
pub proof fn law_text_is_read_as_its_object(text: Seq<char>, check: CheckView, members: Members)
    ensures
        json_members(text) == Ok::<Members, Seq<char>>(members) ==> child_message(text, check)
            == match member(members, "error"@) {
            Some(JsonView::Object(value)) => message_of(members, members_in(value), check),
            _ => message_of(members, None, check),
        },
        json_members(text) matches Err(words) ==> child_message(text, check) == Err::<
            OutgoingView,
            ChildMessageErrorView,
        >(ChildMessageErrorView::InvalidJson(words)),
{
}

/// An error object that is written is read back as it was, if its data is not
/// null.
pub proof fn law_error_object_round_trip(error: ErrorView)
    requires
        error.data != Some(JsonView::Null),
    ensures
        error_object(error_object_members(error)) == Some(error),
{
    reveal_with_fuel(member, 4);
    lemma_integer_of_decimal(error.code);
    reveal_strlit("code");
    reveal_strlit("message");
    reveal_strlit("data");
    assert("code"@.len() == 4 && "message"@.len() == 7 && "data"@.len() == 4);
    assert("code"@[0] == 'c' && "data"@[0] == 'd');
    let members = error_object_members(error);
    let rest = members.drop_first();
    assert(members[0].0 == "code"@);
    assert(rest[0] == members[1]);
    if error.data is Some {
        assert(rest.drop_first()[0] == members[2]);
    } else {
        assert(rest.drop_first() =~= Seq::<(Seq<char>, JsonView)>::empty());
    }
}

/// A response is written with its identifier and its result, in that order, and
/// nothing else; an error object with its code, its message, and its data if it
/// has any.
pub proof fn law_responses_are_written(id: RequestIdView, result: JsonView, error: ErrorView)
    ensures
        ({
            let response = response_members(id, result);
            let object = error_object_members(error);
            &&& response.len() == 2
            &&& response[0] == ("id"@, id_value(id))
            &&& response[1] == ("result"@, result)
            &&& object.len() == if error.data is Some {
                3nat
            } else {
                2
            }
            &&& object[0] == ("code"@, JsonView::Number(decimal(error.code as int)))
            &&& object[1] == ("message"@, JsonView::Text(error.message))
            &&& error.data matches Some(data) ==> object[2] == ("data"@, data)
        }),
{
}

/// A text that is no object is refused with the words of its reader.
pub proof fn law_reader_is_quoted(words: Seq<char>)
    ensures
        child_error_text(ChildMessageErrorView::InvalidJson(words)) == Some(words),
{
}

/// Nothing of a message, an error or a check is lost from view.
pub proof fn law_messages_are_seen_whole(
    id: RequestId,
    error: JSONRPCErrorError,
    message: OutgoingMessage,
    refusal: ChildMessageError,
    check: ProtocolCheck,
)
    ensures
        match (id, id@) {
            (RequestId::String(text), RequestIdView::String(t)) => t == text@,
            (RequestId::Integer(n), RequestIdView::Integer(m)) => m == n,
            _ => false,
        },
        error@.code == error.code,
        error@.message == error.message@,
        match (error.data, error@.data) {
            (Some(data), Some(d)) => d == data@,
            (None, None) => true,
            _ => false,
        },
        match (message, message@) {
            (OutgoingMessage::Request(object), OutgoingView::Request(o)) => o == object@,
            (
                OutgoingMessage::AppServerNotification(object),
                OutgoingView::AppServerNotification(o),
            ) => o == object@,
            (OutgoingMessage::Response(response), OutgoingView::Response { id, result }) => id
                == response.id@ && result == response.result@,
            (OutgoingMessage::Error(sent), OutgoingView::Error { id, error }) => id == sent.id@
                && error == sent.error@,
            _ => false,
        },
        match (refusal, refusal@) {
            (ChildMessageError::InvalidJson(words), ChildMessageErrorView::InvalidJson(w)) => w
                == words@,
            (ChildMessageError::InvalidRequest, ChildMessageErrorView::InvalidRequest) => true,
            (ChildMessageError::InvalidNotification, ChildMessageErrorView::InvalidNotification) => true,
            (ChildMessageError::InvalidRequestId, ChildMessageErrorView::InvalidRequestId) => true,
            (
                ChildMessageError::InvalidErrorObject(value),
                ChildMessageErrorView::InvalidErrorObject(v),
            ) => v == value@,
            _ => false,
        },
        check@.request == check.request,
        check@.notification == check.notification,
        match (check.other_error, check@.other_error) {
            (Some(error), Some(e)) => e == error@,
            (None, None) => true,
            _ => false,
        },
{
}

/// Neither a message nor its refusal is lost on the way, nor is an object that
/// may be absent.
pub proof fn law_results_are_seen_whole(
    result: Result<OutgoingMessage, ChildMessageError>,
    object: Option<JsonObject>,
)
    ensures
        match (result, message_result_view(result)) {
            (Ok(message), Ok(m)) => m == message@,
            (Err(error), Err(e)) => e == error@,
            _ => false,
        },
        match (object, option_members(object)) {
            (Some(object), Some(o)) => o == object@,
            (None, None) => true,
            _ => false,
        },
{
}

} // verus!
