//! JSON objects, read one level deep.
//!
//! The relay looks at the members of an object and no deeper: a nested array
//! or object is carried as `serde_json` read it.

use serde_json::Value;
use vstd::prelude::*;

use crate::text::text_is;

verus! {

/// `serde_json::Value`, a JSON value of any depth.
#[verifier::external_type_specification]
#[verifier::external_body]
pub struct ExValue(serde_json::Value);

/// `serde_json::Value::clone` gives the same value again.
pub assume_specification[ <serde_json::Value as Clone>::clone ](value: &serde_json::Value) -> (copy:
    serde_json::Value)
    ensures
        copy == *value,
;

/// The value of an object's member.
#[derive(Debug)]
pub enum JsonValue {
    Null,
    Bool(bool),
    /// A number, by its JSON text.
    Number(String),
    /// A string, by its characters.
    Text(String),
    /// An array, with all that it holds.
    Array(Value),
    /// An object, with all that it holds.
    Object(Value),
}

/// What a [`JsonValue`] is, as a mathematical value.
pub enum JsonView {
    Null,
    Bool(bool),
    Number(Seq<char>),
    Text(Seq<char>),
    Array(Value),
    Object(Value),
}

impl View for JsonValue {
    type V = JsonView;

    open spec fn view(&self) -> JsonView {
        match self {
            JsonValue::Null => JsonView::Null,
            JsonValue::Bool(b) => JsonView::Bool(*b),
            JsonValue::Number(text) => JsonView::Number(text@),
            JsonValue::Text(text) => JsonView::Text(text@),
            JsonValue::Array(value) => JsonView::Array(*value),
            JsonValue::Object(value) => JsonView::Object(*value),
        }
    }
}

impl JsonValue {
    /// A copy of the value.
    pub fn copy(&self) -> (value: JsonValue)
        ensures
            value@ == self@,
    {
        match self {
            JsonValue::Null => JsonValue::Null,
            JsonValue::Bool(b) => JsonValue::Bool(*b),
            JsonValue::Number(text) => JsonValue::Number(text.clone()),
            JsonValue::Text(text) => JsonValue::Text(text.clone()),
            JsonValue::Array(value) => JsonValue::Array(value.clone()),
            JsonValue::Object(value) => JsonValue::Object(value.clone()),
        }
    }
}

/// The members of an object: its keys with their values.
pub type Members = Seq<(Seq<char>, JsonView)>;

/// A JSON object.
#[derive(Debug)]
pub struct JsonObject {
    pub members: Vec<(String, JsonValue)>,
}

/// The mathematical members of a list of members.
pub open spec fn members_view(members: Seq<(String, JsonValue)>) -> Members {
    members.map_values(|m: (String, JsonValue)| (m.0@, m.1@))
}

impl View for JsonObject {
    type V = Members;

    open spec fn view(&self) -> Members {
        members_view(self.members@)
    }
}

/// The value under `key`, if there is one; of several, the first.
pub open spec fn member(members: Members, key: Seq<char>) -> Option<JsonView>
    decreases members.len(),
{
    if members.len() == 0 {
        None
    } else if members[0].0 == key {
        Some(members[0].1)
    } else {
        member(members.drop_first(), key)
    }
}

/// Whether there is a member under `key`.
pub open spec fn has_member(members: Members, key: Seq<char>) -> bool {
    member(members, key) is Some
}

/// The value under `key`, or null where there is none.
pub open spec fn member_or_null(members: Members, key: Seq<char>) -> JsonView {
    match member(members, key) {
        Some(value) => value,
        None => JsonView::Null,
    }
}

/// Whether two objects give every key the same value.
pub open spec fn same_members(a: Members, b: Members) -> bool {
    forall|key: Seq<char>| #[trigger] member(a, key) == member(b, key)
}

impl JsonObject {
    /// The value under `key`, if there is one.
    pub fn get(&self, key: &str) -> (value: Option<&JsonValue>)
        ensures
            match value {
                Some(v) => member(self@, key@) == Some(v@),
                None => member(self@, key@) is None,
            },
    {
        let mut i: usize = 0;
        proof {
            assert(self@.skip(0) =~= self@);
        }
        while i < self.members.len()
            invariant
                i <= self.members@.len(),
                self@.len() == self.members@.len(),
                member(self@, key@) == member(self@.skip(i as int), key@),
            decreases self.members@.len() - i,
        {
            proof {
                assert(self@.skip(i as int)[0] == self@[i as int]);
                assert(self@.skip(i as int).drop_first() =~= self@.skip(i + 1));
            }
            if text_is(&self.members[i].0, key) {
                return Some(&self.members[i].1);
            }
            i += 1;
        }
        None
    }

    /// Whether there is a member under `key`.
    pub fn contains_key(&self, key: &str) -> (found: bool)
        ensures
            found == has_member(self@, key@),
    {
        self.get(key).is_some()
    }

    /// The value under `key`, or null where there is none.
    pub fn get_or_null(&self, key: &str) -> (value: JsonValue)
        ensures
            value@ == member_or_null(self@, key@),
    {
        match self.get(key) {
            Some(value) => value.copy(),
            None => JsonValue::Null,
        }
    }
}

/// The members of an object, if there is one.
pub open spec fn option_members(object: Option<JsonObject>) -> Option<Members> {
    match object {
        Some(object) => Some(object@),
        None => None,
    }
}

/// What `serde_json::from_str` reads from a text as an object: the members,
/// or the message of its error.
pub uninterp spec fn json_members(text: Seq<char>) -> Result<Seq<(Seq<char>, JsonView)>, Seq<char>>;

/// The members that a `serde_json::Value` holds, if it is an object.
pub uninterp spec fn members_in(value: serde_json::Value) -> Option<Seq<(Seq<char>, JsonView)>>;

/// Reads a text as one JSON object, by `serde_json::from_str` into a
/// `serde_json::Map`.
///
/// Which members a text has, and with what message a text that is no object
/// is refused, is a function of the text alone.
#[verifier::external_body]
pub(crate) fn parse_object(text: &str) -> (parsed: Result<JsonObject, String>)
    ensures
        match parsed {
            Ok(object) => json_members(text@) == Ok::<Members, Seq<char>>(object@),
            Err(message) => json_members(text@) == Err::<Members, Seq<char>>(message@),
        },
{
    let object = serde_json::from_str::<serde_json::Map<String, Value>>(text)
        .map_err(|error| error.to_string())?;
    let member = |(key, value): (String, Value)| match value {
        Value::Null => (key, JsonValue::Null),
        Value::Bool(b) => (key, JsonValue::Bool(b)),
        Value::Number(n) => (key, JsonValue::Number(n.to_string())),
        Value::String(s) => (key, JsonValue::Text(s)),
        Value::Array(_) => (key, JsonValue::Array(value)),
        Value::Object(_) => (key, JsonValue::Object(value)),
    };
    Ok(JsonObject { members: object.into_iter().map(member).collect() })
}

/// `serde_json::Value::as_object`: the members of a value, if it is an object.
#[verifier::external_body]
pub(crate) fn as_object(value: &Value) -> (object: Option<JsonObject>)
    ensures
        option_members(object) == members_in(*value),
{
    let member = |(key, value): (&String, &Value)| match value {
        Value::Null => (key.clone(), JsonValue::Null),
        Value::Bool(b) => (key.clone(), JsonValue::Bool(*b)),
        Value::Number(n) => (key.clone(), JsonValue::Number(n.to_string())),
        Value::String(s) => (key.clone(), JsonValue::Text(s.clone())),
        Value::Array(_) => (key.clone(), JsonValue::Array(value.clone())),
        Value::Object(_) => (key.clone(), JsonValue::Object(value.clone())),
    };
    value.as_object().map(|object| JsonObject { members: object.iter().map(member).collect() })
}

/// A key has the value of the first member under it, and no value exactly where
/// there is no such member.
pub proof fn law_member_is_the_first(members: Members, key: Seq<char>)
    ensures
        match member(members, key) {
            Some(value) => exists|i: int|
                0 <= i < members.len() && #[trigger] members[i] == (key, value) && forall|j: int|
                    0 <= j < i ==> (#[trigger] members[j]).0 != key,
            None => forall|j: int| 0 <= j < members.len() ==> (#[trigger] members[j]).0 != key,
        },
        has_member(members, key) <==> exists|i: int|
            0 <= i < members.len() && (#[trigger] members[i]).0 == key,
    decreases members.len(),
{
    if members.len() > 0 {
        let rest = members.drop_first();
        law_member_is_the_first(rest, key);
        assert forall|j: int| 0 < j < members.len() implies #[trigger] members[j] == rest[j - 1] by {}
        if members[0].0 == key {
            assert(members[0] == (key, members[0].1));
        } else {
            match member(rest, key) {
                Some(value) => {
                    let i = choose|i: int|
                        0 <= i < rest.len() && #[trigger] rest[i] == (key, value) && forall|j: int|
                            0 <= j < i ==> (#[trigger] rest[j]).0 != key;
                    assert(members[i + 1] == (key, value));
                    assert forall|j: int| 0 <= j < i + 1 implies (#[trigger] members[j]).0 != key by {
                        if j > 0 {
                            assert(rest[j - 1].0 != key);
                        }
                    }
                },
                None => {
                    assert forall|j: int| 0 <= j < members.len() implies (#[trigger] members[j]).0
                        != key by {
                        if j > 0 {
                            assert(rest[j - 1].0 != key);
                        }
                    }
                },
            }
        }
    }
}

/// A key without a value counts as null, and no other does unless its value is
/// null.
pub proof fn law_absent_counts_as_null(members: Members, key: Seq<char>)
    ensures
        member(members, key) is None ==> member_or_null(members, key) == JsonView::Null,
        member(members, key) is Some ==> member(members, key) == Some(member_or_null(members, key)),
{
}

/// Nothing of a value or an object is lost from view.
pub proof fn law_json_is_seen_whole(value: JsonValue, object: JsonObject, i: int)
    ensures
        match (value, value@) {
            (JsonValue::Null, JsonView::Null) => true,
            (JsonValue::Bool(b), JsonView::Bool(c)) => b == c,
            (JsonValue::Number(text), JsonView::Number(t)) => t == text@,
            (JsonValue::Text(text), JsonView::Text(t)) => t == text@,
            (JsonValue::Array(value), JsonView::Array(v)) => v == value,
            (JsonValue::Object(value), JsonView::Object(v)) => v == value,
            _ => false,
        },
        object@.len() == object.members@.len(),
        0 <= i < object.members@.len() ==> object@[i].0 == object.members@[i].0@ && object@[i].1
            == object.members@[i].1@,
{
}

} // verus!
