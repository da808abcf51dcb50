//! JSON values as plain data, and the reading of JSON text.

use vstd::prelude::*;
use crate::error::AppError;
use crate::text::str_eq;

verus! {

/// A JSON value.
#[derive(Debug)]
pub enum Json {
    Null,
    Bool(bool),
    /// A number, kept as the text that writes it.
    Number(String),
    Text(String),
    Array(Vec<Json>),
    /// The members of an object, no key twice.
    Object(Vec<Member>),
}

/// One member of a JSON object.
#[derive(Debug)]
pub struct Member {
    pub key: String,
    pub value: Json,
}

#[verifier::external_type_specification]
#[verifier::external_body]
pub struct ExValue(serde_json::Value);

#[verifier::external_type_specification]
#[verifier::external_body]
pub struct ExJsonError(serde_json::Error);

/// The value that `serde_json` reads from `text`, or `None` where the text is
/// not one JSON value.
pub uninterp spec fn parsed(text: Seq<char>) -> Option<Json>;

/// The data that a `serde_json::Value` holds.
pub uninterp spec fn json_of(value: serde_json::Value) -> Json;

/// The value of the first member of `members` whose key is `key`.
pub open spec fn member_named(members: Seq<Member>, key: Seq<char>) -> Option<Json>
    decreases members.len(),
{
    if members.len() == 0 {
        None
    } else if members[0].key@ == key {
        Some(members[0].value)
    } else {
        member_named(members.drop_first(), key)
    }
}

impl Json {
    /// The member `key` of an object; `None` for a missing member and for a
    /// value that is no object.
    pub open spec fn field(self, key: Seq<char>) -> Option<Json> {
        match self {
            Json::Object(members) => member_named(members@, key),
            _ => None,
        }
    }

    /// The characters of a JSON string; `None` for any other value.
    pub open spec fn text(self) -> Option<Seq<char>> {
        match self {
            Json::Text(s) => Some(s@),
            _ => None,
        }
    }

    /// The items of a JSON array; `None` for any other value.
    pub open spec fn items(self) -> Option<Seq<Json>> {
        match self {
            Json::Array(items) => Some(items@),
            _ => None,
        }
    }

    /// Looks up the member `key` of an object.
    pub fn get(&self, key: &str) -> (found: Option<&Json>)
        ensures
            found is Some == self.field(key@) is Some,
            found is Some ==> *found.unwrap() == self.field(key@).unwrap(),
    {
        match self {
            Json::Object(members) => {
                let mut i: usize = 0;
                assert(members@.skip(0) =~= members@);
                while i < members.len()
                    invariant
                        i <= members.len(),
                        self.field(key@) == member_named(members@.skip(i as int), key@),
                    decreases members.len() - i,
                {
                    proof {
                        let rest = members@.skip(i as int);
                        assert(rest.len() > 0 && rest[0] == members@[i as int]);
                        assert(rest.drop_first() =~= members@.skip(i as int + 1));
                        assert(member_named(rest, key@) == if rest[0].key@ == key@ {
                            Some(rest[0].value)
                        } else {
                            member_named(rest.drop_first(), key@)
                        });
                    }
                    if str_eq(members[i].key.as_str(), key) {
                        return Some(&members[i].value);
                    }
                    i += 1;
                }
                None
            },
            _ => None,
        }
    }

    /// The characters of a JSON string.
    pub fn as_str(&self) -> (found: Option<&str>)
        ensures
            found is Some == self.text() is Some,
            found is Some ==> found.unwrap()@ == self.text().unwrap(),
    {
        match self {
            Json::Text(s) => Some(s.as_str()),
            _ => None,
        }
    }

    /// The items of a JSON array.
    pub fn as_array(&self) -> (found: Option<&Vec<Json>>)
        ensures
            found is Some == self.items() is Some,
            found is Some ==> found.unwrap()@ == self.items().unwrap(),
    {
        match self {
            Json::Array(items) => Some(items),
            _ => None,
        }
    }

    /// Whether the value is `null`.
    pub fn is_null(&self) -> (b: bool)
        ensures
            b == (self is Null),
    {
        match self {
            Json::Null => true,
            _ => false,
        }
    }
}

/// `serde_json::from_str` at the type `serde_json::Value`: reads one JSON
/// value from the whole of `text`. The result depends on the text alone; the
/// contract gives it the name `parsed`.
#[verifier::external_body]
fn value_from_str(text: &str) -> (r: Result<serde_json::Value, serde_json::Error>)
    ensures
        r is Ok ==> parsed(text@) == Some(json_of(r.unwrap())),
        r is Err ==> parsed(text@) is None,
{
    serde_json::from_str::<serde_json::Value>(text)
}

/// Copies a `serde_json::Value` into a `Json`, variant by variant. A number
/// becomes the text that `serde_json` prints for it.
#[verifier::external_body]
fn json_from_value(value: &serde_json::Value) -> (json: Json)
    ensures
        json == json_of(*value),
{
    match value {
        serde_json::Value::Null => Json::Null,
        serde_json::Value::Bool(b) => Json::Bool(*b),
        serde_json::Value::Number(n) => Json::Number(n.to_string()),
        serde_json::Value::String(s) => Json::Text(s.clone()),
        serde_json::Value::Array(items) => Json::Array(items.iter().map(json_from_value).collect()),
        serde_json::Value::Object(map) => Json::Object(
            map.iter().map(|(k, v)| Member { key: k.clone(), value: json_from_value(v) }).collect(),
        ),
    }
}

/// The message of a `serde_json::Error`, as its `Display` writes it.
#[verifier::external_body]
fn json_error_text(error: &serde_json::Error) -> (text: String) {
    error.to_string()
}

/// Reads one JSON value from `text`. Text that is not JSON gives the error
/// `SerdeJson`.
pub fn parse_json(text: &str) -> (r: Result<Json, AppError>)
    ensures
        r is Ok ==> parsed(text@) == Some(r.unwrap()),
        r is Err ==> parsed(text@) is None && r.unwrap_err() is SerdeJson,
{
    match value_from_str(text) {
        Ok(value) => Ok(json_from_value(&value)),
        Err(error) => Err(AppError::SerdeJson(json_error_text(&error))),
    }
}

} // verus!
