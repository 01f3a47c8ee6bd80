//! JSON documents, as far as the GitHub responses need them.
use crate::errors::ApiError;
use crate::text::same;
use vstd::prelude::*;
use vstd::string::*;

verus! {

/// `serde_json::Error`, why `serde_json::from_slice` rejected a body. It is
/// only carried from the call to the place that maps it to an [`ApiError`].
#[verifier::external_type_specification]
#[verifier::external_body]
pub struct ExJsonError(serde_json::Error);

/// `serde_json::Value`, the document that `serde_json::from_slice` returns.
/// Nothing is read from it here: it is moved into a [`Json`] at once.
#[verifier::external_type_specification]
#[verifier::external_body]
pub struct ExJsonValue(serde_json::Value);

/// A named value inside a JSON object.
#[derive(Debug, PartialEq, Eq)]
pub struct Member {
    pub name: String,
    pub value: Json,
}

/// A JSON document.
#[derive(Debug, PartialEq, Eq)]
pub enum Json {
    Null,
    Bool(bool),
    /// A number, as its decimal text.
    Number(String),
    Text(String),
    Array(Vec<Json>),
    Object(Vec<Member>),
}

/// A [`Member`] as plain sequences.
pub struct MemberValue {
    pub name: Seq<char>,
    pub value: JsonValue,
}

/// A [`Json`] as plain sequences.
pub enum JsonValue {
    Null,
    Bool(bool),
    Number(Seq<char>),
    Text(Seq<char>),
    Array(Seq<JsonValue>),
    Object(Seq<MemberValue>),
}

/// The document that `json` holds.
pub open spec fn value_of(json: Json) -> JsonValue
    decreases json,
{
    match json {
        Json::Null => JsonValue::Null,
        Json::Bool(b) => JsonValue::Bool(b),
        Json::Number(digits) => JsonValue::Number(digits@),
        Json::Text(text) => JsonValue::Text(text@),
        Json::Array(items) => JsonValue::Array(
            Seq::new(
                items@.len(),
                |i: int|
                    if 0 <= i < items@.len() {
                        value_of(items@[i])
                    } else {
                        JsonValue::Null
                    },
            ),
        ),
        Json::Object(members) => JsonValue::Object(
            Seq::new(
                members@.len(),
                |i: int|
                    if 0 <= i < members@.len() {
                        MemberValue {
                            name: members@[i].name@,
                            value: value_of(members@[i].value),
                        }
                    } else {
                        MemberValue { name: Seq::empty(), value: JsonValue::Null }
                    },
            ),
        ),
    }
}

impl View for Json {
    type V = JsonValue;

    open spec fn view(&self) -> JsonValue {
        value_of(*self)
    }
}

/// The value of the first member named `name`, if there is one.
pub open spec fn lookup(members: Seq<MemberValue>, name: Seq<char>) -> Option<JsonValue>
    decreases members.len(),
{
    if members.len() == 0 {
        None
    } else if members[0].name == name {
        Some(members[0].value)
    } else {
        lookup(members.drop_first(), name)
    }
}

impl JsonValue {
    /// The member named `name`, if this is an object that has one.
    pub open spec fn member(self, name: Seq<char>) -> Option<JsonValue> {
        match self {
            JsonValue::Object(members) => lookup(members, name),
            _ => None,
        }
    }
}

/// The view of each document of a list.
pub open spec fn views(items: Seq<Json>) -> Seq<JsonValue> {
    items.map_values(|item: Json| item@)
}

/// What `serde_json::from_slice` makes of `bytes` when asked for a
/// `serde_json::Value`: `None` where it reports an error, else the document
/// it returns. Numbers are given as `serde_json::Number` prints them, and
/// an object's members in the order in which its map hands them out.
pub uninterp spec fn json_decode(bytes: Seq<u8>) -> Option<JsonValue>;

/// Moves a `serde_json::Value` into a [`Json`], variant by variant.
#[verifier::external_body]
fn from_value(value: serde_json::Value) -> Json {
    match value {
        serde_json::Value::Null => Json::Null,
        serde_json::Value::Bool(b) => Json::Bool(b),
        serde_json::Value::Number(n) => Json::Number(n.to_string()),
        serde_json::Value::String(s) => Json::Text(s),
        serde_json::Value::Array(a) => Json::Array(a.into_iter().map(from_value).collect()),
        serde_json::Value::Object(m) => Json::Object(
            m.into_iter().map(|(name, v)| Member { name, value: from_value(v) }).collect(),
        ),
    }
}

/// Calls `serde_json::from_slice` for a `serde_json::Value`. The contract
/// only gives the result its name, [`json_decode`].
#[verifier::external_body]
fn decode(bytes: &[u8]) -> (r: Result<Json, serde_json::Error>)
    ensures
        match r {
            Ok(document) => json_decode(bytes@) == Some(document@),
            Err(_) => json_decode(bytes@) is None,
        },
{
    serde_json::from_slice::<serde_json::Value>(bytes).map(from_value)
}

impl Json {
    /// Reads a JSON document.
    pub fn parse(bytes: &[u8]) -> (r: Result<Json, ApiError>)
        ensures
            match r {
                Ok(document) => json_decode(bytes@) == Some(document@),
                Err(e) => e == ApiError::DecodeFailed && json_decode(bytes@) is None,
            },
    {
        match decode(bytes) {
            Ok(document) => Ok(document),
            Err(_) => Err(ApiError::DecodeFailed),
        }
    }

    /// The member named `name`, if this is an object that has one.
    pub fn get(&self, name: &str) -> (found: Option<&Json>)
        ensures
            match found {
                Some(value) => self@.member(name@) == Some(value@),
                None => self@.member(name@) is None,
            },
    {
        match self {
            Json::Object(members) => {
                let ghost all = self@->Object_0;
                assert(all.subrange(0, all.len() as int) == all);
                let mut i: usize = 0;
                while i < members.len()
                    invariant
                        i <= members@.len(),
                        self@ == JsonValue::Object(all),
                        all.len() == members@.len(),
                        forall|k: int|
                            0 <= k < all.len() ==> #[trigger] all[k] == (MemberValue {
                                name: members@[k].name@,
                                value: members@[k].value@,
                            }),
                        lookup(all, name@) == lookup(
                            all.subrange(i as int, all.len() as int),
                            name@,
                        ),
                    decreases members@.len() - i,
                {
                    let ghost rest = all.subrange(i as int, all.len() as int);
                    assert(rest[0] == all[i as int]);
                    assert(rest.drop_first() == all.subrange(i + 1, all.len() as int));
                    if same(members[i].name.as_str(), name) {
                        assert(lookup(rest, name@) == Some(members@[i as int].value@));
                        return Some(&members[i].value);
                    }
                    i = i + 1;
                }
                None
            },
            _ => None,
        }
    }

    /// The text, if this is a string.
    pub fn as_str(&self) -> (text: Option<&str>)
        ensures
            match text {
                Some(text) => self@ == JsonValue::Text(text@),
                None => !(self@ is Text),
            },
    {
        match self {
            Json::Text(text) => Some(text.as_str()),
            _ => None,
        }
    }

    /// The truth value, if this is one.
    pub fn as_bool(&self) -> (b: Option<bool>)
        ensures
            match b {
                Some(b) => self@ == JsonValue::Bool(b),
                None => !(self@ is Bool),
            },
    {
        match self {
            Json::Bool(b) => Some(*b),
            _ => None,
        }
    }

    /// The elements, if this is an array.
    pub fn as_array(&self) -> (items: Option<&Vec<Json>>)
        ensures
            match items {
                Some(items) => self@ == JsonValue::Array(views(items@)),
                None => !(self@ is Array),
            },
    {
        match self {
            Json::Array(items) => {
                assert(self@->Array_0 == views(items@));
                Some(items)
            },
            _ => None,
        }
    }

    /// Whether this is `null`.
    pub fn is_null(&self) -> (null: bool)
        ensures
            null == (self@ is Null),
    {
        match self {
            Json::Null => true,
            _ => false,
        }
    }
}

} // verus!
