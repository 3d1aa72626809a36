//! JSON values: a mathematical model of what a [`serde_json::Value`] holds, and
//! the calls into `serde_json` that build, read, print and parse such values.

use serde_json::Value;
use vstd::prelude::*;

verus! {

/// A JSON number.
pub enum JsonNumber {
    /// An integer from 0 to `u64::MAX`, written as one.
    Unsigned(u64),
    /// An integer below 0, written as one.
    Negative(i64),
    /// Any other number, such as one with a decimal point, by the text that
    /// `serde_json` prints for it.
    Decimal(Seq<char>),
}

/// What a JSON value is.
pub enum Json {
    Null,
    Bool(bool),
    Number(JsonNumber),
    Text(Seq<char>),
    Array(Seq<Json>),
    Object(Map<Seq<char>, Json>),
}

impl Json {
    /// The member `key`, where this is an object that has one.
    pub open spec fn member(self, key: Seq<char>) -> Option<Json> {
        match self {
            Json::Object(members) => if members.contains_key(key) {
                Some(members[key])
            } else {
                None
            },
            _ => None,
        }
    }

    /// The integer, where this is one from 0 to `u64::MAX`.
    pub open spec fn unsigned(self) -> Option<u64> {
        match self {
            Json::Number(JsonNumber::Unsigned(n)) => Some(n),
            _ => None,
        }
    }

    /// The text, where this is a string.
    pub open spec fn text(self) -> Option<Seq<char>> {
        match self {
            Json::Text(s) => Some(s),
            _ => None,
        }
    }

    /// The items, where this is an array.
    pub open spec fn items(self) -> Option<Seq<Json>> {
        match self {
            Json::Array(items) => Some(items),
            _ => None,
        }
    }
}

/// `serde_json`'s JSON value; [`json_of`] names what one holds.
#[verifier::external_type_specification]
#[verifier::external_body]
pub struct ExValue(serde_json::Value);

/// `serde_json`'s error, carried from a failed call to whoever reports it.
#[verifier::external_type_specification]
#[verifier::external_body]
pub struct ExError(serde_json::Error);

/// `serde_json`'s object under construction; [`members_of`] names what one holds.
#[verifier::external_type_specification]
#[verifier::external_body]
#[verifier::reject_recursive_types(K)]
#[verifier::reject_recursive_types(V)]
pub struct ExMap<K, V>(serde_json::Map<K, V>);

/// What a `serde_json::Value` holds.
pub uninterp spec fn json_of(value: serde_json::Value) -> Json;

/// The members that a `serde_json::Map` holds.
pub uninterp spec fn members_of(members: serde_json::Map<String, serde_json::Value>) -> Map<
    Seq<char>,
    Json,
>;

/// The text that a `serde_json::Error` displays as, where it came of reading bytes.
pub uninterp spec fn error_text(error: serde_json::Error) -> Seq<char>;

/// The value that `serde_json::from_slice` reads from these bytes, or the text of
/// its error where it does not accept them.
pub uninterp spec fn parsed(bytes: Seq<u8>) -> Result<Json, Seq<char>>;

/// The bytes that `serde_json::to_vec` writes for this value.
pub uninterp spec fn printed(value: Json) -> Seq<u8>;

/// The text that a `serde_json::Value` displays as.
pub uninterp spec fn displayed(value: Json) -> Seq<char>;

/// `Value::get` with a string: the member of that name where the value is an
/// object that has one, nothing otherwise.
#[verifier::external_body]
pub(crate) fn get<'a>(value: &'a Value, key: &str) -> (found: Option<&'a Value>)
    ensures
        match found {
            Some(member) => json_of(*value).member(key@) == Some(json_of(*member)),
            None => json_of(*value).member(key@) is None,
        },
{
    value.get(key)
}

/// `Value::as_u64`: the integer of a value that is one from 0 to `u64::MAX`.
#[verifier::external_body]
pub(crate) fn as_u64(value: &Value) -> (number: Option<u64>)
    ensures
        number == json_of(*value).unsigned(),
{
    value.as_u64()
}

/// `Value::as_str`: the text of a value that is a string.
#[verifier::external_body]
pub(crate) fn as_str(value: &Value) -> (text: Option<&str>)
    ensures
        match text {
            Some(s) => json_of(*value).text() == Some(s@),
            None => json_of(*value).text() is None,
        },
{
    value.as_str()
}

/// `Value::as_array`: the items, in order, of a value that is an array.
#[verifier::external_body]
pub(crate) fn as_array(value: &Value) -> (items: Option<&Vec<Value>>)
    ensures
        match items {
            Some(values) => json_of(*value).items() == Some(
                values@.map_values(|item: Value| json_of(item)),
            ),
            None => json_of(*value).items() is None,
        },
{
    value.as_array()
}

/// `Value::is_null`: whether the value is `null`.
#[verifier::external_body]
pub(crate) fn is_null(value: &Value) -> (null: bool)
    ensures
        null == (json_of(*value) is Null),
{
    value.is_null()
}

/// `Value::clone`: another value that holds the same.
#[verifier::external_body]
pub(crate) fn copy(value: &Value) -> (other: Value)
    ensures
        json_of(other) == json_of(*value),
{
    value.clone()
}

/// `Value::from(u64)`: the number.
#[verifier::external_body]
pub(crate) fn number(n: u64) -> (value: Value)
    ensures
        json_of(value) == Json::Number(JsonNumber::Unsigned(n)),
{
    Value::from(n)
}

/// `Value::from(&str)`: the string.
#[verifier::external_body]
pub(crate) fn string(text: &str) -> (value: Value)
    ensures
        json_of(value) == Json::Text(text@),
{
    Value::from(text)
}

/// `serde_json::Map::new`: an object without members.
#[verifier::external_body]
pub(crate) fn no_members() -> (members: serde_json::Map<String, Value>)
    ensures
        (members_of(members) == Map::<Seq<char>, Json>::empty()),
{
    serde_json::Map::new()
}

/// `serde_json::Map::insert`: sets the member `key`, in place of one of that
/// name that was there.
#[verifier::external_body]
pub(crate) fn insert(members: &mut serde_json::Map<String, Value>, key: &str, value: Value)
    ensures
        members_of(*final(members)) == members_of(*old(members)).insert(key@, json_of(value)),
{
    members.insert(String::from(key), value);
}

/// `Value::from(serde_json::Map)`: the object with these members.
#[verifier::external_body]
pub(crate) fn object(members: serde_json::Map<String, Value>) -> (value: Value)
    ensures
        json_of(value) == Json::Object(members_of(members)),
{
    Value::from(members)
}

/// `serde_json::from_slice` into a `Value`: the value is the one that [`parsed`]
/// names; where that names the text of an error, the error has that text.
#[verifier::external_body]
pub(crate) fn parse(bytes: &[u8]) -> (value: Result<Value, serde_json::Error>)
    ensures
        match value {
            Ok(v) => parsed(bytes@) == Ok::<Json, Seq<char>>(json_of(v)),
            Err(error) => parsed(bytes@) == Err::<Json, Seq<char>>(error_text(error)),
        },
{
    serde_json::from_slice(bytes)
}

/// `serde_json::to_vec` of a `Value`: the bytes are those that [`printed`] names.
/// There is no error: the keys of an object are strings, and writing into a `Vec`
/// does not fail.
#[verifier::external_body]
pub(crate) fn print(value: &Value) -> (bytes: Result<Vec<u8>, serde_json::Error>)
    ensures
        match bytes {
            Ok(written) => written@ == printed(json_of(*value)),
            Err(_) => false,
        },
{
    serde_json::to_vec(value)
}

/// `Value`'s `Display`: the text is the one that [`displayed`] names.
#[verifier::external_body]
pub(crate) fn display(value: &Value) -> (text: String)
    ensures
        text@ == displayed(json_of(*value)),
{
    value.to_string()
}

/// Reading a value finds what it was made of, and nothing in a value of another
/// form.
pub proof fn values_hold_what_they_were_made_of(
    value: Json,
    key: Seq<char>,
    found: Json,
    n: u64,
    text: Seq<char>,
    items: Seq<Json>,
)
    ensures
        value.member(key) == Some(found) <==> (value matches Json::Object(members)
            && members.contains_key(key) && members[key] == found),
        value.unsigned() == Some(n) <==> value == Json::Number(JsonNumber::Unsigned(n)),
        value.text() == Some(text) <==> value == Json::Text(text),
        value.items() == Some(items) <==> value == Json::Array(items),
{
}

} // verus!
