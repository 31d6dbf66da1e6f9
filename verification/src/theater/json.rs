//! JSON values, as far as the client reads and builds them.
//!
//! Parsing, printing and the value tree itself belong to `serde_json`. This
//! module states what each call into it returns, over a plain model of a JSON
//! value, and builds the client's own small steps on those statements.

use vstd::prelude::*;
use serde_json::Value;

verus! {

/// A JSON value of `serde_json`.
#[verifier::external_type_specification]
#[verifier::external_body]
pub struct ExValue(serde_json::Value);

/// A JSON object of `serde_json`: members by key.
#[verifier::external_type_specification]
#[verifier::external_body]
#[verifier::reject_recursive_types(K)]
#[verifier::reject_recursive_types(V)]
pub struct ExMap<K, V>(serde_json::Map<K, V>);

/// An error of `serde_json`.
#[verifier::external_type_specification]
#[verifier::external_body]
pub struct ExError(serde_json::Error);

/// A JSON number: a non-negative integer, a negative integer, or a finite
/// double given by its 64 bits.
pub enum JsonNumber {
    PosInt(u64),
    NegInt(i64),
    Float(u64),
}

/// A JSON value as plain data.
pub enum JsonModel {
    Null,
    Bool(bool),
    Number(JsonNumber),
    String(Seq<char>),
    Array(Seq<JsonModel>),
    Object(vstd::map::Map<Seq<char>, JsonModel>),
}

impl JsonModel {
    /// The member `key` of an object; nothing for a missing member and for
    /// any value that is not an object.
    pub open spec fn member(self, key: Seq<char>) -> Option<JsonModel> {
        match self {
            JsonModel::Object(members) => if members.contains_key(key) {
                Some(members[key])
            } else {
                None
            },
            _ => None,
        }
    }

    /// The text of a string; nothing for any other value.
    pub open spec fn text(self) -> Option<Seq<char>> {
        match self {
            JsonModel::String(text) => Some(text),
            _ => None,
        }
    }

    /// The value of a non-negative integer; nothing for any other value.
    pub open spec fn unsigned(self) -> Option<u64> {
        match self {
            JsonModel::Number(JsonNumber::PosInt(n)) => Some(n),
            _ => None,
        }
    }

    /// The items of an array; nothing for any other value.
    pub open spec fn items(self) -> Option<Seq<JsonModel>> {
        match self {
            JsonModel::Array(items) => Some(items),
            _ => None,
        }
    }

    /// The array of numbers that stands for a sequence of bytes.
    pub open spec fn of_bytes(data: Seq<u8>) -> JsonModel {
        JsonModel::Array(data.map_values(|b: u8| JsonModel::Number(JsonNumber::PosInt(b as u64))))
    }
}

/// The members of an object that has none.
pub open spec fn no_members() -> vstd::map::Map<Seq<char>, JsonModel> {
    vstd::map::Map::empty()
}

/// What a `serde_json::Value` holds.
pub uninterp spec fn value_model(value: Value) -> JsonModel;

/// What a `serde_json::Map` holds.
pub uninterp spec fn map_model(members: serde_json::Map<String, Value>) -> vstd::map::Map<Seq<char>, JsonModel>;

/// What `serde_json::from_slice` makes of a text: the value it parses to,
/// where it accepts the text.
pub uninterp spec fn json_parse(text: Seq<u8>) -> Option<JsonModel>;

/// The text that `serde_json::to_string` prints for a value.
pub uninterp spec fn json_text(value: JsonModel) -> Seq<char>;

/// The models of a sequence of values.
pub open spec fn models(values: Seq<Value>) -> Seq<JsonModel> {
    values.map_values(|v: Value| value_model(v))
}

/// `serde_json::from_slice` at type `Value`: the parsed value, or the
/// parser's error. Which of the two, and what the value holds, depends on
/// the text alone.
#[verifier::external_body]
pub(crate) fn from_slice(text: &[u8]) -> (r: Result<Value, serde_json::Error>)
    ensures
        match r {
            Ok(value) => json_parse(text@) == Some(value_model(value)),
            Err(_) => json_parse(text@) is None,
        },
{
    serde_json::from_slice::<Value>(text)
}

/// `to_string` on a `serde_json::Error`: the report it prints.
#[verifier::external_body]
pub(crate) fn error_report(error: &serde_json::Error) -> (report: String) {
    error.to_string()
}

/// `serde_json::to_string` on a `Value`: its compact text. The text depends
/// on what the value holds alone. On a `Value` the call never reports an
/// error: it writes into memory, every key of an object is a string, and no
/// number is infinite or undefined.
#[verifier::external_body]
pub(crate) fn to_string(value: &Value) -> (r: Result<String, serde_json::Error>)
    ensures
        r is Ok,
        r matches Ok(text) ==> text@ == json_text(value_model(*value)),
{
    serde_json::to_string(value)
}

/// The text that `{:?}` prints for a value.
pub uninterp spec fn json_debug(value: JsonModel) -> Seq<char>;

/// `Debug` on a `Value`, through `format!`: the value as a developer reads
/// it. The text depends on what the value holds alone.
#[verifier::external_body]
pub(crate) fn debug(value: &Value) -> (text: String)
    ensures
        text@ == json_debug(value_model(*value)),
{
    format!("{:?}", value)
}

/// The compact JSON text of a value.
pub fn print(value: &Value) -> (text: String)
    ensures
        text@ == json_text(value_model(*value)),
{
    to_string(value).unwrap()
}

/// `Value::get` with a string key: the member of that name if the value is
/// an object that has one, nothing otherwise.
#[verifier::external_body]
pub(crate) fn get<'a>(value: &'a Value, key: &str) -> (r: Option<&'a Value>)
    ensures
        match r {
            Some(member) => value_model(*value).member(key@) == Some(value_model(*member)),
            None => value_model(*value).member(key@) is None,
        },
{
    value.get(key)
}

/// `Value::as_str`: the text if the value is a string, nothing otherwise.
#[verifier::external_body]
pub(crate) fn as_str<'a>(value: &'a Value) -> (r: Option<&'a str>)
    ensures
        match r {
            Some(text) => value_model(*value).text() == Some(text@),
            None => value_model(*value).text() is None,
        },
{
    value.as_str()
}

/// `Value::as_array`: the items if the value is an array, nothing otherwise.
#[verifier::external_body]
pub(crate) fn as_array<'a>(value: &'a Value) -> (r: Option<&'a Vec<Value>>)
    ensures
        match r {
            Some(items) => value_model(*value).items() == Some(models(items@)),
            None => value_model(*value).items() is None,
        },
{
    value.as_array()
}

/// `Value::as_u64`: the number if the value is a non-negative integer,
/// nothing otherwise.
#[verifier::external_body]
pub(crate) fn as_u64(value: &Value) -> (r: Option<u64>)
    ensures
        r == value_model(*value).unsigned(),
{
    value.as_u64()
}

/// `Value::is_null`: whether the value is `null`.
#[verifier::external_body]
pub(crate) fn is_null(value: &Value) -> (b: bool)
    ensures
        b == (value_model(*value) is Null),
{
    value.is_null()
}

/// `Value::clone`: a value that holds the same.
#[verifier::external_body]
pub(crate) fn duplicate(value: &Value) -> (copy: Value)
    ensures
        value_model(copy) == value_model(*value),
{
    value.clone()
}

/// `Value::Null`.
#[verifier::external_body]
pub(crate) fn null() -> (value: Value)
    ensures
        value_model(value) == JsonModel::Null,
{
    Value::Null
}

/// `Value::Bool`.
#[verifier::external_body]
pub(crate) fn boolean(b: bool) -> (value: Value)
    ensures
        value_model(value) == JsonModel::Bool(b),
{
    Value::Bool(b)
}

/// `Value::String`: the string value with the given text.
#[verifier::external_body]
pub(crate) fn string(text: String) -> (value: Value)
    ensures
        value_model(value) == JsonModel::String(text@),
{
    Value::String(text)
}

/// `Value::from` on a `u64`: the non-negative integer of that value.
#[verifier::external_body]
pub(crate) fn unsigned(n: u64) -> (value: Value)
    ensures
        value_model(value) == JsonModel::Number(JsonNumber::PosInt(n)),
{
    Value::from(n)
}

/// `Value::Array`: the array of the given items, in their order.
#[verifier::external_body]
pub(crate) fn array(items: Vec<Value>) -> (value: Value)
    ensures
        value_model(value) == JsonModel::Array(models(items@)),
{
    Value::Array(items)
}

/// `Map::new`: an object without members.
#[verifier::external_body]
pub(crate) fn members() -> (fresh: serde_json::Map<String, Value>)
    ensures
        map_model(fresh) == no_members(),
{
    serde_json::Map::new()
}

/// `Map::insert`: the member `key` is set to `value`, replacing an earlier
/// member of that name; every other member stays.
#[verifier::external_body]
pub(crate) fn insert(members: &mut serde_json::Map<String, Value>, key: String, value: Value)
    ensures
        map_model(*final(members)) == map_model(*old(members)).insert(key@, value_model(value)),
{
    members.insert(key, value);
}

/// `Value::Object`: the object with the given members.
#[verifier::external_body]
pub(crate) fn object(members: serde_json::Map<String, Value>) -> (value: Value)
    ensures
        value_model(value) == JsonModel::Object(map_model(members)),
{
    Value::Object(members)
}

} // verus!
