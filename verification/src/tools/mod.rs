//! The tools that the server offers over the Model Context Protocol: what
//! each reads from its arguments, and what it answers.

use vstd::prelude::*;
use vstd::string::StringExecFns;
use serde_json::Value;
use crate::theater::encoding;
use crate::theater::encoding::base64_data;
use crate::theater::id::{uuid_parse, TheaterId, TheaterIdExt};
use crate::theater::json;
use crate::theater::command::{pair, pair_value, text_value};
use crate::theater::json::{json_text, models, no_members, value_model, JsonModel};
use crate::theater::reply::{text_member, text_of};
use crate::theater::types::ClientError;

pub mod actor;
pub mod channel;
pub mod message;

pub use actor::ActorTools;
pub use channel::ChannelTools;
pub use message::MessageTools;

verus! {

/// One item of a tool's answer.
#[derive(Debug)]
pub enum ToolContent {
    /// A text.
    Text { text: String },
    /// A JSON value.
    Json { json: Value },
}

/// A tool's answer.
#[derive(Debug)]
pub struct ToolCallResult {
    pub content: Vec<ToolContent>,
    pub is_error: Option<bool>,
}

/// Whether `result` is the successful answer that consists of the one text `text`.
pub open spec fn is_text_result(result: ToolCallResult, text: Seq<char>) -> bool {
    &&& result.content@.len() == 1
    &&& result.content@[0] matches ToolContent::Text { text: held }
    &&& held@ == text
    &&& result.is_error == Some(false)
}

/// Whether `result` is the successful answer that consists of the one value `value`.
pub open spec fn is_json_result(result: ToolCallResult, value: JsonModel) -> bool {
    &&& result.content@.len() == 1
    &&& result.content@[0] matches ToolContent::Json { json: held }
    &&& value_model(held) == value
    &&& result.is_error == Some(false)
}

/// What the argument `key` says about an actor: its identifier as given and
/// as a parsed value, or why there is none.
pub enum ActorArgument {
    /// The identifier as given, and its value.
    Named(Seq<char>, u128),
    /// The argument is not an identifier.
    Invalid,
    /// The argument is missing or not a string.
    Missing,
}

/// Reads the actor that the arguments name under `actor_id`.
pub open spec fn actor_argument(args: JsonModel) -> ActorArgument {
    match text_member(args, "actor_id"@) {
        Some(given) => match uuid_parse(given) {
            Some(value) => ActorArgument::Named(given, value),
            None => ActorArgument::Invalid,
        },
        None => ActorArgument::Missing,
    }
}

/// What a base64 argument holds.
pub enum DataArgument {
    /// These bytes.
    Bytes(Seq<u8>),
    /// A string that is not base64.
    Undecodable,
    /// The argument is missing or not a string.
    Missing,
}

/// Reads the bytes that the arguments carry as base64 under `key`.
pub open spec fn data_argument(args: JsonModel, key: Seq<char>) -> DataArgument {
    match text_member(args, key) {
        Some(text) => match base64_data(text) {
            Some(bytes) => DataArgument::Bytes(bytes),
            None => DataArgument::Undecodable,
        },
        None => DataArgument::Missing,
    }
}

/// The string argument `key`, or the error `complaint` where the arguments
/// have no string of that name.
pub fn required_text(args: &Value, key: &str, complaint: &str) -> (r: Result<String, ClientError>)
    ensures
        match text_member(value_model(*args), key@) {
            Some(text) => r matches Ok(found) && found@ == text,
            None => r matches Err(error) && error.text() == complaint@,
        },
{
    match text_of(args, key) {
        Some(text) => Ok(text),
        None => Err(ClientError::report(complaint)),
    }
}

/// The actor that the arguments name under `actor_id`: the identifier as
/// given, and as parsed.
pub fn required_actor(args: &Value) -> (r: Result<(String, TheaterId), ClientError>)
    ensures
        match actor_argument(value_model(*args)) {
            ActorArgument::Named(given, value) => r matches Ok(found) && found.0@ == given
                && found.1@ == value,
            ActorArgument::Invalid => r matches Err(error) && exists|detail: Seq<char>|
                error.text() == "Invalid Theater ID: "@ + detail,
            ActorArgument::Missing => r matches Err(error) && error.text()
                == "Missing actor_id parameter"@,
        },
{
    match required_text(args, "actor_id", "Missing actor_id parameter") {
        Ok(given) => match TheaterId::from_str(given.as_str()) {
            Ok(id) => Ok((given, id)),
            Err(report) => Err(ClientError::Report(report)),
        },
        Err(error) => Err(error),
    }
}

/// The bytes that the arguments carry as base64 under `key`, or the error
/// `complaint` where the arguments have no string of that name, or the
/// decoder's report where the string is not base64.
pub fn required_data(args: &Value, key: &str, complaint: &str) -> (r: Result<Vec<u8>, ClientError>)
    ensures
        match data_argument(value_model(*args), key@) {
            DataArgument::Bytes(bytes) => r matches Ok(found) && found@ == bytes,
            DataArgument::Undecodable => r is Err,
            DataArgument::Missing => r matches Err(error) && error.text() == complaint@,
        },
{
    match required_text(args, key, complaint) {
        Ok(text) => match encoding::decode(text.as_str()) {
            Ok(bytes) => Ok(bytes),
            Err(report) => Err(ClientError::Report(report)),
        },
        Err(error) => Err(error),
    }
}

/// The successful answer that consists of the text of `value`.
pub fn text_result(value: &Value) -> (result: ToolCallResult)
    ensures
        is_text_result(result, json_text(value_model(*value))),
{
    let mut content: Vec<ToolContent> = Vec::new();
    content.push(ToolContent::Text { text: json::print(value) });
    ToolCallResult { content, is_error: Some(false) }
}

/// The text that stands for a JSON item where only text can travel: an
/// object whose one member `json` is the item.
pub open spec fn wrapped(value: JsonModel) -> Seq<char> {
    "{\"json\":"@ + json_text(value) + "}"@
}

impl ToolContent {
    /// The item as text: a text as it is, a JSON value wrapped.
    pub open spec fn as_text(self) -> Seq<char> {
        match self {
            ToolContent::Text { text } => text@,
            ToolContent::Json { json } => wrapped(value_model(json)),
        }
    }

    /// The item as text: a text as it is, a JSON value wrapped.
    pub fn into_text(self) -> (text: String)
        ensures
            text@ == self.as_text(),
    {
        match self {
            ToolContent::Text { text } => text,
            ToolContent::Json { json } => {
                let inner: String = json::print(&json);
                String::from_str("{\"json\":").concat(inner.as_str()).concat("}")
            },
        }
    }
}

/// The successful answer that consists of `value`.
pub fn json_result(value: Value) -> (result: ToolCallResult)
    ensures
        is_json_result(result, value_model(value)),
{
    let mut content: Vec<ToolContent> = Vec::new();
    content.push(ToolContent::Json { json: value });
    ToolCallResult { content, is_error: Some(false) }
}

/// A tool as it is announced: its name, what it does, and the schema of
/// its arguments.
#[derive(Debug)]
pub struct Tool {
    pub name: String,
    pub description: Option<String>,
    pub input_schema: Value,
}

/// The schema of one argument: its type and what it is for.
pub open spec fn property(kind: Seq<char>, description: Seq<char>) -> JsonModel {
    pair(("type"@, JsonModel::String(kind)), ("description"@, JsonModel::String(description)))
}

/// The schema of a tool's arguments: an object with the given properties,
/// of which the named ones are required.
pub open spec fn schema(properties: JsonModel, required: Seq<Seq<char>>) -> JsonModel {
    JsonModel::Object(
        no_members().insert("type"@, JsonModel::String("object"@)).insert(
            "properties"@,
            properties,
        ).insert(
            "required"@,
            JsonModel::Array(required.map_values(|name: Seq<char>| JsonModel::String(name))),
        ),
    )
}

/// Whether `tool` is announced under `name` with this description and schema.
pub open spec fn is_tool(
    tool: Tool,
    name: Seq<char>,
    description: Seq<char>,
    input_schema: JsonModel,
) -> bool {
    &&& tool.name@ == name
    &&& tool.description matches Some(described)
    &&& described@ == description
    &&& value_model(tool.input_schema) == input_schema
}

/// The schema of one argument.
pub fn property_value(kind: &str, description: &str) -> (value: Value)
    ensures
        value_model(value) == property(kind@, description@),
{
    pair_value("type", text_value(kind), "description", text_value(description))
}

/// The schema of a tool's arguments, of which `first` is required and,
/// where given, `second` too.
pub fn schema_value(properties: Value, first: &str, second: Option<&str>) -> (value: Value)
    ensures
        value_model(value) == schema(
            value_model(properties),
            match second {
                Some(name) => seq![first@, name@],
                None => seq![first@],
            },
        ),
{
    let mut required: Vec<Value> = Vec::new();
    required.push(text_value(first));
    match second {
        Some(name) => {
            required.push(text_value(name));
            assert(models(required@) =~= seq![first@, name@].map_values(
                |name: Seq<char>| JsonModel::String(name),
            ));
        },
        None => {
            assert(models(required@) =~= seq![first@].map_values(
                |name: Seq<char>| JsonModel::String(name),
            ));
        },
    }
    let mut members: serde_json::Map<String, Value> = json::members();
    json::insert(&mut members, String::from_str("type"), text_value("object"));
    json::insert(&mut members, String::from_str("properties"), properties);
    json::insert(&mut members, String::from_str("required"), json::array(required));
    json::object(members)
}

/// The announcement of a tool.
pub fn announce(name: &str, description: &str, input_schema: Value) -> (tool: Tool)
    ensures
        is_tool(tool, name@, description@, value_model(input_schema)),
{
    Tool {
        name: String::from_str(name),
        description: Some(String::from_str(description)),
        input_schema,
    }
}

} // verus!
