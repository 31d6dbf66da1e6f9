//! What the server's responses say.
//!
//! A response is any JSON value. One shape is reserved: an object with a
//! member `error` is the server's report of a failure. Everything else is
//! read by the command that asked for it.

use vstd::prelude::*;
use vstd::string::StringExecFns;
use serde_json::Value;
use crate::theater::encoding;
use crate::theater::encoding::base64_data;
use crate::theater::exchange::Reply;
use crate::theater::json;
use crate::theater::json::{json_debug, json_parse, models, value_model, JsonModel};
use crate::theater::types::ClientError;

verus! {

/// The message of a response in the server's error shape: the text of the
/// member `message` of its member `error`, or `Unknown error` where that is
/// missing or not a string. Nothing for a response without a member `error`.
pub open spec fn server_error(response: JsonModel) -> Option<Seq<char>> {
    match response.member("error"@) {
        Some(error) => Some(
            match error.member("message"@) {
                Some(JsonModel::String(message)) => message,
                _ => "Unknown error"@,
            },
        ),
        None => None,
    }
}

/// The text of the member `key`, where the response has one and it is a string.
pub open spec fn text_member(response: JsonModel, key: Seq<char>) -> Option<Seq<char>> {
    match response.member(key) {
        Some(JsonModel::String(text)) => Some(text),
        _ => None,
    }
}

/// The texts of the strings among `items`, in their order.
pub open spec fn texts(items: Seq<JsonModel>) -> Seq<Seq<char>>
    decreases items.len(),
{
    if items.len() == 0 {
        Seq::empty()
    } else {
        match items.last() {
            JsonModel::String(text) => texts(items.drop_last()).push(text),
            _ => texts(items.drop_last()),
        }
    }
}

/// The low eight bits of the non-negative integers among `items`, in their order.
pub open spec fn low_bytes(items: Seq<JsonModel>) -> Seq<u8>
    decreases items.len(),
{
    if items.len() == 0 {
        Seq::empty()
    } else {
        match items.last() {
            JsonModel::Number(json::JsonNumber::PosInt(n)) => low_bytes(items.drop_last()).push(
                (n % 256) as u8,
            ),
            _ => low_bytes(items.drop_last()),
        }
    }
}

/// The views of a sequence of strings.
pub open spec fn views(texts: Seq<String>) -> Seq<Seq<char>> {
    texts.map_values(|t: String| t@)
}

/// The identifiers in the response to a request for the list of actors: the
/// strings in its array `actors`.
pub open spec fn listed_actors(response: JsonModel) -> Option<Seq<Seq<char>>> {
    match response.member("actors"@) {
        Some(JsonModel::Array(items)) => Some(texts(items)),
        _ => None,
    }
}

/// Where the identifier of a started actor is found in a response, if anywhere.
pub enum Started {
    /// The identifier.
    Found(Seq<char>),
    /// There is a member `ActorStarted`, this one, but it has no string `id`.
    Incomplete(JsonModel),
    /// The response names no identifier.
    Missing,
}

/// The identifier in the response to a request to start an actor: the string
/// member `id`, else the string member `actor_id`, else the string member
/// `id` of the member `ActorStarted`.
pub open spec fn started_actor(response: JsonModel) -> Started {
    match text_member(response, "id"@) {
        Some(id) => Started::Found(id),
        None => match text_member(response, "actor_id"@) {
            Some(id) => Started::Found(id),
            None => match response.member("ActorStarted"@) {
                Some(started) => match text_member(started, "id"@) {
                    Some(id) => Started::Found(id),
                    None => Started::Incomplete(started),
                },
                None => Started::Missing,
            },
        },
    }
}

/// The state in the response to a request for an actor's state: the member
/// `state`, unless it is missing or `null`.
pub open spec fn actor_state(response: JsonModel) -> Option<JsonModel> {
    match response.member("state"@) {
        Some(JsonModel::Null) => None,
        Some(state) => Some(state),
        None => None,
    }
}

/// The events in the response to a request for an actor's history: the
/// items of its array `events`.
pub open spec fn actor_events(response: JsonModel) -> Option<Seq<JsonModel>> {
    match response.member("events"@) {
        Some(JsonModel::Array(items)) => Some(items),
        _ => None,
    }
}

/// What the member `data` of a response to a message request holds.
pub enum Payload {
    /// These bytes.
    Bytes(Seq<u8>),
    /// A string that is not base64.
    Undecodable,
    /// Something that is neither an array nor a string.
    Unexpected,
    /// There is no member `data`.
    Missing,
}

/// The bytes in the response to a message request: the member `data`, read
/// as an array of numbers or as a base64 string.
pub open spec fn message_data(response: JsonModel) -> Payload {
    match response.member("data"@) {
        Some(JsonModel::Array(items)) => Payload::Bytes(low_bytes(items)),
        Some(JsonModel::String(text)) => match base64_data(text) {
            Some(bytes) => Payload::Bytes(bytes),
            None => Payload::Undecodable,
        },
        Some(_) => Payload::Unexpected,
        None => Payload::Missing,
    }
}

/// The text of the member `key`, where the response has one and it is a string.
pub fn text_of(response: &Value, key: &str) -> (r: Option<String>)
    ensures
        match r {
            Some(text) => text_member(value_model(*response), key@) == Some(text@),
            None => text_member(value_model(*response), key@) is None,
        },
{
    match json::get(response, key) {
        Some(member) => match json::as_str(member) {
            Some(text) => Some(String::from_str(text)),
            None => None,
        },
        None => None,
    }
}

/// The message of a response in the server's error shape, if it has that shape.
pub fn error_message(response: &Value) -> (r: Option<String>)
    ensures
        match r {
            Some(message) => server_error(value_model(*response)) == Some(message@),
            None => server_error(value_model(*response)) is None,
        },
{
    match json::get(response, "error") {
        Some(error) => {
            match text_of(error, "message") {
                Some(message) => Some(message),
                None => Some(String::from_str("Unknown error")),
            }
        },
        None => None,
    }
}

/// Sorts a decoded response: the server's error with its message, or a
/// success with the response itself.
pub fn sort(response: Value) -> (reply: Reply<Value>)
    ensures
        match server_error(value_model(response)) {
            Some(message) => reply matches Reply::Error(text) && text@ == message,
            None => reply == Reply::Success(response),
        },
{
    match error_message(&response) {
        Some(message) => Reply::Error(message),
        None => Reply::Success(response),
    }
}

/// Whether `reply` is what the body `body` decodes to: text that is not
/// JSON is malformed, an object with a member `error` is the server's error
/// with its message, and every other value is a success that holds the
/// parsed value.
pub open spec fn decodes_to(body: Seq<u8>, reply: Reply<Value>) -> bool {
    match json_parse(body) {
        None => reply is Malformed,
        Some(parsed) => match server_error(parsed) {
            Some(message) => reply matches Reply::Error(text) && text@ == message,
            None => reply matches Reply::Success(response) && value_model(response) == parsed,
        },
    }
}

/// Decodes a response body.
pub fn classify(body: &[u8]) -> (reply: Reply<Value>)
    ensures
        decodes_to(body@, reply),
{
    match json::from_slice(body) {
        Ok(response) => sort(response),
        Err(error) => Reply::Malformed(json::error_report(&error)),
    }
}

/// The strings among `items`, in their order.
pub fn strings_among(items: &Vec<Value>) -> (found: Vec<String>)
    ensures
        views(found@) == texts(models(items@)),
{
    let mut found: Vec<String> = Vec::new();
    let mut i: usize = 0;
    assert(models(items@).take(0) =~= Seq::<JsonModel>::empty());
    assert(views(found@) =~= Seq::<Seq<char>>::empty());
    while i < items.len()
        invariant
            i <= items.len(),
            views(found@) == texts(models(items@).take(i as int)),
        decreases items.len() - i,
    {
        let ghost before = models(items@).take(i as int);
        let ghost after = models(items@).take(i + 1);
        let ghost seen = views(found@);
        assert(after.drop_last() =~= before);
        assert(after.last() == value_model(items@[i as int]));
        match json::as_str(&items[i]) {
            Some(text) => {
                found.push(String::from_str(text));
                assert(views(found@) =~= seen.push(text@));
            },
            None => {},
        }
        i = i + 1;
    }
    assert(models(items@).take(items.len() as int) =~= models(items@));
    found
}

/// The low eight bits of the non-negative integers among `items`, in their order.
pub fn bytes_among(items: &Vec<Value>) -> (found: Vec<u8>)
    ensures
        found@ == low_bytes(models(items@)),
{
    let mut found: Vec<u8> = Vec::new();
    let mut i: usize = 0;
    assert(models(items@).take(0) =~= Seq::<JsonModel>::empty());
    while i < items.len()
        invariant
            i <= items.len(),
            found@ == low_bytes(models(items@).take(i as int)),
        decreases items.len() - i,
    {
        let ghost before = models(items@).take(i as int);
        let ghost after = models(items@).take(i + 1);
        assert(after.drop_last() =~= before);
        assert(after.last() == value_model(items@[i as int]));
        match json::as_u64(&items[i]) {
            Some(n) => {
                found.push((n % 256) as u8);
            },
            None => {},
        }
        i = i + 1;
    }
    assert(models(items@).take(items.len() as int) =~= models(items@));
    found
}

/// Copies of `items`, in their order.
pub fn copies(items: &Vec<Value>) -> (copied: Vec<Value>)
    ensures
        models(copied@) == models(items@),
{
    let mut copied: Vec<Value> = Vec::new();
    let mut i: usize = 0;
    while i < items.len()
        invariant
            i <= items.len(),
            copied@.len() == i,
            forall|k: int| 0 <= k < i ==> value_model(#[trigger] copied@[k]) == value_model(items@[k]),
        decreases items.len() - i,
    {
        copied.push(json::duplicate(&items[i]));
        i = i + 1;
    }
    assert(models(copied@) =~= models(items@));
    copied
}

/// Reads the response to a request for the list of actors.
pub fn read_actor_list(response: &Value) -> (r: Result<Vec<String>, ClientError>)
    ensures
        match r {
            Ok(ids) => listed_actors(value_model(*response)) == Some(views(ids@)),
            Err(error) => listed_actors(value_model(*response)) is None && error.text()
                == "Invalid response format"@,
        },
{
    match json::get(response, "actors") {
        Some(actors) => match json::as_array(actors) {
            Some(items) => Ok(strings_among(items)),
            None => Err(ClientError::report("Invalid response format")),
        },
        None => Err(ClientError::report("Invalid response format")),
    }
}

/// The error that shows a value after a few words on what is wrong with it.
fn complaint(words: &str, value: &Value) -> (error: ClientError)
    ensures
        error.text() == words@ + json_debug(value_model(*value)),
{
    let shown: String = json::debug(value);
    ClientError::Report(String::from_str(words).concat(shown.as_str()))
}

/// Reads the response to a request to start an actor. A response that
/// names no actor is shown in the error.
pub fn read_started_actor(response: &Value) -> (r: Result<String, ClientError>)
    ensures
        match r {
            Ok(id) => started_actor(value_model(*response)) == Started::Found(id@),
            Err(error) => match started_actor(value_model(*response)) {
                Started::Found(_) => false,
                Started::Incomplete(started) => error.text()
                    == "Missing id in ActorStarted event: "@ + json_debug(started),
                Started::Missing => error.text() == "Could not find actor ID in response: "@
                    + json_debug(value_model(*response)),
            },
        },
{
    match text_of(response, "id") {
        Some(id) => Ok(id),
        None => match text_of(response, "actor_id") {
            Some(id) => Ok(id),
            None => match json::get(response, "ActorStarted") {
                Some(started) => match text_of(started, "id") {
                    Some(id) => Ok(id),
                    None => Err(complaint("Missing id in ActorStarted event: ", started)),
                },
                None => Err(complaint("Could not find actor ID in response: ", response)),
            },
        },
    }
}

/// Reads the response to a request for an actor's state.
pub fn read_actor_state(response: &Value) -> (state: Option<Value>)
    ensures
        match state {
            Some(value) => actor_state(value_model(*response)) == Some(value_model(value)),
            None => actor_state(value_model(*response)) is None,
        },
{
    match json::get(response, "state") {
        Some(state) => if json::is_null(state) {
            None
        } else {
            Some(json::duplicate(state))
        },
        None => None,
    }
}

/// Reads the response to a request for an actor's history.
pub fn read_actor_events(response: &Value) -> (r: Result<Vec<Value>, ClientError>)
    ensures
        match r {
            Ok(events) => actor_events(value_model(*response)) == Some(models(events@)),
            Err(error) => actor_events(value_model(*response)) is None && error.text()
                == "Invalid response format"@,
        },
{
    match json::get(response, "events") {
        Some(events) => match json::as_array(events) {
            Some(items) => Ok(copies(items)),
            None => Err(ClientError::report("Invalid response format")),
        },
        None => Err(ClientError::report("Invalid response format")),
    }
}

/// Reads the response to a message that asked for an answer.
pub fn read_message_data(response: &Value) -> (r: Result<Vec<u8>, ClientError>)
    ensures
        match r {
            Ok(data) => message_data(value_model(*response)) == Payload::Bytes(data@),
            Err(error) => match message_data(value_model(*response)) {
                Payload::Bytes(_) => false,
                Payload::Undecodable => true,
                Payload::Unexpected => error.text() == "Unexpected data format in response"@,
                Payload::Missing => error.text() == "Response missing data field"@,
            },
        },
{
    match json::get(response, "data") {
        Some(data) => match json::as_array(data) {
            Some(items) => Ok(bytes_among(items)),
            None => match json::as_str(data) {
                Some(text) => match encoding::decode(text) {
                    Ok(bytes) => Ok(bytes),
                    Err(report) => Err(ClientError::Report(report)),
                },
                None => Err(ClientError::report("Unexpected data format in response")),
            },
        },
        None => Err(ClientError::report("Response missing data field")),
    }
}

/// Reads the response to a request to open a channel.
pub fn read_channel_id(response: &Value) -> (r: Result<String, ClientError>)
    ensures
        match r {
            Ok(id) => text_member(value_model(*response), "channel_id"@) == Some(id@),
            Err(error) => text_member(value_model(*response), "channel_id"@) is None
                && error.text() == "Invalid response format"@,
        },
{
    match text_of(response, "channel_id") {
        Some(id) => Ok(id),
        None => Err(ClientError::report("Invalid response format")),
    }
}

} // verus!
