//! The commands of the management protocol and the JSON they are sent as.

use vstd::prelude::*;
use vstd::slice::slice_to_vec;
use vstd::string::StringExecFns;
use vstd::utf8::encode_utf8;
use serde_json::Value;
use crate::theater::id::{is_request_id, uuid_parse, uuid_text, TheaterId, TheaterIdExt};
use crate::theater::json;
use crate::theater::json::{json_text, models, no_members, value_model, JsonModel, JsonNumber};
use crate::theater::types::ClientError;

verus! {

/// A request to the server. Identifiers are given in their text form.
///
/// The commands that address an actor's mailbox or a channel carry a request
/// identifier of their own next to the command.
#[derive(Clone, Debug, PartialEq, Eq)]
pub enum Command {
    ListActors,
    StartActor { manifest: String, initial_state: Option<Vec<u8>> },
    StopActor { actor_id: String },
    RestartActor { actor_id: String },
    GetActorState { actor_id: String },
    GetActorEvents { actor_id: String },
    SendActorMessage { actor_id: String, data: Vec<u8>, request_id: String },
    RequestActorMessage { actor_id: String, data: Vec<u8>, request_id: String },
    OpenChannel { actor_id: String, initial_message: Option<Vec<u8>>, request_id: String },
    SendOnChannel { channel_id: String, message: Vec<u8>, request_id: String },
    CloseChannel { channel_id: String, request_id: String },
}

/// A command as plain values.
pub enum CommandView {
    ListActors,
    StartActor { manifest: Seq<char>, initial_state: Option<Seq<u8>> },
    StopActor { actor_id: Seq<char> },
    RestartActor { actor_id: Seq<char> },
    GetActorState { actor_id: Seq<char> },
    GetActorEvents { actor_id: Seq<char> },
    SendActorMessage { actor_id: Seq<char>, data: Seq<u8>, request_id: Seq<char> },
    RequestActorMessage { actor_id: Seq<char>, data: Seq<u8>, request_id: Seq<char> },
    OpenChannel { actor_id: Seq<char>, initial_message: Option<Seq<u8>>, request_id: Seq<char> },
    SendOnChannel { channel_id: Seq<char>, message: Seq<u8>, request_id: Seq<char> },
    CloseChannel { channel_id: Seq<char>, request_id: Seq<char> },
}

/// Optional bytes as plain values.
pub open spec fn bytes_view(data: Option<Vec<u8>>) -> Option<Seq<u8>> {
    match data {
        Some(bytes) => Some(bytes@),
        None => None,
    }
}

impl View for Command {
    type V = CommandView;

    open spec fn view(&self) -> CommandView {
        match *self {
            Command::ListActors => CommandView::ListActors,
            Command::StartActor { manifest, initial_state } => CommandView::StartActor {
                manifest: manifest@,
                initial_state: bytes_view(initial_state),
            },
            Command::StopActor { actor_id } => CommandView::StopActor { actor_id: actor_id@ },
            Command::RestartActor { actor_id } => CommandView::RestartActor { actor_id: actor_id@ },
            Command::GetActorState { actor_id } => CommandView::GetActorState {
                actor_id: actor_id@,
            },
            Command::GetActorEvents { actor_id } => CommandView::GetActorEvents {
                actor_id: actor_id@,
            },
            Command::SendActorMessage { actor_id, data, request_id } => {
                CommandView::SendActorMessage {
                    actor_id: actor_id@,
                    data: data@,
                    request_id: request_id@,
                }
            },
            Command::RequestActorMessage { actor_id, data, request_id } => {
                CommandView::RequestActorMessage {
                    actor_id: actor_id@,
                    data: data@,
                    request_id: request_id@,
                }
            },
            Command::OpenChannel { actor_id, initial_message, request_id } => {
                CommandView::OpenChannel {
                    actor_id: actor_id@,
                    initial_message: bytes_view(initial_message),
                    request_id: request_id@,
                }
            },
            Command::SendOnChannel { channel_id, message, request_id } => {
                CommandView::SendOnChannel {
                    channel_id: channel_id@,
                    message: message@,
                    request_id: request_id@,
                }
            },
            Command::CloseChannel { channel_id, request_id } => CommandView::CloseChannel {
                channel_id: channel_id@,
                request_id: request_id@,
            },
        }
    }
}

/// The object with the one member `key`.
pub open spec fn single(key: Seq<char>, value: JsonModel) -> JsonModel {
    JsonModel::Object(no_members().insert(key, value))
}

/// The object with the two members `first` and `second`; where both have
/// the same key, the second one stays.
pub open spec fn pair(first: (Seq<char>, JsonModel), second: (Seq<char>, JsonModel)) -> JsonModel {
    JsonModel::Object(no_members().insert(first.0, first.1).insert(second.0, second.1))
}

/// Optional bytes as JSON: an array of numbers, or `absent` for none.
pub open spec fn optional_bytes(data: Option<Seq<u8>>, absent: JsonModel) -> JsonModel {
    match data {
        Some(bytes) => JsonModel::of_bytes(bytes),
        None => absent,
    }
}

impl CommandView {
    /// The JSON value that the command is sent as.
    pub open spec fn model(self) -> JsonModel {
        match self {
            CommandView::ListActors => JsonModel::String("ListActors"@),
            CommandView::StartActor { manifest, initial_state } => single(
                "StartActor"@,
                pair(
                    ("manifest"@, JsonModel::String(manifest)),
                    ("initial_state"@, optional_bytes(initial_state, JsonModel::Null)),
                ),
            ),
            CommandView::StopActor { actor_id } => single(
                "StopActor"@,
                single("actor_id"@, JsonModel::String(actor_id)),
            ),
            CommandView::RestartActor { actor_id } => single(
                "RestartActor"@,
                single("actor_id"@, JsonModel::String(actor_id)),
            ),
            CommandView::GetActorState { actor_id } => single(
                "GetActorState"@,
                single("actor_id"@, JsonModel::String(actor_id)),
            ),
            CommandView::GetActorEvents { actor_id } => single(
                "GetActorEvents"@,
                single("actor_id"@, JsonModel::String(actor_id)),
            ),
            CommandView::SendActorMessage { actor_id, data, request_id } => pair(
                (
                    "SendActorMessage"@,
                    pair(
                        ("id"@, JsonModel::String(actor_id)),
                        ("data"@, JsonModel::of_bytes(data)),
                    ),
                ),
                ("id"@, JsonModel::String(request_id)),
            ),
            CommandView::RequestActorMessage { actor_id, data, request_id } => pair(
                (
                    "RequestActorMessage"@,
                    pair(
                        ("id"@, JsonModel::String(actor_id)),
                        ("data"@, JsonModel::of_bytes(data)),
                    ),
                ),
                ("id"@, JsonModel::String(request_id)),
            ),
            CommandView::OpenChannel { actor_id, initial_message, request_id } => pair(
                (
                    "OpenChannel"@,
                    pair(
                        ("id"@, JsonModel::String(actor_id)),
                        (
                            "initial_message"@,
                            optional_bytes(initial_message, JsonModel::Array(Seq::empty())),
                        ),
                    ),
                ),
                ("id"@, JsonModel::String(request_id)),
            ),
            CommandView::SendOnChannel { channel_id, message, request_id } => pair(
                (
                    "SendOnChannel"@,
                    pair(
                        ("channel_id"@, JsonModel::String(channel_id)),
                        ("message"@, JsonModel::of_bytes(message)),
                    ),
                ),
                ("id"@, JsonModel::String(request_id)),
            ),
            CommandView::CloseChannel { channel_id, request_id } => pair(
                ("CloseChannel"@, single("channel_id"@, JsonModel::String(channel_id))),
                ("id"@, JsonModel::String(request_id)),
            ),
        }
    }

    /// The bytes that the command is sent as: the UTF-8 form of its JSON text.
    pub open spec fn payload(self) -> Seq<u8> {
        encode_utf8(json_text(self.model()))
    }
}

/// Whether `command` opens a channel to the actor of the value `actor`,
/// with the first message `first`, under a fresh request identifier. The
/// actor is named by the printed form of its identifier.
pub open spec fn opens_channel(command: CommandView, actor: u128, first: Option<Seq<u8>>) -> bool {
    &&& command matches CommandView::OpenChannel { actor_id, initial_message, request_id }
    &&& actor_id == uuid_text(actor)
    &&& initial_message == first
    &&& is_request_id(request_id)
}

impl Command {
    /// The command that opens a channel to the actor named `actor_id`, or
    /// the parser's report where `actor_id` is no identifier. Nothing is
    /// sent for a name that does not parse.
    pub fn open_channel(actor_id: &str, initial_message: Option<Vec<u8>>) -> (r: Result<
        Command,
        ClientError,
    >)
        ensures
            match uuid_parse(actor_id@) {
                Some(actor) => r matches Ok(command) && opens_channel(
                    command@,
                    actor,
                    bytes_view(initial_message),
                ),
                None => r is Err,
            },
    {
        match TheaterId::parse(actor_id) {
            Ok(actor) => Ok(
                Command::OpenChannel {
                    actor_id: actor.as_string(),
                    initial_message,
                    request_id: TheaterId::request_id(),
                },
            ),
            Err(report) => Err(ClientError::Report(report)),
        }
    }

    /// The JSON value that the command is sent as.
    pub fn to_value(&self) -> (value: Value)
        ensures
            value_model(value) == self@.model(),
    {
        match self {
            Command::ListActors => text_value("ListActors"),
            Command::StartActor { manifest, initial_state } => {
                let state: Value = match initial_state {
                    Some(bytes) => bytes_value(bytes.as_slice()),
                    None => json::null(),
                };
                single_value(
                    "StartActor",
                    pair_value("manifest", text_value(manifest.as_str()), "initial_state", state),
                )
            },
            Command::StopActor { actor_id } => single_value(
                "StopActor",
                single_value("actor_id", text_value(actor_id.as_str())),
            ),
            Command::RestartActor { actor_id } => single_value(
                "RestartActor",
                single_value("actor_id", text_value(actor_id.as_str())),
            ),
            Command::GetActorState { actor_id } => single_value(
                "GetActorState",
                single_value("actor_id", text_value(actor_id.as_str())),
            ),
            Command::GetActorEvents { actor_id } => single_value(
                "GetActorEvents",
                single_value("actor_id", text_value(actor_id.as_str())),
            ),
            Command::SendActorMessage { actor_id, data, request_id } => pair_value(
                "SendActorMessage",
                pair_value(
                    "id",
                    text_value(actor_id.as_str()),
                    "data",
                    bytes_value(data.as_slice()),
                ),
                "id",
                text_value(request_id.as_str()),
            ),
            Command::RequestActorMessage { actor_id, data, request_id } => pair_value(
                "RequestActorMessage",
                pair_value(
                    "id",
                    text_value(actor_id.as_str()),
                    "data",
                    bytes_value(data.as_slice()),
                ),
                "id",
                text_value(request_id.as_str()),
            ),
            Command::OpenChannel { actor_id, initial_message, request_id } => {
                let first: Value = match initial_message {
                    Some(bytes) => bytes_value(bytes.as_slice()),
                    None => {
                        let none: Vec<Value> = Vec::new();
                        assert(models(none@) =~= Seq::<JsonModel>::empty());
                        json::array(none)
                    },
                };
                pair_value(
                    "OpenChannel",
                    pair_value("id", text_value(actor_id.as_str()), "initial_message", first),
                    "id",
                    text_value(request_id.as_str()),
                )
            },
            Command::SendOnChannel { channel_id, message, request_id } => pair_value(
                "SendOnChannel",
                pair_value(
                    "channel_id",
                    text_value(channel_id.as_str()),
                    "message",
                    bytes_value(message.as_slice()),
                ),
                "id",
                text_value(request_id.as_str()),
            ),
            Command::CloseChannel { channel_id, request_id } => pair_value(
                "CloseChannel",
                single_value("channel_id", text_value(channel_id.as_str())),
                "id",
                text_value(request_id.as_str()),
            ),
        }
    }

    /// The bytes to send for the command.
    pub fn encode(&self) -> (bytes: Vec<u8>)
        ensures
            bytes@ == self@.payload(),
    {
        let value: Value = self.to_value();
        encode_value(&value)
    }
}

/// The bytes of a JSON value's text.
pub fn encode_value(value: &Value) -> (bytes: Vec<u8>)
    ensures
        bytes@ == encode_utf8(json_text(value_model(*value))),
{
    let text: String = json::print(value);
    slice_to_vec(text.as_str().as_bytes())
}

/// The JSON string with the given text.
pub fn text_value(text: &str) -> (value: Value)
    ensures
        value_model(value) == JsonModel::String(text@),
{
    json::string(String::from_str(text))
}

/// The JSON array of numbers that stands for `data`, one number for each byte.
pub fn bytes_value(data: &[u8]) -> (value: Value)
    ensures
        value_model(value) == JsonModel::of_bytes(data@),
{
    let mut items: Vec<Value> = Vec::new();
    let mut i: usize = 0;
    while i < data.len()
        invariant
            i <= data.len(),
            items@.len() == i,
            forall|k: int|
                0 <= k < i ==> value_model(#[trigger] items@[k]) == JsonModel::Number(
                    JsonNumber::PosInt(data@[k] as u64),
                ),
        decreases data.len() - i,
    {
        items.push(json::unsigned(data[i] as u64));
        i = i + 1;
    }
    assert(models(items@) =~= data@.map_values(
        |b: u8| JsonModel::Number(JsonNumber::PosInt(b as u64)),
    ));
    json::array(items)
}

/// The JSON object with the one member `key`.
pub fn single_value(key: &str, value: Value) -> (object: Value)
    ensures
        value_model(object) == single(key@, value_model(value)),
{
    let mut members: serde_json::Map<String, Value> = json::members();
    json::insert(&mut members, String::from_str(key), value);
    json::object(members)
}

/// The JSON object with the two members `first_key` and `second_key`.
pub fn pair_value(first_key: &str, first: Value, second_key: &str, second: Value) -> (object: Value)
    ensures
        value_model(object) == pair(
            (first_key@, value_model(first)),
            (second_key@, value_model(second)),
        ),
{
    let mut members: serde_json::Map<String, Value> = json::members();
    json::insert(&mut members, String::from_str(first_key), first);
    json::insert(&mut members, String::from_str(second_key), second);
    json::object(members)
}

} // verus!
