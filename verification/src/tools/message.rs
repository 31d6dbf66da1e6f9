//! Tools that send messages to actors.

use vstd::prelude::*;
use serde_json::Value;
use crate::theater::command::{pair, pair_value, text_value, Command, CommandView};
use crate::theater::encoding;
use crate::theater::encoding::{base64_text, encodable};
use crate::theater::id::{is_request_id, uuid_text, TheaterId, TheaterIdExt};
use crate::theater::json;
use crate::theater::json::{json_text, value_model, JsonModel};
use crate::theater::types::ClientError;
use crate::tools::{
    actor_argument, announce, data_argument, is_text_result, is_tool, property, property_value,
    required_actor, required_data, schema, schema_value, text_result, ActorArgument, DataArgument,
    Tool, ToolCallResult,
};

verus! {

/// The message tools.
#[derive(Clone, Copy, Debug)]
pub struct MessageTools {}

/// What the arguments of a message tool ask for: the actor to address, by
/// the printed form of its parsed identifier, and the bytes to send.
pub enum MessageRequest {
    /// Send these bytes to this actor.
    To(Seq<char>, Seq<u8>),
    /// No valid actor is named: the identifier is missing.
    NoActor,
    /// No valid actor is named: the identifier does not parse.
    BadActor,
    /// The data is missing.
    NoData,
    /// The data is not base64.
    BadData,
}

/// Reads the arguments of a message tool: first the actor, then the data.
pub open spec fn message_request(args: JsonModel) -> MessageRequest {
    match actor_argument(args) {
        ActorArgument::Named(_, value) => match data_argument(args, "data"@) {
            DataArgument::Bytes(bytes) => MessageRequest::To(uuid_text(value), bytes),
            DataArgument::Undecodable => MessageRequest::BadData,
            DataArgument::Missing => MessageRequest::NoData,
        },
        ActorArgument::Invalid => MessageRequest::BadActor,
        ActorArgument::Missing => MessageRequest::NoActor,
    }
}

/// Whether `error` is the complaint that goes with a request that asks for nothing.
pub open spec fn complains(error: ClientError, request: MessageRequest) -> bool {
    match request {
        MessageRequest::To(_, _) => false,
        MessageRequest::NoActor => error.text() == "Missing actor_id parameter"@,
        MessageRequest::BadActor => exists|detail: Seq<char>|
            error.text() == "Invalid Theater ID: "@ + detail,
        MessageRequest::NoData => error.text() == "Missing data parameter"@,
        MessageRequest::BadData => true,
    }
}

/// What the tool answers after a one-way message.
pub open spec fn sent_answer(actor_id: Seq<char>) -> JsonModel {
    pair(("success"@, JsonModel::Bool(true)), ("actor_id"@, JsonModel::String(actor_id)))
}

/// What the tool answers after a message that was answered with `response`.
pub open spec fn response_answer(actor_id: Seq<char>, response: Seq<u8>) -> JsonModel {
    pair(
        ("actor_id"@, JsonModel::String(actor_id)),
        ("response"@, JsonModel::String(base64_text(response))),
    )
}

/// The schema of the arguments of a message tool: an actor and base64 data.
pub open spec fn message_schema(actor: Seq<char>, data: Seq<char>) -> JsonModel {
    schema(
        pair(("actor_id"@, property("string"@, actor)), ("data"@, property("string"@, data))),
        seq!["actor_id"@, "data"@],
    )
}

fn addressed(args: &Value) -> (r: Result<(TheaterId, Vec<u8>), ClientError>)
    ensures
        match message_request(value_model(*args)) {
            MessageRequest::To(actor_id, bytes) => r matches Ok(found) && uuid_text(found.0@)
                == actor_id && found.1@ == bytes,
            other => r matches Err(error) && complains(error, other),
        },
{
    match required_actor(args) {
        Ok(actor) => match required_data(args, "data", "Missing data parameter") {
            Ok(data) => Ok((actor.1, data)),
            Err(error) => Err(error),
        },
        Err(error) => Err(error),
    }
}

impl MessageTools {
    /// The message tools.
    pub fn new() -> Self {
        MessageTools {  }
    }

    /// Reads the arguments of a request to send a one-way message. The
    /// command carries a fresh request identifier.
    pub fn send_message(&self, args: &Value) -> (r: Result<Command, ClientError>)
        ensures
            match message_request(value_model(*args)) {
                MessageRequest::To(actor_id, bytes) => r matches Ok(command)
                    && command@ matches CommandView::SendActorMessage {
                    actor_id: to,
                    data,
                    request_id,
                } && to == actor_id && data == bytes && is_request_id(request_id),
                other => r matches Err(error) && complains(error, other),
            },
    {
        match addressed(args) {
            Ok(found) => Ok(
                Command::SendActorMessage {
                    actor_id: found.0.as_string(),
                    data: found.1,
                    request_id: TheaterId::request_id(),
                },
            ),
            Err(error) => Err(error),
        }
    }

    /// The answer to a request that sent a message to the actor named `actor_id`.
    pub fn send_message_result(&self, actor_id: &str) -> (result: ToolCallResult)
        ensures
            is_text_result(result, json_text(sent_answer(actor_id@))),
    {
        let answer: Value = pair_value(
            "success",
            json::boolean(true),
            "actor_id",
            text_value(actor_id),
        );
        text_result(&answer)
    }

    /// Reads the arguments of a request to send a message and wait for the
    /// answer. The command carries a fresh request identifier.
    pub fn request_message(&self, args: &Value) -> (r: Result<Command, ClientError>)
        ensures
            match message_request(value_model(*args)) {
                MessageRequest::To(actor_id, bytes) => r matches Ok(command)
                    && command@ matches CommandView::RequestActorMessage {
                    actor_id: to,
                    data,
                    request_id,
                } && to == actor_id && data == bytes && is_request_id(request_id),
                other => r matches Err(error) && complains(error, other),
            },
    {
        match addressed(args) {
            Ok(found) => Ok(
                Command::RequestActorMessage {
                    actor_id: found.0.as_string(),
                    data: found.1,
                    request_id: TheaterId::request_id(),
                },
            ),
            Err(error) => Err(error),
        }
    }

    /// The answer to a request whose message to the actor named `actor_id`
    /// was answered with `response`: the response travels as base64.
    pub fn request_message_result(&self, actor_id: &str, response: &[u8]) -> (result:
        ToolCallResult)
        requires
            encodable(response@.len()),
        ensures
            is_text_result(result, json_text(response_answer(actor_id@, response@))),
    {
        let text: String = encoding::encode(response).unwrap();
        let answer: Value = pair_value(
            "actor_id",
            text_value(actor_id),
            "response",
            json::string(text),
        );
        text_result(&answer)
    }

    /// The announcements of the message tools: `send_message` and
    /// `request_message`, in that order.
    pub fn register_tools(&self) -> (tools: Vec<Tool>)
        ensures
            tools@.len() == 2,
            is_tool(
                tools@[0],
                "send_message"@,
                "Send a message to an actor"@,
                message_schema(
                    "ID of the actor to send the message to"@,
                    "Message data (base64 encoded)"@,
                ),
            ),
            is_tool(
                tools@[1],
                "request_message"@,
                "Send a request to an actor and receive a response"@,
                message_schema(
                    "ID of the actor to send the request to"@,
                    "Request data (base64 encoded)"@,
                ),
            ),
    {
        let mut tools: Vec<Tool> = Vec::new();
        tools.push(
            announce(
                "send_message",
                "Send a message to an actor",
                schema_value(
                    pair_value(
                        "actor_id",
                        property_value("string", "ID of the actor to send the message to"),
                        "data",
                        property_value("string", "Message data (base64 encoded)"),
                    ),
                    "actor_id",
                    Some("data"),
                ),
            ),
        );
        tools.push(
            announce(
                "request_message",
                "Send a request to an actor and receive a response",
                schema_value(
                    pair_value(
                        "actor_id",
                        property_value("string", "ID of the actor to send the request to"),
                        "data",
                        property_value("string", "Request data (base64 encoded)"),
                    ),
                    "actor_id",
                    Some("data"),
                ),
            ),
        );
        tools
    }
}

} // verus!
