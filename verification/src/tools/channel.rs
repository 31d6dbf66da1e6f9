//! Tools that open, use and close channels to actors.

use vstd::prelude::*;
use serde_json::Value;
use crate::theater::command::{
    pair, pair_value, single, single_value, text_value, Command, CommandView,
};
use crate::theater::encoding;
use crate::theater::encoding::base64_data;
use crate::theater::command::opens_channel;
use crate::theater::id::{is_request_id, uuid_parse, TheaterId};
use crate::theater::json;
use crate::theater::json::{value_model, JsonModel};
use crate::theater::reply::text_member;
use crate::theater::types::ClientError;
use crate::tools::{
    announce, data_argument, is_json_result, is_tool, json_result, property, property_value,
    required_data, required_text, schema, schema_value, DataArgument, Tool, ToolCallResult,
};

verus! {

/// The channel tools.
#[derive(Clone, Copy, Debug)]
pub struct ChannelTools {}

/// What the arguments of a request to open a channel ask for.
pub enum OpenRequest {
    /// A channel to the actor of this value, with this first message if any.
    To(u128, Option<Seq<u8>>),
    /// No actor is named.
    NoActor,
    /// The first message is not base64.
    BadMessage,
    /// The actor's name is no identifier.
    BadActor,
}

/// The request for a channel to the actor named `actor_id`.
pub open spec fn open_to(actor_id: Seq<char>, first: Option<Seq<u8>>) -> OpenRequest {
    match uuid_parse(actor_id) {
        Some(actor) => OpenRequest::To(actor, first),
        None => OpenRequest::BadActor,
    }
}

/// Reads the arguments of a request to open a channel: the actor's name,
/// then a first message where the arguments carry one as a string, and
/// last the actor that the name stands for.
pub open spec fn open_request(args: JsonModel) -> OpenRequest {
    match text_member(args, "actor_id"@) {
        Some(actor_id) => match text_member(args, "initial_message"@) {
            Some(text) => match base64_data(text) {
                Some(bytes) => open_to(actor_id, Some(bytes)),
                None => OpenRequest::BadMessage,
            },
            None => open_to(actor_id, None),
        },
        None => OpenRequest::NoActor,
    }
}

/// What the arguments of a request to send on a channel ask for.
pub enum SendRequest {
    /// These bytes on this channel.
    On(Seq<char>, Seq<u8>),
    /// No channel is named.
    NoChannel,
    /// The message is missing.
    NoMessage,
    /// The message is not base64.
    BadMessage,
}

/// Reads the arguments of a request to send on a channel: first the
/// channel, then the message.
pub open spec fn send_request(args: JsonModel) -> SendRequest {
    match text_member(args, "channel_id"@) {
        Some(channel_id) => match data_argument(args, "message"@) {
            DataArgument::Bytes(bytes) => SendRequest::On(channel_id, bytes),
            DataArgument::Undecodable => SendRequest::BadMessage,
            DataArgument::Missing => SendRequest::NoMessage,
        },
        None => SendRequest::NoChannel,
    }
}

/// What the tool answers after a channel was opened.
pub open spec fn opened_answer(channel_id: Seq<char>, actor_id: Seq<char>) -> JsonModel {
    pair(
        ("channel_id"@, JsonModel::String(channel_id)),
        ("actor_id"@, JsonModel::String(actor_id)),
    )
}

/// What the tool answers after a message was sent on, or closed, a channel.
pub open spec fn channel_answer(channel_id: Seq<char>) -> JsonModel {
    pair(("success"@, JsonModel::Bool(true)), ("channel_id"@, JsonModel::String(channel_id)))
}

/// The schema of the arguments of `open_channel`.
pub open spec fn open_channel_schema() -> JsonModel {
    schema(
        pair(
            ("actor_id"@, property("string"@, "ID of the actor to open a channel with"@)),
            ("initial_message"@, property("string"@, "Initial message data (base64 encoded)"@)),
        ),
        seq!["actor_id"@],
    )
}

/// The schema of the arguments of `send_on_channel`.
pub open spec fn send_on_channel_schema() -> JsonModel {
    schema(
        pair(
            ("channel_id"@, property("string"@, "ID of the channel"@)),
            ("message"@, property("string"@, "Message data (base64 encoded)"@)),
        ),
        seq!["channel_id"@, "message"@],
    )
}

/// The schema of the arguments of `close_channel`.
pub open spec fn close_channel_schema() -> JsonModel {
    schema(
        single("channel_id"@, property("string"@, "ID of the channel to close"@)),
        seq!["channel_id"@],
    )
}

impl ChannelTools {
    /// The channel tools.
    pub fn new() -> Self {
        ChannelTools {  }
    }

    /// Reads the arguments of a request to open a channel. The command
    /// carries a fresh request identifier.
    pub fn open_channel(&self, args: &Value) -> (r: Result<Command, ClientError>)
        ensures
            match open_request(value_model(*args)) {
                OpenRequest::To(actor, first) => r matches Ok(command) && opens_channel(
                    command@,
                    actor,
                    first,
                ),
                OpenRequest::NoActor => r matches Err(error) && error.text()
                    == "Missing actor_id parameter"@,
                OpenRequest::BadMessage => r is Err,
                OpenRequest::BadActor => r is Err,
            },
    {
        let actor_id: String = required_text(args, "actor_id", "Missing actor_id parameter")?;
        let initial_message: Option<Vec<u8>> = match json::get(args, "initial_message") {
            Some(message) => match json::as_str(message) {
                Some(text) => match encoding::decode(text) {
                    Ok(bytes) => Some(bytes),
                    Err(report) => {
                        return Err(ClientError::Report(report));
                    },
                },
                None => None,
            },
            None => None,
        };
        Command::open_channel(actor_id.as_str(), initial_message)
    }

    /// The answer to a request that opened the channel `channel_id` to the
    /// actor named `actor_id`.
    pub fn open_channel_result(&self, channel_id: &str, actor_id: &str) -> (result: ToolCallResult)
        ensures
            is_json_result(result, opened_answer(channel_id@, actor_id@)),
    {
        json_result(
            pair_value("channel_id", text_value(channel_id), "actor_id", text_value(actor_id)),
        )
    }

    /// Reads the arguments of a request to send on a channel. The command
    /// carries a fresh request identifier.
    pub fn send_on_channel(&self, args: &Value) -> (r: Result<Command, ClientError>)
        ensures
            match send_request(value_model(*args)) {
                SendRequest::On(channel_id, bytes) => r matches Ok(command)
                    && command@ matches CommandView::SendOnChannel {
                    channel_id: on,
                    message,
                    request_id,
                } && on == channel_id && message == bytes && is_request_id(request_id),
                SendRequest::NoChannel => r matches Err(error) && error.text()
                    == "Missing channel_id parameter"@,
                SendRequest::NoMessage => r matches Err(error) && error.text()
                    == "Missing message parameter"@,
                SendRequest::BadMessage => r is Err,
            },
    {
        let channel_id: String = required_text(args, "channel_id", "Missing channel_id parameter")?;
        let message: Vec<u8> = required_data(args, "message", "Missing message parameter")?;
        Ok(
            Command::SendOnChannel {
                channel_id,
                message,
                request_id: TheaterId::request_id(),
            },
        )
    }

    /// The answer to a request that sent a message on the channel `channel_id`.
    pub fn send_on_channel_result(&self, channel_id: &str) -> (result: ToolCallResult)
        ensures
            is_json_result(result, channel_answer(channel_id@)),
    {
        json_result(
            pair_value("success", json::boolean(true), "channel_id", text_value(channel_id)),
        )
    }

    /// Reads the arguments of a request to close a channel. The command
    /// carries a fresh request identifier.
    pub fn close_channel(&self, args: &Value) -> (r: Result<Command, ClientError>)
        ensures
            match text_member(value_model(*args), "channel_id"@) {
                Some(channel_id) => r matches Ok(command)
                    && command@ matches CommandView::CloseChannel { channel_id: on, request_id }
                    && on == channel_id && is_request_id(request_id),
                None => r matches Err(error) && error.text() == "Missing channel_id parameter"@,
            },
    {
        let channel_id: String = required_text(args, "channel_id", "Missing channel_id parameter")?;
        Ok(Command::CloseChannel { channel_id, request_id: TheaterId::request_id() })
    }

    /// The answer to a request that closed the channel `channel_id`.
    pub fn close_channel_result(&self, channel_id: &str) -> (result: ToolCallResult)
        ensures
            is_json_result(result, channel_answer(channel_id@)),
    {
        json_result(
            pair_value("success", json::boolean(true), "channel_id", text_value(channel_id)),
        )
    }

    /// The announcements of the channel tools: `open_channel`,
    /// `send_on_channel` and `close_channel`, in that order.
    pub fn register_tools(&self) -> (tools: Vec<Tool>)
        ensures
            tools@.len() == 3,
            is_tool(
                tools@[0],
                "open_channel"@,
                "Open a communication channel to an actor"@,
                open_channel_schema(),
            ),
            is_tool(
                tools@[1],
                "send_on_channel"@,
                "Send a message on an open channel"@,
                send_on_channel_schema(),
            ),
            is_tool(tools@[2], "close_channel"@, "Close an open channel"@, close_channel_schema()),
    {
        let mut tools: Vec<Tool> = Vec::new();
        tools.push(
            announce(
                "open_channel",
                "Open a communication channel to an actor",
                schema_value(
                    pair_value(
                        "actor_id",
                        property_value("string", "ID of the actor to open a channel with"),
                        "initial_message",
                        property_value("string", "Initial message data (base64 encoded)"),
                    ),
                    "actor_id",
                    None,
                ),
            ),
        );
        tools.push(
            announce(
                "send_on_channel",
                "Send a message on an open channel",
                schema_value(
                    pair_value(
                        "channel_id",
                        property_value("string", "ID of the channel"),
                        "message",
                        property_value("string", "Message data (base64 encoded)"),
                    ),
                    "channel_id",
                    Some("message"),
                ),
            ),
        );
        tools.push(
            announce(
                "close_channel",
                "Close an open channel",
                schema_value(
                    single_value(
                        "channel_id",
                        property_value("string", "ID of the channel to close"),
                    ),
                    "channel_id",
                    None,
                ),
            ),
        );
        tools
    }
}

} // verus!
