//! Tools that start, stop and restart actors.

use vstd::prelude::*;
use vstd::utf8::encode_utf8;
use serde_json::Value;
use crate::theater::command::{
    encode_value, pair, pair_value, single, single_value, text_value, Command, CommandView,
};
use crate::theater::id::{uuid_text, TheaterIdExt};
use crate::theater::json;
use crate::theater::json::{json_text, value_model, JsonModel};
use crate::theater::reply::text_member;
use crate::theater::types::{ActorStatus, ClientError};
use crate::tools::{
    actor_argument, announce, is_text_result, is_tool, property, property_value, required_actor,
    required_text, schema, schema_value, text_result, ActorArgument, Tool, ToolCallResult,
};

verus! {

/// The actor tools.
#[derive(Clone, Copy, Debug)]
pub struct ActorTools {
    resources: bool,
}

/// The command that the arguments of `start_actor` ask for: the manifest
/// they name and, where they carry an initial state, the text of that state.
pub open spec fn start_request(args: JsonModel) -> Option<CommandView> {
    match text_member(args, "manifest"@) {
        Some(manifest) => Some(
            CommandView::StartActor {
                manifest,
                initial_state: match args.member("initial_state"@) {
                    Some(state) => Some(encode_utf8(json_text(state))),
                    None => None,
                },
            },
        ),
        None => None,
    }
}

/// What a tool answers about an actor: its identifier and its status.
pub open spec fn status_answer(actor_id: Seq<char>, status: Seq<char>) -> JsonModel {
    pair(("actor_id"@, JsonModel::String(actor_id)), ("status"@, JsonModel::String(status)))
}

/// The schema of the arguments of `start_actor`.
pub open spec fn start_actor_schema() -> JsonModel {
    schema(
        pair(
            (
                "manifest"@,
                property("string"@, "Path to the actor manifest or manifest content"@),
            ),
            ("initial_state"@, property("object"@, "Optional initial state for the actor"@)),
        ),
        seq!["manifest"@],
    )
}

/// The schema of the arguments of a tool that takes an actor and nothing else.
pub open spec fn actor_schema(description: Seq<char>) -> JsonModel {
    schema(single("actor_id"@, property("string"@, description)), seq!["actor_id"@])
}

impl ActorTools {
    /// Whether a started actor's resources are to be registered.
    pub closed spec fn registers(self) -> bool {
        self.resources
    }

    /// Tools that register no resources.
    pub fn new() -> (tools: Self)
        ensures
            !tools.registers(),
    {
        ActorTools { resources: false }
    }

    /// The same tools, registering the resources of every actor they start.
    pub fn with_resources(self) -> (tools: Self)
        ensures
            tools.registers(),
    {
        ActorTools { resources: true }
    }

    /// Whether a started actor's resources are to be registered.
    pub fn registers_resources(&self) -> (b: bool)
        ensures
            b == self.registers(),
    {
        self.resources
    }

    /// Reads the arguments of a request to start an actor.
    pub fn start_actor(&self, args: &Value) -> (r: Result<Command, ClientError>)
        ensures
            match start_request(value_model(*args)) {
                Some(request) => r matches Ok(command) && command@ == request,
                None => r matches Err(error) && error.text() == "Missing manifest parameter"@,
            },
    {
        let manifest: String = required_text(args, "manifest", "Missing manifest parameter")?;
        let initial_state: Option<Vec<u8>> = match json::get(args, "initial_state") {
            Some(state) => Some(encode_value(state)),
            None => None,
        };
        Ok(Command::StartActor { manifest, initial_state })
    }

    /// The answer to a request that started the actor `actor_id`.
    pub fn start_actor_result(&self, actor_id: &str) -> (result: ToolCallResult)
        ensures
            is_text_result(result, json_text(status_answer(actor_id@, "RUNNING"@))),
    {
        status_result(actor_id, ActorStatus::Running.label())
    }

    /// Reads the arguments of a request to stop an actor.
    pub fn stop_actor(&self, args: &Value) -> (r: Result<Command, ClientError>)
        ensures
            match actor_argument(value_model(*args)) {
                ActorArgument::Named(_, value) => r matches Ok(command) && command@ == (
                CommandView::StopActor { actor_id: uuid_text(value) }),
                ActorArgument::Invalid => r matches Err(error) && exists|detail: Seq<char>|
                    error.text() == "Invalid Theater ID: "@ + detail,
                ActorArgument::Missing => r matches Err(error) && error.text()
                    == "Missing actor_id parameter"@,
            },
    {
        match required_actor(args) {
            Ok(actor) => Ok(Command::StopActor { actor_id: actor.1.as_string() }),
            Err(error) => Err(error),
        }
    }

    /// The answer to a request that stopped the actor named `actor_id`.
    pub fn stop_actor_result(&self, actor_id: &str) -> (result: ToolCallResult)
        ensures
            is_text_result(result, json_text(status_answer(actor_id@, "STOPPED"@))),
    {
        status_result(actor_id, ActorStatus::Stopped.label())
    }

    /// Reads the arguments of a request to restart an actor.
    pub fn restart_actor(&self, args: &Value) -> (r: Result<Command, ClientError>)
        ensures
            match actor_argument(value_model(*args)) {
                ActorArgument::Named(_, value) => r matches Ok(command) && command@ == (
                CommandView::RestartActor { actor_id: uuid_text(value) }),
                ActorArgument::Invalid => r matches Err(error) && exists|detail: Seq<char>|
                    error.text() == "Invalid Theater ID: "@ + detail,
                ActorArgument::Missing => r matches Err(error) && error.text()
                    == "Missing actor_id parameter"@,
            },
    {
        match required_actor(args) {
            Ok(actor) => Ok(Command::RestartActor { actor_id: actor.1.as_string() }),
            Err(error) => Err(error),
        }
    }

    /// The answer to a request that restarted the actor named `actor_id`.
    pub fn restart_actor_result(&self, actor_id: &str) -> (result: ToolCallResult)
        ensures
            is_text_result(result, json_text(status_answer(actor_id@, "RUNNING"@))),
    {
        status_result(actor_id, ActorStatus::Running.label())
    }

    /// The announcements of the actor tools: `start_actor`, `stop_actor`
    /// and `restart_actor`, in that order.
    pub fn register_tools(&self) -> (tools: Vec<Tool>)
        ensures
            tools@.len() == 3,
            is_tool(
                tools@[0],
                "start_actor"@,
                "Start a new actor from a manifest"@,
                start_actor_schema(),
            ),
            is_tool(
                tools@[1],
                "stop_actor"@,
                "Stop a running actor"@,
                actor_schema("ID of the actor to stop"@),
            ),
            is_tool(
                tools@[2],
                "restart_actor"@,
                "Restart a running actor"@,
                actor_schema("ID of the actor to restart"@),
            ),
    {
        let mut tools: Vec<Tool> = Vec::new();
        tools.push(
            announce(
                "start_actor",
                "Start a new actor from a manifest",
                schema_value(
                    pair_value(
                        "manifest",
                        property_value("string", "Path to the actor manifest or manifest content"),
                        "initial_state",
                        property_value("object", "Optional initial state for the actor"),
                    ),
                    "manifest",
                    None,
                ),
            ),
        );
        tools.push(
            announce(
                "stop_actor",
                "Stop a running actor",
                schema_value(
                    single_value("actor_id", property_value("string", "ID of the actor to stop")),
                    "actor_id",
                    None,
                ),
            ),
        );
        tools.push(
            announce(
                "restart_actor",
                "Restart a running actor",
                schema_value(
                    single_value(
                        "actor_id",
                        property_value("string", "ID of the actor to restart"),
                    ),
                    "actor_id",
                    None,
                ),
            ),
        );
        tools
    }
}

/// The answer that names an actor and its status.
pub fn status_result(actor_id: &str, status: &str) -> (result: ToolCallResult)
    ensures
        is_text_result(result, json_text(status_answer(actor_id@, status@))),
{
    let answer: Value = pair_value("actor_id", text_value(actor_id), "status", text_value(status));
    text_result(&answer)
}

} // verus!
