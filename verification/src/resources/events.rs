//! Resources about events: each actor's history.

use vstd::prelude::*;
use vstd::string::StringExecFns;
use serde_json::Value;
use crate::resources::{
    events_address, events_uri, is_json_content, is_json_resource, json_content, json_resource,
    Resource, ResourceContent, ResourceTemplate,
};
use crate::theater::command::{Command, CommandView};
use crate::theater::id::{uuid_parse, uuid_text, TheaterId, TheaterIdExt};
use crate::theater::json;
use crate::theater::json::{json_text, models, JsonModel};
use crate::theater::types::ClientError;

verus! {

/// The event resources.
#[derive(Clone, Copy, Debug)]
pub struct EventResources {}

impl EventResources {
    /// The event resources.
    pub fn new() -> Self {
        EventResources {  }
    }

    /// The command that fetches the history of the actor named `actor_id`,
    /// or the complaint that `actor_id` names no actor.
    pub fn events_request(&self, actor_id: &str) -> (r: Result<Command, ClientError>)
        ensures
            match uuid_parse(actor_id@) {
                Some(value) => r matches Ok(command) && command@ == (CommandView::GetActorEvents {
                    actor_id: uuid_text(value),
                }),
                None => r matches Err(error) && exists|detail: Seq<char>|
                    error.text() == "Invalid Theater ID: "@ + detail,
            },
    {
        match TheaterId::from_str(actor_id) {
            Ok(id) => Ok(Command::GetActorEvents { actor_id: id.as_string() }),
            Err(report) => Err(ClientError::Report(report)),
        }
    }

    /// The content of an actor's history, given the events that were fetched.
    pub fn get_actor_events_content(&self, actor_id: &str, events: Vec<Value>) -> (content:
        ResourceContent)
        ensures
            is_json_content(
                content,
                events_uri(actor_id@),
                json_text(JsonModel::Array(models(events@))),
            ),
    {
        let history: Value = json::array(events);
        json_content(events_address(actor_id), &history)
    }

    /// The announcement of an actor's history, given whether the actor
    /// exists; or the complaint that it does not.
    pub fn register_actor_events(&self, actor_id: &str, found: bool) -> (r: Result<
        Resource,
        ClientError,
    >)
        ensures
            match r {
                Ok(resource) => found && is_json_resource(
                    resource,
                    events_uri(actor_id@),
                    "Actor "@ + actor_id@ + " Events"@,
                    "Event history for a specific actor"@,
                ),
                Err(error) => !found && error.text() == "Actor not found: "@ + actor_id@,
            },
    {
        if !found {
            return Err(
                ClientError::Report(String::from_str("Actor not found: ").concat(actor_id)),
            );
        }
        Ok(
            json_resource(
                events_address(actor_id),
                String::from_str("Actor ").concat(actor_id).concat(" Events"),
                String::from_str("Event history for a specific actor"),
            ),
        )
    }

    /// The announcement of the family of histories, one for each actor.
    pub fn register_resources(&self) -> (template: ResourceTemplate)
        ensures
            template.uri_template@ == "theater://events/{actor_id}"@,
            template.name@ == "Actor Events"@,
            template.description matches Some(described) && described@
                == "Event chain for a specific actor"@,
            template.mime_type matches Some(mime) && mime@ == "application/json"@,
    {
        ResourceTemplate {
            uri_template: String::from_str("theater://events/{actor_id}"),
            name: String::from_str("Actor Events"),
            description: Some(String::from_str("Event chain for a specific actor")),
            mime_type: Some(String::from_str("application/json")),
        }
    }
}

} // verus!
