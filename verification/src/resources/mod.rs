//! The resources that the server offers over the Model Context Protocol:
//! where each is found, and what it holds.

use vstd::prelude::*;
use vstd::string::StringExecFns;
use serde_json::Value;
use crate::theater::json;
use crate::theater::json::{json_text, value_model};

pub mod actors;
pub mod events;

pub use actors::ActorResources;
pub use events::EventResources;

verus! {

/// What a resource holds.
#[derive(Clone, Debug, PartialEq, Eq)]
pub struct ResourceContent {
    pub uri: String,
    pub mime_type: String,
    pub text: Option<String>,
    pub blob: Option<String>,
}

/// A resource as it is announced.
#[derive(Clone, Debug, PartialEq, Eq)]
pub struct Resource {
    pub uri: String,
    pub name: String,
    pub description: Option<String>,
    pub mime_type: Option<String>,
}

/// A family of resources as it is announced.
#[derive(Clone, Debug, PartialEq, Eq)]
pub struct ResourceTemplate {
    pub uri_template: String,
    pub name: String,
    pub description: Option<String>,
    pub mime_type: Option<String>,
}

/// The address of the list of actors.
pub open spec fn actors_uri() -> Seq<char> {
    "theater://actors"@
}

/// The address of an actor's details.
pub open spec fn actor_uri(actor_id: Seq<char>) -> Seq<char> {
    "theater://actor/"@ + actor_id
}

/// The address of an actor's state.
pub open spec fn state_uri(actor_id: Seq<char>) -> Seq<char> {
    "theater://actor/"@ + actor_id + "/state"@
}

/// The address of an actor's history.
pub open spec fn events_uri(actor_id: Seq<char>) -> Seq<char> {
    "theater://events/"@ + actor_id
}

/// Whether `content` is the JSON text `text` at the address `uri`.
pub open spec fn is_json_content(content: ResourceContent, uri: Seq<char>, text: Seq<char>) -> bool {
    &&& content.uri@ == uri
    &&& content.mime_type@ == "application/json"@
    &&& content.text matches Some(held)
    &&& held@ == text
    &&& content.blob is None
}

/// Whether `resource` is announced as JSON at `uri` under `name`, described
/// by `description`.
pub open spec fn is_json_resource(
    resource: Resource,
    uri: Seq<char>,
    name: Seq<char>,
    description: Seq<char>,
) -> bool {
    &&& resource.uri@ == uri
    &&& resource.name@ == name
    &&& resource.description matches Some(described)
    &&& described@ == description
    &&& resource.mime_type matches Some(mime)
    &&& mime@ == "application/json"@
}

/// The address of an actor's details.
pub fn actor_address(actor_id: &str) -> (uri: String)
    ensures
        uri@ == actor_uri(actor_id@),
{
    String::from_str("theater://actor/").concat(actor_id)
}

/// The address of an actor's state.
pub fn state_address(actor_id: &str) -> (uri: String)
    ensures
        uri@ == state_uri(actor_id@),
{
    String::from_str("theater://actor/").concat(actor_id).concat("/state")
}

/// The address of an actor's history.
pub fn events_address(actor_id: &str) -> (uri: String)
    ensures
        uri@ == events_uri(actor_id@),
{
    String::from_str("theater://events/").concat(actor_id)
}

/// The resource that holds the text of `value` at the address `uri`.
pub fn json_content(uri: String, value: &Value) -> (content: ResourceContent)
    ensures
        is_json_content(content, uri@, json_text(value_model(*value))),
{
    ResourceContent {
        uri,
        mime_type: String::from_str("application/json"),
        text: Some(json::print(value)),
        blob: None,
    }
}

/// The announcement of a JSON resource.
pub fn json_resource(uri: String, name: String, description: String) -> (resource: Resource)
    ensures
        is_json_resource(resource, uri@, name@, description@),
{
    Resource {
        uri,
        name,
        description: Some(description),
        mime_type: Some(String::from_str("application/json")),
    }
}

} // verus!
