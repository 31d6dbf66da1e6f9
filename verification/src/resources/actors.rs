//! Resources about actors: the list of them, and each one's details and state.

use vstd::prelude::*;
use vstd::string::StringExecFns;
use vstd::utf8::encode_utf8;
use serde_json::Value;
use crate::resources::{
    actor_address, actor_uri, actors_uri, events_address, events_uri, is_json_content,
    is_json_resource, json_content, json_resource, state_address, state_uri, Resource,
    ResourceContent,
};
use crate::theater::command::{
    encode_value, pair, pair_value, single, single_value, text_value, Command, CommandView,
};
use crate::theater::encoding;
use crate::theater::encoding::{base64_text, encodable};
use crate::theater::id::{uuid_parse, uuid_text, TheaterId, TheaterIdExt};
use crate::theater::json;
use crate::theater::json::{
    json_parse, json_text, models, no_members, value_model, JsonModel, JsonNumber,
};
use crate::theater::reply::{bytes_among, low_bytes, views};
use crate::theater::types::ClientError;

verus! {

/// The actor resources.
#[derive(Clone, Copy, Debug)]
pub struct ActorResources {}

/// One actor in the list of actors.
pub open spec fn actor_entry(actor_id: Seq<char>) -> JsonModel {
    JsonModel::Object(
        no_members().insert("id"@, JsonModel::String(actor_id)).insert(
            "name"@,
            JsonModel::String("Actor "@ + actor_id),
        ).insert("status"@, JsonModel::String("RUNNING"@)).insert(
            "uri"@,
            JsonModel::String(actor_uri(actor_id)),
        ),
    )
}

/// The list of actors: an entry for each, and their number.
pub open spec fn actors_list(actor_ids: Seq<Seq<char>>) -> JsonModel {
    pair(
        ("actors"@, JsonModel::Array(actor_ids.map_values(|id: Seq<char>| actor_entry(id)))),
        ("total"@, JsonModel::Number(JsonNumber::PosInt(actor_ids.len() as u64))),
    )
}

/// An actor's details.
pub open spec fn actor_details(actor_id: Seq<char>, created_at: Seq<char>) -> JsonModel {
    JsonModel::Object(
        no_members().insert("id"@, JsonModel::String(actor_id)).insert(
            "status"@,
            JsonModel::String("RUNNING"@),
        ).insert("created_at"@, JsonModel::String(created_at)).insert(
            "events_uri"@,
            JsonModel::String(events_uri(actor_id)),
        ).insert("state_uri"@, JsonModel::String(state_uri(actor_id))),
    )
}

/// An actor's state as JSON: the state itself where its bytes are JSON
/// text, its bytes as base64 where they are not, and a note where the actor
/// has no state.
pub open spec fn state_document(state: Option<Seq<u8>>) -> JsonModel {
    match state {
        Some(bytes) => match json_parse(bytes) {
            Some(parsed) => parsed,
            None => single("_raw_state_base64"@, JsonModel::String(base64_text(bytes))),
        },
        None => single("_state"@, JsonModel::String("empty"@)),
    }
}

/// The bytes of a state as the server sends it: an array of numbers
/// stands for the bytes themselves, and any other value for its JSON text.
pub open spec fn state_data(state: JsonModel) -> Seq<u8> {
    match state {
        JsonModel::Array(items) => low_bytes(items),
        _ => encode_utf8(json_text(state)),
    }
}

/// The bytes of a state as the server sends it.
pub fn state_bytes(state: &Value) -> (bytes: Vec<u8>)
    ensures
        bytes@ == state_data(value_model(*state)),
{
    match json::as_array(state) {
        Some(items) => bytes_among(items),
        None => encode_value(state),
    }
}

fn entry_value(actor_id: &str) -> (value: Value)
    ensures
        value_model(value) == actor_entry(actor_id@),
{
    let mut members: serde_json::Map<String, Value> = json::members();
    json::insert(&mut members, String::from_str("id"), text_value(actor_id));
    json::insert(
        &mut members,
        String::from_str("name"),
        json::string(String::from_str("Actor ").concat(actor_id)),
    );
    json::insert(&mut members, String::from_str("status"), text_value("RUNNING"));
    json::insert(&mut members, String::from_str("uri"), json::string(actor_address(actor_id)));
    json::object(members)
}

impl ActorResources {
    /// The actor resources.
    pub fn new() -> Self {
        ActorResources {  }
    }

    /// The command that fetches what a resource about the actor named
    /// `actor_id` needs, or the complaint that `actor_id` names no actor.
    pub fn state_request(&self, actor_id: &str) -> (r: Result<Command, ClientError>)
        ensures
            match uuid_parse(actor_id@) {
                Some(value) => r matches Ok(command) && command@ == (CommandView::GetActorState {
                    actor_id: uuid_text(value),
                }),
                None => r matches Err(error) && exists|detail: Seq<char>|
                    error.text() == "Invalid Theater ID: "@ + detail,
            },
    {
        match TheaterId::from_str(actor_id) {
            Ok(id) => Ok(Command::GetActorState { actor_id: id.as_string() }),
            Err(report) => Err(ClientError::Report(report)),
        }
    }

    /// The content of the list of actors.
    pub fn get_actors_list_content(&self, actor_ids: &Vec<String>) -> (content: ResourceContent)
        ensures
            is_json_content(content, actors_uri(), json_text(actors_list(views(actor_ids@)))),
    {
        let mut entries: Vec<Value> = Vec::new();
        let mut i: usize = 0;
        while i < actor_ids.len()
            invariant
                i <= actor_ids.len(),
                entries@.len() == i,
                forall|k: int|
                    0 <= k < i ==> value_model(#[trigger] entries@[k]) == actor_entry(
                        actor_ids@[k]@,
                    ),
            decreases actor_ids.len() - i,
        {
            entries.push(entry_value(actor_ids[i].as_str()));
            i = i + 1;
        }
        assert(models(entries@) =~= views(actor_ids@).map_values(|id: Seq<char>| actor_entry(id)));
        assert(views(actor_ids@).len() == actor_ids@.len());
        let list: Value = pair_value(
            "actors",
            json::array(entries),
            "total",
            json::unsigned(actor_ids.len() as u64),
        );
        json_content(String::from_str("theater://actors"), &list)
    }

    /// The content of an actor's details, given whether the actor's state
    /// could be fetched and the time to report as its creation. An actor
    /// whose state could not be fetched has no details.
    pub fn get_actor_details_content(&self, actor_id: &str, fetched: bool, created_at: &str) -> (r:
        Result<ResourceContent, ClientError>)
        ensures
            match r {
                Ok(content) => fetched && is_json_content(
                    content,
                    actor_uri(actor_id@),
                    json_text(actor_details(actor_id@, created_at@)),
                ),
                Err(error) => !fetched && error.text() == "Actor not found or connection issue: "@
                    + actor_id@,
            },
    {
        if !fetched {
            return Err(
                ClientError::Report(
                    String::from_str("Actor not found or connection issue: ").concat(actor_id),
                ),
            );
        }
        let mut members: serde_json::Map<String, Value> = json::members();
        json::insert(&mut members, String::from_str("id"), text_value(actor_id));
        json::insert(&mut members, String::from_str("status"), text_value("RUNNING"));
        json::insert(&mut members, String::from_str("created_at"), text_value(created_at));
        json::insert(
            &mut members,
            String::from_str("events_uri"),
            json::string(events_address(actor_id)),
        );
        json::insert(
            &mut members,
            String::from_str("state_uri"),
            json::string(state_address(actor_id)),
        );
        let details: Value = json::object(members);
        Ok(json_content(actor_address(actor_id), &details))
    }

    /// The content of an actor's state, given the state that was fetched.
    pub fn get_actor_state_content(&self, actor_id: &str, state: Option<&[u8]>) -> (content:
        ResourceContent)
        requires
            state matches Some(bytes) ==> encodable(bytes@.len()),
        ensures
            is_json_content(
                content,
                state_uri(actor_id@),
                json_text(
                    state_document(
                        match state {
                            Some(bytes) => Some(bytes@),
                            None => None,
                        },
                    ),
                ),
            ),
    {
        let document: Value = match state {
            Some(bytes) => match json::from_slice(bytes) {
                Ok(parsed) => parsed,
                Err(_) => single_value(
                    "_raw_state_base64",
                    json::string(encoding::encode(bytes).unwrap()),
                ),
            },
            None => single_value("_state", text_value("empty")),
        };
        json_content(state_address(actor_id), &document)
    }

    /// The announcements of an actor's two resources: its details, then its state.
    pub fn register_actor_resources(&self, actor_id: &str) -> (announced: (Resource, Resource))
        ensures
            is_json_resource(
                announced.0,
                actor_uri(actor_id@),
                "Actor "@ + actor_id@,
                "Details for actor "@ + actor_id@,
            ),
            is_json_resource(
                announced.1,
                state_uri(actor_id@),
                "Actor "@ + actor_id@ + " State"@,
                "Current state for actor "@ + actor_id@,
            ),
    {
        let details: Resource = json_resource(
            actor_address(actor_id),
            String::from_str("Actor ").concat(actor_id),
            String::from_str("Details for actor ").concat(actor_id),
        );
        let state: Resource = json_resource(
            state_address(actor_id),
            String::from_str("Actor ").concat(actor_id).concat(" State"),
            String::from_str("Current state for actor ").concat(actor_id),
        );
        (details, state)
    }

    /// The announcement of the list of actors.
    pub fn register_resources(&self) -> (resource: Resource)
        ensures
            is_json_resource(
                resource,
                actors_uri(),
                "Theater Actors"@,
                "List of actors in the Theater system"@,
            ),
    {
        json_resource(
            String::from_str("theater://actors"),
            String::from_str("Theater Actors"),
            String::from_str("List of actors in the Theater system"),
        )
    }
}

} // verus!
