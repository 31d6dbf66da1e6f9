use serde_json::Value;
use theater_mcp_server::resources::actors::state_bytes;
use theater_mcp_server::resources::{
    actor_address, events_address, json_content, json_resource, state_address, ActorResources,
    EventResources, Resource, ResourceContent,
};
use theater_mcp_server::theater::command::Command;

const ACTOR: &str = "1edf3c18-43c0-46f0-80a9-cdcabdf5d137";

fn json(text: &str) -> Value {
    serde_json::from_str(text).unwrap()
}

fn held(content: &ResourceContent) -> Value {
    assert_eq!(content.mime_type, "application/json");
    assert_eq!(content.blob, None);
    serde_json::from_str(content.text.as_ref().unwrap()).unwrap()
}

#[test]
fn addresses_name_the_actor() {
    assert_eq!(actor_address("a1"), "theater://actor/a1");
    assert_eq!(state_address("a1"), "theater://actor/a1/state");
    assert_eq!(events_address("a1"), "theater://events/a1");
}

#[test]
fn the_list_of_actors_has_an_entry_for_each() {
    let resources = ActorResources::new();
    let content = resources.get_actors_list_content(&vec!["a1".to_string(), "b2".to_string()]);
    assert_eq!(content.uri, "theater://actors");
    assert_eq!(
        content.text.as_deref(),
        Some(
            "{\"actors\":[\
             {\"id\":\"a1\",\"name\":\"Actor a1\",\"status\":\"RUNNING\",\"uri\":\"theater://actor/a1\"},\
             {\"id\":\"b2\",\"name\":\"Actor b2\",\"status\":\"RUNNING\",\"uri\":\"theater://actor/b2\"}\
             ],\"total\":2}"
        )
    );
    let empty = resources.get_actors_list_content(&vec![]);
    assert_eq!(held(&empty), json("{\"actors\": [], \"total\": 0}"));
}

#[test]
fn actor_details_need_the_actor_to_answer() {
    let resources = ActorResources::new();
    let content = resources
        .get_actor_details_content("a1", true, "2024-01-02T03:04:05+00:00")
        .unwrap();
    assert_eq!(content.uri, "theater://actor/a1");
    assert_eq!(
        held(&content),
        json(
            "{\"id\": \"a1\", \"status\": \"RUNNING\", \"created_at\": \"2024-01-02T03:04:05+00:00\", \
             \"events_uri\": \"theater://events/a1\", \"state_uri\": \"theater://actor/a1/state\"}"
        )
    );
    assert_eq!(
        resources.get_actor_details_content("a1", false, "now").unwrap_err().message(),
        "Actor not found or connection issue: a1"
    );
}

#[test]
fn actor_state_is_json_or_base64_or_empty() {
    let resources = ActorResources::new();
    let parsed = resources.get_actor_state_content("a1", Some(b"{\"count\": 3}"));
    assert_eq!(parsed.uri, "theater://actor/a1/state");
    assert_eq!(parsed.text.as_deref(), Some("{\"count\":3}"));
    let raw = resources.get_actor_state_content("a1", Some(&[0xff, 0x00, 0x01]));
    assert_eq!(raw.text.as_deref(), Some("{\"_raw_state_base64\":\"/wAB\"}"));
    let blank = resources.get_actor_state_content("a1", Some(b""));
    assert_eq!(blank.text.as_deref(), Some("{\"_raw_state_base64\":\"\"}"));
    let none = resources.get_actor_state_content("a1", None);
    assert_eq!(none.text.as_deref(), Some("{\"_state\":\"empty\"}"));
    let number = resources.get_actor_state_content("a1", Some(b"42"));
    assert_eq!(number.text.as_deref(), Some("42"));
}

#[test]
fn requests_for_resources_need_a_valid_actor() {
    let actors = ActorResources::new();
    let events = EventResources::new();
    assert_eq!(
        actors.state_request(&ACTOR.to_uppercase()),
        Ok(Command::GetActorState { actor_id: ACTOR.to_string() })
    );
    assert_eq!(
        events.events_request(ACTOR),
        Ok(Command::GetActorEvents { actor_id: ACTOR.to_string() })
    );
    assert!(actors.state_request("a1").unwrap_err().message().starts_with("Invalid Theater ID: "));
    assert!(events.events_request("").unwrap_err().message().starts_with("Invalid Theater ID: "));
}

#[test]
fn an_actors_history_is_an_array() {
    let events = EventResources::new();
    let content = events.get_actor_events_content("a1", vec![json("{\"n\": 1}"), json("\"x\"")]);
    assert_eq!(content.uri, "theater://events/a1");
    assert_eq!(content.text.as_deref(), Some("[{\"n\":1},\"x\"]"));
    let empty = events.get_actor_events_content("a1", vec![]);
    assert_eq!(empty.text.as_deref(), Some("[]"));
}

#[test]
fn resources_are_announced() {
    let actors = ActorResources::new();
    let events = EventResources::new();
    let json_mime = Some("application/json".to_string());
    assert_eq!(
        actors.register_resources(),
        Resource {
            uri: "theater://actors".to_string(),
            name: "Theater Actors".to_string(),
            description: Some("List of actors in the Theater system".to_string()),
            mime_type: json_mime.clone(),
        }
    );
    let (details, state) = actors.register_actor_resources("a1");
    assert_eq!(
        details,
        Resource {
            uri: "theater://actor/a1".to_string(),
            name: "Actor a1".to_string(),
            description: Some("Details for actor a1".to_string()),
            mime_type: json_mime.clone(),
        }
    );
    assert_eq!(
        state,
        Resource {
            uri: "theater://actor/a1/state".to_string(),
            name: "Actor a1 State".to_string(),
            description: Some("Current state for actor a1".to_string()),
            mime_type: json_mime.clone(),
        }
    );
    assert_eq!(
        events.register_actor_events("a1", true),
        Ok(Resource {
            uri: "theater://events/a1".to_string(),
            name: "Actor a1 Events".to_string(),
            description: Some("Event history for a specific actor".to_string()),
            mime_type: json_mime.clone(),
        })
    );
    assert_eq!(
        events.register_actor_events("a1", false).unwrap_err().message(),
        "Actor not found: a1"
    );
    let template = events.register_resources();
    assert_eq!(template.uri_template, "theater://events/{actor_id}");
    assert_eq!(template.name, "Actor Events");
    assert_eq!(template.description.as_deref(), Some("Event chain for a specific actor"));
    assert_eq!(template.mime_type, json_mime);
}

#[test]
fn content_and_announcements_are_json() {
    let content = json_content("u".to_string(), &json("{\"b\": 2, \"a\": 1}"));
    assert_eq!(content.uri, "u");
    assert_eq!(content.text.as_deref(), Some("{\"a\":1,\"b\":2}"));
    let resource = json_resource("u".to_string(), "n".to_string(), "d".to_string());
    assert_eq!(resource.mime_type.as_deref(), Some("application/json"));
    assert_eq!(resource.description.as_deref(), Some("d"));
}

#[test]
fn a_state_is_bytes_or_its_own_text() {
    assert_eq!(state_bytes(&json("[104, 105]")), b"hi".to_vec());
    assert_eq!(state_bytes(&json("[1, \"x\", 257]")), vec![1, 1]);
    assert_eq!(state_bytes(&json("[]")), Vec::<u8>::new());
    assert_eq!(state_bytes(&json("{\"n\": 1}")), b"{\"n\":1}".to_vec());
    assert_eq!(state_bytes(&json("\"hi\"")), b"\"hi\"".to_vec());
    assert_eq!(state_bytes(&json("7")), b"7".to_vec());
}
