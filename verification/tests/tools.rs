use serde_json::Value;
use theater_mcp_server::theater::command::Command;
use theater_mcp_server::tools::actor::status_result;
use theater_mcp_server::tools::{
    json_result, required_actor, required_data, required_text, text_result, ActorTools,
    ChannelTools, MessageTools, ToolCallResult, ToolContent,
};

const ACTOR: &str = "1edf3c18-43c0-46f0-80a9-cdcabdf5d137";

fn json(text: &str) -> Value {
    serde_json::from_str(text).unwrap()
}

fn only_text(result: ToolCallResult) -> String {
    assert_eq!(result.is_error, Some(false));
    assert_eq!(result.content.len(), 1);
    match result.content.into_iter().next().unwrap() {
        ToolContent::Text { text } => text,
        other => panic!("{:?}", other),
    }
}

fn only_json(result: ToolCallResult) -> Value {
    assert_eq!(result.is_error, Some(false));
    assert_eq!(result.content.len(), 1);
    match result.content.into_iter().next().unwrap() {
        ToolContent::Json { json } => json,
        other => panic!("{:?}", other),
    }
}

#[test]
fn start_actor_reads_the_manifest_and_the_state() {
    let tools = ActorTools::new();
    assert_eq!(
        tools.start_actor(&json("{\"manifest\": \"m.toml\"}")),
        Ok(Command::StartActor { manifest: "m.toml".to_string(), initial_state: None })
    );
    assert_eq!(
        tools.start_actor(&json("{\"manifest\": \"m\", \"initial_state\": {\"n\": 1, \"a\": [true]}}")),
        Ok(Command::StartActor {
            manifest: "m".to_string(),
            initial_state: Some(b"{\"a\":[true],\"n\":1}".to_vec()),
        })
    );
    assert_eq!(
        tools.start_actor(&json("{\"manifest\": \"m\", \"initial_state\": null}")),
        Ok(Command::StartActor { manifest: "m".to_string(), initial_state: Some(b"null".to_vec()) })
    );
    assert_eq!(
        tools.start_actor(&json("{\"initial_state\": 1}")).unwrap_err().message(),
        "Missing manifest parameter"
    );
    assert_eq!(
        tools.start_actor(&json("{\"manifest\": 5}")).unwrap_err().message(),
        "Missing manifest parameter"
    );
    assert_eq!(tools.start_actor(&json("[]")).unwrap_err().message(), "Missing manifest parameter");
}

#[test]
fn actor_tools_answer_with_the_actor_and_its_status() {
    let tools = ActorTools::new();
    assert_eq!(
        only_text(tools.start_actor_result(ACTOR)),
        format!("{{\"actor_id\":\"{}\",\"status\":\"RUNNING\"}}", ACTOR)
    );
    assert_eq!(
        only_text(tools.stop_actor_result("given")),
        "{\"actor_id\":\"given\",\"status\":\"STOPPED\"}"
    );
    assert_eq!(
        only_text(tools.restart_actor_result("given")),
        "{\"actor_id\":\"given\",\"status\":\"RUNNING\"}"
    );
    assert_eq!(
        only_text(status_result("a\"b", "FAILED")),
        "{\"actor_id\":\"a\\\"b\",\"status\":\"FAILED\"}"
    );
}

#[test]
fn stop_and_restart_need_a_valid_actor() {
    let tools = ActorTools::new();
    assert_eq!(
        tools.stop_actor(&json(&format!("{{\"actor_id\": \"{}\"}}", ACTOR.to_uppercase()))),
        Ok(Command::StopActor { actor_id: ACTOR.to_string() })
    );
    assert_eq!(
        tools.restart_actor(&json(&format!("{{\"actor_id\": \"{}\"}}", ACTOR))),
        Ok(Command::RestartActor { actor_id: ACTOR.to_string() })
    );
    assert_eq!(tools.stop_actor(&json("{}")).unwrap_err().message(), "Missing actor_id parameter");
    assert_eq!(
        tools.restart_actor(&json("{\"actor_id\": 1}")).unwrap_err().message(),
        "Missing actor_id parameter"
    );
    assert!(tools
        .stop_actor(&json("{\"actor_id\": \"actor-1\"}"))
        .unwrap_err()
        .message()
        .starts_with("Invalid Theater ID: "));
    assert!(tools
        .restart_actor(&json("{\"actor_id\": \"\"}"))
        .unwrap_err()
        .message()
        .starts_with("Invalid Theater ID: "));
}

#[test]
fn actor_tools_register_resources_when_given_them() {
    let plain = ActorTools::new();
    assert!(!plain.registers_resources());
    assert!(plain.with_resources().registers_resources());
}

#[test]
fn message_tools_read_the_actor_and_the_data() {
    let tools = MessageTools::new();
    let args = json(&format!("{{\"actor_id\": \"{}\", \"data\": \"aGk=\"}}", ACTOR));
    match tools.send_message(&args).unwrap() {
        Command::SendActorMessage { actor_id, data, request_id } => {
            assert_eq!(actor_id, ACTOR);
            assert_eq!(data, b"hi".to_vec());
            assert_eq!(request_id.len(), 36);
        }
        other => panic!("{:?}", other),
    }
    match tools.request_message(&args).unwrap() {
        Command::RequestActorMessage { actor_id, data, .. } => {
            assert_eq!(actor_id, ACTOR);
            assert_eq!(data, b"hi".to_vec());
        }
        other => panic!("{:?}", other),
    }
    assert_eq!(
        tools.send_message(&json("{\"data\": \"aGk=\"}")).unwrap_err().message(),
        "Missing actor_id parameter"
    );
    assert!(tools
        .request_message(&json("{\"actor_id\": \"x\", \"data\": \"aGk=\"}"))
        .unwrap_err()
        .message()
        .starts_with("Invalid Theater ID: "));
    assert_eq!(
        tools
            .send_message(&json(&format!("{{\"actor_id\": \"{}\"}}", ACTOR)))
            .unwrap_err()
            .message(),
        "Missing data parameter"
    );
    assert_eq!(
        tools
            .request_message(&json(&format!("{{\"actor_id\": \"{}\", \"data\": [1]}}", ACTOR)))
            .unwrap_err()
            .message(),
        "Missing data parameter"
    );
    assert!(tools
        .send_message(&json(&format!("{{\"actor_id\": \"{}\", \"data\": \"%%\"}}", ACTOR)))
        .is_err());
}

#[test]
fn message_tools_answer() {
    let tools = MessageTools::new();
    assert_eq!(
        only_text(tools.send_message_result("a1")),
        "{\"actor_id\":\"a1\",\"success\":true}"
    );
    assert_eq!(
        only_text(tools.request_message_result("a1", b"hi")),
        "{\"actor_id\":\"a1\",\"response\":\"aGk=\"}"
    );
    assert_eq!(
        only_text(tools.request_message_result("a1", b"")),
        "{\"actor_id\":\"a1\",\"response\":\"\"}"
    );
}

#[test]
fn channel_tools_read_their_arguments() {
    let tools = ChannelTools::new();
    let open = |rest: &str| tools.open_channel(&json(&format!("{{\"actor_id\": \"{}\"{}}}", ACTOR.to_uppercase(), rest)));
    match open(", \"initial_message\": \"aGk=\"").unwrap() {
        Command::OpenChannel { actor_id, initial_message, request_id } => {
            assert_eq!(actor_id, ACTOR);
            assert_eq!(initial_message, Some(b"hi".to_vec()));
            assert_eq!(request_id.len(), 36);
            assert_eq!(request_id.as_bytes()[14], b'4');
        }
        other => panic!("{:?}", other),
    }
    match open(", \"initial_message\": 5").unwrap() {
        Command::OpenChannel { initial_message, .. } => assert_eq!(initial_message, None),
        other => panic!("{:?}", other),
    }
    match open("").unwrap() {
        Command::OpenChannel { initial_message, .. } => assert_eq!(initial_message, None),
        other => panic!("{:?}", other),
    }
    assert_eq!(
        tools.open_channel(&json("{\"initial_message\": \"aGk=\"}")).unwrap_err().message(),
        "Missing actor_id parameter"
    );
    assert!(open(", \"initial_message\": \"!\"").is_err());
    // a name that is no identifier is refused, after the message was read
    assert!(tools.open_channel(&json("{\"actor_id\": \"a\"}")).is_err());
    assert!(tools.open_channel(&json("{\"actor_id\": \"a\", \"initial_message\": \"aGk=\"}")).is_err());
    match tools.send_on_channel(&json("{\"channel_id\": \"c\", \"message\": \"aGk=\"}")).unwrap() {
        Command::SendOnChannel { channel_id, message, .. } => {
            assert_eq!((channel_id.as_str(), message), ("c", b"hi".to_vec()));
        }
        other => panic!("{:?}", other),
    }
    assert_eq!(
        tools.send_on_channel(&json("{\"message\": \"aGk=\"}")).unwrap_err().message(),
        "Missing channel_id parameter"
    );
    assert_eq!(
        tools.send_on_channel(&json("{\"channel_id\": \"c\"}")).unwrap_err().message(),
        "Missing message parameter"
    );
    assert!(tools.send_on_channel(&json("{\"channel_id\": \"c\", \"message\": \"a\"}")).is_err());
    match tools.close_channel(&json("{\"channel_id\": \"c\"}")).unwrap() {
        Command::CloseChannel { channel_id, .. } => assert_eq!(channel_id, "c"),
        other => panic!("{:?}", other),
    }
    assert_eq!(
        tools.close_channel(&json("{}")).unwrap_err().message(),
        "Missing channel_id parameter"
    );
}

#[test]
fn channel_tools_answer_with_json() {
    let tools = ChannelTools::new();
    assert_eq!(
        only_json(tools.open_channel_result("c1", "a1")),
        json("{\"channel_id\": \"c1\", \"actor_id\": \"a1\"}")
    );
    assert_eq!(
        only_json(tools.send_on_channel_result("c1")),
        json("{\"success\": true, \"channel_id\": \"c1\"}")
    );
    assert_eq!(
        only_json(tools.close_channel_result("c1")),
        json("{\"success\": true, \"channel_id\": \"c1\"}")
    );
}

#[test]
fn arguments_are_read_by_name() {
    let args = json(&format!("{{\"s\": \"v\", \"n\": 1, \"d\": \"AQI=\", \"actor_id\": \"{}\"}}", ACTOR));
    assert_eq!(required_text(&args, "s", "no s"), Ok("v".to_string()));
    assert_eq!(required_text(&args, "n", "no n").unwrap_err().message(), "no n");
    assert_eq!(required_text(&args, "x", "no x").unwrap_err().message(), "no x");
    assert_eq!(required_data(&args, "d", "no d"), Ok(vec![1, 2]));
    assert_eq!(required_data(&args, "x", "no d").unwrap_err().message(), "no d");
    assert!(required_data(&args, "s", "no d").is_err());
    let (given, id) = required_actor(&args).unwrap();
    assert_eq!(given, ACTOR);
    assert_eq!(id.as_u128(), 0x1edf3c18_43c0_46f0_80a9_cdcabdf5d137);
}

#[test]
fn a_json_item_travels_as_wrapped_text() {
    let item = ToolContent::Json { json: json("{\"b\": 1, \"a\": \"x\"}") };
    assert_eq!(item.into_text(), "{\"json\":{\"a\":\"x\",\"b\":1}}");
    assert_eq!(ToolContent::Text { text: "plain".to_string() }.into_text(), "plain");
    let opened = ChannelTools::new().open_channel_result("c1", "a1");
    let texts: Vec<String> = opened.content.into_iter().map(|c| c.into_text()).collect();
    assert_eq!(texts, vec!["{\"json\":{\"actor_id\":\"a1\",\"channel_id\":\"c1\"}}".to_string()]);
}

#[test]
fn results_hold_one_item() {
    assert_eq!(only_text(text_result(&json("{\"b\": 1, \"a\": [null]}"))), "{\"a\":[null],\"b\":1}");
    assert_eq!(only_json(json_result(json("[1]"))), json("[1]"));
}

#[test]
fn tools_are_announced_with_their_schemas() {
    let actor = ActorTools::new().register_tools();
    assert_eq!(actor.len(), 3);
    assert_eq!(actor[0].name, "start_actor");
    assert_eq!(actor[0].description.as_deref(), Some("Start a new actor from a manifest"));
    assert_eq!(
        actor[0].input_schema,
        json(
            "{\"type\": \"object\", \"properties\": {\
             \"manifest\": {\"type\": \"string\", \"description\": \"Path to the actor manifest or manifest content\"}, \
             \"initial_state\": {\"type\": \"object\", \"description\": \"Optional initial state for the actor\"}}, \
             \"required\": [\"manifest\"]}"
        )
    );
    assert_eq!(actor[1].name, "stop_actor");
    assert_eq!(actor[1].description.as_deref(), Some("Stop a running actor"));
    assert_eq!(
        actor[1].input_schema,
        json(
            "{\"type\": \"object\", \"properties\": {\
             \"actor_id\": {\"type\": \"string\", \"description\": \"ID of the actor to stop\"}}, \
             \"required\": [\"actor_id\"]}"
        )
    );
    assert_eq!(actor[2].name, "restart_actor");
    assert_eq!(actor[2].description.as_deref(), Some("Restart a running actor"));
    assert_eq!(
        actor[2].input_schema,
        json(
            "{\"type\": \"object\", \"properties\": {\
             \"actor_id\": {\"type\": \"string\", \"description\": \"ID of the actor to restart\"}}, \
             \"required\": [\"actor_id\"]}"
        )
    );
    let message = MessageTools::new().register_tools();
    assert_eq!(message.len(), 2);
    assert_eq!(message[0].name, "send_message");
    assert_eq!(message[0].description.as_deref(), Some("Send a message to an actor"));
    assert_eq!(
        message[0].input_schema,
        json(
            "{\"type\": \"object\", \"properties\": {\
             \"actor_id\": {\"type\": \"string\", \"description\": \"ID of the actor to send the message to\"}, \
             \"data\": {\"type\": \"string\", \"description\": \"Message data (base64 encoded)\"}}, \
             \"required\": [\"actor_id\", \"data\"]}"
        )
    );
    assert_eq!(message[1].name, "request_message");
    assert_eq!(
        message[1].description.as_deref(),
        Some("Send a request to an actor and receive a response")
    );
    assert_eq!(
        message[1].input_schema,
        json(
            "{\"type\": \"object\", \"properties\": {\
             \"actor_id\": {\"type\": \"string\", \"description\": \"ID of the actor to send the request to\"}, \
             \"data\": {\"type\": \"string\", \"description\": \"Request data (base64 encoded)\"}}, \
             \"required\": [\"actor_id\", \"data\"]}"
        )
    );
    let channel = ChannelTools::new().register_tools();
    assert_eq!(channel.len(), 3);
    assert_eq!(channel[0].name, "open_channel");
    assert_eq!(channel[0].description.as_deref(), Some("Open a communication channel to an actor"));
    assert_eq!(
        channel[0].input_schema,
        json(
            "{\"type\": \"object\", \"properties\": {\
             \"actor_id\": {\"type\": \"string\", \"description\": \"ID of the actor to open a channel with\"}, \
             \"initial_message\": {\"type\": \"string\", \"description\": \"Initial message data (base64 encoded)\"}}, \
             \"required\": [\"actor_id\"]}"
        )
    );
    assert_eq!(channel[1].name, "send_on_channel");
    assert_eq!(channel[1].description.as_deref(), Some("Send a message on an open channel"));
    assert_eq!(
        channel[1].input_schema,
        json(
            "{\"type\": \"object\", \"properties\": {\
             \"channel_id\": {\"type\": \"string\", \"description\": \"ID of the channel\"}, \
             \"message\": {\"type\": \"string\", \"description\": \"Message data (base64 encoded)\"}}, \
             \"required\": [\"channel_id\", \"message\"]}"
        )
    );
    assert_eq!(channel[2].name, "close_channel");
    assert_eq!(channel[2].description.as_deref(), Some("Close an open channel"));
    assert_eq!(
        channel[2].input_schema,
        json(
            "{\"type\": \"object\", \"properties\": {\
             \"channel_id\": {\"type\": \"string\", \"description\": \"ID of the channel to close\"}}, \
             \"required\": [\"channel_id\"]}"
        )
    );
}
