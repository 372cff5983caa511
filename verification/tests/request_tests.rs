use openai_wire::message::Message;
use openai_wire::request::{ModelConfig, create_openai_request_payload};
use openai_wire::tool::Tool;
use openai_wire::wire::WireContent;

fn config() -> ModelConfig {
    ModelConfig {
        model_name: "gpt-4o".to_string(),
        temperature: Some(700),
        max_tokens: Some(1024),
    }
}

fn schema() -> serde_json::Value {
    serde_json::from_str(r#"{"type":"object","properties":{}}"#).unwrap()
}

#[test]
fn test_create_openai_request_payload() {
    let messages = [Message::user().with_text("Hello")];
    let tools = [Tool::new("lookup", "Looks things up", schema())];
    let req = create_openai_request_payload(&config(), "You are helpful", &messages, &tools)
        .unwrap();

    assert_eq!(req.model, "gpt-4o");
    assert_eq!(req.temperature, Some(700));
    assert_eq!(req.max_tokens, Some(1024));
    assert_eq!(req.messages.len(), 2);
    assert_eq!(req.messages[0].role, "system");
    match &req.messages[0].content {
        Some(WireContent::Text(t)) => assert_eq!(t, "You are helpful"),
        other => panic!("unexpected content: {:?}", other),
    }
    assert_eq!(req.messages[1].role, "user");
    assert_eq!(req.tools.len(), 1);
    assert_eq!(req.tools[0].name, "lookup");
}

#[test]
fn test_create_openai_request_payload_duplicate_tools_fail() {
    let messages = [Message::user().with_text("Hello")];
    let tools = [
        Tool::new("lookup", "Looks things up", schema()),
        Tool::new("lookup", "Looks things up twice", schema()),
    ];
    let result = create_openai_request_payload(&config(), "sys", &messages, &tools);
    assert!(result.is_err());
    assert_eq!(
        result.unwrap_err().message(),
        "Duplicate tool name: lookup"
    );
}

#[test]
fn test_create_openai_request_payload_no_tools_no_options() {
    let cfg = ModelConfig {
        model_name: "small".to_string(),
        temperature: None,
        max_tokens: None,
    };
    let req = create_openai_request_payload(&cfg, "sys", &[], &[]).unwrap();
    assert_eq!(req.messages.len(), 1);
    assert!(req.tools.is_empty());
    assert_eq!(req.temperature, None);
    assert_eq!(req.max_tokens, None);
}
