use openai_wire::content::Content;
use openai_wire::encode::{ImageFormat, convert_image, messages_to_openai_spec,
    tools_to_openai_spec};
use openai_wire::content::ImageContent;
use openai_wire::errors::AgentError;
use openai_wire::message::{Message, MessageContent};
use openai_wire::names::{is_valid_function_name, sanitize_function_name};
use openai_wire::role::Role;
use openai_wire::tool::{Tool, ToolCall};
use openai_wire::wire::{WireContent, WireImage};

fn schema() -> serde_json::Value {
    serde_json::from_str(
        r#"{
            "type": "object",
            "properties": {
                "input": {
                    "type": "string",
                    "description": "Test parameter"
                }
            },
            "required": ["input"]
        }"#,
    )
    .unwrap()
}

#[test]
fn test_messages_to_openai_spec() {
    let message = Message::user().with_text("Hello");
    let spec = messages_to_openai_spec(&[message], &ImageFormat::OpenAi);

    assert_eq!(spec.len(), 1);
    assert_eq!(spec[0].role, "user");
    match &spec[0].content {
        Some(WireContent::Text(t)) => assert_eq!(t, "Hello"),
        other => panic!("unexpected content: {:?}", other),
    }
}

#[test]
fn test_messages_to_openai_spec_complex() {
    let mut messages = vec![
        Message::assistant().with_text("Hello!"),
        Message::user().with_text("How are you?"),
        Message::assistant().with_tool_request(
            "tool1",
            Ok(ToolCall::new(
                "example",
                serde_json::from_str(r#"{"param1": "value1"}"#).unwrap(),
            )),
        ),
    ];

    let tool_id = if let MessageContent::ToolRequest(request) = &messages[2].content[0] {
        request.id.clone()
    } else {
        panic!("should be tool request");
    };

    messages.push(
        Message::user().with_tool_response(&tool_id, Ok(vec![Content::text("Result".to_string())])),
    );

    let spec = messages_to_openai_spec(&messages, &ImageFormat::OpenAi);

    assert_eq!(spec.len(), 4);
    assert_eq!(spec[0].role, "assistant");
    match &spec[0].content {
        Some(WireContent::Text(t)) => assert_eq!(t, "Hello!"),
        other => panic!("unexpected content: {:?}", other),
    }
    assert_eq!(spec[1].role, "user");
    match &spec[1].content {
        Some(WireContent::Text(t)) => assert_eq!(t, "How are you?"),
        other => panic!("unexpected content: {:?}", other),
    }
    assert_eq!(spec[2].role, "assistant");
    assert!(!spec[2].tool_calls.is_empty());
    assert_eq!(spec[3].role, "tool");
    match &spec[3].content {
        Some(WireContent::Text(t)) => assert_eq!(t, "Result"),
        other => panic!("unexpected content: {:?}", other),
    }
    assert_eq!(
        spec[3].tool_call_id.as_deref(),
        Some(spec[2].tool_calls[0].id.as_str())
    );
}

#[test]
fn test_tools_to_openai_spec() {
    let tool = Tool::new("test_tool", "A test tool", schema());

    let spec = tools_to_openai_spec(&[tool]).unwrap();

    assert_eq!(spec.len(), 1);
    assert_eq!(spec[0].name, "test_tool");
    assert_eq!(spec[0].description, "A test tool");
    assert_eq!(spec[0].parameters, schema());
}

#[test]
fn test_tools_to_openai_spec_duplicate() {
    let tool1 = Tool::new("test_tool", "Test tool", schema());
    let tool2 = Tool::new("test_tool", "Test tool", schema());

    let result = tools_to_openai_spec(&[tool1, tool2]);
    assert!(result.is_err());
    assert!(result.unwrap_err().message().contains("Duplicate tool name"));
}

#[test]
fn test_tools_to_openai_spec_empty() {
    let spec = tools_to_openai_spec(&[]).unwrap();
    assert!(spec.is_empty());
}

#[test]
fn test_tools_to_openai_spec_order_kept() {
    let tools = [
        Tool::new("alpha", "first", schema()),
        Tool::new("beta", "second", schema()),
        Tool::new("gamma", "third", schema()),
    ];
    let spec = tools_to_openai_spec(&tools).unwrap();
    assert_eq!(spec.len(), 3);
    assert_eq!(spec[0].name, "alpha");
    assert_eq!(spec[1].name, "beta");
    assert_eq!(spec[2].name, "gamma");
}

#[test]
fn test_tools_to_openai_spec_duplicate_names_exact() {
    let tools = [
        Tool::new("alpha", "first", schema()),
        Tool::new("beta", "second", schema()),
        Tool::new("beta", "third", schema()),
    ];
    let err = tools_to_openai_spec(&tools).unwrap_err();
    assert_eq!(err.message(), "Duplicate tool name: beta");
}

#[test]
fn test_sanitize_function_name() {
    assert_eq!(sanitize_function_name("hello-world"), "hello-world");
    assert_eq!(sanitize_function_name("hello world"), "hello_world");
    assert_eq!(sanitize_function_name("hello@world"), "hello_world");
}

#[test]
fn test_is_valid_function_name() {
    assert!(is_valid_function_name("hello-world"));
    assert!(is_valid_function_name("hello_world"));
    assert!(!is_valid_function_name("hello world"));
    assert!(!is_valid_function_name("hello@world"));
}

#[test]
fn test_is_valid_function_name_empty() {
    assert!(!is_valid_function_name(""));
}

#[test]
fn test_empty_text_message_produces_nothing() {
    let message = Message::user().with_text("");
    let spec = messages_to_openai_spec(&[message], &ImageFormat::OpenAi);
    assert_eq!(spec.len(), 0);
}

#[test]
fn test_tool_request_name_is_sanitized() {
    let message = Message::assistant().with_tool_request(
        "id1",
        Ok(ToolCall::new(
            "weird name!",
            serde_json::from_str("{}").unwrap(),
        )),
    );
    let spec = messages_to_openai_spec(&[message], &ImageFormat::OpenAi);
    assert_eq!(spec.len(), 1);
    assert_eq!(spec[0].tool_calls.len(), 1);
    assert_eq!(spec[0].tool_calls[0].name, "weird_name_");
    assert_eq!(spec[0].tool_calls[0].id, "id1");
}

#[test]
fn test_failed_tool_request_becomes_tool_error_message() {
    let message = Message::assistant().with_tool_request(
        "id9",
        Err(AgentError::ToolNotFound("no such tool".to_string())),
    );
    let spec = messages_to_openai_spec(&[message], &ImageFormat::OpenAi);
    assert_eq!(spec.len(), 1);
    assert_eq!(spec[0].role, "tool");
    assert_eq!(spec[0].tool_call_id.as_deref(), Some("id9"));
    match &spec[0].content {
        Some(WireContent::Text(t)) => assert_eq!(t, "Error: Tool not found: no such tool"),
        other => panic!("unexpected content: {:?}", other),
    }
}

#[test]
fn test_failed_tool_response_becomes_tool_error_message() {
    let message = Message::user().with_tool_response(
        "id3",
        Err(AgentError::InvalidParameters("bad params".to_string())),
    );
    let spec = messages_to_openai_spec(&[message], &ImageFormat::OpenAi);
    assert_eq!(spec.len(), 1);
    assert_eq!(spec[0].role, "tool");
    match &spec[0].content {
        Some(WireContent::Text(t)) => assert_eq!(
            t,
            "The tool call returned the following error:\nInvalid parameters: bad params"
        ),
        other => panic!("unexpected content: {:?}", other),
    }
}

#[test]
fn test_tool_response_audience_filter_and_image_followup() {
    let visible_text = Content::text("for the model".to_string());
    let hidden_text =
        Content::text("for the user only".to_string()).with_audience(vec![Role::User]);
    let image = Content::image("aW1n".to_string(), "image/png".to_string());
    let message = Message::user().with_tool_response(
        "call7",
        Ok(vec![visible_text, hidden_text, image]),
    );
    let spec = messages_to_openai_spec(&[message], &ImageFormat::OpenAi);

    assert_eq!(spec.len(), 2);
    assert_eq!(spec[0].role, "tool");
    assert_eq!(spec[0].tool_call_id.as_deref(), Some("call7"));
    match &spec[0].content {
        Some(WireContent::Text(t)) => assert_eq!(
            t,
            "for the model This tool result included an image that is uploaded in the next message."
        ),
        other => panic!("unexpected content: {:?}", other),
    }
    assert_eq!(spec[1].role, "user");
    match &spec[1].content {
        Some(WireContent::Images(images)) => {
            assert_eq!(images.len(), 1);
            match &images[0] {
                WireImage::OpenAi { url } => {
                    assert_eq!(url, "data:image/png;base64,aW1n");
                }
                other => panic!("unexpected image: {:?}", other),
            }
        }
        other => panic!("unexpected content: {:?}", other),
    }
}

#[test]
fn test_convert_image_both_styles() {
    let image = ImageContent {
        data: "QUJD".to_string(),
        mime_type: "image/jpeg".to_string(),
        annotations: None,
    };
    match convert_image(&image, &ImageFormat::OpenAi) {
        WireImage::OpenAi { url } => assert_eq!(url, "data:image/jpeg;base64,QUJD"),
        other => panic!("unexpected image: {:?}", other),
    }
    match convert_image(&image, &ImageFormat::Anthropic) {
        WireImage::Anthropic { media_type, data } => {
            assert_eq!(media_type, "image/jpeg");
            assert_eq!(data, "QUJD");
        }
        other => panic!("unexpected image: {:?}", other),
    }
}

#[test]
fn test_last_content_wins_in_primary() {
    let message = Message::user().with_text("first").with_text("second");
    let spec = messages_to_openai_spec(&[message], &ImageFormat::OpenAi);
    assert_eq!(spec.len(), 1);
    match &spec[0].content {
        Some(WireContent::Text(t)) => assert_eq!(t, "second"),
        other => panic!("unexpected content: {:?}", other),
    }
}
