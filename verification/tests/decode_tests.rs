use openai_wire::classify::{check_bedrock_context_length_error, check_openai_context_length_error};
use openai_wire::decode::openai_response_to_message;
use openai_wire::errors::{AgentError, ProviderError};
use openai_wire::message::MessageContent;
use openai_wire::request::get_model;
use openai_wire::role::Role;
use openai_wire::status::handle_response;
use openai_wire::usage::get_openai_usage;

const OPENAI_TOOL_USE_RESPONSE: &str = r#"{
        "choices": [{
            "role": "assistant",
            "message": {
                "tool_calls": [{
                    "id": "1",
                    "function": {
                        "name": "example_fn",
                        "arguments": "{\"param\": \"value\"}"
                    }
                }]
            }
        }],
        "usage": {
            "input_tokens": 10,
            "output_tokens": 25,
            "total_tokens": 35
        }
    }"#;

fn parse(text: &str) -> serde_json::Value {
    serde_json::from_str(text).unwrap()
}

#[test]
fn test_openai_response_to_message_text() {
    let response = parse(
        r#"{
            "choices": [{
                "role": "assistant",
                "message": {
                    "content": "Hello from John Cena!"
                }
            }],
            "usage": {
                "input_tokens": 10,
                "output_tokens": 25,
                "total_tokens": 35
            }
        }"#,
    );

    let message = openai_response_to_message(&response);
    assert_eq!(message.content.len(), 1);
    if let MessageContent::Text(text) = &message.content[0] {
        assert_eq!(text.text, "Hello from John Cena!");
    } else {
        panic!("Expected Text content");
    }
    assert!(matches!(message.role, Role::Assistant));
}

#[test]
fn test_openai_response_to_message_valid_toolrequest() {
    let response = parse(OPENAI_TOOL_USE_RESPONSE);
    let message = openai_response_to_message(&response);

    assert_eq!(message.content.len(), 1);
    if let MessageContent::ToolRequest(request) = &message.content[0] {
        let tool_call = request.tool_call.as_ref().unwrap();
        assert_eq!(tool_call.name, "example_fn");
        assert_eq!(
            tool_call.arguments,
            parse(r#"{"param": "value"}"#)
        );
    } else {
        panic!("Expected ToolRequest content");
    }
}

#[test]
fn test_openai_response_to_message_invalid_func_name() {
    let mut response = parse(OPENAI_TOOL_USE_RESPONSE);
    response["choices"][0]["message"]["tool_calls"][0]["function"]["name"] =
        serde_json::Value::String("invalid fn".to_string());

    let message = openai_response_to_message(&response);

    if let MessageContent::ToolRequest(request) = &message.content[0] {
        match &request.tool_call {
            Err(AgentError::ToolNotFound(msg)) => {
                assert!(msg.starts_with("The provided function name"));
            }
            _ => panic!("Expected ToolNotFound error"),
        }
    } else {
        panic!("Expected ToolRequest content");
    }
}

#[test]
fn test_openai_response_to_message_json_decode_error() {
    let mut response = parse(OPENAI_TOOL_USE_RESPONSE);
    response["choices"][0]["message"]["tool_calls"][0]["function"]["arguments"] =
        serde_json::Value::String("invalid json {".to_string());

    let message = openai_response_to_message(&response);

    if let MessageContent::ToolRequest(request) = &message.content[0] {
        match &request.tool_call {
            Err(AgentError::InvalidParameters(msg)) => {
                assert!(msg.starts_with("Could not interpret tool use parameters"));
            }
            _ => panic!("Expected InvalidParameters error"),
        }
    } else {
        panic!("Expected ToolRequest content");
    }
}

#[test]
fn test_usage_total_only() {
    let data = parse(r#"{"usage":{"total_tokens":35}}"#);
    let usage = get_openai_usage(&data).unwrap();
    assert_eq!(usage.total_tokens, Some(35));
    assert_eq!(usage.input_tokens, None);
    assert_eq!(usage.output_tokens, None);
}

#[test]
fn test_usage_total_derived_from_parts() {
    let data = parse(r#"{"usage":{"prompt_tokens":10,"completion_tokens":25}}"#);
    let usage = get_openai_usage(&data).unwrap();
    assert_eq!(usage.input_tokens, Some(10));
    assert_eq!(usage.output_tokens, Some(25));
    assert_eq!(usage.total_tokens, Some(35));
}

#[test]
fn test_usage_reported_total_wins() {
    let data = parse(r#"{"usage":{"prompt_tokens":10,"completion_tokens":25,"total_tokens":99}}"#);
    let usage = get_openai_usage(&data).unwrap();
    assert_eq!(usage.total_tokens, Some(99));
}

#[test]
fn test_usage_missing_object_fails() {
    let data = parse(r#"{"choices":[]}"#);
    match get_openai_usage(&data) {
        Err(ProviderError::MissingUsageData) => {}
        other => panic!("unexpected result: {:?}", other),
    }
}

#[test]
fn test_check_openai_context_length_error() {
    let error = parse(
        r#"{
            "code": "context_length_exceeded",
            "message": "This message is too long"
        }"#,
    );

    let result = check_openai_context_length_error(&error);
    assert!(result.is_some());
    assert_eq!(
        result.unwrap().display_string(),
        "Context length exceeded. Message: This message is too long"
    );

    let error = parse(
        r#"{
            "code": "other_error",
            "message": "Some other error"
        }"#,
    );

    let result = check_openai_context_length_error(&error);
    assert!(result.is_none());
}

#[test]
fn test_check_openai_context_length_error_second_code_and_default() {
    let error = parse(r#"{"code": "string_above_max_length"}"#);
    let result = check_openai_context_length_error(&error).unwrap();
    assert_eq!(
        result.display_string(),
        "Context length exceeded. Message: Unknown error"
    );
}

#[test]
fn test_check_bedrock_context_length_error() {
    let error = parse(
        r#"{
            "error": "Received error from amazon-bedrock",
            "external_model_message": {
                "message": "Input is too long for requested model."
            }
        }"#,
    );

    let result = check_bedrock_context_length_error(&error);
    assert!(result.is_some());
    assert_eq!(
        result.unwrap().display_string(),
        "Context length exceeded. Message: Input is too long for requested model."
    );

    let error = parse(
        r#"{
            "error": "Some other error",
            "external_model_message": {
                "message": "Some other message"
            }
        }"#,
    );

    let result = check_bedrock_context_length_error(&error);
    assert!(result.is_none());
}

#[test]
fn test_check_bedrock_context_length_error_case_insensitive() {
    let error = parse(
        r#"{"external_model_message": {"message": "Input is TOO LONG for this model"}}"#,
    );
    let result = check_bedrock_context_length_error(&error).unwrap();
    assert_eq!(result.message, "Input is TOO LONG for this model");
}

#[test]
fn test_handle_response_ok_body() {
    let payload = parse(r#"{"model":"gpt"}"#);
    let body = parse(r#"{"choices":[]}"#);
    let result = handle_response(payload, 200, Ok(body.clone()));
    match result {
        Ok(Ok(v)) => assert_eq!(v, body),
        other => panic!("unexpected result: {:?}", other),
    }
}

#[test]
fn test_handle_response_parse_failure_is_outer_error() {
    let payload = parse(r#"{"model":"gpt"}"#);
    let result = handle_response(payload, 200, Err("bad bytes".to_string()));
    match result {
        Err(msg) => assert_eq!(msg, "bad bytes"),
        other => panic!("unexpected result: {:?}", other),
    }
}

#[test]
fn test_handle_response_retryable_statuses() {
    for status in [429u16, 500, 503, 599] {
        let payload = parse(r#"{"model":"gpt"}"#);
        let body = parse("{}");
        match handle_response(payload, status, Ok(body)) {
            Ok(Err(ProviderError::RetryableServerError(s))) => assert_eq!(s, status),
            other => panic!("unexpected result for {}: {:?}", status, other),
        }
    }
}

#[test]
fn test_handle_response_other_status_is_request_failed() {
    let payload = parse(r#"{"model":"gpt","messages":[]}"#);
    let body = parse("{}");
    match handle_response(payload.clone(), 404, Ok(body)) {
        Ok(Err(ProviderError::RequestFailed(status, p))) => {
            assert_eq!(status, 404);
            assert_eq!(p, payload);
        }
        other => panic!("unexpected result: {:?}", other),
    }
}

#[test]
fn test_text_round_trip_through_wire() {
    let original_text = "Hello there, tool user!";
    let message = openai_wire::message::Message::user().with_text(original_text);
    let wire = openai_wire::encode::messages_to_openai_spec(
        &[message],
        &openai_wire::encode::ImageFormat::OpenAi,
    );
    assert_eq!(wire.len(), 1);
    let echoed = match &wire[0].content {
        Some(openai_wire::wire::WireContent::Text(t)) => t.clone(),
        other => panic!("unexpected content: {:?}", other),
    };

    let mut message_obj = serde_json::Map::new();
    message_obj.insert("content".to_string(), serde_json::Value::String(echoed));
    let mut choice = serde_json::Map::new();
    choice.insert("message".to_string(), serde_json::Value::Object(message_obj));
    let mut response_obj = serde_json::Map::new();
    response_obj.insert(
        "choices".to_string(),
        serde_json::Value::Array(vec![serde_json::Value::Object(choice)]),
    );
    let response = serde_json::Value::Object(response_obj);

    let decoded = openai_response_to_message(&response);
    assert_eq!(decoded.content.len(), 1);
    if let MessageContent::Text(text) = &decoded.content[0] {
        assert_eq!(text.text, original_text);
    } else {
        panic!("Expected Text content");
    }
}

#[test]
fn test_get_model() {
    let data = parse(r#"{"model":"gpt-4o"}"#);
    assert_eq!(get_model(&data), "gpt-4o");
    let data = parse(r#"{"model":17}"#);
    assert_eq!(get_model(&data), "Unknown");
    let data = parse(r#"{"something":"else"}"#);
    assert_eq!(get_model(&data), "Unknown");
}
