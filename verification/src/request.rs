//! The request builder: assembles a complete provider request — system
//! prompt, translated history, tool declarations, generation parameters —
//! from canonical inputs. Also the small helper reading the model name
//! out of a response.

use vstd::prelude::*;
use vstd::string::*;

use crate::encode::{ImageFormat, messages_to_openai_spec, spec_encode_messages,
    spec_tool_names_unique, tools_to_openai_spec};
use crate::errors::{EncodeError, EncodeErrorView};
use crate::json::{json_as_str, json_get, spec_opt_str_field};
use crate::message::Message;
use crate::tool::Tool;
use crate::wire::{WireContent, WireContentView, WireMessage, WireMessageView, WireTool,
    WireToolCallView};

verus! {

/// Model configuration for one request. The temperature is carried in
/// fixed-point thousandths of the provider's unit scale (1500 stands for
/// 1.5), so that contracts stay in integer arithmetic; the transport
/// boundary converts when rendering.
#[derive(Debug, Clone)]
pub struct ModelConfig {
    pub model_name: String,
    pub temperature: Option<i32>,
    pub max_tokens: Option<i32>,
}

/// One complete request payload. `messages` opens with the system
/// message; an empty `tools` vector and absent options are left off the
/// wire when rendered.
#[derive(Debug)]
pub struct WireRequest {
    pub model: String,
    pub messages: Vec<WireMessage>,
    pub tools: Vec<WireTool>,
    pub temperature: Option<i32>,
    pub max_tokens: Option<i32>,
}

/// The wire message carrying the system prompt.
pub open spec fn spec_system_message(system: Seq<char>) -> WireMessageView {
    WireMessageView {
        role: "system"@,
        content: Some(WireContentView::Text(system)),
        tool_calls: Seq::empty(),
        tool_call_id: None,
    }
}

/// Build the full request payload: the system message, then the encoded
/// history (OpenAI image style), the tool declarations and the generation
/// parameters. Fails exactly when the tool names are not unique, with
/// nothing built.
pub fn create_openai_request_payload(
    model_config: &ModelConfig,
    system: &str,
    messages: &[Message],
    tools: &[Tool],
) -> (r: Result<WireRequest, EncodeError>)
    ensures
        r is Ok <==> spec_tool_names_unique(tools.deep_view()),
        r matches Ok(req) ==> {
            &&& req.model@ == model_config.model_name@
            &&& req.messages.deep_view() == seq![spec_system_message(system@)]
                + spec_encode_messages(messages.deep_view(), ImageFormat::OpenAi)
            &&& req.tools.deep_view().len() == tools.deep_view().len()
            &&& forall|i: int|
                0 <= i < tools.deep_view().len() ==> {
                    &&& (#[trigger] req.tools.deep_view()[i]).name == tools.deep_view()[i].name
                    &&& req.tools.deep_view()[i].description == tools.deep_view()[i].description
                    &&& req.tools.deep_view()[i].parameters == tools.deep_view()[i].input_schema
                }
            &&& req.temperature == model_config.temperature
            &&& req.max_tokens == model_config.max_tokens
        },
        r matches Err(e) ==> ({
            let ts = tools.deep_view();
            exists|j: int|
                #![auto]
                {
                    &&& 0 < j < ts.len()
                    &&& spec_tool_names_unique(ts.take(j))
                    &&& exists|i: int| 0 <= i < j && ts[i].name == ts[j].name
                    &&& e@ == EncodeErrorView::DuplicateToolName(ts[j].name)
                }
        }),
{
    let tools_spec = match tools_to_openai_spec(tools) {
        Ok(ws) => ws,
        Err(e) => {
            return Err(e);
        },
    };
    let encoded = messages_to_openai_spec(messages, &ImageFormat::OpenAi);
    let system_message = WireMessage {
        role: String::from_str("system"),
        content: Some(WireContent::Text(system.to_owned())),
        tool_calls: Vec::new(),
        tool_call_id: None,
    };
    proof {
        assert(system_message@.tool_calls =~= Seq::<WireToolCallView>::empty());
    }
    let mut wire_messages: Vec<WireMessage> = Vec::new();
    wire_messages.push(system_message);
    let mut rest = encoded;
    wire_messages.append(&mut rest);
    proof {
        assert(wire_messages.deep_view() =~= seq![spec_system_message(system@)]
            + spec_encode_messages(messages.deep_view(), ImageFormat::OpenAi));
    }
    Ok(
        WireRequest {
            model: model_config.model_name.clone(),
            messages: wire_messages,
            tools: tools_spec,
            temperature: model_config.temperature,
            max_tokens: model_config.max_tokens,
        },
    )
}

/// The `model` value, "Unknown" when absent or not a string.
pub fn model_or_unknown(model: Option<&str>) -> (r: String)
    ensures
        match model {
            Some(s) => r@ == s@,
            None => r@ == "Unknown"@,
        },
{
    match model {
        Some(s) => s.to_owned(),
        None => String::from_str("Unknown"),
    }
}

/// Read the top-level `model` field most providers report.
pub fn get_model(data: &serde_json::Value) -> (r: String)
    ensures
        r@ == (match spec_opt_str_field(*data, "model"@) {
            Some(s) => s,
            None => "Unknown"@,
        }),
{
    let model = match json_get(data, "model") {
        Some(m) => json_as_str(m),
        None => None,
    };
    model_or_unknown(model)
}

} // verus!
