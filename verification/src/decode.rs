//! The decoder: a provider's chat-completion response back into one
//! canonical assistant message. A malformed tool-call entry is recorded as
//! that call's failure inside the returned message; whole-response failure
//! is reserved for structurally missing top-level data, and a response
//! with no readable message decodes to an assistant message with no
//! content.

use vstd::prelude::*;
use vstd::string::*;

use crate::content::{TextContent, TextContentView};
use crate::errors::{AgentError, AgentErrorView};
use crate::json::{array_of, get_index_of, get_key_of, json_as_array, json_as_str,
    json_error_string, json_get, json_get_index, json_parses, parse_json, parsed_of,
    spec_opt_str_field, spec_str_field_or_empty, str_of};
use crate::message::{Message, MessageContent, MessageContentView, ToolRequest};
use crate::names::{is_valid_function_name, spec_is_valid_name};
use crate::role::Role;
use crate::tool::{ToolCall, ToolCallView};

verus! {

/// Relies on chrono::Utc::now: the current wall-clock time as a Unix
/// timestamp in seconds. Nothing is assumed of the value.
#[verifier::external_body]
pub fn now_timestamp() -> i64 {
    chrono::Utc::now().timestamp()
}

/// One entry of a response's `tool_calls` array, its fields read out as
/// plain strings; an absent or non-string field reads as the empty string.
#[derive(Debug)]
pub struct RawToolCall {
    pub id: String,
    pub name: String,
    pub arguments: String,
}

pub struct RawToolCallView {
    pub id: Seq<char>,
    pub name: Seq<char>,
    pub arguments: Seq<char>,
}

impl View for RawToolCall {
    type V = RawToolCallView;

    open spec fn view(&self) -> RawToolCallView {
        RawToolCallView { id: self.id@, name: self.name@, arguments: self.arguments@ }
    }
}

impl DeepView for RawToolCall {
    type V = RawToolCallView;

    open spec fn deep_view(&self) -> RawToolCallView {
        self.view()
    }
}

/// The rejection text for a function name outside the allowed set.
pub open spec fn spec_invalid_name_text(name: Seq<char>) -> Seq<char> {
    "The provided function name '"@ + name
        + "' had invalid characters, it must match this regex [a-zA-Z0-9_-]+"@
}

/// The fixed head of the text recording an argument parse failure; the
/// parser's own message follows it.
pub open spec fn spec_invalid_params_prefix(id: Seq<char>) -> Seq<char> {
    "Could not interpret tool use parameters for id "@ + id + ": "@
}

/// What the decoder produces for a response message carrying a content
/// string: one text item, kept even when the string is empty.
pub open spec fn spec_decoded_text_item(text: Seq<char>) -> MessageContentView {
    MessageContentView::Text(TextContentView { text, annotations: None })
}

/// How one tool-call entry decodes. An invalid name is rejected with the
/// exact rejection text; a valid name's arguments are parsed, and a parse
/// failure becomes the call's own recorded failure.
pub open spec fn spec_decodes_tool_call(mc: MessageContentView, raw: RawToolCallView) -> bool {
    mc matches MessageContentView::ToolRequest(req) && {
        &&& req.id == raw.id
        &&& if !spec_is_valid_name(raw.name) {
            req.tool_call == Err::<ToolCallView, AgentErrorView>(
                AgentErrorView::ToolNotFound(spec_invalid_name_text(raw.name)),
            )
        } else if json_parses(raw.arguments) {
            req.tool_call matches Ok(tc) && tc.name == raw.name && tc.arguments == parsed_of(
                raw.arguments,
            )
        } else {
            req.tool_call matches Err(e) && (e matches AgentErrorView::InvalidParameters(msg)
                && spec_invalid_params_prefix(raw.id).is_prefix_of(msg))
        }
    }
}

/// Decode one tool-call entry.
pub fn decode_tool_call(raw: &RawToolCall) -> (mc: MessageContent)
    ensures
        spec_decodes_tool_call(mc@, raw@),
{
    let id = raw.id.clone();
    if !is_valid_function_name(raw.name.as_str()) {
        let text = String::from_str("The provided function name '").concat(
            raw.name.as_str(),
        ).concat("' had invalid characters, it must match this regex [a-zA-Z0-9_-]+");
        MessageContent::ToolRequest(
            ToolRequest { id, tool_call: Err(AgentError::ToolNotFound(text)) },
        )
    } else {
        match parse_json(raw.arguments.as_str()) {
            Ok(value) => MessageContent::ToolRequest(
                ToolRequest { id, tool_call: Ok(ToolCall::new(raw.name.as_str(), value)) },
            ),
            Err(e) => {
                let es = json_error_string(&e);
                let text = String::from_str("Could not interpret tool use parameters for id ")
                    .concat(raw.id.as_str()).concat(": ").concat(es.as_str());
                proof {
                    assert(text@.take(spec_invalid_params_prefix(raw.id@).len() as int)
                        =~= spec_invalid_params_prefix(raw.id@));
                }
                MessageContent::ToolRequest(
                    ToolRequest { id, tool_call: Err(AgentError::InvalidParameters(text)) },
                )
            },
        }
    }
}

/// Assemble the canonical assistant message from the parts read out of a
/// response: the content string first (when present), then one tool
/// request per tool-call entry, in order.
pub fn decode_message_parts(content: Option<String>, tool_calls: &Vec<RawToolCall>, created: i64)
    -> (m: Message)
    ensures
        m@.role == Role::Assistant,
        m@.created == created,
        m@.content.len() == (if content is Some {
            1int
        } else {
            0int
        }) + tool_calls@.len(),
        content matches Some(text) ==> m@.content[0] == spec_decoded_text_item(text@),
        forall|k: int|
            0 <= k < tool_calls@.len() ==> spec_decodes_tool_call(
                m@.content[k + if content is Some {
                    1int
                } else {
                    0int
                }],
                (#[trigger] tool_calls.deep_view()[k]),
            ),
{
    let ghost cv: Option<Seq<char>> = match content {
        Some(ref t) => Some(t@),
        None => None,
    };
    let ghost off: int = if cv is Some {
        1int
    } else {
        0int
    };
    let mut items: Vec<MessageContent> = Vec::new();
    match content {
        Some(text) => {
            let mc = MessageContent::Text(TextContent { text, annotations: None });
            items.push(mc);
        },
        None => {},
    }
    proof {
        if cv is Some {
            assert(items.deep_view() =~= seq![spec_decoded_text_item(cv->Some_0)]);
        } else {
            assert(items.deep_view() =~= Seq::<MessageContentView>::empty());
        }
    }
    let mut i: usize = 0;
    while i < tool_calls.len()
        invariant
            i <= tool_calls@.len(),
            items.deep_view().len() == off + i,
            0 <= off <= 1,
            cv matches Some(tv) ==> off == 1 && items.deep_view()[0] == spec_decoded_text_item(tv),
            forall|k: int|
                0 <= k < i ==> spec_decodes_tool_call(
                    items.deep_view()[k + off],
                    (#[trigger] tool_calls.deep_view()[k]),
                ),
        decreases tool_calls@.len() - i,
    {
        let ghost prev = items.deep_view();
        let mc = decode_tool_call(&tool_calls[i]);
        proof {
            assert(tool_calls@[i as int]@ == tool_calls.deep_view()[i as int]);
        }
        items.push(mc);
        proof {
            assert(items.deep_view() =~= prev.push(mc@));
            if cv is Some {
                assert(prev.push(mc@)[0] == prev[0]);
            }
        }
        i = i + 1;
    }
    Message { role: Role::Assistant, created, content: items }
}

/// The `choices[0].message` object of a response, when the path exists.
pub open spec fn spec_response_message(response: serde_json::Value) -> Option<serde_json::Value> {
    match get_key_of(response, "choices"@) {
        Some(choices) => match get_index_of(choices, 0) {
            Some(c0) => get_key_of(c0, "message"@),
            None => None,
        },
        None => None,
    }
}

/// The response message's `content` string, when present and a string.
pub open spec fn spec_response_content(response: serde_json::Value) -> Option<Seq<char>> {
    match spec_response_message(response) {
        Some(msg) => spec_opt_str_field(msg, "content"@),
        None => None,
    }
}

/// The entries of the response message's `tool_calls` array; empty when
/// the field is absent or not an array.
pub open spec fn spec_response_tool_entries(response: serde_json::Value) -> Seq<
    serde_json::Value,
> {
    match spec_response_message(response) {
        Some(msg) => match get_key_of(msg, "tool_calls"@) {
            Some(tcs) => match array_of(tcs) {
                Some(a) => a,
                None => Seq::empty(),
            },
            None => Seq::empty(),
        },
        None => Seq::empty(),
    }
}

/// The three strings one tool-call entry reads out to; absent or
/// non-string fields read as empty strings.
pub open spec fn spec_raw_of_entry(entry: serde_json::Value) -> RawToolCallView {
    RawToolCallView {
        id: spec_str_field_or_empty(entry, "id"@),
        name: match get_key_of(entry, "function"@) {
            Some(f) => spec_str_field_or_empty(f, "name"@),
            None => Seq::empty(),
        },
        arguments: match get_key_of(entry, "function"@) {
            Some(f) => spec_str_field_or_empty(f, "arguments"@),
            None => Seq::empty(),
        },
    }
}

/// One when the response carries a content string (which then stands
/// first in the decoded message), zero otherwise.
pub open spec fn spec_content_offset(response: serde_json::Value) -> int {
    if spec_response_content(response) is Some {
        1int
    } else {
        0int
    }
}

/// Read one string field of a JSON object, the empty string when the
/// field is absent or not a string.
fn read_string_field(v: &serde_json::Value, key: &str) -> (r: String)
    ensures
        r@ == spec_str_field_or_empty(*v, key@),
{
    match json_get(v, key) {
        Some(f) => match json_as_str(f) {
            Some(s) => s.to_owned(),
            None => String::new(),
        },
        None => String::new(),
    }
}

/// Decode a full provider response body: reads `choices[0].message`, its
/// optional `content` string (kept first, even when empty) and its
/// optional `tool_calls` array (one decoded tool request per entry, in
/// order), and stamps the result with the current wall-clock time.
pub fn openai_response_to_message(response: &serde_json::Value) -> (m: Message)
    ensures
        m@.role == Role::Assistant,
        m@.content.len() == spec_content_offset(*response) + spec_response_tool_entries(
            *response,
        ).len(),
        spec_response_content(*response) matches Some(text) ==> m@.content[0]
            == spec_decoded_text_item(text),
        forall|k: int|
            0 <= k < spec_response_tool_entries(*response).len() ==> spec_decodes_tool_call(
                m@.content[k + spec_content_offset(*response)],
                spec_raw_of_entry(#[trigger] spec_response_tool_entries(*response)[k]),
            ),
{
    let ghost entries = spec_response_tool_entries(*response);
    let message = match json_get(response, "choices") {
        Some(choices) => match json_get_index(choices, 0) {
            Some(c0) => json_get(c0, "message"),
            None => None,
        },
        None => None,
    };
    proof {
        assert(match message {
            Some(msg) => spec_response_message(*response) == Some(*msg),
            None => spec_response_message(*response) is None,
        });
    }
    let content: Option<String> = match message {
        Some(msg) => match json_get(msg, "content") {
            Some(c) => match json_as_str(c) {
                Some(s) => Some(s.to_owned()),
                None => None,
            },
            None => None,
        },
        None => None,
    };
    proof {
        assert(match content {
            Some(ref s) => spec_response_content(*response) == Some(s@),
            None => spec_response_content(*response) is None,
        });
    }
    let tool_field = match message {
        Some(msg) => json_get(msg, "tool_calls"),
        None => None,
    };
    let tool_array = match tool_field {
        Some(tcs) => json_as_array(tcs),
        None => None,
    };
    proof {
        match tool_array {
            Some(arr) => assert(entries == arr@),
            None => assert(entries =~= Seq::<serde_json::Value>::empty()),
        }
    }
    let mut raw_calls: Vec<RawToolCall> = Vec::new();
    match tool_array {
        Some(arr) => {
            let mut i: usize = 0;
            while i < arr.len()
                invariant
                    i <= arr@.len(),
                    arr@ == entries,
                    raw_calls.deep_view().len() == i,
                    forall|k: int|
                        0 <= k < i ==> raw_calls.deep_view()[k] == spec_raw_of_entry(
                            #[trigger] entries[k],
                        ),
                decreases arr@.len() - i,
            {
                let ghost prev = raw_calls.deep_view();
                let entry = &arr[i];
                proof {
                    assert(*entry == entries[i as int]);
                }
                let id = read_string_field(entry, "id");
                let (name, arguments) = match json_get(entry, "function") {
                    Some(f) => (read_string_field(f, "name"), read_string_field(f, "arguments")),
                    None => (String::new(), String::new()),
                };
                let raw = RawToolCall { id, name, arguments };
                proof {
                    assert(raw@ == spec_raw_of_entry(entries[i as int]));
                }
                raw_calls.push(raw);
                proof {
                    assert(raw_calls.deep_view() =~= prev.push(raw@));
                }
                i = i + 1;
            }
        },
        None => {},
    }
    proof {
        assert(raw_calls.deep_view().len() == entries.len());
        assert(forall|k: int|
            0 <= k < entries.len() ==> raw_calls.deep_view()[k] == spec_raw_of_entry(
                #[trigger] entries[k],
            ));
    }
    let created = now_timestamp();
    let m = decode_message_parts(content, &raw_calls, created);
    proof {
        assert forall|k: int| 0 <= k < entries.len() implies spec_decodes_tool_call(
            m@.content[k + spec_content_offset(*response)],
            spec_raw_of_entry(#[trigger] entries[k]),
        ) by {
            assert(raw_calls.deep_view()[k] == spec_raw_of_entry(entries[k]));
        }
    }
    m
}

/// Round trip on plain text: a canonical message holding one non-empty
/// text item encodes to exactly one wire message carrying exactly that
/// text, and a response echoing that text decodes back to a text item
/// equal to the original.
pub proof fn lemma_text_round_trip(m: crate::message::MessageView, fmt: crate::encode::ImageFormat)
    requires
        m.content.len() == 1,
        m.content[0] matches MessageContentView::Text(t) && t.text.len() > 0,
    ensures
        ({
            let wire = crate::encode::spec_encode_message(m, fmt);
            &&& wire.len() == 1
            &&& wire[0].content matches Some(c) && c matches crate::wire::WireContentView::Text(s)
                && spec_decoded_text_item(s) matches MessageContentView::Text(d) && d.text
                == m.content[0]->Text_0.text
        }),
{
    assert(m.content.drop_last() =~= Seq::<MessageContentView>::empty());
    assert(m.content.last() == m.content[0]);
    let st0 = crate::encode::spec_scan_items(Seq::<MessageContentView>::empty(), fmt);
    let st = crate::encode::spec_scan_items(m.content, fmt);
    assert(st == crate::encode::spec_encode_item(st0, m.content[0], fmt));
}

} // verus!
