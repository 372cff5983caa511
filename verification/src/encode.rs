//! The encoder: canonical messages and tool definitions to wire-format
//! objects. Each canonical message expands, in order, into zero or more
//! wire messages: a primary object carrying the message's text or image
//! content and its tool calls, followed by tool-result and image follow-up
//! objects produced while scanning its content items.

use vstd::prelude::*;
use vstd::string::*;

use crate::content::{Content, ContentView, ImageContent, ImageContentView};
use crate::errors::{AgentError, AgentErrorView, EncodeError, EncodeErrorView,
    spec_agent_error_text};
use crate::json::json_clone;
use crate::message::{Message, MessageContent, MessageContentView, MessageView};
use crate::names::{sanitize_function_name, spec_sanitize_name};
use crate::role::{Role, roles_include, spec_role_name};
use crate::tool::{Tool, ToolView};
use crate::wire::{WireContent, WireContentView, WireImage, WireImageView, WireMessage,
    WireMessageView, WireTool, WireToolCall, WireToolCallView, WireToolView};

verus! {

/// Which wire encoding images get. Some OpenAI-compatible endpoints use
/// the Anthropic image object inside an otherwise OpenAI-shaped message,
/// so the two styles are selectable independently of everything else.
#[derive(Debug, Copy, Clone, PartialEq, Eq, Structural)]
pub enum ImageFormat {
    OpenAi,
    Anthropic,
}

/// The wire object an image content unit encodes to.
pub open spec fn spec_convert_image(im: ImageContentView, fmt: ImageFormat) -> WireImageView {
    match fmt {
        ImageFormat::OpenAi => WireImageView::OpenAi {
            url: "data:"@ + im.mime_type + ";base64,"@ + im.data,
        },
        ImageFormat::Anthropic => WireImageView::Anthropic {
            media_type: im.mime_type,
            data: im.data,
        },
    }
}

/// Encode one image for the wire: a data URL for the OpenAI style, a
/// base64 source object for the Anthropic style.
pub fn convert_image(image: &ImageContent, image_format: &ImageFormat) -> (r: WireImage)
    ensures
        r@ == spec_convert_image(image@, *image_format),
{
    match image_format {
        ImageFormat::OpenAi => {
            let url = String::from_str("data:").concat(image.mime_type.as_str()).concat(
                ";base64,",
            ).concat(image.data.as_str());
            WireImage::OpenAi { url }
        },
        ImageFormat::Anthropic => WireImage::Anthropic {
            media_type: image.mime_type.clone(),
            data: image.data.clone(),
        },
    }
}

/// No two tools share a name (case-sensitive).
pub open spec fn spec_tool_names_unique(ts: Seq<ToolView>) -> bool {
    forall|i: int, j: int| 0 <= i < j < ts.len() ==> ts[i].name != ts[j].name
}

/// Encode tool definitions as wire function declarations, one per tool and
/// in the given order. Fails on the first repeated tool name, naming it;
/// nothing is returned for the tools before the repeat (no partial
/// success).
pub fn tools_to_openai_spec(tools: &[Tool]) -> (r: Result<Vec<WireTool>, EncodeError>)
    ensures
        r is Ok <==> spec_tool_names_unique(tools.deep_view()),
        r matches Ok(ws) ==> {
            &&& ws.deep_view().len() == tools.deep_view().len()
            &&& forall|i: int|
                0 <= i < tools.deep_view().len() ==> {
                    &&& (#[trigger] ws.deep_view()[i]).name == tools.deep_view()[i].name
                    &&& ws.deep_view()[i].description == tools.deep_view()[i].description
                    &&& ws.deep_view()[i].parameters == tools.deep_view()[i].input_schema
                }
        },
        r matches Err(e) ==> ({
            let ts = tools.deep_view();
            exists|j: int|
                #![auto]
                {
                    &&& 0 < j < ts.len()
                    &&& spec_tool_names_unique(ts.take(j))
                    &&& exists|i: int| 0 <= i < j && ts[i].name == ts[j].name
                    &&& e@ == EncodeErrorView::DuplicateToolName(ts[j].name)
                }
        }),
{
    let ghost ts = tools.deep_view();
    let mut seen: Vec<String> = Vec::new();
    let mut result: Vec<WireTool> = Vec::new();
    let n = tools.len();
    let mut idx: usize = 0;
    while idx < n
        invariant
            idx <= n,
            n == ts.len(),
            ts == tools.deep_view(),
            forall|i: int, j: int| 0 <= i < j < idx ==> ts[i].name != ts[j].name,
            seen@.len() == idx,
            forall|k: int| 0 <= k < idx ==> (#[trigger] seen@[k])@ == ts[k].name,
            result.deep_view().len() == idx,
            forall|k: int|
                0 <= k < idx ==> {
                    &&& (#[trigger] result.deep_view()[k]).name == ts[k].name
                    &&& result.deep_view()[k].description == ts[k].description
                    &&& result.deep_view()[k].parameters == ts[k].input_schema
                },
        decreases n - idx,
    {
        let tool = &tools[idx];
        if contains_name(&seen, &tool.name) {
            proof {
                let j = idx as int;
                assert(exists|i: int| 0 <= i < j && ts[i].name == ts[j].name) by {
                    let k = choose|k: int|
                        0 <= k < seen@.len() && (#[trigger] seen@[k])@ == tool.name@;
                    assert(ts[k].name == ts[j].name);
                }
                assert(!spec_tool_names_unique(ts)) by {
                    let i = choose|i: int| 0 <= i < j && ts[i].name == ts[j].name;
                    assert(ts[i].name == ts[j].name);
                }
                assert(spec_tool_names_unique(ts.take(j))) by {
                    assert forall|a: int, b: int| 0 <= a < b < ts.take(j).len() implies ts.take(
                        j,
                    )[a].name != ts.take(j)[b].name by {
                        assert(ts.take(j)[a] == ts[a]);
                        assert(ts.take(j)[b] == ts[b]);
                    }
                }
            }
            return Err(EncodeError::DuplicateToolName(tool.name.clone()));
        }
        proof {
            assert(tool.name@ == ts[idx as int].name);
            assert forall|i: int| 0 <= i < idx implies ts[i].name != ts[idx as int].name by {
                assert((#[trigger] seen@[i])@ == ts[i].name);
            }
        }
        let ghost prev = result.deep_view();
        seen.push(tool.name.clone());
        let wt = WireTool {
            name: tool.name.clone(),
            description: tool.description.clone(),
            parameters: json_clone(&tool.input_schema),
        };
        result.push(wt);
        proof {
            assert(result.deep_view() =~= prev.push(
                WireToolView {
                    name: ts[idx as int].name,
                    description: ts[idx as int].description,
                    parameters: ts[idx as int].input_schema,
                },
            ));
        }
        idx = idx + 1;
    }
    proof {
        assert(spec_tool_names_unique(ts));
    }
    Ok(result)
}

/// Text substituted for an image inside a tool-result body; the image
/// itself follows in a separate message.
pub open spec fn spec_image_placeholder() -> Seq<char> {
    "This tool result included an image that is uploaded in the next message."@
}

/// The body text one surviving tool-result item contributes: its text for
/// text, the placeholder for an image.
pub open spec fn spec_tool_item_text(c: ContentView) -> Seq<char> {
    match c {
        ContentView::Text(t) => t.text,
        ContentView::Image(_) => spec_image_placeholder(),
    }
}

/// The texts contributed by the tool-result items that are visible to the
/// assistant, in item order.
pub open spec fn spec_tool_texts(items: Seq<ContentView>) -> Seq<Seq<char>>
    decreases items.len(),
{
    if items.len() == 0 {
        Seq::empty()
    } else {
        let rest = spec_tool_texts(items.drop_last());
        if items.last().visible_to_assistant() {
            rest.push(spec_tool_item_text(items.last()))
        } else {
            rest
        }
    }
}

/// Texts joined with a single space between neighbours.
pub open spec fn spec_join_space(texts: Seq<Seq<char>>) -> Seq<char>
    decreases texts.len(),
{
    if texts.len() == 0 {
        Seq::empty()
    } else if texts.len() == 1 {
        texts[0]
    } else {
        spec_join_space(texts.drop_last()) + " "@ + texts.last()
    }
}

/// The follow-up wire message uploading one image out of a tool result.
pub open spec fn spec_image_followup(im: ImageContentView, fmt: ImageFormat) -> WireMessageView {
    WireMessageView {
        role: "user"@,
        content: Some(WireContentView::Images(seq![spec_convert_image(im, fmt)])),
        tool_calls: Seq::empty(),
        tool_call_id: None,
    }
}

/// The image follow-ups of a tool result: one per surviving image, in item
/// order.
pub open spec fn spec_tool_followups(items: Seq<ContentView>, fmt: ImageFormat) -> Seq<
    WireMessageView,
>
    decreases items.len(),
{
    if items.len() == 0 {
        Seq::empty()
    } else {
        let rest = spec_tool_followups(items.drop_last(), fmt);
        if items.last() is Image && items.last().visible_to_assistant() {
            rest.push(spec_image_followup(items.last()->Image_0, fmt))
        } else {
            rest
        }
    }
}

/// The wire message carrying a successful tool result's body.
pub open spec fn spec_tool_result_msg(id: Seq<char>, items: Seq<ContentView>) -> WireMessageView {
    WireMessageView {
        role: "tool"@,
        content: Some(WireContentView::Text(spec_join_space(spec_tool_texts(items)))),
        tool_calls: Seq::empty(),
        tool_call_id: Some(id),
    }
}

/// The wire message surfacing a failed tool request as if it were the
/// tool's own response (no call was made).
pub open spec fn spec_request_error_msg(id: Seq<char>, e: AgentErrorView) -> WireMessageView {
    WireMessageView {
        role: "tool"@,
        content: Some(WireContentView::Text("Error: "@ + spec_agent_error_text(e))),
        tool_calls: Seq::empty(),
        tool_call_id: Some(id),
    }
}

/// The wire message surfacing the error a tool itself reported.
pub open spec fn spec_response_error_msg(id: Seq<char>, e: AgentErrorView) -> WireMessageView {
    WireMessageView {
        role: "tool"@,
        content: Some(
            WireContentView::Text(
                "The tool call returned the following error:\n"@ + spec_agent_error_text(e),
            ),
        ),
        tool_calls: Seq::empty(),
        tool_call_id: Some(id),
    }
}

/// The running state while scanning one canonical message's content items:
/// the primary message's content and tool calls, and the extra wire
/// messages queued behind it.
pub struct EncodeScan {
    pub content: Option<WireContentView>,
    pub tool_calls: Seq<WireToolCallView>,
    pub extras: Seq<WireMessageView>,
}

/// One scan step. Later text or image items overwrite the primary content
/// (last one wins); tool requests extend the primary's tool calls; tool
/// results and errors append extra messages.
pub open spec fn spec_encode_item(
    st: EncodeScan,
    item: MessageContentView,
    fmt: ImageFormat,
) -> EncodeScan {
    match item {
        MessageContentView::Text(t) => {
            if t.text.len() > 0 {
                EncodeScan {
                    content: Some(WireContentView::Text(t.text)),
                    tool_calls: st.tool_calls,
                    extras: st.extras,
                }
            } else {
                st
            }
        },
        MessageContentView::Image(im) => EncodeScan {
            content: Some(WireContentView::Images(seq![spec_convert_image(im, fmt)])),
            tool_calls: st.tool_calls,
            extras: st.extras,
        },
        MessageContentView::ToolRequest(tr) => match tr.tool_call {
            Ok(tc) => EncodeScan {
                content: st.content,
                tool_calls: st.tool_calls.push(
                    WireToolCallView {
                        id: tr.id,
                        name: spec_sanitize_name(tc.name),
                        arguments: tc.arguments,
                    },
                ),
                extras: st.extras,
            },
            Err(e) => EncodeScan {
                content: st.content,
                tool_calls: st.tool_calls,
                extras: st.extras.push(spec_request_error_msg(tr.id, e)),
            },
        },
        MessageContentView::ToolResponse(resp) => match resp.tool_result {
            Ok(items) => EncodeScan {
                content: st.content,
                tool_calls: st.tool_calls,
                extras: st.extras.push(spec_tool_result_msg(resp.id, items))
                    + spec_tool_followups(items, fmt),
            },
            Err(e) => EncodeScan {
                content: st.content,
                tool_calls: st.tool_calls,
                extras: st.extras.push(spec_response_error_msg(resp.id, e)),
            },
        },
    }
}

pub open spec fn spec_scan_items(items: Seq<MessageContentView>, fmt: ImageFormat) -> EncodeScan
    decreases items.len(),
{
    if items.len() == 0 {
        EncodeScan { content: None, tool_calls: Seq::empty(), extras: Seq::empty() }
    } else {
        spec_encode_item(spec_scan_items(items.drop_last(), fmt), items.last(), fmt)
    }
}

/// All wire messages one canonical message expands to: the primary object
/// first — kept only when it gained content or tool calls — then the
/// extras, in the order they were queued.
pub open spec fn spec_encode_message(m: MessageView, fmt: ImageFormat) -> Seq<WireMessageView> {
    let st = spec_scan_items(m.content, fmt);
    if st.content is Some || st.tool_calls.len() > 0 {
        seq![
            WireMessageView {
                role: spec_role_name(m.role),
                content: st.content,
                tool_calls: st.tool_calls,
                tool_call_id: None,
            },
        ] + st.extras
    } else {
        st.extras
    }
}

/// The whole history: each canonical message's expansion, concatenated in
/// input order.
pub open spec fn spec_encode_messages(ms: Seq<MessageView>, fmt: ImageFormat) -> Seq<
    WireMessageView,
>
    decreases ms.len(),
{
    if ms.len() == 0 {
        Seq::empty()
    } else {
        spec_encode_messages(ms.drop_last(), fmt) + spec_encode_message(ms.last(), fmt)
    }
}

fn contains_name(seen: &Vec<String>, name: &String) -> (b: bool)
    ensures
        b == exists|k: int| 0 <= k < seen@.len() && (#[trigger] seen@[k])@ == name@,
{
    let mut i: usize = 0;
    while i < seen.len()
        invariant
            i <= seen@.len(),
            forall|k: int| 0 <= k < i ==> (#[trigger] seen@[k])@ != name@,
        decreases seen@.len() - i,
    {
        if seen[i].eq(name) {
            return true;
        }
        i = i + 1;
    }
    false
}

/// A wire message with role "tool" answering the call `id` with `body`.
fn tool_wire_message(id: &String, body: String) -> (r: WireMessage)
    ensures
        r@ == (WireMessageView {
            role: "tool"@,
            content: Some(WireContentView::Text(body@)),
            tool_calls: Seq::<WireToolCallView>::empty(),
            tool_call_id: Some(id@),
        }),
{
    let w = WireMessage {
        role: String::from_str("tool"),
        content: Some(WireContent::Text(body)),
        tool_calls: Vec::new(),
        tool_call_id: Some(id.clone()),
    };
    proof {
        assert(w@.tool_calls =~= Seq::<WireToolCallView>::empty());
    }
    w
}

/// Append a successful tool result's expansion to `extras`: the tool
/// message with the space-joined body first, then one image follow-up per
/// surviving image, in item order.
fn append_tool_result(
    id: &String,
    contents: &Vec<Content>,
    fmt: &ImageFormat,
    extras: &mut Vec<WireMessage>,
)
    ensures
        final(extras).deep_view() == old(extras).deep_view().push(
            spec_tool_result_msg(id@, contents.deep_view()),
        ) + spec_tool_followups(contents.deep_view(), *fmt),
{
    let ghost items = contents.deep_view();
    let mut body = String::new();
    let mut count: usize = 0;
    let mut followups: Vec<WireMessage> = Vec::new();
    let mut i: usize = 0;
    while i < contents.len()
        invariant
            i <= items.len(),
            items == contents.deep_view(),
            items.len() == contents@.len(),
            body@ == spec_join_space(spec_tool_texts(items.take(i as int))),
            count == spec_tool_texts(items.take(i as int)).len(),
            count <= i,
            followups.deep_view() == spec_tool_followups(items.take(i as int), *fmt),
        decreases items.len() - i,
    {
        let ghost prev_texts = spec_tool_texts(items.take(i as int));
        let c = &contents[i];
        proof {
            assert(c@ == items[i as int]);
        }
        let visible = match c.audience() {
            Some(roles) => roles_include(roles, Role::Assistant),
            None => true,
        };
        proof {
            assert(visible == items[i as int].visible_to_assistant());
        }
        if visible {
            if count > 0 {
                body.append(" ");
            }
            match c {
                Content::Text(t) => {
                    body.append(t.text.as_str());
                },
                Content::Image(im) => {
                    body.append(
                        "This tool result included an image that is uploaded in the next message.",
                    );
                    let wi = convert_image(im, fmt);
                    let fu = WireMessage {
                        role: String::from_str("user"),
                        content: Some(WireContent::Images(vec![wi])),
                        tool_calls: Vec::new(),
                        tool_call_id: None,
                    };
                    proof {
                        assert(fu@.content->Some_0->Images_0 =~= seq![
                            spec_convert_image(items[i as int]->Image_0, *fmt),
                        ]);
                        assert(fu@.tool_calls =~= Seq::<WireToolCallView>::empty());
                        assert(fu@ == spec_image_followup(items[i as int]->Image_0, *fmt));
                    }
                    followups.push(fu);
                },
            }
            count = count + 1;
        }
        i = i + 1;
        proof {
            assert(items.take(i as int).drop_last() =~= items.take(i - 1));
            assert(items.take(i as int).last() == items[i - 1]);
            let tx = spec_tool_texts(items.take(i as int));
            if items[i - 1].visible_to_assistant() {
                assert(tx == prev_texts.push(spec_tool_item_text(items[i - 1])));
                assert(tx.drop_last() =~= prev_texts);
                if prev_texts.len() == 0 {
                    assert(body@ =~= spec_join_space(tx));
                }
            }
            assert(body@ == spec_join_space(spec_tool_texts(items.take(i as int))));
            assert(followups.deep_view() =~= spec_tool_followups(items.take(i as int), *fmt));
        }
    }
    proof {
        assert(items.take(items.len() as int) =~= items);
    }
    let ghost prev_extras = extras.deep_view();
    let tool_msg = tool_wire_message(id, body);
    extras.push(tool_msg);
    let mut fups = followups;
    extras.append(&mut fups);
    proof {
        assert(extras.deep_view() =~= prev_extras.push(spec_tool_result_msg(id@, items))
            + spec_tool_followups(items, *fmt));
    }
}

/// Append one canonical message's expansion to `out`.
fn encode_message_into(m: &Message, fmt: &ImageFormat, out: &mut Vec<WireMessage>)
    ensures
        final(out).deep_view() == old(out).deep_view() + spec_encode_message(m@, *fmt),
{
    let ghost items = m@.content;
    let mut content: Option<WireContent> = None;
    let mut tool_calls: Vec<WireToolCall> = Vec::new();
    let mut extras: Vec<WireMessage> = Vec::new();
    let mut i: usize = 0;
    while i < m.content.len()
        invariant
            i <= items.len(),
            items == m@.content,
            items.len() == m.content@.len(),
            ({
                let st = spec_scan_items(items.take(i as int), *fmt);
                &&& (match content {
                    Some(ref c) => st.content == Some(c@),
                    None => st.content is None,
                })
                &&& tool_calls.deep_view() == st.tool_calls
                &&& extras.deep_view() == st.extras
            }),
        decreases items.len() - i,
    {
        let ghost prev_tc = tool_calls.deep_view();
        let ghost prev_ex = extras.deep_view();
        let item = &m.content[i];
        proof {
            assert(item@ == items[i as int]);
        }
        match item {
            MessageContent::Text(t) => {
                if !t.text.as_str().is_empty() {
                    content = Some(WireContent::Text(t.text.clone()));
                }
            },
            MessageContent::Image(im) => {
                let wi = convert_image(im, fmt);
                let wc = WireContent::Images(vec![wi]);
                proof {
                    assert(wc@->Images_0 =~= seq![
                        spec_convert_image(items[i as int]->Image_0, *fmt),
                    ]);
                }
                content = Some(wc);
            },
            MessageContent::ToolRequest(tr) => match &tr.tool_call {
                Ok(tc) => {
                    let wtc = WireToolCall {
                        id: tr.id.clone(),
                        name: sanitize_function_name(tc.name.as_str()),
                        arguments: json_clone(&tc.arguments),
                    };
                    tool_calls.push(wtc);
                    proof {
                        assert(tool_calls.deep_view() =~= prev_tc.push(
                            WireToolCallView {
                                id: tr.id@,
                                name: spec_sanitize_name(tc.name@),
                                arguments: tc.arguments,
                            },
                        ));
                    }
                },
                Err(e) => {
                    let msg = e.message();
                    let body = String::from_str("Error: ").concat(msg.as_str());
                    let w = tool_wire_message(&tr.id, body);
                    extras.push(w);
                    proof {
                        assert(extras.deep_view() =~= prev_ex.push(
                            spec_request_error_msg(tr.id@, e@),
                        ));
                    }
                },
            },
            MessageContent::ToolResponse(resp) => match &resp.tool_result {
                Ok(contents) => {
                    append_tool_result(&resp.id, contents, fmt, &mut extras);
                },
                Err(e) => {
                    let msg = e.message();
                    let body = String::from_str(
                        "The tool call returned the following error:\n",
                    ).concat(msg.as_str());
                    let w = tool_wire_message(&resp.id, body);
                    extras.push(w);
                    proof {
                        assert(extras.deep_view() =~= prev_ex.push(
                            spec_response_error_msg(resp.id@, e@),
                        ));
                    }
                },
            },
        }
        i = i + 1;
        proof {
            assert(items.take(i as int).drop_last() =~= items.take(i - 1));
            assert(items.take(i as int).last() == items[i - 1]);
        }
    }
    proof {
        assert(items.take(m.content@.len() as int) =~= items);
    }
    let ghost stf = spec_scan_items(items, *fmt);
    let ghost base = out.deep_view();
    let has_primary = content.is_some() || tool_calls.len() > 0;
    if has_primary {
        let role = m.role.wire_name();
        let primary = WireMessage { role, content, tool_calls, tool_call_id: None };
        proof {
            assert(primary@ == (WireMessageView {
                role: spec_role_name(m@.role),
                content: stf.content,
                tool_calls: stf.tool_calls,
                tool_call_id: None,
            }));
        }
        out.push(primary);
    }
    let mut ex = extras;
    out.append(&mut ex);
    proof {
        assert(out.deep_view() =~= base + spec_encode_message(m@, *fmt));
    }
}

/// Translate the canonical message history, in order, into the wire
/// message objects of one request.
pub fn messages_to_openai_spec(messages: &[Message], image_format: &ImageFormat) -> (r: Vec<
    WireMessage,
>)
    ensures
        r.deep_view() == spec_encode_messages(messages.deep_view(), *image_format),
{
    let ghost ms = messages.deep_view();
    let mut out: Vec<WireMessage> = Vec::new();
    proof {
        assert(out.deep_view() =~= spec_encode_messages(ms.take(0), *image_format));
    }
    let mut mi: usize = 0;
    while mi < messages.len()
        invariant
            mi <= ms.len(),
            ms == messages.deep_view(),
            ms.len() == messages@.len(),
            out.deep_view() == spec_encode_messages(ms.take(mi as int), *image_format),
        decreases ms.len() - mi,
    {
        let msg = &messages[mi];
        proof {
            assert(msg@ == ms[mi as int]);
        }
        encode_message_into(msg, image_format, &mut out);
        mi = mi + 1;
        proof {
            assert(ms.take(mi as int).drop_last() =~= ms.take(mi - 1));
            assert(ms.take(mi as int).last() == ms[mi - 1]);
        }
    }
    proof {
        assert(ms.take(ms.len() as int) =~= ms);
    }
    out
}

/// A message whose only content item is empty text expands to no wire
/// messages at all.
pub proof fn lemma_empty_text_message_encodes_to_nothing(m: MessageView, fmt: ImageFormat)
    requires
        m.content.len() == 1,
        m.content[0] matches MessageContentView::Text(t) && t.text.len() == 0,
    ensures
        spec_encode_message(m, fmt) == Seq::<WireMessageView>::empty(),
{
    assert(m.content.drop_last() =~= Seq::<MessageContentView>::empty());
    assert(m.content.last() == m.content[0]);
    let st0 = spec_scan_items(Seq::<MessageContentView>::empty(), fmt);
    let st = spec_scan_items(m.content, fmt);
    assert(st == spec_encode_item(st0, m.content[0], fmt));
    assert(st == st0);
}

} // verus!
