//! The wire-format model: structured values mirroring, field for field, the
//! JSON objects of the OpenAI-compatible chat-completion schema. The
//! encoder produces these; rendering them as JSON text is plain
//! serialization left to the caller, with the constant tags (`"type":
//! "function"` and the image object tags) noted on each type.

use vstd::prelude::*;

verus! {

/// One encoded image, as it appears inside a wire message's `content`
/// array.
///
/// Rendered as `{"type": "image_url", "image_url": {"url": url}}` for the
/// OpenAI style, and `{"type": "image", "source": {"type": "base64",
/// "media_type": media_type, "data": data}}` for the Anthropic style.
#[derive(Debug, Clone, PartialEq)]
pub enum WireImage {
    OpenAi { url: String },
    Anthropic { media_type: String, data: String },
}

pub enum WireImageView {
    OpenAi { url: Seq<char> },
    Anthropic { media_type: Seq<char>, data: Seq<char> },
}

impl View for WireImage {
    type V = WireImageView;

    open spec fn view(&self) -> WireImageView {
        match self {
            WireImage::OpenAi { url } => WireImageView::OpenAi { url: url@ },
            WireImage::Anthropic { media_type, data } => WireImageView::Anthropic {
                media_type: media_type@,
                data: data@,
            },
        }
    }
}

impl DeepView for WireImage {
    type V = WireImageView;

    open spec fn deep_view(&self) -> WireImageView {
        self.view()
    }
}

/// A wire message's `content` field: either a plain string or an array of
/// encoded images.
#[derive(Debug, Clone, PartialEq)]
pub enum WireContent {
    Text(String),
    Images(Vec<WireImage>),
}

pub enum WireContentView {
    Text(Seq<char>),
    Images(Seq<WireImageView>),
}

impl View for WireContent {
    type V = WireContentView;

    open spec fn view(&self) -> WireContentView {
        match self {
            WireContent::Text(s) => WireContentView::Text(s@),
            WireContent::Images(v) => WireContentView::Images(v.deep_view()),
        }
    }
}

impl DeepView for WireContent {
    type V = WireContentView;

    open spec fn deep_view(&self) -> WireContentView {
        self.view()
    }
}

/// One entry of a wire message's `tool_calls` array.
///
/// Rendered as `{"id": id, "type": "function", "function": {"name": name,
/// "arguments": <arguments serialized to JSON text>}}`.
#[derive(Debug)]
pub struct WireToolCall {
    pub id: String,
    pub name: String,
    pub arguments: serde_json::Value,
}

pub struct WireToolCallView {
    pub id: Seq<char>,
    pub name: Seq<char>,
    pub arguments: serde_json::Value,
}

impl View for WireToolCall {
    type V = WireToolCallView;

    open spec fn view(&self) -> WireToolCallView {
        WireToolCallView { id: self.id@, name: self.name@, arguments: self.arguments }
    }
}

impl DeepView for WireToolCall {
    type V = WireToolCallView;

    open spec fn deep_view(&self) -> WireToolCallView {
        self.view()
    }
}

/// One wire-format message object. An empty `tool_calls` vector and a
/// `None` content or tool_call_id stand for absent fields.
#[derive(Debug)]
pub struct WireMessage {
    pub role: String,
    pub content: Option<WireContent>,
    pub tool_calls: Vec<WireToolCall>,
    pub tool_call_id: Option<String>,
}

pub struct WireMessageView {
    pub role: Seq<char>,
    pub content: Option<WireContentView>,
    pub tool_calls: Seq<WireToolCallView>,
    pub tool_call_id: Option<Seq<char>>,
}

impl View for WireMessage {
    type V = WireMessageView;

    open spec fn view(&self) -> WireMessageView {
        WireMessageView {
            role: self.role@,
            content: match self.content {
                Some(ref c) => Some(c@),
                None => None,
            },
            tool_calls: self.tool_calls.deep_view(),
            tool_call_id: match self.tool_call_id {
                Some(ref id) => Some(id@),
                None => None,
            },
        }
    }
}

impl DeepView for WireMessage {
    type V = WireMessageView;

    open spec fn deep_view(&self) -> WireMessageView {
        self.view()
    }
}

/// One wire-format function declaration.
///
/// Rendered as `{"type": "function", "function": {"name": name,
/// "description": description, "parameters": parameters}}`.
#[derive(Debug)]
pub struct WireTool {
    pub name: String,
    pub description: String,
    pub parameters: serde_json::Value,
}

pub struct WireToolView {
    pub name: Seq<char>,
    pub description: Seq<char>,
    pub parameters: serde_json::Value,
}

impl View for WireTool {
    type V = WireToolView;

    open spec fn view(&self) -> WireToolView {
        WireToolView {
            name: self.name@,
            description: self.description@,
            parameters: self.parameters,
        }
    }
}

impl DeepView for WireTool {
    type V = WireToolView;

    open spec fn deep_view(&self) -> WireToolView {
        self.view()
    }
}

} // verus!
