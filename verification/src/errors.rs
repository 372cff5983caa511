//! Error values. Per-tool-call failures are recorded inside the decoded
//! message rather than failing the whole decode; whole-batch failures
//! (a duplicate tool name) abort encoding; transport-level classifications
//! carry what the caller needs to retry or diagnose.

use vstd::prelude::*;
use vstd::string::*;

verus! {

/// A failure attached to one tool-call content item.
#[derive(Clone, Debug, PartialEq)]
pub enum AgentError {
    /// The provider asked for a tool under a name that cannot name any
    /// registered tool.
    ToolNotFound(String),
    /// The provider handed tool arguments that are not valid JSON.
    InvalidParameters(String),
}

pub enum AgentErrorView {
    ToolNotFound(Seq<char>),
    InvalidParameters(Seq<char>),
}

impl View for AgentError {
    type V = AgentErrorView;

    open spec fn view(&self) -> AgentErrorView {
        match self {
            AgentError::ToolNotFound(m) => AgentErrorView::ToolNotFound(m@),
            AgentError::InvalidParameters(m) => AgentErrorView::InvalidParameters(m@),
        }
    }
}

impl DeepView for AgentError {
    type V = AgentErrorView;

    open spec fn deep_view(&self) -> AgentErrorView {
        self.view()
    }
}

/// The text an agent error shows when surfaced to the model.
pub open spec fn spec_agent_error_text(e: AgentErrorView) -> Seq<char> {
    match e {
        AgentErrorView::ToolNotFound(m) => "Tool not found: "@ + m,
        AgentErrorView::InvalidParameters(m) => "Invalid parameters: "@ + m,
    }
}

impl AgentError {
    /// Human-readable text of the failure.
    pub fn message(&self) -> (r: String)
        ensures
            r@ == spec_agent_error_text(self@),
    {
        match self {
            AgentError::ToolNotFound(m) => String::from_str("Tool not found: ").concat(m.as_str()),
            AgentError::InvalidParameters(m) => String::from_str("Invalid parameters: ").concat(
                m.as_str(),
            ),
        }
    }
}

/// A failure while encoding canonical data for the wire.
#[derive(Clone, Debug, PartialEq)]
pub enum EncodeError {
    /// Two tools carried the same name; the value is that name.
    DuplicateToolName(String),
}

pub enum EncodeErrorView {
    DuplicateToolName(Seq<char>),
}

impl View for EncodeError {
    type V = EncodeErrorView;

    open spec fn view(&self) -> EncodeErrorView {
        match self {
            EncodeError::DuplicateToolName(n) => EncodeErrorView::DuplicateToolName(n@),
        }
    }
}

impl EncodeError {
    /// Human-readable text of the failure.
    pub fn message(&self) -> (r: String)
        ensures
            self@ matches EncodeErrorView::DuplicateToolName(n) ==> r@ == "Duplicate tool name: "@
                + n,
    {
        match self {
            EncodeError::DuplicateToolName(n) => String::from_str("Duplicate tool name: ").concat(
                n.as_str(),
            ),
        }
    }
}

/// The normalized "context length exceeded" diagnosis, wrapping the
/// provider's human-readable message. Produced only by the error
/// classifiers.
#[derive(Clone, Debug, PartialEq)]
pub struct ContextLengthExceededError {
    pub message: String,
}

impl View for ContextLengthExceededError {
    type V = Seq<char>;

    open spec fn view(&self) -> Seq<char> {
        self.message@
    }
}

impl ContextLengthExceededError {
    /// The full display form of the diagnosis.
    pub fn display_string(&self) -> (r: String)
        ensures
            r@ == "Context length exceeded. Message: "@ + self.message@,
    {
        String::from_str("Context length exceeded. Message: ").concat(self.message.as_str())
    }
}

/// A semantic failure reported by the provider, as opposed to a transport
/// failure (bytes that never parsed).
#[derive(Debug)]
pub enum ProviderError {
    /// HTTP 429 or any 5xx status: the caller may retry.
    RetryableServerError(u16),
    /// Any other unsuccessful status; carries the status and the request
    /// payload that was sent, for diagnostics.
    RequestFailed(u16, serde_json::Value),
    /// The response carried no `usage` object.
    MissingUsageData,
}

} // verus!
