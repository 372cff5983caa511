//! A provider wire-protocol translation layer for a conversational-agent
//! runtime: it turns a provider-agnostic conversation (messages made of text,
//! images, tool-call requests and tool-call results) into the message objects
//! of an OpenAI-compatible chat-completion request, and parses provider
//! responses back into that canonical form. It also extracts token-usage
//! accounting, classifies provider error payloads into a normalized
//! "context length exceeded" signal, and repairs tool-function names to the
//! wire protocol's allowed character set.

pub mod chars;
pub mod classify;
pub mod content;
pub mod decode;
pub mod encode;
pub mod errors;
pub mod json;
pub mod message;
pub mod names;
pub mod request;
pub mod role;
pub mod status;
pub mod tool;
pub mod unescape;
pub mod usage;
pub mod wire;
