//! Tool definitions offered to the provider and tool invocations requested
//! by it. Schemas and arguments are structured JSON carried opaquely; this
//! layer never looks inside them.

use vstd::prelude::*;
use vstd::string::*;

verus! {

/// A function invocation requested by the model or fulfilled by the runtime.
#[derive(Debug)]
pub struct ToolCall {
    pub name: String,
    pub arguments: serde_json::Value,
}

pub struct ToolCallView {
    pub name: Seq<char>,
    pub arguments: serde_json::Value,
}

impl View for ToolCall {
    type V = ToolCallView;

    open spec fn view(&self) -> ToolCallView {
        ToolCallView { name: self.name@, arguments: self.arguments }
    }
}

impl DeepView for ToolCall {
    type V = ToolCallView;

    open spec fn deep_view(&self) -> ToolCallView {
        self.view()
    }
}

impl ToolCall {
    pub fn new(name: &str, arguments: serde_json::Value) -> (r: ToolCall)
        ensures
            r@.name == name@,
            r@.arguments == arguments,
    {
        ToolCall { name: name.to_owned(), arguments }
    }
}

/// A tool the runtime offers to the model.
#[derive(Debug)]
pub struct Tool {
    pub name: String,
    pub description: String,
    pub input_schema: serde_json::Value,
}

pub struct ToolView {
    pub name: Seq<char>,
    pub description: Seq<char>,
    pub input_schema: serde_json::Value,
}

impl View for Tool {
    type V = ToolView;

    open spec fn view(&self) -> ToolView {
        ToolView {
            name: self.name@,
            description: self.description@,
            input_schema: self.input_schema,
        }
    }
}

impl DeepView for Tool {
    type V = ToolView;

    open spec fn deep_view(&self) -> ToolView {
        self.view()
    }
}

impl Tool {
    pub fn new(name: &str, description: &str, input_schema: serde_json::Value) -> (r: Tool)
        ensures
            r@.name == name@,
            r@.description == description@,
            r@.input_schema == input_schema,
    {
        Tool { name: name.to_owned(), description: description.to_owned(), input_schema }
    }
}

} // verus!
