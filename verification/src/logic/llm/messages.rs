//! Messages exchanged with the model: user text, assistant parts (text,
//! reasoning, tool calls) and tool results. Tool inputs and JSON results are
//! carried as [`Json`] values.

use vstd::prelude::*;

use super::json::Json;

verus! {

/// One message of a conversation. System prompts travel separately.
#[derive(Debug, Clone, PartialEq, Eq)]
pub enum Message {
    User { content: MessageContent<UserPart> },
    Assistant { content: AssistantContent },
    Tool { content: Vec<ToolResult> },
}

/// Either a bare string or a list of typed parts.
#[derive(Debug, Clone, PartialEq, Eq)]
pub enum MessageContent<P> {
    Text(String),
    Parts(Vec<P>),
}

#[derive(Debug, Clone, PartialEq, Eq)]
pub enum UserPart {
    Text { text: String },
}

#[derive(Debug, Clone, PartialEq, Eq)]
pub enum AssistantContent {
    Text(String),
    Parts(Vec<AssistantPart>),
}

#[derive(Debug, Clone, PartialEq, Eq)]
pub enum AssistantPart {
    Text { text: String },
    Reasoning { text: String },
    ToolCall { tool_call_id: String, tool_name: String, input: Json },
}

/// A complete tool call as streamed by the model.
#[derive(Debug, Clone, PartialEq, Eq)]
pub struct ToolCall {
    pub tool_call_id: String,
    pub tool_name: String,
    pub input: Json,
}

/// The result of one tool call. `kind` is always `"tool-result"`.
#[derive(Debug, Clone, PartialEq, Eq)]
pub struct ToolResult {
    pub kind: String,
    pub tool_call_id: String,
    pub tool_name: String,
    pub output: ToolResultContent,
}

/// The payload a tool returns.
#[derive(Debug, Clone, PartialEq, Eq)]
pub enum ToolResultContent {
    Json { value: Json },
    ErrorText { value: String },
    ErrorJson { value: Json },
}

impl Message {
    /// A user message holding `text`.
    pub fn user_text(text: String) -> (r: Message)
        ensures
            r == (Message::User { content: MessageContent::Text(text) }),
    {
        Message::User { content: MessageContent::Text(text) }
    }

    /// An assistant message made of `parts`.
    pub fn assistant_parts(parts: Vec<AssistantPart>) -> (r: Message)
        ensures
            r == (Message::Assistant { content: AssistantContent::Parts(parts) }),
    {
        Message::Assistant { content: AssistantContent::Parts(parts) }
    }

    /// A tool message carrying `results`.
    pub fn tool_results(results: Vec<ToolResult>) -> (r: Message)
        ensures
            r == (Message::Tool { content: results }),
    {
        Message::Tool { content: results }
    }
}

impl ToolCall {
    /// A field-by-field copy.
    pub fn duplicate(&self) -> (r: ToolCall)
        ensures
            r.tool_call_id == self.tool_call_id,
            r.tool_name == self.tool_name,
            r.input@ == self.input@,
    {
        ToolCall {
            tool_call_id: self.tool_call_id.clone(),
            tool_name: self.tool_name.clone(),
            input: self.input.duplicate(),
        }
    }
}

/// `"tool-result"`, the tag every [`ToolResult`] carries.
pub fn tool_result_type() -> (r: String)
    ensures
        r@ == "tool-result"@,
{
    String::from_str("tool-result")
}

} // verus!
