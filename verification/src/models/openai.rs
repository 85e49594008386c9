//! The outbound OpenAI-style chat-completion wire format: requests,
//! responses, and the incremental chunks of a streamed response.  JSON
//! object values are held as their JSON text; sampling parameters are held
//! in thousandths.

use vstd::prelude::*;

verus! {

#[derive(Debug, Clone, PartialEq)]
pub struct OpenAIRequest {
    pub model: String,
    pub messages: Vec<OpenAIMessage>,
    pub max_tokens: Option<u32>,
    /// Sampling temperature, in thousandths.
    pub temperature: Option<u32>,
    /// Nucleus sampling parameter, in thousandths.
    pub top_p: Option<u32>,
    pub stream: Option<bool>,
    pub tools: Option<Vec<OpenAIToolDefinition>>,
    pub tool_choice: Option<OpenAIToolChoice>,
    pub response_format: Option<ResponseFormat>,
    pub stream_options: Option<StreamOptions>,
}

#[derive(Debug, Clone, PartialEq)]
pub struct OpenAIMessage {
    pub role: OpenAIRole,
    pub content: Option<String>,
    pub tool_calls: Option<Vec<OpenAIToolCall>>,
    pub tool_call_id: Option<String>,
    pub name: Option<String>,
}

#[derive(Debug, Clone, Copy, PartialEq, Eq, Structural)]
pub enum OpenAIRole {
    System,
    User,
    Assistant,
    Tool,
}

impl OpenAIRole {
    /// The role's lowercase wire name.
    pub fn role_name(&self) -> (r: &'static str)
        ensures
            r@ == spec_role_name(*self),
    {
        match self {
            OpenAIRole::System => "system",
            OpenAIRole::User => "user",
            OpenAIRole::Assistant => "assistant",
            OpenAIRole::Tool => "tool",
        }
    }
}

/// The lowercase wire name of each role.
pub open spec fn spec_role_name(role: OpenAIRole) -> Seq<char> {
    match role {
        OpenAIRole::System => "system"@,
        OpenAIRole::User => "user"@,
        OpenAIRole::Assistant => "assistant"@,
        OpenAIRole::Tool => "tool"@,
    }
}

#[derive(Debug, Clone, PartialEq)]
pub struct OpenAIToolDefinition {
    pub tool_type: String,
    pub function: OpenAIFunctionDefinition,
}

#[derive(Debug, Clone, PartialEq)]
pub struct OpenAIFunctionDefinition {
    pub name: String,
    pub description: Option<String>,
    /// JSON text of the function's parameter schema.
    pub parameters: String,
}

#[derive(Debug, Clone, PartialEq)]
pub enum OpenAIToolChoice {
    /// A bare mode string on the wire: "none", "auto" or "any".
    Mode(String),
    Object { choice_type: String, function: OpenAIFunctionChoice },
}

#[derive(Debug, Clone, PartialEq)]
pub struct OpenAIFunctionChoice {
    pub name: String,
}

#[derive(Debug, Clone, PartialEq)]
pub struct ResponseFormat {
    pub format_type: String,
    /// JSON text of the requested schema.
    pub json_schema: Option<String>,
}

#[derive(Debug, Clone, PartialEq)]
pub struct StreamOptions {
    pub include_usage: Option<bool>,
}

#[derive(Debug, Clone, PartialEq)]
pub struct OpenAIResponse {
    pub id: String,
    pub object: String,
    pub created: i64,
    pub model: String,
    pub choices: Vec<OpenAIChoice>,
    pub usage: Option<OpenAIUsage>,
    pub system_fingerprint: Option<String>,
}

#[derive(Debug, Clone, PartialEq)]
pub struct OpenAIChoice {
    pub index: u32,
    pub message: OpenAIMessage,
    pub finish_reason: Option<String>,
}

#[derive(Debug, Clone, Copy, PartialEq, Eq, Structural)]
pub struct OpenAIUsage {
    pub prompt_tokens: u32,
    pub completion_tokens: u32,
    pub total_tokens: u32,
}

impl Default for OpenAIUsage {
    /// All counters zero, for responses that carry no usage record.
    fn default() -> (r: Self)
        ensures
            r.prompt_tokens == 0,
            r.completion_tokens == 0,
            r.total_tokens == 0,
    {
        OpenAIUsage { prompt_tokens: 0, completion_tokens: 0, total_tokens: 0 }
    }
}

#[derive(Debug, Clone, PartialEq)]
pub struct OpenAIStreamResponse {
    pub id: String,
    pub object: String,
    pub created: i64,
    pub model: String,
    pub choices: Vec<OpenAIStreamChoice>,
    pub usage: Option<OpenAIUsage>,
    pub system_fingerprint: Option<String>,
}

#[derive(Debug, Clone, PartialEq)]
pub struct OpenAIStreamChoice {
    pub index: u32,
    pub delta: OpenAIDelta,
    pub finish_reason: Option<String>,
}

#[derive(Debug, Clone, PartialEq)]
pub struct OpenAIDelta {
    pub role: Option<OpenAIRole>,
    pub content: Option<String>,
    pub tool_calls: Option<Vec<OpenAIToolCallDelta>>,
}

#[derive(Debug, Clone, PartialEq)]
pub struct OpenAIToolCall {
    pub id: String,
    pub tool_type: String,
    pub function: OpenAIToolCallFunction,
}

#[derive(Debug, Clone, PartialEq)]
pub struct OpenAIToolCallDelta {
    pub index: Option<u32>,
    pub id: Option<String>,
    pub tool_type: Option<String>,
    pub function: Option<OpenAIToolCallFunctionDelta>,
}

#[derive(Debug, Clone, PartialEq)]
pub struct OpenAIToolCallFunction {
    pub name: String,
    /// JSON text of the call's arguments, as the backend sent it.
    pub arguments: String,
}

#[derive(Debug, Clone, PartialEq)]
pub struct OpenAIToolCallFunctionDelta {
    pub name: Option<String>,
    pub arguments: Option<String>,
}

} // verus!
