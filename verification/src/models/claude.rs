//! The simpler first-generation client wire format, kept for the native
//! Qwen backend path: flat messages with a single optional system string,
//! and responses carrying explicit choice lists.

use vstd::prelude::*;

verus! {

#[derive(Debug, Clone, PartialEq)]
pub struct ClaudeRequest {
    pub model: String,
    pub messages: Vec<ClaudeMessage>,
    pub max_tokens: Option<u32>,
    /// Sampling temperature, in thousandths.
    pub temperature: Option<u32>,
    pub stream: Option<bool>,
    pub system: Option<String>,
    pub tools: Option<Vec<ToolDefinition>>,
    pub tool_choice: Option<ToolChoice>,
}

#[derive(Debug, Clone, PartialEq)]
pub struct ToolDefinition {
    pub tool_type: String,
    pub function: FunctionDefinition,
}

#[derive(Debug, Clone, PartialEq)]
pub struct FunctionDefinition {
    pub name: String,
    pub description: String,
    /// JSON text of the function's parameter schema.
    pub parameters: String,
}

#[derive(Debug, Clone, PartialEq)]
pub struct ToolChoice {
    pub choice_type: String,
    pub function: Option<FunctionChoice>,
}

#[derive(Debug, Clone, PartialEq)]
pub struct FunctionChoice {
    pub name: String,
}

#[derive(Debug, Clone, PartialEq)]
pub struct ClaudeMessage {
    pub role: ClaudeRole,
    pub content: String,
}

#[derive(Debug, Clone, Copy, PartialEq, Eq, Structural)]
pub enum ClaudeRole {
    User,
    Assistant,
    System,
}

#[derive(Debug, Clone, PartialEq)]
pub struct ClaudeResponse {
    pub id: String,
    pub model: String,
    pub usage: ClaudeUsage,
    pub choices: Vec<ClaudeChoice>,
}

#[derive(Debug, Clone, Copy, PartialEq, Eq, Structural)]
pub struct ClaudeUsage {
    pub input_tokens: u32,
    pub output_tokens: u32,
}

#[derive(Debug, Clone, PartialEq)]
pub struct ClaudeChoice {
    pub message: ClaudeMessageWithTools,
    pub finish_reason: Option<String>,
    pub index: u32,
}

#[derive(Debug, Clone, PartialEq)]
pub struct ClaudeMessageWithTools {
    pub role: ClaudeRole,
    pub content: Option<String>,
    pub tool_calls: Option<Vec<ToolCall>>,
}

#[derive(Debug, Clone, PartialEq)]
pub struct ToolCall {
    pub id: String,
    pub call_type: String,
    pub function: ToolCallFunction,
}

#[derive(Debug, Clone, PartialEq)]
pub struct ToolCallFunction {
    pub name: String,
    /// JSON text of the call's arguments.
    pub arguments: String,
}

#[derive(Debug, Clone, PartialEq)]
pub struct ClaudeStreamResponse {
    pub id: String,
    pub model: String,
    pub choices: Vec<ClaudeStreamChoice>,
}

#[derive(Debug, Clone, PartialEq)]
pub struct ClaudeStreamChoice {
    pub delta: ClaudeDelta,
    pub finish_reason: Option<String>,
    pub index: u32,
}

#[derive(Debug, Clone, PartialEq)]
pub struct ClaudeDelta {
    pub content: Option<String>,
}

} // verus!
