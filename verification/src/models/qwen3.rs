//! The native Qwen text-generation wire format: requests wrap their
//! messages in an input object and their options in a parameters object;
//! responses wrap their choices in an output object.

use vstd::prelude::*;

verus! {

#[derive(Debug, Clone, PartialEq)]
pub struct QwenRequest {
    pub model: String,
    pub input: QwenInput,
    pub parameters: QwenParameters,
}

#[derive(Debug, Clone, PartialEq)]
pub struct QwenInput {
    pub messages: Vec<QwenMessage>,
}

#[derive(Debug, Clone, PartialEq)]
pub struct QwenMessage {
    pub role: QwenRole,
    pub content: String,
}

#[derive(Debug, Clone, Copy, PartialEq, Eq, Structural)]
pub enum QwenRole {
    User,
    Assistant,
    System,
}

#[derive(Debug, Clone, PartialEq)]
pub struct QwenParameters {
    pub max_tokens: Option<u32>,
    /// Sampling temperature, in thousandths.
    pub temperature: Option<u32>,
    pub incremental_output: Option<bool>,
    pub result_format: Option<String>,
    pub tools: Option<Vec<ToolDefinition>>,
    pub tool_choice: Option<ToolChoice>,
}

#[derive(Debug, Clone, PartialEq)]
pub struct ToolDefinition {
    pub tool_type: String,
    pub function: FunctionDefinition,
}

#[derive(Debug, Clone, PartialEq)]
pub struct FunctionDefinition {
    pub name: String,
    pub description: String,
    /// JSON text of the function's parameter schema.
    pub parameters: String,
}

#[derive(Debug, Clone, PartialEq)]
pub struct ToolChoice {
    pub choice_type: String,
    pub function: Option<FunctionChoice>,
}

#[derive(Debug, Clone, PartialEq)]
pub struct FunctionChoice {
    pub name: String,
}

#[derive(Debug, Clone, PartialEq)]
pub struct QwenResponse {
    pub output: QwenOutput,
    pub usage: QwenUsage,
    pub request_id: Option<String>,
}

#[derive(Debug, Clone, PartialEq)]
pub struct QwenOutput {
    pub choices: Vec<QwenChoice>,
}

#[derive(Debug, Clone, PartialEq)]
pub struct QwenChoice {
    pub message: QwenMessage,
    pub finish_reason: Option<String>,
    pub tool_calls: Option<Vec<ToolCallResponse>>,
}

#[derive(Debug, Clone, PartialEq)]
pub struct ToolCallResponse {
    pub id: String,
    pub call_type: String,
    pub function: ToolCallFunction,
}

#[derive(Debug, Clone, PartialEq)]
pub struct ToolCallFunction {
    pub name: String,
    /// JSON text of the call's arguments.
    pub arguments: String,
}

#[derive(Debug, Clone, Copy, PartialEq, Eq, Structural)]
pub struct QwenUsage {
    pub input_tokens: u32,
    pub output_tokens: u32,
    pub total_tokens: u32,
}

#[derive(Debug, Clone, PartialEq)]
pub struct QwenStreamResponse {
    pub output: QwenStreamOutput,
    pub usage: Option<QwenUsage>,
}

#[derive(Debug, Clone, PartialEq)]
pub struct QwenStreamOutput {
    pub choices: Vec<QwenStreamChoice>,
}

#[derive(Debug, Clone, PartialEq)]
pub struct QwenStreamChoice {
    pub message: QwenMessage,
    pub finish_reason: Option<String>,
}

} // verus!
