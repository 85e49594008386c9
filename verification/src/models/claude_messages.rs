//! The inbound "messages" wire format: requests, the blocks a message may
//! carry, tool definitions and choices, and the shapes sent back to the
//! client.  Values that the wire carries as arbitrary JSON objects are held
//! here as their JSON text; sampling parameters that the wire carries as
//! fractions are held in thousandths.

use vstd::prelude::*;

verus! {

#[derive(Debug, Clone, PartialEq)]
pub struct ClaudeMessagesRequest {
    pub model: String,
    pub messages: Vec<InputMessage>,
    pub max_tokens: Option<u32>,
    pub container: Option<String>,
    /// JSON text of an opaque metadata object.
    pub metadata: Option<String>,
    pub service_tier: Option<String>,
    pub stop_sequences: Option<Vec<String>>,
    pub stream: Option<bool>,
    pub system: Option<Vec<SystemMessage>>,
    /// Sampling temperature, in thousandths.
    pub temperature: Option<u32>,
    /// JSON text of an opaque thinking configuration.
    pub thinking: Option<String>,
    pub tool_choice: Option<ToolChoice>,
    pub tools: Option<Vec<ToolDefinition>>,
    /// Nucleus sampling parameter, in thousandths.
    pub top_p: Option<u32>,
}

#[derive(Debug, Clone, PartialEq)]
pub struct InputMessage {
    pub role: MessageRole,
    pub content: InputMessageContent,
}

#[derive(Debug, Clone, Copy, PartialEq, Eq, Structural)]
pub enum MessageRole {
    User,
    Assistant,
}

#[derive(Debug, Clone, PartialEq)]
pub enum InputMessageContent {
    Text(String),
    Parts(Vec<InputMessageContentPart>),
}

#[derive(Debug, Clone, PartialEq)]
pub enum InputMessageContentPart {
    Text { text: String, cache_control: Option<String> },
    Image { source: ImageSource },
}

#[derive(Debug, Clone, PartialEq)]
pub struct ImageSource {
    pub source_type: String,
    pub media_type: String,
    pub data: String,
    pub cache_control: Option<String>,
}

#[derive(Debug, Clone, PartialEq)]
pub struct SystemMessage {
    pub content_type: String,
    pub text: String,
    /// JSON text of an opaque cache-control object.
    pub cache_control: Option<String>,
    /// JSON text of opaque citation data.
    pub citations: Option<String>,
}

#[derive(Debug, Clone, PartialEq)]
pub struct ToolDefinition {
    pub tool_type: Option<String>,
    pub name: String,
    pub description: String,
    /// JSON text of the tool's input schema.
    pub input_schema: String,
    pub cache_control: Option<String>,
    pub other_values: Option<String>,
}

#[derive(Debug, Clone, PartialEq)]
pub enum ToolChoice {
    /// The model may not use tools; "none" on the wire.
    NoTools,
    Auto { disable_parallel_tool_use: bool },
    Any { disable_parallel_tool_use: bool },
    Tool { name: String, disable_parallel_tool_use: bool },
}

#[derive(Debug, Clone, PartialEq, Eq)]
pub struct Usage {
    pub input_tokens: u32,
    pub output_tokens: u32,
    pub cache_read_input_tokens: Option<u32>,
    pub cache_creation_input_tokens: Option<u32>,
}

#[derive(Debug, Clone, PartialEq)]
pub struct ClaudeMessagesResponse {
    pub id: String,
    pub content: Vec<OutputMessageContent>,
    pub response_type: String,
    pub model: String,
    pub role: String,
    pub stop_reason: Option<String>,
    pub stop_sequence: Option<String>,
    pub usage: Usage,
    pub container: Option<ResponseContainer>,
}

#[derive(Debug, Clone, PartialEq)]
pub struct ResponseContainer {
    pub expires_at: String,
    pub id: String,
}

#[allow(non_camel_case_types)]
#[derive(Debug, Clone, PartialEq)]
pub enum OutputMessageContent {
    Text { text: String },
    Thinking { signature: String, thinking: String },
    Redacted_Thinking { data: String },
    /// `input` holds the JSON text of the tool invocation's arguments.
    Tool_Use { id: String, name: String, input: String },
    Server_Tool_Use { id: String, name: String, input: String },
    Web_Search_Tool_Result { tool_use_id: String, content: String },
    Code_Execution_Tool_Result { tool_use_id: String, content: String },
    Mcp_Tool_Use { id: String, name: String, server_name: String, input: String },
    Mcp_Tool_Result { content: String, is_error: bool, tool_use_id: String },
    Container_Upload { file_id: String },
}

#[derive(Debug, Clone, PartialEq)]
pub struct ClaudeMessagesStreamResponse {
    pub delta: Option<StreamDelta>,
    pub usage: Option<Usage>,
    /// JSON text of any fields kept only for pass-through.
    pub other: String,
}

#[derive(Debug, Clone, PartialEq)]
pub struct StreamDelta {
    pub content: String,
}

} // verus!
