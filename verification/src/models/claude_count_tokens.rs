//! The request and response shapes of the local token-counting endpoint.

use crate::models::claude_messages::{MessageRole, ToolDefinition};
use vstd::prelude::*;

verus! {

#[derive(Debug, Clone, PartialEq)]
pub struct ClaudeCountTokensRequest {
    pub model: String,
    pub messages: Option<Vec<Message>>,
    pub system: Option<Vec<SystemPrompt>>,
    pub tools: Option<Vec<ToolDefinition>>,
}

#[derive(Debug, Clone, PartialEq)]
pub struct Message {
    pub role: MessageRole,
    pub content: Vec<ContentBlock>,
}

#[derive(Debug, Clone, PartialEq)]
pub enum ContentBlock {
    Text { text: String },
    /// `input` holds the JSON text of the tool invocation's arguments.
    ToolUse { id: String, name: String, input: String },
    ToolResult { tool_use_id: String, content: String },
}

impl ContentBlock {
    /// A plain text block.
    pub fn text(text: String) -> (r: Self)
        ensures
            r == (ContentBlock::Text { text }),
    {
        ContentBlock::Text { text }
    }
}

#[derive(Debug, Clone, PartialEq)]
pub struct SystemPrompt {
    pub prompt_type: String,
    pub cache_control: Option<CacheControl>,
    pub text: String,
}

#[derive(Debug, Clone, PartialEq)]
pub struct CacheControl {
    pub cache_type: String,
}

#[derive(Debug, Clone, Copy, PartialEq, Eq, Structural)]
pub struct ClaudeCountTokensResponse {
    pub input_tokens: u32,
}

} // verus!
