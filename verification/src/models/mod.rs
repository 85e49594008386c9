pub mod claude;
pub mod claude_count_tokens;
pub mod claude_messages;
pub mod error;
pub mod openai;
pub mod qwen3;
