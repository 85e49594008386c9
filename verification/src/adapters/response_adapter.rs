//! Response translators for the native Qwen backend path: one for a whole
//! response, one for a streamed chunk.  Each reads the first choice only
//! and stamps the translated response with a fresh request id.

use crate::models::claude::{
    ClaudeChoice, ClaudeDelta, ClaudeMessageWithTools, ClaudeResponse, ClaudeRole,
    ClaudeStreamChoice, ClaudeStreamResponse, ClaudeUsage, ToolCall, ToolCallFunction,
};
use crate::models::error::AdaptorError;
use crate::models::qwen3::{QwenResponse, QwenStreamResponse, ToolCallResponse};
use crate::text::clone_opt_string;
use vstd::prelude::*;

verus! {

/// Relies on uuid::Uuid::new_v4 and its display form: a fresh random
/// identifier rendered hyphenated, which is always 36 characters long.
/// Nothing further is promised of a random value.
#[verifier::external_body]
fn new_request_id() -> (r: String)
    ensures
        r@.len() == 36,
{
    uuid::Uuid::new_v4().to_string()
}

/// A translator from one backend response shape to one client shape.
pub trait ResponseAdapter {
    type Source;
    type Target;

    /// The inputs the translator is defined on.
    spec fn accepts(&self, from: &Self::Source) -> bool;

    /// Whether `to` is the translation of `from`.
    spec fn adapts(&self, from: &Self::Source, to: &Self::Target) -> bool;

    fn adapt(&self, from: Self::Source) -> (r: Result<Self::Target, AdaptorError>)
        requires
            self.accepts(&from),
        ensures
            r matches Ok(to) && self.adapts(&from, &to),
    ;
}

/// One backend tool call copied field for field.
pub open spec fn tool_call_maps(q: ToolCallResponse, c: ToolCall) -> bool {
    &&& c.id@ == q.id@
    &&& c.call_type@ == q.call_type@
    &&& c.function.name@ == q.function.name@
    &&& c.function.arguments@ == q.function.arguments@
}

/// The translated response: a fresh 36-character id, the fixed model
/// name, usage copied, and a single choice carrying the first backend
/// choice's text, finish reason and tool calls.
pub open spec fn qwen_response_maps(q: QwenResponse, c: ClaudeResponse) -> bool {
    let choice = q.output.choices@[0];
    &&& c.id@.len() == 36
    &&& c.model@ == "qwen3-coder"@
    &&& c.usage.input_tokens == q.usage.input_tokens
    &&& c.usage.output_tokens == q.usage.output_tokens
    &&& c.choices@.len() == 1
    &&& c.choices@[0].index == 0
    &&& c.choices@[0].finish_reason == choice.finish_reason
    &&& c.choices@[0].message.role is Assistant
    &&& c.choices@[0].message.content matches Option::Some(t) && t@ == choice.message.content@
    &&& (match choice.tool_calls {
        Option::Some(calls) => c.choices@[0].message.tool_calls matches Option::Some(out)
            && out@.len() == calls@.len() && (forall|i: int|
            0 <= i < calls@.len() ==> tool_call_maps(calls@[i], #[trigger] out@[i])),
        Option::None => c.choices@[0].message.tool_calls is None,
    })
}

/// The translated stream chunk: a fresh 36-character id, the fixed model
/// name, and a single choice carrying the first backend choice's text and
/// finish reason.
pub open spec fn qwen_stream_maps(q: QwenStreamResponse, c: ClaudeStreamResponse) -> bool {
    let choice = q.output.choices@[0];
    &&& c.id@.len() == 36
    &&& c.model@ == "qwen3-coder"@
    &&& c.choices@.len() == 1
    &&& c.choices@[0].index == 0
    &&& c.choices@[0].finish_reason == choice.finish_reason
    &&& c.choices@[0].delta.content matches Option::Some(t) && t@ == choice.message.content@
}

pub struct QwenToClaudeAdapter;

impl ResponseAdapter for QwenToClaudeAdapter {
    type Source = QwenResponse;

    type Target = ClaudeResponse;

    open spec fn accepts(&self, from: &QwenResponse) -> bool {
        from.output.choices@.len() >= 1
    }

    open spec fn adapts(&self, from: &QwenResponse, to: &ClaudeResponse) -> bool {
        qwen_response_maps(*from, *to)
    }

    fn adapt(&self, qwen_response: QwenResponse) -> (r: Result<ClaudeResponse, AdaptorError>) {
        let choice = &qwen_response.output.choices[0];

        let tool_calls: Option<Vec<ToolCall>> = match &choice.tool_calls {
            Option::Some(calls) => {
                let mut out: Vec<ToolCall> = Vec::new();
                let n = calls.len();
                let mut i: usize = 0;
                while i < n
                    invariant
                        i <= n,
                        n == calls.len(),
                        out@.len() == i,
                        forall|j: int|
                            0 <= j < i ==> tool_call_maps(calls@[j], #[trigger] out@[j]),
                    decreases n - i,
                {
                    out.push(
                        ToolCall {
                            id: calls[i].id.clone(),
                            call_type: calls[i].call_type.clone(),
                            function: ToolCallFunction {
                                name: calls[i].function.name.clone(),
                                arguments: calls[i].function.arguments.clone(),
                            },
                        },
                    );
                    i = i + 1;
                }
                Option::Some(out)
            },
            Option::None => Option::None,
        };

        let message = ClaudeMessageWithTools {
            role: ClaudeRole::Assistant,
            content: Option::Some(choice.message.content.clone()),
            tool_calls,
        };

        let mut choices: Vec<ClaudeChoice> = Vec::new();
        choices.push(
            ClaudeChoice {
                message,
                finish_reason: clone_opt_string(&choice.finish_reason),
                index: 0,
            },
        );

        Ok(
            ClaudeResponse {
                id: new_request_id(),
                model: String::from_str("qwen3-coder"),
                usage: ClaudeUsage {
                    input_tokens: qwen_response.usage.input_tokens,
                    output_tokens: qwen_response.usage.output_tokens,
                },
                choices,
            },
        )
    }
}

pub struct QwenToClaudeStreamAdapter;

impl ResponseAdapter for QwenToClaudeStreamAdapter {
    type Source = QwenStreamResponse;

    type Target = ClaudeStreamResponse;

    open spec fn accepts(&self, from: &QwenStreamResponse) -> bool {
        from.output.choices@.len() >= 1
    }

    open spec fn adapts(&self, from: &QwenStreamResponse, to: &ClaudeStreamResponse) -> bool {
        qwen_stream_maps(*from, *to)
    }

    fn adapt(&self, qwen_response: QwenStreamResponse) -> (r: Result<
        ClaudeStreamResponse,
        AdaptorError,
    >) {
        let choice = &qwen_response.output.choices[0];
        let delta = ClaudeDelta { content: Option::Some(choice.message.content.clone()) };

        let mut choices: Vec<ClaudeStreamChoice> = Vec::new();
        choices.push(
            ClaudeStreamChoice {
                delta,
                finish_reason: clone_opt_string(&choice.finish_reason),
                index: 0,
            },
        );

        Ok(
            ClaudeStreamResponse {
                id: new_request_id(),
                model: String::from_str("qwen3-coder"),
                choices,
            },
        )
    }
}

} // verus!
