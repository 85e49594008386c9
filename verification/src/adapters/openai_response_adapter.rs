//! The response translator: maps one non-streamed backend chat-completion
//! response onto the client's response shape.  Only the first choice is
//! read — the backend returns the primary completion at index zero, and
//! further choices are deliberately ignored.  A tool call whose argument
//! text is not valid JSON degrades to a null input instead of failing the
//! whole response.

use crate::models::claude_messages::{ClaudeMessagesResponse, OutputMessageContent, Usage};
use crate::models::openai::{spec_role_name, OpenAIResponse, OpenAIToolCall};
use crate::text::clone_opt_string;
use vstd::prelude::*;

verus! {

/// The text of an optional string, the empty text when absent.
pub open spec fn opt_str_view(o: Option<String>) -> Seq<char> {
    match o {
        Option::Some(s) => s@,
        Option::None => Seq::empty(),
    }
}

/// Whether `serde_json` accepts a text as a JSON document.
pub uninterp spec fn json_accepts(s: Seq<char>) -> bool;

/// Relies on serde_json::from_str::<serde_json::Value>: whether a text
/// parses as JSON is a function of the text alone.
#[verifier::external_body]
fn json_is_valid(s: &str) -> (r: bool)
    ensures
        r == json_accepts(s@),
{
    serde_json::from_str::<serde_json::Value>(s).is_ok()
}

/// A tool-use block carrying one backend tool call: id and name copied;
/// the argument text kept when it is valid JSON, else replaced by "null".
pub open spec fn tool_use_block(b: OutputMessageContent, call: OpenAIToolCall) -> bool {
    &&& b matches OutputMessageContent::Tool_Use { id, name, input } && id@ == call.id@ && name@
        == call.function.name@ && input@ == (if json_accepts(call.function.arguments@) {
        call.function.arguments@
    } else {
        "null"@
    })
}

/// The content blocks of the translated response: one text block when the
/// chosen message has non-empty text, then one tool-use block per backend
/// tool call, in order.
pub open spec fn response_content_ok(
    resp: OpenAIResponse,
    content: Seq<OutputMessageContent>,
) -> bool {
    let msg = resp.choices@[0].message;
    let has_text = opt_str_view(msg.content).len() > 0;
    let off: int = if has_text {
        1
    } else {
        0
    };
    &&& (has_text ==> (content[0] matches OutputMessageContent::Text { text } && text@
        == opt_str_view(msg.content)))
    &&& (match msg.tool_calls {
        Option::Some(cs) => content.len() == off + cs@.len() && (forall|i: int|
            0 <= i < cs@.len() ==> tool_use_block(content[off + i], #[trigger] cs@[i])),
        Option::None => content.len() == off,
    })
}

/// What the translated response must look like, clause by clause: ids and
/// model pass through, the stop reason passes through unchanged, usage is
/// renamed from prompt/completion to input/output (absent usage counts as
/// zero), cache counters stay absent, and the content blocks are as
/// `response_content_ok` describes.
pub open spec fn adapts_response(resp: OpenAIResponse, out: ClaudeMessagesResponse) -> bool {
    &&& out.id@ == resp.id@
    &&& out.model@ == resp.model@
    &&& out.role@ == spec_role_name(resp.choices@[0].message.role)
    &&& out.stop_reason == resp.choices@[0].finish_reason
    &&& out.stop_sequence is None
    &&& out.response_type@ == Seq::<char>::empty()
    &&& out.container is None
    &&& (match resp.usage {
        Option::Some(u) => out.usage.input_tokens == u.prompt_tokens && out.usage.output_tokens
            == u.completion_tokens,
        Option::None => out.usage.input_tokens == 0 && out.usage.output_tokens == 0,
    })
    &&& out.usage.cache_read_input_tokens is None
    &&& out.usage.cache_creation_input_tokens is None
    &&& response_content_ok(resp, out.content@)
}

pub struct OpenAIToClaudeMessagesAdapter;

impl OpenAIToClaudeMessagesAdapter {
    /// Translates one backend response.  Total on its domain: a malformed
    /// tool-call argument substitutes a null input, it never fails.
    pub fn adapt(&self, openai_response: OpenAIResponse) -> (r: ClaudeMessagesResponse)
        requires
            openai_response.choices@.len() >= 1,
        ensures
            adapts_response(openai_response, r),
    {
        let choice = &openai_response.choices[0];
        let ghost has_text = opt_str_view(choice.message.content).len() > 0;
        let ghost off: int = if has_text {
            1int
        } else {
            0int
        };

        let mut content: Vec<OutputMessageContent> = Vec::new();
        match &choice.message.content {
            Option::Some(text) => {
                if text.as_str().unicode_len() > 0 {
                    content.push(OutputMessageContent::Text { text: text.clone() });
                }
            },
            Option::None => {},
        }

        match &choice.message.tool_calls {
            Option::Some(calls) => {
                let n = calls.len();
                let mut i: usize = 0;
                while i < n
                    invariant
                        i <= n,
                        n == calls.len(),
                        calls == &openai_response.choices@[0].message.tool_calls->Some_0,
                        openai_response.choices@.len() >= 1,
                        has_text == (opt_str_view(
                            openai_response.choices@[0].message.content,
                        ).len() > 0),
                        off == if has_text {
                            1int
                        } else {
                            0int
                        },
                        content@.len() == off + i,
                        has_text ==> (content@[0] matches OutputMessageContent::Text { text }
                            && text@ == opt_str_view(
                            openai_response.choices@[0].message.content,
                        )),
                        forall|j: int|
                            0 <= j < i ==> tool_use_block(content@[off + j], #[trigger] calls@[j]),
                    decreases n - i,
                {
                    let call = &calls[i];
                    let input = if json_is_valid(call.function.arguments.as_str()) {
                        call.function.arguments.clone()
                    } else {
                        String::from_str("null")
                    };
                    content.push(
                        OutputMessageContent::Tool_Use {
                            id: call.id.clone(),
                            name: call.function.name.clone(),
                            input,
                        },
                    );
                    i = i + 1;
                }
            },
            Option::None => {},
        }

        let usage = match &openai_response.usage {
            Option::Some(u) => Usage {
                input_tokens: u.prompt_tokens,
                output_tokens: u.completion_tokens,
                cache_read_input_tokens: Option::None,
                cache_creation_input_tokens: Option::None,
            },
            Option::None => Usage {
                input_tokens: 0,
                output_tokens: 0,
                cache_read_input_tokens: Option::None,
                cache_creation_input_tokens: Option::None,
            },
        };

        let role_string = choice.message.role.role_name().to_owned();
        let stop_reason = clone_opt_string(&choice.finish_reason);

        ClaudeMessagesResponse {
            id: openai_response.id.clone(),
            content,
            response_type: String::new(),
            model: openai_response.model.clone(),
            role: role_string,
            stop_reason,
            stop_sequence: Option::None,
            usage,
            container: Option::None,
        }
    }
}

} // verus!
