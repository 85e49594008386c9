//! The streaming translator: a per-stream state machine that turns each
//! backend chunk into exactly one outbound event.  Chunks arrive framed as
//! "data: <json>" lines; a literal "data: [DONE]" line ends the stream and
//! passes through unchanged.  An undecodable chunk degrades to an opaque
//! pass-through event — never silently dropped — so that already-emitted
//! events stay valid.
//!
//! Rules are tried in a fixed order per chunk: a first role-bearing chunk
//! starts the message; then a text delta, then a tool-call delta, then a
//! finish reason; a chunk with an empty choice list and a usage record
//! emits the final usage.  When one chunk carries both a text and a
//! tool-call fragment the text wins — the earlier rule fires — and the
//! tool fragment of that chunk is not forwarded; only one content block
//! slot is tracked.

use crate::models::claude_messages::Usage;
use crate::models::openai::{
    OpenAIRole, OpenAIStreamResponse, OpenAIToolCallDelta, OpenAIUsage,
};
use crate::text::{
    clone_opt_string, str_eq, str_has_prefix, strip_prefix_loop, strip_prefix_rep, trim_spaces,
    trim_str,
};
use vstd::prelude::*;

verus! {

/// Where a stream stands: nothing seen, message started, deltas flowing,
/// or finished.  The phase is informational, not a gate: chunks arriving
/// after `Done` are still translated by the same rules.
#[derive(Debug, Clone, Copy, PartialEq, Eq, Structural)]
pub enum StreamPhase {
    Init,
    Started,
    Streaming,
    Done,
}

/// Which kind of content block the single tracked slot holds.
#[derive(Debug, Clone, Copy, PartialEq, Eq, Structural)]
pub enum ActiveBlock {
    NoBlock,
    TextBlock,
    ToolBlock,
}

/// The payload of a content-block delta event.
#[derive(Debug, Clone, PartialEq)]
pub enum BlockDelta {
    TextDelta { text: String },
    /// A tool-call fragment, forwarded as given: the argument fragment is
    /// a raw partial string, not validated as JSON here.
    ToolDelta { id: Option<String>, name: Option<String>, arguments: Option<String> },
}

/// One outbound streaming event.  Every chunk yields exactly one event.
#[derive(Debug, Clone, PartialEq)]
pub enum StreamEvent {
    MessageStart { id: String, role: OpenAIRole },
    ContentBlockDelta { index: u32, delta: BlockDelta },
    MessageStop { stop_reason: String },
    UsageFinal { usage: Usage },
    Opaque { raw: String },
}

/// One wire chunk after framing: the terminal sentinel, the JSON payload
/// of a data line, or a line to pass through untouched.
#[derive(Debug, Clone, PartialEq)]
pub enum FramedChunk {
    Terminal,
    Payload(String),
    Passthrough(String),
}

/// A backend usage record renamed onto the client shape; the backend
/// reports no cache counters, so those stay absent.
pub open spec fn usage_of(u: OpenAIUsage) -> Usage {
    Usage {
        input_tokens: u.prompt_tokens,
        output_tokens: u.completion_tokens,
        cache_read_input_tokens: Option::None,
        cache_creation_input_tokens: Option::None,
    }
}

/// The delta event payload carrying one backend tool-call fragment.
pub open spec fn tool_delta_of(t: OpenAIToolCallDelta) -> BlockDelta {
    BlockDelta::ToolDelta {
        id: t.id,
        name: match t.function {
            Option::Some(f) => f.name,
            Option::None => Option::None,
        },
        arguments: match t.function {
            Option::Some(f) => f.arguments,
            Option::None => Option::None,
        },
    }
}

/// The per-stream translator state: one instance per stream, never shared.
pub struct OpenAIStreamToClaudeStreamAdapter {
    pub phase: StreamPhase,
    pub active: ActiveBlock,
    /// The id of the tool call in progress, once a fragment has carried one.
    pub tool_id: Option<String>,
    /// The name of the tool call in progress, once a fragment has carried one.
    pub tool_name: Option<String>,
}

impl OpenAIStreamToClaudeStreamAdapter {
    /// The whole transition relation: from a state and one decoded chunk
    /// (`None` when the payload did not decode), the next state and the
    /// one event the chunk yields.
    pub open spec fn spec_step(
        pre: Self,
        parsed: Option<OpenAIStreamResponse>,
        raw: String,
    ) -> (Self, StreamEvent) {
        match parsed {
            Option::None => (pre, StreamEvent::Opaque { raw }),
            Option::Some(c) => {
                if c.choices@.len() == 0 {
                    match c.usage {
                        Option::Some(u) => (
                            Self {
                                phase: StreamPhase::Done,
                                active: pre.active,
                                tool_id: pre.tool_id,
                                tool_name: pre.tool_name,
                            },
                            StreamEvent::UsageFinal { usage: usage_of(u) },
                        ),
                        Option::None => (pre, StreamEvent::Opaque { raw }),
                    }
                } else {
                    let ch = c.choices@[0];
                    if ch.delta.role is Some && pre.phase is Init {
                        (
                            Self {
                                phase: StreamPhase::Started,
                                active: pre.active,
                                tool_id: pre.tool_id,
                                tool_name: pre.tool_name,
                            },
                            StreamEvent::MessageStart {
                                id: c.id,
                                role: ch.delta.role->Some_0,
                            },
                        )
                    } else if ch.delta.content is Some {
                        (
                            Self {
                                phase: StreamPhase::Streaming,
                                active: ActiveBlock::TextBlock,
                                tool_id: pre.tool_id,
                                tool_name: pre.tool_name,
                            },
                            StreamEvent::ContentBlockDelta {
                                index: 0,
                                delta: BlockDelta::TextDelta {
                                    text: ch.delta.content->Some_0,
                                },
                            },
                        )
                    } else if ch.delta.tool_calls is Some && (ch.delta.tool_calls->Some_0)@.len()
                        > 0 {
                        let t = (ch.delta.tool_calls->Some_0)@[0];
                        (
                            Self {
                                phase: StreamPhase::Streaming,
                                active: ActiveBlock::ToolBlock,
                                tool_id: if t.id is Some {
                                    t.id
                                } else {
                                    pre.tool_id
                                },
                                tool_name: if t.function matches Option::Some(f) && f.name is Some {
                                    (t.function->Some_0).name
                                } else {
                                    pre.tool_name
                                },
                            },
                            StreamEvent::ContentBlockDelta { index: 0, delta: tool_delta_of(t) },
                        )
                    } else if ch.finish_reason is Some {
                        (
                            Self {
                                phase: StreamPhase::Done,
                                active: pre.active,
                                tool_id: pre.tool_id,
                                tool_name: pre.tool_name,
                            },
                            StreamEvent::MessageStop {
                                stop_reason: ch.finish_reason->Some_0,
                            },
                        )
                    } else {
                        (pre, StreamEvent::Opaque { raw })
                    }
                }
            },
        }
    }

    /// A fresh translator, created when a stream begins.
    pub fn new() -> (r: Self)
        ensures
            r.phase is Init,
            r.active is NoBlock,
            r.tool_id is None,
            r.tool_name is None,
    {
        OpenAIStreamToClaudeStreamAdapter {
            phase: StreamPhase::Init,
            active: ActiveBlock::NoBlock,
            tool_id: Option::None,
            tool_name: Option::None,
        }
    }

    /// Translates the payload of one data line.  `parsed` is the decoded
    /// chunk, `None` when the payload was not decodable; `raw` is the
    /// payload text, returned untouched in the opaque case.  Whatever was
    /// handed in, the step follows `spec_step` exactly.
    pub fn next_payload(
        &mut self,
        parsed: Option<OpenAIStreamResponse>,
        raw: String,
    ) -> (e: StreamEvent)
        ensures
            *final(self) == Self::spec_step(*old(self), parsed, raw).0,
            e == Self::spec_step(*old(self), parsed, raw).1,
    {
        match &parsed {
            Option::None => StreamEvent::Opaque { raw },
            Option::Some(c) => {
                if c.choices.len() == 0 {
                    match &c.usage {
                        Option::Some(u) => {
                            self.phase = StreamPhase::Done;
                            StreamEvent::UsageFinal {
                                usage: Usage {
                                    input_tokens: u.prompt_tokens,
                                    output_tokens: u.completion_tokens,
                                    cache_read_input_tokens: Option::None,
                                    cache_creation_input_tokens: Option::None,
                                },
                            }
                        },
                        Option::None => StreamEvent::Opaque { raw },
                    }
                } else {
                    let ch = &c.choices[0];
                    let role_opt = ch.delta.role;
                    let is_init = match self.phase {
                        StreamPhase::Init => true,
                        _ => false,
                    };
                    match role_opt {
                        Option::Some(role) if is_init => {
                            self.phase = StreamPhase::Started;
                            return StreamEvent::MessageStart { id: c.id.clone(), role };
                        },
                        _ => {},
                    }
                    match &ch.delta.content {
                        Option::Some(text) => {
                            self.phase = StreamPhase::Streaming;
                            self.active = ActiveBlock::TextBlock;
                            return StreamEvent::ContentBlockDelta {
                                index: 0,
                                delta: BlockDelta::TextDelta { text: text.clone() },
                            };
                        },
                        Option::None => {},
                    }
                    match &ch.delta.tool_calls {
                        Option::Some(tcs) => {
                            if tcs.len() > 0 {
                                let t = &tcs[0];
                                if t.id.is_some() {
                                    self.tool_id = clone_opt_string(&t.id);
                                }
                                match &t.function {
                                    Option::Some(f) => {
                                        if f.name.is_some() {
                                            self.tool_name = clone_opt_string(&f.name);
                                        }
                                    },
                                    Option::None => {},
                                }
                                self.phase = StreamPhase::Streaming;
                                self.active = ActiveBlock::ToolBlock;
                                let name = match &t.function {
                                    Option::Some(f) => clone_opt_string(&f.name),
                                    Option::None => Option::None,
                                };
                                let arguments = match &t.function {
                                    Option::Some(f) => clone_opt_string(&f.arguments),
                                    Option::None => Option::None,
                                };
                                return StreamEvent::ContentBlockDelta {
                                    index: 0,
                                    delta: BlockDelta::ToolDelta {
                                        id: clone_opt_string(&t.id),
                                        name,
                                        arguments,
                                    },
                                };
                            }
                        },
                        Option::None => {},
                    }
                    match &ch.finish_reason {
                        Option::Some(reason) => {
                            self.phase = StreamPhase::Done;
                            return StreamEvent::MessageStop { stop_reason: reason.clone() };
                        },
                        Option::None => {},
                    }
                    StreamEvent::Opaque { raw }
                }
            },
        }
    }

    /// Translates the terminal "[DONE]" sentinel: the stream is over and
    /// the sentinel passes through unchanged as an opaque event.
    pub fn next_terminal(&mut self) -> (e: StreamEvent)
        ensures
            final(self).phase is Done,
            final(self).active == old(self).active,
            final(self).tool_id == old(self).tool_id,
            final(self).tool_name == old(self).tool_name,
            e matches StreamEvent::Opaque { raw } && raw@ == "[DONE]"@,
    {
        self.phase = StreamPhase::Done;
        StreamEvent::Opaque { raw: String::from_str("[DONE]") }
    }

    /// Translates a line that is not a data line: it passes through
    /// unchanged and the state does not move.
    pub fn next_passthrough(&mut self, raw: String) -> (e: StreamEvent)
        ensures
            *final(self) == *old(self),
            e == (StreamEvent::Opaque { raw }),
    {
        StreamEvent::Opaque { raw }
    }
}

/// How `text` must be framed: a line starting with "data: " has every
/// such prefix stripped and surrounding spaces trimmed; the remainder is
/// the terminal sentinel when it reads "[DONE]" and the JSON payload
/// otherwise; any other line passes through untouched.
pub open spec fn frame_of(s: Seq<char>, f: FramedChunk) -> bool {
    if "data: "@.is_prefix_of(s) {
        let payload = trim_spaces(strip_prefix_rep(s, "data: "@));
        if payload == "[DONE]"@ {
            f is Terminal
        } else {
            f matches FramedChunk::Payload(p) && p@ == payload
        }
    } else {
        f matches FramedChunk::Passthrough(t) && t@ == s
    }
}

/// Splits one wire line into its framed form.
pub fn frame_chunk(text: &str) -> (r: FramedChunk)
    ensures
        frame_of(text@, r),
{
    proof {
        reveal_strlit("data: ");
    }
    if str_has_prefix(text, "data: ") {
        let stripped = strip_prefix_loop(text, "data: ");
        let payload = trim_str(stripped);
        if str_eq(payload, "[DONE]") {
            FramedChunk::Terminal
        } else {
            FramedChunk::Payload(payload.to_owned())
        }
    } else {
        FramedChunk::Passthrough(text.to_owned())
    }
}

} // verus!
