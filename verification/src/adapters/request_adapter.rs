//! The request translator: maps an inbound "messages" request onto the
//! backend chat-completion shape.  System fragments are joined into one
//! leading system message; message roles map one to one; multi-part
//! contents collapse to their text parts joined with newlines (non-text
//! parts are deliberately not forwarded); tools and the tool choice map
//! field for field; usage accounting is always requested for streams.

use crate::models::claude_messages::{
    ClaudeMessagesRequest, InputMessageContent, InputMessageContentPart, MessageRole,
    SystemMessage, ToolChoice, ToolDefinition,
};
use crate::models::error::AdaptorError;
use crate::models::openai::{
    OpenAIFunctionChoice, OpenAIFunctionDefinition, OpenAIMessage, OpenAIRequest, OpenAIRole,
    OpenAIToolChoice, OpenAIToolDefinition, StreamOptions,
};
use crate::text::{join_lines, join_nl};
use vstd::prelude::*;

verus! {

/// The texts of the text parts of a content-part list, in order; other
/// parts contribute nothing.
pub open spec fn part_texts(ps: Seq<InputMessageContentPart>) -> Seq<Seq<char>>
    decreases ps.len(),
{
    if ps.len() == 0 {
        Seq::empty()
    } else {
        let rest = part_texts(ps.drop_last());
        match ps.last() {
            InputMessageContentPart::Text { text, cache_control } => rest.push(text@),
            InputMessageContentPart::Image { source } => rest,
        }
    }
}

/// The single text a message's content collapses to: the text itself, or
/// the text parts joined with newlines.
pub open spec fn content_text(c: InputMessageContent) -> Seq<char> {
    match c {
        InputMessageContent::Text(t) => t@,
        InputMessageContent::Parts(ps) => join_nl(part_texts(ps@)),
    }
}

/// Inbound roles map one to one onto backend roles.
pub open spec fn map_role(r: MessageRole) -> OpenAIRole {
    match r {
        MessageRole::User => OpenAIRole::User,
        MessageRole::Assistant => OpenAIRole::Assistant,
    }
}

/// The system fragments' texts joined with newlines.
pub open spec fn system_text(ss: Seq<SystemMessage>) -> Seq<char> {
    join_nl(ss.map_values(|m: SystemMessage| m.text@))
}

/// Whether a request carries system fragments: the field is present and
/// holds at least one fragment.  A present but empty list produces no
/// system message.
pub open spec fn has_system(req: ClaudeMessagesRequest) -> bool {
    match req.system {
        Option::Some(ss) => ss@.len() > 0,
        Option::None => false,
    }
}

/// A backend message that carries only a role and a text.
pub open spec fn plain_message(m: OpenAIMessage, role: OpenAIRole, text: Seq<char>) -> bool {
    &&& m.role == role
    &&& m.content matches Option::Some(t) && t@ == text
    &&& m.tool_calls is None
    &&& m.tool_call_id is None
    &&& m.name is None
}

/// One tool definition mapped field for field.
pub open spec fn tool_def_maps(t: ToolDefinition, o: OpenAIToolDefinition) -> bool {
    &&& o.tool_type@ == "function"@
    &&& o.function.name@ == t.name@
    &&& o.function.description matches Option::Some(d) && d@ == t.description@
    &&& o.function.parameters@ == t.input_schema@
}

/// The total tool-choice mapping: each inbound choice maps to exactly one
/// backend value — `NoTools` to the bare string "none", `Auto` to "auto",
/// `Any` to "any", and `Tool(name)` to a function object naming the tool.
pub open spec fn tool_choice_maps_to(c: ToolChoice, o: OpenAIToolChoice) -> bool {
    match c {
        ToolChoice::NoTools => o matches OpenAIToolChoice::Mode(s) && s@ == "none"@,
        ToolChoice::Auto { disable_parallel_tool_use } => o matches OpenAIToolChoice::Mode(s)
            && s@ == "auto"@,
        ToolChoice::Any { disable_parallel_tool_use } => o matches OpenAIToolChoice::Mode(s)
            && s@ == "any"@,
        ToolChoice::Tool { name, disable_parallel_tool_use } => o matches OpenAIToolChoice::Object {
            choice_type,
            function,
        } && choice_type@ == "function"@ && function.name@ == name@,
    }
}

/// What the translated request must look like, clause by clause.
pub open spec fn adapts_request(req: ClaudeMessagesRequest, out: OpenAIRequest) -> bool {
    let sys: int = if has_system(req) {
        1
    } else {
        0
    };
    &&& out.model@ == req.model@
    &&& out.messages@.len() == sys + req.messages@.len()
    &&& (has_system(req) ==> plain_message(
        out.messages@[0],
        OpenAIRole::System,
        system_text((req.system->Some_0)@),
    ))
    &&& forall|i: int|
        0 <= i < req.messages@.len() ==> plain_message(
            out.messages@[sys + i],
            map_role((#[trigger] req.messages@[i]).role),
            content_text(req.messages@[i].content),
        )
    &&& out.max_tokens == req.max_tokens
    &&& out.temperature == req.temperature
    &&& out.top_p == req.top_p
    &&& out.stream == req.stream
    &&& (match req.tools {
        Option::Some(ts) => out.tools matches Option::Some(os) && os@.len() == ts@.len()
            && (forall|i: int| 0 <= i < ts@.len() ==> tool_def_maps(ts@[i], #[trigger] os@[i])),
        Option::None => out.tools is None,
    })
    &&& (match req.tool_choice {
        Option::Some(c) => out.tool_choice matches Option::Some(oc) && tool_choice_maps_to(c, oc),
        Option::None => out.tool_choice is None,
    })
    &&& out.response_format is None
    &&& out.stream_options matches Option::Some(so) && so.include_usage == Option::Some(true)
}

/// Maps one tool choice onto its backend representation; total over the
/// closed variant set and independent of any other request field.
pub fn map_tool_choice(choice: &ToolChoice) -> (r: OpenAIToolChoice)
    ensures
        tool_choice_maps_to(*choice, r),
{
    match choice {
        ToolChoice::NoTools => OpenAIToolChoice::Mode(String::from_str("none")),
        ToolChoice::Auto { disable_parallel_tool_use } => OpenAIToolChoice::Mode(
            String::from_str("auto"),
        ),
        ToolChoice::Any { disable_parallel_tool_use } => OpenAIToolChoice::Mode(
            String::from_str("any"),
        ),
        ToolChoice::Tool { name, disable_parallel_tool_use } => OpenAIToolChoice::Object {
            choice_type: String::from_str("function"),
            function: OpenAIFunctionChoice { name: name.clone() },
        },
    }
}

/// Collapses a content-part list to its text parts joined with newlines.
fn join_part_texts(ps: &Vec<InputMessageContentPart>) -> (r: String)
    ensures
        r@ == join_nl(part_texts(ps@)),
{
    let mut texts: Vec<String> = Vec::new();
    let n = ps.len();
    let mut i: usize = 0;
    while i < n
        invariant
            i <= n,
            n == ps.len(),
            texts.deep_view() == part_texts(ps@.take(i as int)),
        decreases n - i,
    {
        match &ps[i] {
            InputMessageContentPart::Text { text, cache_control } => {
                texts.push(text.clone());
            },
            InputMessageContentPart::Image { source } => {},
        }
        proof {
            assert(ps@.take(i as int + 1).drop_last() =~= ps@.take(i as int));
            assert(ps@.take(i as int + 1).last() == ps@[i as int]);
            match ps@[i as int] {
                InputMessageContentPart::Text { text, cache_control } => {
                    assert(texts.deep_view() =~= part_texts(ps@.take(i as int)).push(text@));
                },
                InputMessageContentPart::Image { source } => {},
            }
        }
        i = i + 1;
    }
    proof {
        assert(ps@.take(n as int) =~= ps@);
    }
    join_lines(&texts)
}

/// Joins the system fragments' texts with newlines.
fn join_system_texts(ss: &Vec<SystemMessage>) -> (r: String)
    ensures
        r@ == system_text(ss@),
{
    let mut texts: Vec<String> = Vec::new();
    let n = ss.len();
    let mut i: usize = 0;
    while i < n
        invariant
            i <= n,
            n == ss.len(),
            texts@.len() == i,
            forall|j: int| 0 <= j < i ==> #[trigger] texts@[j]@ == ss@[j].text@,
        decreases n - i,
    {
        texts.push(ss[i].text.clone());
        i = i + 1;
    }
    let r = join_lines(&texts);
    proof {
        assert(texts.deep_view() =~= ss@.map_values(|m: SystemMessage| m.text@));
    }
    r
}

pub struct ClaudeMessagesToOpenAIAdapter;

impl ClaudeMessagesToOpenAIAdapter {
    /// Translates an inbound request.  Rejects exactly the structurally
    /// unusable requests — those whose model name is empty — and maps
    /// every other request as `adapts_request` describes.
    pub fn adapt(&self, claude_request: ClaudeMessagesRequest) -> (r: Result<
        OpenAIRequest,
        AdaptorError,
    >)
        ensures
            claude_request.model@.len() == 0 ==> (r matches Err(AdaptorError::InvalidRequest(m))
                && m@ == "model must not be empty"@),
            claude_request.model@.len() > 0 ==> (r matches Ok(out) && adapts_request(
                claude_request,
                out,
            )),
    {
        if claude_request.model.as_str().unicode_len() == 0 {
            return Err(AdaptorError::InvalidRequest(String::from_str("model must not be empty")));
        }
        let ghost sys: int = if has_system(claude_request) {
            1int
        } else {
            0int
        };

        let mut messages: Vec<OpenAIMessage> = Vec::new();
        match &claude_request.system {
            Option::Some(system_msges) => {
                if system_msges.len() > 0 {
                    let system_joined = join_system_texts(system_msges);
                    messages.push(
                        OpenAIMessage {
                            role: OpenAIRole::System,
                            content: Option::Some(system_joined),
                            tool_calls: Option::None,
                            tool_call_id: Option::None,
                            name: Option::None,
                        },
                    );
                }
            },
            Option::None => {},
        }

        let claude_msgs = &claude_request.messages;
        let n = claude_msgs.len();
        let mut i: usize = 0;
        while i < n
            invariant
                i <= n,
                n == claude_msgs.len(),
                claude_msgs == &claude_request.messages,
                sys == if has_system(claude_request) {
                    1int
                } else {
                    0int
                },
                messages@.len() == sys + i,
                has_system(claude_request) ==> plain_message(
                    messages@[0],
                    OpenAIRole::System,
                    system_text((claude_request.system->Some_0)@),
                ),
                forall|j: int|
                    0 <= j < i ==> plain_message(
                        #[trigger] messages@[sys + j],
                        map_role(claude_msgs@[j].role),
                        content_text(claude_msgs@[j].content),
                    ),
            decreases n - i,
        {
            let openai_role = match &claude_msgs[i].role {
                MessageRole::User => OpenAIRole::User,
                MessageRole::Assistant => OpenAIRole::Assistant,
            };
            let content_string = match &claude_msgs[i].content {
                InputMessageContent::Text(text) => text.clone(),
                InputMessageContent::Parts(parts) => join_part_texts(parts),
            };
            messages.push(
                OpenAIMessage {
                    role: openai_role,
                    content: Option::Some(content_string),
                    tool_calls: Option::None,
                    tool_call_id: Option::None,
                    name: Option::None,
                },
            );
            i = i + 1;
        }

        let tools: Option<Vec<OpenAIToolDefinition>> = match &claude_request.tools {
            Option::Some(claude_tools) => {
                let mut out_tools: Vec<OpenAIToolDefinition> = Vec::new();
                let tn = claude_tools.len();
                let mut t: usize = 0;
                while t < tn
                    invariant
                        t <= tn,
                        tn == claude_tools.len(),
                        out_tools@.len() == t,
                        forall|j: int|
                            0 <= j < t ==> tool_def_maps(claude_tools@[j], #[trigger] out_tools@[j]),
                    decreases tn - t,
                {
                    out_tools.push(
                        OpenAIToolDefinition {
                            tool_type: String::from_str("function"),
                            function: OpenAIFunctionDefinition {
                                name: claude_tools[t].name.clone(),
                                description: Option::Some(claude_tools[t].description.clone()),
                                parameters: claude_tools[t].input_schema.clone(),
                            },
                        },
                    );
                    t = t + 1;
                }
                Option::Some(out_tools)
            },
            Option::None => Option::None,
        };

        let tool_choice: Option<OpenAIToolChoice> = match &claude_request.tool_choice {
            Option::Some(choice) => Option::Some(map_tool_choice(choice)),
            Option::None => Option::None,
        };

        Ok(
            OpenAIRequest {
                model: claude_request.model,
                messages,
                max_tokens: claude_request.max_tokens,
                temperature: claude_request.temperature,
                top_p: claude_request.top_p,
                stream: claude_request.stream,
                tools,
                tool_choice,
                response_format: Option::None,
                stream_options: Option::Some(
                    StreamOptions { include_usage: Option::Some(true) },
                ),
            },
        )
    }
}

} // verus!
