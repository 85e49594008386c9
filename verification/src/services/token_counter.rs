//! The local token estimator: a deterministic approximation of the input
//! token count of a request, computed from character and word counts alone.
//! It makes no network call and matches no particular tokenizer; it exists
//! only for a fast pre-flight estimate.

use crate::models::claude_count_tokens::{
    ClaudeCountTokensRequest, ClaudeCountTokensResponse, ContentBlock, Message, SystemPrompt,
};
use crate::models::claude_messages::ToolDefinition;
use crate::text::{is_space, is_space_char, lemma_text_tokens_prefix, text_tokens, words_upto};
use vstd::prelude::*;

verus! {

/// `n`, capped at the largest value a `u32` can hold.
pub open spec fn capped(n: nat) -> nat {
    if n <= u32::MAX {
        n
    } else {
        u32::MAX as nat
    }
}

/// Fixed allowance for a tool definition's JSON schema.
pub open spec fn schema_allowance() -> nat {
    50
}

/// The token estimate of one content block: the text it carries — for a
/// tool-use block the serialized JSON input text, for a tool-result block
/// the result text.  Identifiers do not count.
pub open spec fn block_tokens(b: ContentBlock) -> nat {
    match b {
        ContentBlock::Text { text } => text_tokens(text@),
        ContentBlock::ToolUse { id, name, input } => text_tokens(input@),
        ContentBlock::ToolResult { tool_use_id, content } => text_tokens(content@),
    }
}

pub open spec fn blocks_tokens(bs: Seq<ContentBlock>) -> nat
    decreases bs.len(),
{
    if bs.len() == 0 {
        0
    } else {
        blocks_tokens(bs.drop_last()) + block_tokens(bs.last())
    }
}

pub open spec fn messages_tokens(ms: Seq<Message>) -> nat
    decreases ms.len(),
{
    if ms.len() == 0 {
        0
    } else {
        messages_tokens(ms.drop_last()) + blocks_tokens(ms.last().content@)
    }
}

pub open spec fn system_tokens(ss: Seq<SystemPrompt>) -> nat
    decreases ss.len(),
{
    if ss.len() == 0 {
        0
    } else {
        system_tokens(ss.drop_last()) + text_tokens(ss.last().text@)
    }
}

/// A tool definition counts its name, its description, and a fixed
/// allowance for its schema.
pub open spec fn tools_tokens(ts: Seq<ToolDefinition>) -> nat
    decreases ts.len(),
{
    if ts.len() == 0 {
        0
    } else {
        tools_tokens(ts.drop_last()) + text_tokens(ts.last().name@) + text_tokens(
            ts.last().description@,
        ) + schema_allowance()
    }
}

/// The token estimate of a whole request: all message blocks, all system
/// prompts, and all tool definitions.  An absent part contributes nothing.
pub open spec fn request_tokens(req: ClaudeCountTokensRequest) -> nat {
    (match req.messages {
        Option::Some(ms) => messages_tokens(ms@),
        Option::None => 0,
    }) + (match req.system {
        Option::Some(ss) => system_tokens(ss@),
        Option::None => 0,
    }) + (match req.tools {
        Option::Some(ts) => tools_tokens(ts@),
        Option::None => 0,
    })
}

/// Addition on `u32` that sticks at the maximum instead of wrapping.
fn sat_add(a: u32, b: u32) -> (r: u32)
    ensures
        r as nat == capped(a as nat + b as nat),
{
    let s: u64 = a as u64 + b as u64;
    if s > u32::MAX as u64 {
        u32::MAX
    } else {
        s as u32
    }
}

pub struct TokenCounter;

impl TokenCounter {
    /// The token estimate for one text: the average of a character-based
    /// guess (a quarter of the character count) and a word-based guess
    /// (thirteen tenths of the word count), rounded up and capped at
    /// `u32::MAX`.
    pub fn estimate_tokens(text: &str) -> (r: u32)
        ensures
            r as nat == capped(text_tokens(text@)),
    {
        let n = text.unicode_len();
        let mut words: usize = 0;
        let mut prev_space: bool = true;
        let mut i: usize = 0;
        while i < n
            invariant
                i <= n,
                n == text@.len(),
                words == words_upto(text@, i as int),
                words <= i,
                prev_space == (i == 0 || is_space_char(text@[i as int - 1])),
            decreases n - i,
        {
            let c = text.get_char(i);
            let sp = is_space(c);
            if !sp && prev_space {
                words = words + 1;
            }
            prev_space = sp;
            i = i + 1;
        }
        let total: u128 = (5 * (n as u128) + 26 * (words as u128) + 39) / 40;
        proof {
            assert(total == text_tokens(text@));
        }
        if total > u32::MAX as u128 {
            u32::MAX
        } else {
            total as u32
        }
    }

    /// The token estimate of one content block, capped at `u32::MAX`.
    pub fn count_content_block_tokens(content_block: &ContentBlock) -> (r: u32)
        ensures
            r as nat == capped(block_tokens(*content_block)),
    {
        match content_block {
            ContentBlock::Text { text } => Self::estimate_tokens(text.as_str()),
            ContentBlock::ToolUse { id, name, input } => Self::estimate_tokens(input.as_str()),
            ContentBlock::ToolResult { tool_use_id, content } => Self::estimate_tokens(
                content.as_str(),
            ),
        }
    }

    /// The token estimate of a whole request, capped at `u32::MAX`.  An
    /// empty request estimates to zero.
    pub fn count_tokens(request: ClaudeCountTokensRequest) -> (r: ClaudeCountTokensResponse)
        ensures
            r.input_tokens as nat == capped(request_tokens(request)),
    {
        let mut total: u32 = 0;
        let ghost mut done: nat = 0;

        match &request.messages {
            Option::Some(messages) => {
                let n = messages.len();
                let mut i: usize = 0;
                while i < n
                    invariant
                        i <= n,
                        n == messages.len(),
                        done == messages_tokens(messages@.take(i as int)),
                        total as nat == capped(done),
                    decreases n - i,
                {
                    let blocks = &messages[i].content;
                    let m = blocks.len();
                    let mut j: usize = 0;
                    while j < m
                        invariant
                            j <= m,
                            i < n,
                            n == messages.len(),
                            m == blocks.len(),
                            blocks == &messages[i as int].content,
                            done == messages_tokens(messages@.take(i as int)) + blocks_tokens(
                                blocks@.take(j as int),
                            ),
                            total as nat == capped(done),
                        decreases m - j,
                    {
                        total = sat_add(total, Self::count_content_block_tokens(&blocks[j]));
                        proof {
                            assert(blocks@.take(j as int + 1).drop_last() =~= blocks@.take(
                                j as int,
                            ));
                            done = done + block_tokens(blocks@[j as int]);
                        }
                        j = j + 1;
                    }
                    proof {
                        assert(messages@.take(i as int + 1).drop_last() =~= messages@.take(
                            i as int,
                        ));
                        assert(blocks@.take(m as int) =~= blocks@);
                    }
                    i = i + 1;
                }
                proof {
                    assert(messages@.take(n as int) =~= messages@);
                }
            },
            Option::None => {},
        }

        match &request.system {
            Option::Some(system) => {
                let ghost base: nat = done;
                let n = system.len();
                let mut i: usize = 0;
                while i < n
                    invariant
                        i <= n,
                        n == system.len(),
                        done == base + system_tokens(system@.take(i as int)),
                        total as nat == capped(done),
                    decreases n - i,
                {
                    total = sat_add(total, Self::estimate_tokens(system[i].text.as_str()));
                    proof {
                        assert(system@.take(i as int + 1).drop_last() =~= system@.take(i as int));
                        done = done + text_tokens(system@[i as int].text@);
                    }
                    i = i + 1;
                }
                proof {
                    assert(system@.take(n as int) =~= system@);
                }
            },
            Option::None => {},
        }

        match &request.tools {
            Option::Some(tools) => {
                let ghost base: nat = done;
                let n = tools.len();
                let mut i: usize = 0;
                while i < n
                    invariant
                        i <= n,
                        n == tools.len(),
                        done == base + tools_tokens(tools@.take(i as int)),
                        total as nat == capped(done),
                    decreases n - i,
                {
                    total = sat_add(total, Self::estimate_tokens(tools[i].name.as_str()));
                    total = sat_add(total, Self::estimate_tokens(tools[i].description.as_str()));
                    total = sat_add(total, 50);
                    proof {
                        assert(tools@.take(i as int + 1).drop_last() =~= tools@.take(i as int));
                        done = done + text_tokens(tools@[i as int].name@) + text_tokens(
                            tools@[i as int].description@,
                        ) + schema_allowance();
                    }
                    i = i + 1;
                }
                proof {
                    assert(tools@.take(n as int) =~= tools@);
                }
            },
            Option::None => {},
        }

        ClaudeCountTokensResponse { input_tokens: total }
    }
}

/// Extending a text never lowers its token estimate: for any text and any
/// extension of it, the estimate of the prefix is at most the estimate of
/// the whole, both exactly and after capping.
pub proof fn lemma_estimate_monotone_on_prefix(shorter: Seq<char>, longer: Seq<char>)
    requires
        shorter.is_prefix_of(longer),
    ensures
        text_tokens(shorter) <= text_tokens(longer),
        capped(text_tokens(shorter)) <= capped(text_tokens(longer)),
{
    lemma_text_tokens_prefix(shorter, longer);
}

} // verus!
