use claude_adaptor::adapters::openai_stream_adapter::{
    BlockDelta, FramedChunk, OpenAIStreamToClaudeStreamAdapter, StreamEvent,
};
use claude_adaptor::models::openai::{
    OpenAIDelta, OpenAIRole, OpenAIStreamChoice, OpenAIStreamResponse, OpenAIToolCallDelta,
    OpenAIToolCallFunctionDelta, OpenAIUsage,
};

fn chunk_with(delta: OpenAIDelta, finish_reason: Option<String>) -> OpenAIStreamResponse {
    OpenAIStreamResponse {
        id: "chatcmpl-s".to_string(),
        object: "chat.completion.chunk".to_string(),
        created: 0,
        model: "qwen3-coder".to_string(),
        choices: vec![OpenAIStreamChoice {
            index: 0,
            delta,
            finish_reason,
        }],
        usage: None,
        system_fingerprint: None,
    }
}

fn role_chunk() -> OpenAIStreamResponse {
    chunk_with(
        OpenAIDelta {
            role: Some(OpenAIRole::Assistant),
            content: None,
            tool_calls: None,
        },
        None,
    )
}

fn text_chunk(text: &str) -> OpenAIStreamResponse {
    chunk_with(
        OpenAIDelta {
            role: None,
            content: Some(text.to_string()),
            tool_calls: None,
        },
        None,
    )
}

fn finish_chunk(reason: &str) -> OpenAIStreamResponse {
    chunk_with(
        OpenAIDelta {
            role: None,
            content: None,
            tool_calls: None,
        },
        Some(reason.to_string()),
    )
}

#[test]
fn test_stream_basic_sequence() {
    let mut translator = OpenAIStreamToClaudeStreamAdapter::new();

    let e1 = translator.next_payload(Some(role_chunk()), "raw1".to_string());
    match e1 {
        StreamEvent::MessageStart { id, role } => {
            assert_eq!(id, "chatcmpl-s");
            assert_eq!(role, OpenAIRole::Assistant);
        }
        other => panic!("expected a message start, got {:?}", other),
    }

    let e2 = translator.next_payload(Some(text_chunk("Hello")), "raw2".to_string());
    match e2 {
        StreamEvent::ContentBlockDelta { index, delta } => {
            assert_eq!(index, 0);
            match delta {
                BlockDelta::TextDelta { text } => assert_eq!(text, "Hello"),
                other => panic!("expected a text delta, got {:?}", other),
            }
        }
        other => panic!("expected a content delta, got {:?}", other),
    }

    let e3 = translator.next_payload(Some(text_chunk(" world")), "raw3".to_string());
    match e3 {
        StreamEvent::ContentBlockDelta { delta, .. } => match delta {
            BlockDelta::TextDelta { text } => assert_eq!(text, " world"),
            other => panic!("expected a text delta, got {:?}", other),
        },
        other => panic!("expected a content delta, got {:?}", other),
    }

    let e4 = translator.next_payload(Some(finish_chunk("stop")), "raw4".to_string());
    match e4 {
        StreamEvent::MessageStop { stop_reason } => assert_eq!(stop_reason, "stop"),
        other => panic!("expected a message stop, got {:?}", other),
    }
}

#[test]
fn test_stream_usage_final() {
    let mut translator = OpenAIStreamToClaudeStreamAdapter::new();
    let chunk = OpenAIStreamResponse {
        id: "chatcmpl-s".to_string(),
        object: "chat.completion.chunk".to_string(),
        created: 0,
        model: "qwen3-coder".to_string(),
        choices: vec![],
        usage: Some(OpenAIUsage {
            prompt_tokens: 10,
            completion_tokens: 5,
            total_tokens: 15,
        }),
        system_fingerprint: None,
    };
    let e = translator.next_payload(Some(chunk), "raw".to_string());
    match e {
        StreamEvent::UsageFinal { usage } => {
            assert_eq!(usage.input_tokens, 10);
            assert_eq!(usage.output_tokens, 5);
            assert!(usage.cache_read_input_tokens.is_none());
        }
        other => panic!("expected a final usage event, got {:?}", other),
    }
}

#[test]
fn test_stream_role_only_first_time() {
    let mut translator = OpenAIStreamToClaudeStreamAdapter::new();
    let first = translator.next_payload(Some(role_chunk()), "r1".to_string());
    assert!(matches!(first, StreamEvent::MessageStart { .. }));

    // A later chunk that carries a role again (and nothing else) is not a
    // second message start; it falls through to the opaque rule.
    let again = translator.next_payload(Some(role_chunk()), "r2".to_string());
    match again {
        StreamEvent::Opaque { raw } => assert_eq!(raw, "r2"),
        other => panic!("expected an opaque event, got {:?}", other),
    }
}

#[test]
fn test_stream_tool_delta_records_id_and_name() {
    let mut translator = OpenAIStreamToClaudeStreamAdapter::new();
    let chunk = chunk_with(
        OpenAIDelta {
            role: None,
            content: None,
            tool_calls: Some(vec![OpenAIToolCallDelta {
                index: Some(0),
                id: Some("call-9".to_string()),
                tool_type: Some("function".to_string()),
                function: Some(OpenAIToolCallFunctionDelta {
                    name: Some("get_weather".to_string()),
                    arguments: Some("{\"ci".to_string()),
                }),
            }]),
        },
        None,
    );
    let e = translator.next_payload(Some(chunk), "raw".to_string());
    match e {
        StreamEvent::ContentBlockDelta { index, delta } => {
            assert_eq!(index, 0);
            match delta {
                BlockDelta::ToolDelta {
                    id,
                    name,
                    arguments,
                } => {
                    assert_eq!(id, Some("call-9".to_string()));
                    assert_eq!(name, Some("get_weather".to_string()));
                    assert_eq!(arguments, Some("{\"ci".to_string()));
                }
                other => panic!("expected a tool delta, got {:?}", other),
            }
        }
        other => panic!("expected a content delta, got {:?}", other),
    }
    assert_eq!(translator.tool_id, Some("call-9".to_string()));
    assert_eq!(translator.tool_name, Some("get_weather".to_string()));
}

#[test]
fn test_stream_undecodable_chunk_is_opaque() {
    let mut translator = OpenAIStreamToClaudeStreamAdapter::new();
    let e = translator.next_payload(None, "{broken".to_string());
    match e {
        StreamEvent::Opaque { raw } => assert_eq!(raw, "{broken"),
        other => panic!("expected an opaque event, got {:?}", other),
    }
}

#[test]
fn test_stream_text_wins_over_tool_in_one_chunk() {
    let mut translator = OpenAIStreamToClaudeStreamAdapter::new();
    let chunk = chunk_with(
        OpenAIDelta {
            role: None,
            content: Some("text".to_string()),
            tool_calls: Some(vec![OpenAIToolCallDelta {
                index: Some(0),
                id: Some("call-1".to_string()),
                tool_type: None,
                function: None,
            }]),
        },
        None,
    );
    let e = translator.next_payload(Some(chunk), "raw".to_string());
    assert!(matches!(
        e,
        StreamEvent::ContentBlockDelta {
            delta: BlockDelta::TextDelta { .. },
            ..
        }
    ));
}

#[test]
fn test_frame_chunk_payload() {
    let framed = claude_adaptor::adapters::openai_stream_adapter::frame_chunk(
        "data: {\"id\":\"x\"}\n\n",
    );
    match framed {
        FramedChunk::Payload(p) => assert_eq!(p, "{\"id\":\"x\"}"),
        other => panic!("expected a payload, got {:?}", other),
    }
}

#[test]
fn test_frame_chunk_done() {
    let framed =
        claude_adaptor::adapters::openai_stream_adapter::frame_chunk("data: [DONE]\n\n");
    assert!(matches!(framed, FramedChunk::Terminal));
}

#[test]
fn test_frame_chunk_passthrough() {
    let framed = claude_adaptor::adapters::openai_stream_adapter::frame_chunk(": keep-alive");
    match framed {
        FramedChunk::Passthrough(t) => assert_eq!(t, ": keep-alive"),
        other => panic!("expected a passthrough, got {:?}", other),
    }
}

#[test]
fn test_next_terminal_passes_done_through() {
    let mut translator = OpenAIStreamToClaudeStreamAdapter::new();
    let e = translator.next_terminal();
    match e {
        StreamEvent::Opaque { raw } => assert_eq!(raw, "[DONE]"),
        other => panic!("expected an opaque event, got {:?}", other),
    }
}

#[test]
fn test_frame_chunk_strips_repeated_prefix_and_spaces() {
    let framed = claude_adaptor::adapters::openai_stream_adapter::frame_chunk(
        "data: data:  {\"id\":\"x\"}  \n\n",
    );
    match framed {
        FramedChunk::Payload(p) => assert_eq!(p, "{\"id\":\"x\"}"),
        other => panic!("expected a payload, got {:?}", other),
    }
}

#[test]
fn test_frame_chunk_done_with_padding() {
    let framed =
        claude_adaptor::adapters::openai_stream_adapter::frame_chunk("data:   [DONE]   \n\n");
    assert!(matches!(framed, FramedChunk::Terminal));
}

#[test]
fn test_frame_chunk_trims_unicode_whitespace() {
    let framed = claude_adaptor::adapters::openai_stream_adapter::frame_chunk(
        "data: \u{a0}[DONE]\u{a0}\n",
    );
    assert!(matches!(framed, FramedChunk::Terminal));
}

#[test]
fn test_stream_empty_choices_without_usage_is_opaque() {
    let mut translator = OpenAIStreamToClaudeStreamAdapter::new();
    let chunk = OpenAIStreamResponse {
        id: "chatcmpl-s".to_string(),
        object: "chat.completion.chunk".to_string(),
        created: 0,
        model: "qwen3-coder".to_string(),
        choices: vec![],
        usage: None,
        system_fingerprint: None,
    };
    let e = translator.next_payload(Some(chunk), "raw".to_string());
    assert!(matches!(e, StreamEvent::Opaque { .. }));
}
