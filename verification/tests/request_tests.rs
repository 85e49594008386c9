use claude_adaptor::adapters::request_adapter::ClaudeMessagesToOpenAIAdapter;
use claude_adaptor::models::claude_messages::{
    ClaudeMessagesRequest, InputMessage, InputMessageContent, InputMessageContentPart,
    MessageRole, SystemMessage, ToolChoice, ToolDefinition,
};
use claude_adaptor::models::error::AdaptorError;
use claude_adaptor::models::openai::{OpenAIRole, OpenAIToolChoice};

fn base_request() -> ClaudeMessagesRequest {
    ClaudeMessagesRequest {
        model: "qwen3-coder".to_string(),
        messages: vec![],
        max_tokens: None,
        container: None,
        metadata: None,
        service_tier: None,
        stop_sequences: None,
        stream: None,
        system: None,
        temperature: None,
        thinking: None,
        tool_choice: None,
        tools: None,
        top_p: None,
    }
}

#[test]
fn test_adapt_claude_messages_to_qwen() {
    let adapter = ClaudeMessagesToOpenAIAdapter;
    let claude_request = ClaudeMessagesRequest {
        model: "qwen3-coder".to_string(),
        messages: vec![InputMessage {
            role: MessageRole::User,
            content: InputMessageContent::Text("Hello, world!".to_string()),
        }],
        max_tokens: Some(100),
        temperature: Some(700),
        top_p: Some(1000),
        stream: Some(false),
        system: Some(vec![SystemMessage {
            content_type: "text".to_string(),
            text: "You are a helpful assistant".to_string(),
            cache_control: None,
            citations: None,
        }]),
        tools: None,
        tool_choice: None,
        container: None,
        metadata: None,
        service_tier: None,
        stop_sequences: None,
        thinking: None,
    };

    let openai_request = adapter.adapt(claude_request).unwrap();

    assert_eq!(openai_request.model, "qwen3-coder");
    assert_eq!(openai_request.messages.len(), 2);
    assert_eq!(openai_request.messages[0].role, OpenAIRole::System);
    assert_eq!(openai_request.messages[1].role, OpenAIRole::User);
    assert_eq!(openai_request.max_tokens, Some(100));
    assert_eq!(openai_request.temperature, Some(700));
    assert_eq!(openai_request.stream, Some(false));
}

#[test]
fn test_adapt_claude_messages_to_qwen_with_streaming() {
    let adapter = ClaudeMessagesToOpenAIAdapter;
    let claude_request = ClaudeMessagesRequest {
        model: "qwen3-coder".to_string(),
        messages: vec![InputMessage {
            role: MessageRole::User,
            content: InputMessageContent::Text("Hello, world!".to_string()),
        }],
        max_tokens: Some(100),
        temperature: Some(700),
        top_p: Some(1000),
        stream: Some(true),
        system: None,
        tools: None,
        tool_choice: None,
        container: None,
        metadata: None,
        service_tier: None,
        stop_sequences: None,
        thinking: None,
    };

    let openai_request = adapter.adapt(claude_request).unwrap();

    assert_eq!(openai_request.model, "qwen3-coder");
    assert_eq!(openai_request.messages.len(), 1);
    assert_eq!(openai_request.messages[0].role, OpenAIRole::User);
    assert_eq!(openai_request.max_tokens, Some(100));
    assert_eq!(openai_request.temperature, Some(700));
    assert_eq!(openai_request.stream, Some(true));
}

#[test]
fn test_adapt_claude_messages_with_system_and_tools() {
    let adapter = ClaudeMessagesToOpenAIAdapter;
    let schema =
        "{\"type\":\"object\",\"properties\":{\"location\":{\"type\":\"string\"}},\"required\":[\"location\"]}"
            .to_string();
    let claude_request = ClaudeMessagesRequest {
        model: "qwen3-coder".to_string(),
        messages: vec![InputMessage {
            role: MessageRole::User,
            content: InputMessageContent::Text("What's the weather?".to_string()),
        }],
        max_tokens: Some(200),
        temperature: Some(500),
        top_p: Some(1000),
        stream: Some(false),
        system: Some(vec![SystemMessage {
            content_type: "text".to_string(),
            text: "You are a weather assistant".to_string(),
            cache_control: None,
            citations: None,
        }]),
        tools: Some(vec![ToolDefinition {
            tool_type: None,
            name: "get_weather".to_string(),
            description: "Get weather information".to_string(),
            input_schema: schema,
            cache_control: None,
            other_values: None,
        }]),
        tool_choice: Some(ToolChoice::Auto {
            disable_parallel_tool_use: false,
        }),
        container: None,
        metadata: None,
        service_tier: None,
        stop_sequences: None,
        thinking: None,
    };

    let openai_request = adapter.adapt(claude_request).unwrap();

    assert_eq!(openai_request.model, "qwen3-coder");
    assert_eq!(openai_request.messages.len(), 2);
    assert_eq!(openai_request.messages[0].role, OpenAIRole::System);
    assert_eq!(
        openai_request.messages[0].content,
        Some("You are a weather assistant".to_string())
    );
    assert_eq!(openai_request.messages[1].role, OpenAIRole::User);
    assert_eq!(
        openai_request.messages[1].content,
        Some("What's the weather?".to_string())
    );
    assert_eq!(openai_request.max_tokens, Some(200));
    assert_eq!(openai_request.temperature, Some(500));
    assert!(openai_request.tools.is_some());
    assert_eq!(openai_request.tools.as_ref().unwrap().len(), 1);
    assert_eq!(
        openai_request.tools.as_ref().unwrap()[0].function.name,
        "get_weather"
    );
}

#[test]
fn test_adapt_claude_messages_no_system() {
    let adapter = ClaudeMessagesToOpenAIAdapter;
    let claude_request = ClaudeMessagesRequest {
        model: "qwen3-coder".to_string(),
        messages: vec![
            InputMessage {
                role: MessageRole::User,
                content: InputMessageContent::Text("Hi".to_string()),
            },
            InputMessage {
                role: MessageRole::Assistant,
                content: InputMessageContent::Text("Hello!".to_string()),
            },
        ],
        max_tokens: None,
        temperature: None,
        top_p: None,
        stream: None,
        system: None,
        tools: None,
        tool_choice: None,
        container: None,
        metadata: None,
        service_tier: None,
        stop_sequences: None,
        thinking: None,
    };

    let openai_request = adapter.adapt(claude_request).unwrap();

    assert_eq!(openai_request.model, "qwen3-coder");
    assert_eq!(openai_request.messages.len(), 2);
    assert_eq!(openai_request.messages[0].role, OpenAIRole::User);
    assert_eq!(openai_request.messages[0].content, Some("Hi".to_string()));
    assert_eq!(openai_request.messages[1].role, OpenAIRole::Assistant);
    assert_eq!(
        openai_request.messages[1].content,
        Some("Hello!".to_string())
    );
}

#[test]
fn test_full_integration() {
    let adapter = ClaudeMessagesToOpenAIAdapter;

    let claude_request = ClaudeMessagesRequest {
        model: "qwen3-coder".to_string(),
        messages: vec![
            InputMessage {
                role: MessageRole::User,
                content: InputMessageContent::Text("Write a Rust function".to_string()),
            },
            InputMessage {
                role: MessageRole::Assistant,
                content: InputMessageContent::Text(
                    "I'll write a simple Rust function for you.".to_string(),
                ),
            },
        ],
        max_tokens: Some(500),
        temperature: Some(800),
        stream: Some(false),
        system: Some(vec![SystemMessage {
            content_type: "text".to_string(),
            text: "You are a Rust expert".to_string(),
            cache_control: None,
            citations: None,
        }]),
        tools: None,
        tool_choice: None,
        top_p: Some(900),
        container: None,
        metadata: None,
        service_tier: None,
        stop_sequences: None,
        thinking: None,
    };

    let openai_request = adapter.adapt(claude_request).unwrap();

    assert_eq!(openai_request.model, "qwen3-coder");

    assert_eq!(openai_request.messages.len(), 3); // system + user + assistant

    assert_eq!(openai_request.messages[0].role, OpenAIRole::System);
    assert_eq!(
        openai_request.messages[0].content,
        Some("You are a Rust expert".to_string())
    );
    assert!(openai_request.messages[0].tool_calls.is_none());
    assert!(openai_request.messages[0].tool_call_id.is_none());

    assert_eq!(openai_request.messages[1].role, OpenAIRole::User);
    assert_eq!(
        openai_request.messages[1].content,
        Some("Write a Rust function".to_string())
    );

    assert_eq!(openai_request.messages[2].role, OpenAIRole::Assistant);
    assert_eq!(
        openai_request.messages[2].content,
        Some("I'll write a simple Rust function for you.".to_string())
    );

    assert_eq!(openai_request.max_tokens, Some(500));
    assert_eq!(openai_request.temperature, Some(800));
    assert_eq!(openai_request.stream, Some(false));
    assert_eq!(openai_request.top_p, Some(900));

    assert!(openai_request.tools.is_none());
    assert!(openai_request.tool_choice.is_none());

    assert!(openai_request.stream_options.is_some());
    assert_eq!(
        openai_request.stream_options.unwrap().include_usage,
        Some(true)
    );
}

#[test]
fn test_system_fragments_join() {
    let adapter = ClaudeMessagesToOpenAIAdapter;
    let mut request = base_request();
    request.system = Some(vec![
        SystemMessage {
            content_type: "text".to_string(),
            text: "A".to_string(),
            cache_control: None,
            citations: None,
        },
        SystemMessage {
            content_type: "text".to_string(),
            text: "B".to_string(),
            cache_control: None,
            citations: None,
        },
    ]);

    let openai_request = adapter.adapt(request).unwrap();
    assert_eq!(openai_request.messages.len(), 1);
    assert_eq!(openai_request.messages[0].role, OpenAIRole::System);
    assert_eq!(openai_request.messages[0].content, Some("A\nB".to_string()));
}

#[test]
fn test_empty_system_list_emits_no_system_message() {
    let adapter = ClaudeMessagesToOpenAIAdapter;
    let mut request = base_request();
    request.system = Some(vec![]);
    request.messages = vec![InputMessage {
        role: MessageRole::User,
        content: InputMessageContent::Text("Hi".to_string()),
    }];

    let openai_request = adapter.adapt(request).unwrap();
    assert_eq!(openai_request.messages.len(), 1);
    assert_eq!(openai_request.messages[0].role, OpenAIRole::User);
}

#[test]
fn test_tool_choice_mapping() {
    let adapter = ClaudeMessagesToOpenAIAdapter;

    let cases = vec![
        (ToolChoice::NoTools, "none"),
        (
            ToolChoice::Auto {
                disable_parallel_tool_use: true,
            },
            "auto",
        ),
        (
            ToolChoice::Any {
                disable_parallel_tool_use: false,
            },
            "any",
        ),
    ];
    for (choice, expected) in cases {
        let mut request = base_request();
        request.tool_choice = Some(choice);
        let openai_request = adapter.adapt(request).unwrap();
        match openai_request.tool_choice {
            Some(OpenAIToolChoice::Mode(s)) => assert_eq!(s, expected),
            other => panic!("expected a bare mode string, got {:?}", other),
        }
    }

    let mut request = base_request();
    request.tool_choice = Some(ToolChoice::Tool {
        name: "x".to_string(),
        disable_parallel_tool_use: false,
    });
    let openai_request = adapter.adapt(request).unwrap();
    match openai_request.tool_choice {
        Some(OpenAIToolChoice::Object {
            choice_type,
            function,
        }) => {
            assert_eq!(choice_type, "function");
            assert_eq!(function.name, "x");
        }
        other => panic!("expected a function object, got {:?}", other),
    }
}

#[test]
fn test_empty_model_rejected() {
    let adapter = ClaudeMessagesToOpenAIAdapter;
    let mut request = base_request();
    request.model = "".to_string();
    match adapter.adapt(request) {
        Err(AdaptorError::InvalidRequest(m)) => {
            assert_eq!(m, "model must not be empty");
        }
        other => panic!("expected an invalid-request error, got {:?}", other),
    }
}

#[test]
fn test_parts_content_joined() {
    let adapter = ClaudeMessagesToOpenAIAdapter;
    let mut request = base_request();
    request.messages = vec![InputMessage {
        role: MessageRole::User,
        content: InputMessageContent::Parts(vec![
            InputMessageContentPart::Text {
                text: "first".to_string(),
                cache_control: None,
            },
            InputMessageContentPart::Image {
                source: claude_adaptor::models::claude_messages::ImageSource {
                    source_type: "base64".to_string(),
                    media_type: "image/png".to_string(),
                    data: "aGk=".to_string(),
                    cache_control: None,
                },
            },
            InputMessageContentPart::Text {
                text: "second".to_string(),
                cache_control: None,
            },
        ]),
    }];

    let openai_request = adapter.adapt(request).unwrap();
    assert_eq!(openai_request.messages.len(), 1);
    assert_eq!(
        openai_request.messages[0].content,
        Some("first\nsecond".to_string())
    );
}
