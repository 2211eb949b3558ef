use grok_code::api::anthropic::{
    is_header_value, AnthropicClient, AnthropicContent, AnthropicResponse,
};
use grok_code::api::openai::OpenAiClient;
use grok_code::api::xai::XaiClient;
use grok_code::api::{
    classify_status, classify_transport, create_client, ApiClient, ApiConfig,
    ChatCompletionRequest, Failure, Function, FunctionCall, Message, ResponseFormat, Tool,
    ToolCall,
};

fn config(model: &str, base_url: &str) -> ApiConfig {
    ApiConfig {
        api_key: "test_key".to_string(),
        base_url: base_url.to_string(),
        model: model.to_string(),
        timeout_secs: 60,
        max_retries: 3,
    }
}

fn message(role: &str, content: Option<&str>) -> Message {
    Message {
        role: role.to_string(),
        content: content.map(|c| c.to_string()),
        tool_calls: None,
        tool_call_id: None,
    }
}

fn block(kind: &str) -> AnthropicContent {
    AnthropicContent { kind: kind.to_string(), text: None, id: None, name: None, input: None }
}

fn text_block(text: &str) -> AnthropicContent {
    AnthropicContent { text: Some(text.to_string()), ..block("text") }
}

#[test]
fn test_invalid_api_key() {
    let config = ApiConfig {
        api_key: "invalid_key_12345".to_string(),
        base_url: "https://api.x.ai/v1".to_string(),
        model: "grok-2-latest".to_string(),
        timeout_secs: 60,
        max_retries: 3,
    };

    let client = create_client("xai", config);
    assert!(client.is_ok()); // Client creation should succeed even with invalid key
}

#[test]
fn clients_are_chosen_by_name() {
    assert!(matches!(create_client("xai", config("m", "u")), Ok(ApiClient::Xai(_))));
    assert!(matches!(create_client("openai", config("m", "u")), Ok(ApiClient::OpenAi(_))));
    assert!(matches!(create_client("anthropic", config("m", "u")), Ok(ApiClient::Anthropic(_))));
    let refused = create_client("cohere", config("m", "u"));
    assert_eq!(
        refused.err().unwrap().message(),
        "Configuration error: Unknown API provider: cohere"
    );
    assert!(create_client("XAI", config("m", "u")).is_err());
}

#[test]
fn endpoints_and_headers_of_each_provider() {
    let xai = XaiClient::new(config("grok", "https://api.x.ai/v1"));
    assert_eq!(xai.endpoint(), "https://api.x.ai/v1/chat/completions");
    assert_eq!(
        xai.headers(),
        vec![
            ("authorization".to_string(), "Bearer test_key".to_string()),
            ("content-type".to_string(), "application/json".to_string())
        ]
    );
    let openai = OpenAiClient::new(config("gpt-4", "https://api.openai.com/v1"));
    assert_eq!(openai.endpoint(), "https://api.openai.com/v1/chat/completions");
    assert_eq!(openai.headers()[0].1, "Bearer test_key");
    assert_eq!(openai.config().model, "gpt-4");
    let anthropic = AnthropicClient::new(config("wire-model", "https://api.anthropic.com/v1"));
    assert_eq!(anthropic.endpoint(), "https://api.anthropic.com/v1/messages");
    assert_eq!(
        anthropic.headers().unwrap(),
        vec![
            ("x-api-key".to_string(), "test_key".to_string()),
            ("content-type".to_string(), "application/json".to_string()),
            ("anthropic-version".to_string(), "2023-06-01".to_string())
        ]
    );
    let any = create_client("anthropic", config("wire-model", "http://h")).unwrap();
    assert_eq!(any.endpoint(), "http://h/messages");
    assert_eq!(any.config().model, "wire-model");
}

#[test]
fn key_that_cannot_stand_in_a_header_is_refused() {
    let mut bad = config("wire-model", "u");
    bad.api_key = "line\nbreak".to_string();
    let refused = AnthropicClient::new(bad).headers();
    assert_eq!(
        refused.unwrap_err().message(),
        "Configuration error: Invalid API key format"
    );
    assert!(is_header_value("plain key\twith tab"));
    assert!(is_header_value("schlüssel"));
    assert!(!is_header_value("a\u{7f}b"));
    assert!(!is_header_value("a\0b"));
}

#[test]
fn status_is_classified_the_same_for_every_provider() {
    assert!(classify_status(200, "ok", None).is_none());
    assert!(classify_status(204, "", None).is_none());
    assert!(classify_status(299, "", None).is_none());
    assert!(matches!(
        classify_status(429, "slow", None),
        Some(Failure::RateLimited { message, retry_after: 60 }) if message == "slow"
    ));
    assert!(matches!(
        classify_status(429, "slow", Some(7)),
        Some(Failure::RateLimited { retry_after: 7, .. })
    ));
    assert!(matches!(
        classify_status(401, "Invalid API key", None),
        Some(Failure::ApiError { status: 401, body }) if body == "Invalid API key"
    ));
    assert!(matches!(classify_status(500, "", None), Some(Failure::ApiError { status: 500, .. })));
    assert!(matches!(classify_status(199, "", None), Some(Failure::ApiError { status: 199, .. })));
    assert!(matches!(classify_status(300, "", None), Some(Failure::ApiError { status: 300, .. })));
    assert!(matches!(classify_transport(true, "t"), Failure::Timeout { detail } if detail == "t"));
    assert!(matches!(
        classify_transport(false, "dns"),
        Failure::TransportError { detail } if detail == "dns"
    ));
}

#[test]
fn test_rate_limit_error() {
    // a 429 of any provider becomes the rate-limit error
    let failure = classify_status(429, "{\"error\": \"rate limited\"}", None).unwrap();
    let error = failure.into_error();
    assert!(error.is_retryable());
    assert_eq!(error.retry_after(), Some(60));
    assert!(error.message().contains("Rate limit exceeded"));
}

#[test]
fn failures_become_errors() {
    let api = Failure::ApiError { status: 401, body: "Invalid API key".to_string() };
    assert_eq!(api.into_error().message(), "API error 401: Invalid API key");
    let timeout = Failure::Timeout { detail: "30s".to_string() };
    assert_eq!(timeout.into_error().message(), "Operation timed out: 30s");
    let transport = Failure::TransportError { detail: "reset".to_string() };
    assert_eq!(transport.into_error().message(), "HTTP error: reset");
}

#[test]
fn test_system_message_handling() {
    let client = AnthropicClient::new(config("wire-model-3", "u"));
    let request = ChatCompletionRequest {
        model: "ignored".to_string(),
        messages: vec![
            message("system", Some("You are a helpful assistant.")),
            message("user", Some("Hello")),
            message("assistant", None),
            Message {
                role: "tool".to_string(),
                content: Some("result".to_string()),
                tool_calls: None,
                tool_call_id: Some("call_1".to_string()),
            },
            message("user", Some("Again")),
        ],
        tools: None,
        tool_choice: "auto".to_string(),
        temperature_milli: 700,
        max_tokens: 100,
        response_format: Some(ResponseFormat { kind: "json_object".to_string() }),
    };
    let wire = client.convert_request(request);
    assert_eq!(wire.model, "wire-model-3");
    assert_eq!(wire.system, Some("You are a helpful assistant.".to_string()));
    assert_eq!(wire.max_tokens, 100);
    assert_eq!(wire.temperature_milli, Some(700));
    assert!(wire.tools.is_none());
    // the system message is lifted out and the tool message is left out
    let sent: Vec<(&str, &str)> =
        wire.messages.iter().map(|m| (m.role.as_str(), m.content.as_str())).collect();
    assert_eq!(sent, vec![("user", "Hello"), ("assistant", ""), ("user", "Again")]);
}

#[test]
fn last_system_message_wins_and_tools_are_translated() {
    let client = AnthropicClient::new(config("wire-model", "u"));
    let request = ChatCompletionRequest {
        model: "m".to_string(),
        messages: vec![
            message("system", Some("first")),
            message("user", Some("Hello")),
            message("system", None),
        ],
        tools: Some(vec![Tool {
            kind: "function".to_string(),
            function: Function {
                name: "get_weather".to_string(),
                description: "Get weather".to_string(),
                parameters: "{\"type\":\"object\"}".to_string(),
            },
        }]),
        tool_choice: "auto".to_string(),
        temperature_milli: 0,
        max_tokens: 1,
        response_format: None,
    };
    let wire = client.convert_request(request);
    assert_eq!(wire.system, None);
    let tools = wire.tools.unwrap();
    assert_eq!(tools.len(), 1);
    assert_eq!(tools[0].name, "get_weather");
    assert_eq!(tools[0].description, "Get weather");
    assert_eq!(tools[0].input_schema, "{\"type\":\"object\"}");
}

#[test]
fn anthropic_test_chat_completion_success() {
    let client = AnthropicClient::new(config("wire-model-3", "u"));
    let response = AnthropicResponse {
        content: vec![text_block("Hello from the model!")],
        stop_reason: Some("end_turn".to_string()),
    };
    let result = client.convert_response(response);
    assert_eq!(result.choices.len(), 1);
    assert_eq!(result.choices[0].message.content, Some("Hello from the model!".to_string()));
    assert_eq!(result.choices[0].message.role, "assistant");
    assert!(result.choices[0].message.tool_calls.is_none());
    assert!(result.choices[0].message.tool_call_id.is_none());
}

#[test]
fn anthropic_test_chat_completion_with_tools() {
    let client = AnthropicClient::new(config("wire-model-3", "u"));
    let response = AnthropicResponse {
        content: vec![
            text_block("I'll check the weather for you."),
            AnthropicContent {
                id: Some("tool_123".to_string()),
                name: Some("get_weather".to_string()),
                input: Some("{\"location\":\"San Francisco\"}".to_string()),
                ..block("tool_use")
            },
        ],
        stop_reason: Some("tool_use".to_string()),
    };
    let result = client.convert_response(response);
    assert_eq!(result.choices.len(), 1);
    let message = &result.choices[0].message;
    assert_eq!(message.content, Some("I'll check the weather for you.".to_string()));
    let tool_calls: &Vec<ToolCall> = message.tool_calls.as_ref().unwrap();
    assert_eq!(tool_calls.len(), 1);
    assert_eq!(tool_calls[0].id, "tool_123");
    assert_eq!(tool_calls[0].kind, "function");
    let function: &FunctionCall = &tool_calls[0].function;
    assert_eq!(function.name, "get_weather");
    assert_eq!(function.arguments, "{\"location\":\"San Francisco\"}");
}

#[test]
fn content_blocks_are_joined_and_filtered() {
    let client = AnthropicClient::new(config("wire-model", "u"));
    let response = AnthropicResponse {
        content: vec![
            text_block("one"),
            block("image"),
            block("text"),
            AnthropicContent { ..block("tool_use") },
            text_block("two"),
            AnthropicContent { text: Some("not shown".to_string()), ..block("thinking") },
        ],
        stop_reason: None,
    };
    let message = client.convert_response(response).choices.remove(0).message;
    assert_eq!(message.content, Some("one\ntwo".to_string()));
    let calls = message.tool_calls.unwrap();
    assert_eq!(calls.len(), 1);
    assert_eq!(calls[0].id, "");
    assert_eq!(calls[0].function.name, "");
    assert_eq!(calls[0].function.arguments, "null");

    let empty = client.convert_response(AnthropicResponse { content: vec![], stop_reason: None });
    assert_eq!(empty.choices.len(), 1);
    assert!(empty.choices[0].message.content.is_none());
    assert!(empty.choices[0].message.tool_calls.is_none());

    let blank = client.convert_response(AnthropicResponse {
        content: vec![text_block("")],
        stop_reason: None,
    });
    assert!(blank.choices[0].message.content.is_none());
    let two_blank = client.convert_response(AnthropicResponse {
        content: vec![text_block(""), text_block("")],
        stop_reason: None,
    });
    assert_eq!(two_blank.choices[0].message.content, Some("\n".to_string()));
}

#[test]
fn messages_are_copied_whole() {
    let original = Message {
        role: "assistant".to_string(),
        content: Some("text".to_string()),
        tool_calls: Some(vec![ToolCall {
            id: "1".to_string(),
            kind: "function".to_string(),
            function: FunctionCall { name: "n".to_string(), arguments: "{}".to_string() },
        }]),
        tool_call_id: Some("id".to_string()),
    };
    let copy = original.duplicate();
    assert_eq!(copy.role, original.role);
    assert_eq!(copy.content, original.content);
    assert_eq!(copy.tool_call_id, original.tool_call_id);
    let calls = copy.tool_calls.unwrap();
    assert_eq!(calls.len(), 1);
    assert_eq!(calls[0].function.name, "n");
}

#[test]
fn test_chat_completion_invalid_api_key() {
    let body = "{\"error\":{\"message\":\"Incorrect API key provided\",\"type\":\"invalid_request_error\",\"param\":null,\"code\":\"invalid_api_key\"}}";
    let failure = classify_status(401, body, None).unwrap();
    match failure.into_error() {
        grok_code::error::GrokError::ApiError(msg) => {
            assert!(msg.contains("401"));
            assert!(msg.contains("Incorrect API key"));
        }
        _ => panic!("Expected ApiError"),
    }
}

#[test]
fn test_chat_completion_api_error() {
    let failure = classify_status(500, "Internal Server Error", None).unwrap();
    match failure.into_error() {
        grok_code::error::GrokError::ApiError(msg) => {
            assert!(msg.contains("500"));
            assert!(msg.contains("Internal Server Error"));
        }
        _ => panic!("Expected ApiError"),
    }
}

#[test]
fn openai_test_chat_completion_rate_limit() {
    let failure = classify_status(429, "{\"error\":{\"message\":\"Rate limit exceeded\"}}", None).unwrap();
    match failure.into_error() {
        grok_code::error::GrokError::RateLimitExceeded { message, retry_after } => {
            assert!(message.contains("Rate limit exceeded"));
            assert_eq!(retry_after, Some(60));
        }
        _ => panic!("Expected RateLimitExceeded"),
    }
}

#[test]
fn test_empty_api_key() {
    let config = ApiConfig {
        api_key: "".to_string(),
        base_url: "https://api.x.ai/v1".to_string(),
        model: "grok-2-latest".to_string(),
        timeout_secs: 60,
        max_retries: 3,
    };

    let client = create_client("xai", config);
    assert!(client.is_ok()); // Client creation should succeed, error comes later
}
