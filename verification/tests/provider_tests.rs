use golem_llm::anthropic::{
    convert_tool_choice, Content, ImageSource, MediaType, MessagesResponse, StopReason, ToolChoice,
    Usage,
};
use golem_llm::chat_stream::LlmChatStreamState;
use golem_llm::types::{error_code_from_status, ContentPart, ErrorCode, FinishReason, StreamEvent};

#[test]
fn anthropic_tool_call_fragments_accumulate_by_index() {
    let mut d = golem_llm::anthropic::AnthropicChatStream::new();
    let start = "{\"type\":\"content_block_start\",\"index\":1,\"content_block\":{\"type\":\"tool_use\",\"id\":\"t1\",\"name\":\"calc\"}}";
    assert_eq!(d.decode_message(start), Ok(None));
    let frag1 = "{\"type\":\"content_block_delta\",\"index\":1,\"delta\":{\"type\":\"input_json_delta\",\"partial_json\":\"{\\\"a\\\":\"}}";
    assert_eq!(d.decode_message(frag1), Ok(None));
    let frag2 = "{\"type\":\"content_block_delta\",\"index\":1,\"delta\":{\"type\":\"input_json_delta\",\"partial_json\":\"2}\"}}";
    assert_eq!(d.decode_message(frag2), Ok(None));
    let stop = "{\"type\":\"content_block_stop\",\"index\":1}";
    match d.decode_message(stop) {
        Ok(Some(StreamEvent::Delta(delta))) => {
            let calls = delta.tool_calls.unwrap();
            assert_eq!(calls.len(), 1);
            assert_eq!(calls[0].id, "t1");
            assert_eq!(calls[0].name, "calc");
            assert_eq!(calls[0].arguments_json, "{\"a\":2}");
        },
        other => panic!("expected a tool-call delta, got {:?}", other),
    }
    // the fragment is gone: stopping the same index again yields nothing
    assert_eq!(d.decode_message(stop), Ok(None));
}

#[test]
fn anthropic_missing_discriminator_is_an_error() {
    let mut d = golem_llm::anthropic::AnthropicChatStream::new();
    let r = d.decode_message("{\"data\":1}");
    assert_eq!(
        r,
        Err("Unexpected stream event format, does not have 'type' field".to_string())
    );
}

#[test]
fn anthropic_unknown_discriminator_is_ignored() {
    let mut d = golem_llm::anthropic::AnthropicChatStream::new();
    assert_eq!(d.decode_message("{\"type\":\"ping\"}"), Ok(None));
}

#[test]
fn anthropic_error_payload_becomes_error_event() {
    let mut d = golem_llm::anthropic::AnthropicChatStream::new();
    let raw = "{\"type\":\"error\",\"error\":{\"type\":\"overloaded\",\"message\":\"busy\"}}";
    match d.decode_message(raw) {
        Ok(Some(StreamEvent::Error(e))) => {
            assert_eq!(e.code, ErrorCode::InternalError);
            assert_eq!(e.message, "busy");
        },
        other => panic!("expected an error event, got {:?}", other),
    }
}

#[test]
fn anthropic_usage_is_buffered_into_finish() {
    let mut d = golem_llm::anthropic::AnthropicChatStream::new();
    let delta = "{\"type\":\"message_delta\",\"delta\":{\"stop_reason\":\"max_tokens\"},\"usage\":{\"input_tokens\":7,\"output_tokens\":9}}";
    assert_eq!(d.decode_message(delta), Ok(None));
    match d.decode_message("{\"type\":\"message_stop\"}") {
        Ok(Some(StreamEvent::Finish(meta))) => {
            assert_eq!(meta.finish_reason, Some(FinishReason::Length));
            let usage = meta.usage.unwrap();
            assert_eq!(usage.input_tokens, Some(7));
            assert_eq!(usage.output_tokens, Some(9));
            assert_eq!(usage.total_tokens, None);
        },
        other => panic!("expected the finish event, got {:?}", other),
    }
}

#[test]
fn openrouter_streamed_tool_call_is_emitted_when_its_index_goes_quiet() {
    let mut d = golem_llm::openrouter::OpenRouterChatStream::new();
    let start = "{\"object\":\"chat.completion.chunk\",\"choices\":[{\"delta\":{\"tool_calls\":[{\"id\":\"c9\",\"index\":0,\"function\":{\"name\":\"f\",\"arguments\":\"{\\\"x\\\":\"}}]}}]}";
    assert_eq!(d.decode_message(start), Ok(None));
    let frag = "{\"object\":\"chat.completion.chunk\",\"choices\":[{\"delta\":{\"tool_calls\":[{\"index\":0,\"function\":{\"arguments\":\"1}\"}}]}}]}";
    assert_eq!(d.decode_message(frag), Ok(None));
    // a chunk that no longer touches index 0 flushes the finished call
    let text = "{\"object\":\"chat.completion.chunk\",\"choices\":[{\"delta\":{\"content\":\"done\"}}]}";
    match d.decode_message(text) {
        Ok(Some(StreamEvent::Delta(delta))) => {
            assert_eq!(
                delta.content,
                Some(vec![ContentPart::Text("done".to_string())])
            );
            let calls = delta.tool_calls.unwrap();
            assert_eq!(calls.len(), 1);
            assert_eq!(calls[0].id, "c9");
            assert_eq!(calls[0].name, "f");
            assert_eq!(calls[0].arguments_json, "{\"x\":1}");
        },
        other => panic!("expected the flushed tool call, got {:?}", other),
    }
}

#[test]
fn openrouter_whole_tool_call_passes_through() {
    let mut d = golem_llm::openrouter::OpenRouterChatStream::new();
    let raw = "{\"object\":\"chat.completion.chunk\",\"choices\":[{\"delta\":{\"tool_calls\":[{\"id\":\"w1\",\"function\":{\"name\":\"g\",\"arguments\":\"{}\"}}]}}]}";
    match d.decode_message(raw) {
        Ok(Some(StreamEvent::Delta(delta))) => {
            let calls = delta.tool_calls.unwrap();
            assert_eq!(calls[0].id, "w1");
            assert_eq!(calls[0].name, "g");
            assert_eq!(calls[0].arguments_json, "{}");
        },
        other => panic!("expected a tool-call delta, got {:?}", other),
    }
}

#[test]
fn openrouter_usage_chunk_closes_with_buffered_finish_reason() {
    let mut d = golem_llm::openrouter::OpenRouterChatStream::new();
    let choice = "{\"object\":\"chat.completion.chunk\",\"choices\":[{\"finish_reason\":\"stop\",\"delta\":{\"content\":\"hi\"}}]}";
    let _ = d.decode_message(choice).unwrap();
    let usage = "{\"object\":\"chat.completion.chunk\",\"created\":1700000000,\"choices\":[],\"usage\":{\"prompt_tokens\":3,\"completion_tokens\":5,\"total_tokens\":8}}";
    match d.decode_message(usage) {
        Ok(Some(StreamEvent::Finish(meta))) => {
            assert_eq!(meta.finish_reason, Some(FinishReason::Stop));
            assert_eq!(meta.timestamp, Some("1700000000".to_string()));
            let u = meta.usage.unwrap();
            assert_eq!(u.total_tokens, Some(8));
        },
        other => panic!("expected the finish event, got {:?}", other),
    }
}

#[test]
fn openrouter_comment_lines_are_ignored() {
    let mut d = golem_llm::openrouter::OpenRouterChatStream::new();
    assert_eq!(d.decode_message(": OPENROUTER PROCESSING"), Ok(None));
}

#[test]
fn bedrock_text_delta_and_completion() {
    let mut d = golem_llm::bedrock::BedrockChatStream::new();
    let delta = "{\"type\":\"response.output_text.delta\",\"delta\":\"abc\",\"contentIndex\":0,\"itemId\":\"i\",\"outputIndex\":0}";
    match d.decode_message(delta) {
        Ok(Some(StreamEvent::Delta(dd))) => {
            assert_eq!(dd.content, Some(vec![ContentPart::Text("abc".to_string())]));
        },
        other => panic!("expected a text delta, got {:?}", other),
    }
    let done = "{\"type\":\"response.completed\",\"response\":{\"inputTextTokenCount\":1,\"results\":[{\"tokenCount\":2,\"outputText\":\"abc\",\"completionReason\":\"length\"}]}}";
    match d.decode_message(done) {
        Ok(Some(StreamEvent::Finish(meta))) => {
            assert_eq!(meta.finish_reason, Some(FinishReason::Length));
        },
        other => panic!("expected the finish event, got {:?}", other),
    }
}

#[test]
fn bedrock_signature_pieces_are_exact() {
    let config = golem_llm::bedrock::BedrockRuntimeConfig {
        access_key_id: "AKID".to_string(),
        secret_access_key: "SECRET-REDACTED".to_string(),
        session_token: None,
        region: "us-east-1".to_string(),
        endpoint: "bedrock-runtime.us-east-1.amazonaws.com".to_string(),
    };
    let (amz_date, auth, body_sha) = golem_llm::bedrock::sign_request(
        &config,
        "POST",
        "/model/m/invoke",
        "",
        "20240101T000000Z",
        "20240101",
    );
    assert_eq!(amz_date, "20240101T000000Z");
    // SHA-256 of the empty body
    assert_eq!(
        body_sha,
        "e3b0c44298fc1c149afbf4c8996fb92427ae41e4649b934ca495991b7852b855"
    );
    assert!(auth.starts_with("AWS4-HMAC-SHA256 Credential=AKID/20240101/us-east-1/bedrock-runtime/aws4_request, SignedHeaders=host;x-amz-date;x-amz-content-sha256, Signature="));
    // a 32-byte HMAC tag spelled as 64 hex digits ends the header
    let sig = auth.rsplit('=').next().unwrap();
    assert_eq!(sig.len(), 64);
    assert!(sig.chars().all(|c| c.is_ascii_hexdigit()));
}

#[test]
fn openai_completed_response_carries_usage_and_id() {
    let mut d = golem_llm::openai::OpenAIChatStream::new();
    let raw = "{\"type\":\"response.completed\",\"response\":{\"id\":\"r7\",\"created_at\":1700000001,\"usage\":{\"input_tokens\":1,\"output_tokens\":2,\"total_tokens\":3}}}";
    match d.decode_message(raw) {
        Ok(Some(StreamEvent::Finish(meta))) => {
            assert_eq!(meta.provider_id, Some("r7".to_string()));
            assert_eq!(meta.timestamp, Some("1700000001".to_string()));
            assert_eq!(meta.usage.unwrap().total_tokens, Some(3));
        },
        other => panic!("expected the finish event, got {:?}", other),
    }
}

#[test]
fn openai_failed_response_maps_its_code() {
    let mut d = golem_llm::openai::OpenAIChatStream::new();
    let raw = "{\"type\":\"response.failed\",\"response\":{\"error\":{\"code\":\"429\",\"message\":\"slow down\"}}}";
    match d.decode_message(raw) {
        Ok(Some(StreamEvent::Error(e))) => {
            assert_eq!(e.code, ErrorCode::RateLimitExceeded);
            assert_eq!(e.message, "slow down");
        },
        other => panic!("expected an error event, got {:?}", other),
    }
}

#[test]
fn ollama_finish_reason_carries_chunk_metadata() {
    let mut d = golem_llm::ollama::OllamaChatStream::new();
    let raw = "{\"id\":\"ol1\",\"created\":1700000002,\"choices\":[{\"delta\":{},\"finish_reason\":\"stop\"}]}";
    match d.decode_message(raw) {
        Ok(Some(StreamEvent::Finish(meta))) => {
            assert_eq!(meta.finish_reason, Some(FinishReason::Stop));
            assert_eq!(meta.provider_id, Some("ol1".to_string()));
            assert_eq!(meta.timestamp, Some("1700000002".to_string()));
            assert_eq!(
                meta.provider_metadata_json,
                Some("{\"id\":\"ol1\",\"created\":1700000002}".to_string())
            );
        },
        other => panic!("expected the finish event, got {:?}", other),
    }
}

#[test]
fn ollama_content_chunk_is_a_text_delta() {
    let mut d = golem_llm::ollama::OllamaChatStream::new();
    let raw = "{\"id\":\"x\",\"choices\":[{\"delta\":{\"content\":\"hey\"}}]}";
    match d.decode_message(raw) {
        Ok(Some(StreamEvent::Delta(dd))) => {
            assert_eq!(dd.content, Some(vec![ContentPart::Text("hey".to_string())]));
        },
        other => panic!("expected a text delta, got {:?}", other),
    }
}

#[test]
fn ollama_data_uri_uses_standard_base64() {
    let uri = golem_llm::ollama::image_to_data_uri("image/png", &b"abc".to_vec());
    assert_eq!(uri, "data:image/png;base64,YWJj");
    let padded = golem_llm::ollama::image_to_data_uri("image/jpeg", &b"ab".to_vec());
    assert_eq!(padded, "data:image/jpeg;base64,YWI=");
}

#[test]
fn grok_choice_and_usage_chunks() {
    let mut d = golem_llm::grok::GrokChatStream::new();
    let choice = "{\"object\":\"chat.completion.chunk\",\"choices\":[{\"finish_reason\":\"end_turn\",\"delta\":{\"content\":\"yo\"}}]}";
    match d.decode_message(choice) {
        Ok(Some(StreamEvent::Delta(dd))) => {
            assert_eq!(dd.content, Some(vec![ContentPart::Text("yo".to_string())]));
        },
        other => panic!("expected a text delta, got {:?}", other),
    }
    let usage = "{\"object\":\"chat.completion.chunk\",\"created\":5,\"choices\":[],\"usage\":{\"prompt_tokens\":1,\"completion_tokens\":2,\"total_tokens\":3}}";
    match d.decode_message(usage) {
        Ok(Some(StreamEvent::Finish(meta))) => {
            assert_eq!(meta.finish_reason, Some(FinishReason::Other));
            assert_eq!(meta.timestamp, Some("5".to_string()));
        },
        other => panic!("expected the finish event, got {:?}", other),
    }
}

#[test]
fn anthropic_tool_choice_names_map_to_modes() {
    assert!(matches!(convert_tool_choice("auto".to_string()), ToolChoice::Auto { .. }));
    assert!(matches!(convert_tool_choice("none".to_string()), ToolChoice::NoTool));
    assert!(matches!(convert_tool_choice("any".to_string()), ToolChoice::Any { .. }));
    match convert_tool_choice("search".to_string()) {
        ToolChoice::Tool { name, .. } => assert_eq!(name, "search"),
        other => panic!("expected a named tool, got {:?}", other),
    }
}

#[test]
fn status_codes_classify_as_documented() {
    assert_eq!(error_code_from_status(429), ErrorCode::RateLimitExceeded);
    assert_eq!(error_code_from_status(401), ErrorCode::AuthenticationFailed);
    assert_eq!(error_code_from_status(402), ErrorCode::AuthenticationFailed);
    assert_eq!(error_code_from_status(403), ErrorCode::AuthenticationFailed);
    assert_eq!(error_code_from_status(404), ErrorCode::InvalidRequest);
    assert_eq!(error_code_from_status(500), ErrorCode::InternalError);
}

#[test]
fn anthropic_response_with_base64_image_is_unsupported() {
    let response = MessagesResponse {
        content: vec![Content::Image {
            source: ImageSource::Base64 { data: "AAAA".to_string(), media_type: MediaType::Png },
            cache_control: None,
        }],
        id: "m1".to_string(),
        model: "demo-model".to_string(),
        role: golem_llm::anthropic::Role::Assistant,
        stop_reason: None,
        usage: Usage {
            cache_creation_input_tokens: None,
            cache_read_input_tokens: None,
            input_tokens: 1,
            output_tokens: 2,
        },
    };
    match golem_llm::anthropic::process_response(response) {
        golem_llm::types::ChatEvent::Error(e) => {
            assert_eq!(e.code, ErrorCode::Unsupported);
            assert_eq!(e.message, "Base64 response images are not supported");
        },
        other => panic!("expected an unsupported error, got {:?}", other),
    }
}

#[test]
fn anthropic_response_without_content_is_a_tool_request() {
    let args = golem_llm::json::parse_json("{\"q\":7}").unwrap();
    let response = MessagesResponse {
        content: vec![Content::ToolUse {
            id: "t2".to_string(),
            input: args,
            name: "search".to_string(),
            cache_control: None,
        }],
        id: "m2".to_string(),
        model: "demo-model".to_string(),
        role: golem_llm::anthropic::Role::Assistant,
        stop_reason: Some(StopReason::ToolUse),
        usage: Usage {
            cache_creation_input_tokens: None,
            cache_read_input_tokens: None,
            input_tokens: 1,
            output_tokens: 2,
        },
    };
    match golem_llm::anthropic::process_response(response) {
        golem_llm::types::ChatEvent::ToolRequest(calls) => {
            assert_eq!(calls.len(), 1);
            assert_eq!(calls[0].id, "t2");
            assert_eq!(calls[0].name, "search");
            assert_eq!(calls[0].arguments_json, "{\"q\":7}");
        },
        other => panic!("expected a tool request, got {:?}", other),
    }
}

#[test]
fn anthropic_response_with_text_is_a_message() {
    let response = MessagesResponse {
        content: vec![Content::Text { text: "hi".to_string(), cache_control: None }],
        id: "m3".to_string(),
        model: "demo-model".to_string(),
        role: golem_llm::anthropic::Role::Assistant,
        stop_reason: Some(StopReason::StopSequence),
        usage: Usage {
            cache_creation_input_tokens: None,
            cache_read_input_tokens: None,
            input_tokens: 3,
            output_tokens: 4,
        },
    };
    match golem_llm::anthropic::process_response(response) {
        golem_llm::types::ChatEvent::Message(m) => {
            assert_eq!(m.id, "m3");
            assert_eq!(m.content, vec![ContentPart::Text("hi".to_string())]);
            assert!(m.tool_calls.is_empty());
            assert_eq!(m.metadata.finish_reason, Some(FinishReason::Stop));
            let usage = m.metadata.usage.unwrap();
            assert_eq!(usage.input_tokens, Some(3));
            assert_eq!(usage.output_tokens, Some(4));
        },
        other => panic!("expected a message, got {:?}", other),
    }
}

#[test]
fn json_text_spells_values_compactly_and_escapes_strings() {
    let v = golem_llm::json::parse_json("{\"b\":[1,true,null],\"a\":\"x\\\"y\\n\",\"n\":-5}").unwrap();
    // members come back sorted by key; strings keep their escapes
    assert_eq!(golem_llm::json::json_to_text(&v), "{\"a\":\"x\\\"y\\n\",\"b\":[1,true,null],\"n\":-5}");
}

#[test]
fn anthropic_tool_use_arguments_are_spelled_as_json() {
    let args = golem_llm::json::parse_json("{\"q\":\"a\\\"b\"}").unwrap();
    let response = MessagesResponse {
        content: vec![Content::ToolUse {
            id: "t9".to_string(),
            input: args,
            name: "quoted".to_string(),
            cache_control: None,
        }],
        id: "m9".to_string(),
        model: "demo-model".to_string(),
        role: golem_llm::anthropic::Role::Assistant,
        stop_reason: Some(StopReason::ToolUse),
        usage: Usage {
            cache_creation_input_tokens: None,
            cache_read_input_tokens: None,
            input_tokens: 1,
            output_tokens: 2,
        },
    };
    match golem_llm::anthropic::process_response(response) {
        golem_llm::types::ChatEvent::ToolRequest(calls) => {
            assert_eq!(calls[0].arguments_json, "{\"q\":\"a\\\"b\"}");
        },
        other => panic!("expected a tool request, got {:?}", other),
    }
}

#[test]
fn unparsable_payload_reports_the_parser_error() {
    let mut d = golem_llm::anthropic::AnthropicChatStream::new();
    match d.decode_message("not json") {
        Err(msg) => assert!(msg.starts_with("Failed to deserialize stream event: ")),
        other => panic!("expected a decode error, got {:?}", other),
    }
}
