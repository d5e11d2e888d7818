use golem_llm::anthropic::AnthropicChatStream;
use golem_llm::chat_stream::LlmChatStream;
use golem_llm::durability::{
    retry_prompt, CallDecision, DurableChatStream, DurableLLM, LedgerEntry, SendInput,
    StreamDecision, SubscribeDecision,
};
use golem_llm::event_source::{EventSource, HttpResponseHead};
use golem_llm::types::{
    ChatEvent, CompleteResponse, Config, ContentPart, Message, ResponseMetadata, Role, StreamDelta,
    StreamEvent, ToolCall,
};

fn sample_config() -> Config {
    Config {
        model: "demo-model".to_string(),
        max_tokens: Some(100),
        stop_sequences: None,
        tools: vec![],
        tool_choice: None,
        provider_options: vec![],
    }
}

fn sample_messages() -> Vec<Message> {
    vec![Message {
        role: Role::User,
        name: None,
        content: vec![ContentPart::Text("What is the answer?".to_string())],
    }]
}

fn sample_response() -> ChatEvent {
    ChatEvent::Message(CompleteResponse {
        id: "resp-1".to_string(),
        content: vec![ContentPart::Text("The answer.".to_string())],
        tool_calls: vec![],
        metadata: ResponseMetadata {
            finish_reason: None,
            usage: None,
            provider_id: None,
            timestamp: None,
            provider_metadata_json: None,
        },
    })
}

#[test]
fn replayed_send_returns_the_recorded_result() {
    // live run: the call decision is live; the result is recorded
    let mut live = DurableLLM::new();
    assert!(live.is_live());
    assert_eq!(live.call_entry(), CallDecision::Live);
    let output = sample_response();
    live.record_send(
        SendInput { messages: sample_messages(), config: sample_config() },
        &output,
    );

    // restart: the same ledger replays the recorded result verbatim,
    // deciding against any live (network) execution
    let mut restarted = DurableLLM::resume(vec![LedgerEntry::Send {
        input: SendInput { messages: sample_messages(), config: sample_config() },
        output: sample_response(),
    }]);
    assert!(!restarted.is_live());
    match restarted.call_entry() {
        CallDecision::Replayed(e) => assert_eq!(e, sample_response()),
        other => panic!("expected the replayed result, got {:?}", other),
    }
    // the ledger is exhausted: the next call runs live
    assert!(restarted.is_live());
}

#[test]
fn stream_entry_decides_replay_from_the_ledger() {
    let mut fresh = DurableLLM::new();
    assert_eq!(fresh.stream_entry(), StreamDecision::LiveStream);
    fresh.record_stream(SendInput { messages: sample_messages(), config: sample_config() });

    let mut restarted = DurableLLM::resume(vec![LedgerEntry::Stream {
        input: SendInput { messages: sample_messages(), config: sample_config() },
    }]);
    assert_eq!(restarted.stream_entry(), StreamDecision::ReplayStream);
}

fn delta_text(s: &str) -> StreamEvent {
    StreamEvent::Delta(StreamDelta {
        content: Some(vec![ContentPart::Text(s.to_string())]),
        tool_calls: None,
    })
}

#[test]
fn replay_bookkeeping_accumulates_deltas_and_notes_the_end() {
    let mut stream: DurableChatStream<AnthropicChatStream> =
        DurableChatStream::replay(sample_messages(), sample_config());
    let r = stream.replay_recorded(Some(vec![delta_text("Hel"), delta_text("lo")]));
    assert_eq!(r.unwrap().len(), 2);
    // no terminal event yet: resuming asks for a continuation
    assert!(stream.continuation().is_some());

    let finish = StreamEvent::Finish(ResponseMetadata {
        finish_reason: None,
        usage: None,
        provider_id: None,
        timestamp: None,
        provider_metadata_json: None,
    });
    let _ = stream.replay_recorded(Some(vec![finish]));
    // the recorded call had completed: no continuation is made
    assert!(stream.continuation().is_none());
}

#[test]
fn continuation_prompt_echoes_partial_text() {
    let partial = vec![
        StreamDelta { content: Some(vec![ContentPart::Text("Hel".to_string())]), tool_calls: None },
        StreamDelta { content: Some(vec![ContentPart::Text("lo".to_string())]), tool_calls: None },
    ];
    let originals = sample_messages();
    let prompt = retry_prompt(&originals, &partial);

    assert_eq!(prompt.len(), originals.len() + 2);
    assert_eq!(prompt[0].role, Role::System);
    assert_eq!(
        prompt[0].content,
        vec![
            ContentPart::Text(
                "You were asked the same question previously, but the response was interrupted before completion. Please continue your response from where you left off. Do not include the part of the response that was already seen.".to_string()
            ),
            ContentPart::Text("Here is the original question:".to_string()),
        ]
    );
    assert_eq!(prompt[1], originals[0]);

    let last = prompt.last().unwrap();
    assert_eq!(last.role, Role::System);
    assert_eq!(
        last.content[0],
        ContentPart::Text("Here is the partial response that was successfully received:".to_string())
    );
    let mut echoed = String::new();
    for part in &last.content[1..] {
        if let ContentPart::Text(t) = part {
            echoed.push_str(t);
        }
    }
    assert_eq!(echoed, "Hello");
}

#[test]
fn continuation_prompt_serializes_tool_calls_as_placeholders() {
    let partial = vec![StreamDelta {
        content: None,
        tool_calls: Some(vec![ToolCall {
            id: "c1".to_string(),
            name: "lookup".to_string(),
            arguments_json: "{\"q\":1}".to_string(),
        }]),
    }];
    let prompt = retry_prompt(&vec![], &partial);
    let last = prompt.last().unwrap();
    assert_eq!(
        last.content[1],
        ContentPart::Text("<tool-call id=\"c1\" name=\"lookup\" arguments=\"{\"q\":1}\"/>".to_string())
    );
}

#[test]
fn replay_goes_live_exactly_once() {
    let mut stream: DurableChatStream<AnthropicChatStream> =
        DurableChatStream::replay(sample_messages(), sample_config());
    // early subscribers get lazy handles, counted for later binding
    assert_eq!(stream.subscribe(), SubscribeDecision::Lazy(0));
    assert_eq!(stream.subscribe(), SubscribeDecision::Lazy(1));

    let prompt = stream.continuation().unwrap();
    assert_eq!(prompt.len(), sample_messages().len() + 2);

    let source = EventSource::new(HttpResponseHead {
        status: 200,
        content_type: Some("text/event-stream".to_string()),
    })
    .unwrap();
    let live = LlmChatStream::new(AnthropicChatStream::new(), source);
    let to_bind = stream.attach_live(live);
    assert_eq!(to_bind, 2);
    // now subscribed handles come from the live stream
    assert_eq!(stream.subscribe(), SubscribeDecision::FromStream);
    let polled = stream.live_get_next(None);
    assert_eq!(polled, None);
}

#[test]
fn get_next_ledger_roundtrip() {
    let mut live = DurableLLM::new();
    let events = Some(vec![delta_text("x")]);
    live.record_get_next(&events);
    live.record_get_next(&None);

    let mut restarted = DurableLLM::resume(vec![
        LedgerEntry::GetNext { output: Some(vec![delta_text("x")]) },
        LedgerEntry::GetNext { output: None },
    ]);
    assert_eq!(restarted.replay_get_next(), Some(Some(vec![delta_text("x")])));
    assert_eq!(restarted.replay_get_next(), Some(None));
    // exhausted: nothing more to replay
    assert_eq!(restarted.replay_get_next(), None);
    assert!(restarted.is_live());
}

#[test]
fn provider_prompt_splits_instruction_and_headers() {
    let partial = vec![StreamDelta {
        content: Some(vec![ContentPart::Text("part".to_string())]),
        tool_calls: None,
    }];
    let originals = sample_messages();
    let prompt = golem_llm::anthropic::retry_prompt(&originals, &partial);
    assert_eq!(prompt.len(), originals.len() + 3);
    assert_eq!(prompt[0].role, Role::System);
    assert_eq!(
        prompt[0].content,
        vec![ContentPart::Text(
            "You were asked the same question previously, but the response was interrupted before completion. Please continue your response from where you left off. Do not include the part of the response that was already seen.".to_string()
        )]
    );
    assert_eq!(prompt[1].role, Role::User);
    assert_eq!(
        prompt[1].content,
        vec![ContentPart::Text("Here is the original question:".to_string())]
    );
    assert_eq!(prompt[2], originals[0]);
    let last = prompt.last().unwrap();
    assert_eq!(last.role, Role::User);
    assert_eq!(
        last.content,
        vec![
            ContentPart::Text(
                "Here is the partial response that was successfully received:".to_string()
            ),
            ContentPart::Text("part".to_string()),
        ]
    );
    // the three provider forms agree
    assert_eq!(prompt, golem_llm::openrouter::retry_prompt(&originals, &partial));
    assert_eq!(prompt, golem_llm::ollama::retry_prompt(&originals, &partial));
}
