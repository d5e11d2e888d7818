use golem_llm::anthropic::AnthropicChatStream;
use golem_llm::chat_stream::LlmChatStream;
use golem_llm::event_source::{Error, EventSource, HttpResponseHead};
use golem_llm::types::{ErrorCode, FinishReason, StreamEvent};
use golem_llm::utf8_stream::ReadResult;

fn head_ok() -> HttpResponseHead {
    HttpResponseHead { status: 200, content_type: Some("text/event-stream".to_string()) }
}

fn live_stream() -> LlmChatStream<AnthropicChatStream> {
    let source = EventSource::new(head_ok()).unwrap();
    LlmChatStream::new(AnthropicChatStream::new(), source)
}

fn drive(
    stream: &mut LlmChatStream<AnthropicChatStream>,
    reads: Vec<ReadResult>,
) -> Vec<StreamEvent> {
    let mut events = Vec::new();
    for read in reads {
        match stream.get_next(Some(read)) {
            Some(batch) => {
                if batch.is_empty() {
                    return events;
                }
                events.extend(batch);
            },
            None => {},
        }
        loop {
            match stream.get_next(None) {
                Some(batch) => {
                    if batch.is_empty() {
                        return events;
                    }
                    events.extend(batch);
                },
                None => break,
            }
        }
    }
    events
}

#[test]
fn status_must_be_200() {
    match EventSource::new(HttpResponseHead {
        status: 404,
        content_type: Some("text/event-stream".to_string()),
    }) {
        Err(Error::InvalidStatusCode(code, head)) => {
            assert_eq!(code, 404);
            assert_eq!(head.status, 404);
        },
        other => panic!("expected an invalid status code, got {:?}", other),
    }
}

#[test]
fn content_type_must_be_event_stream() {
    match EventSource::new(HttpResponseHead {
        status: 200,
        content_type: Some("application/json".to_string()),
    }) {
        Err(Error::InvalidContentType(value, _)) => assert_eq!(value, "application/json"),
        other => panic!("expected an invalid content type, got {:?}", other),
    }
    match EventSource::new(HttpResponseHead { status: 200, content_type: None }) {
        Err(Error::InvalidContentType(value, _)) => assert_eq!(value, ""),
        other => panic!("expected an invalid content type, got {:?}", other),
    }
}

#[test]
fn content_type_parameters_and_case_are_tolerated() {
    assert!(EventSource::new(HttpResponseHead {
        status: 200,
        content_type: Some("Text/Event-Stream; charset=utf-8".to_string()),
    })
        .is_ok());
}

#[test]
fn message_stop_after_message_delta_finishes_with_mapped_reason() {
    let mut stream = live_stream();
    let body = "data: {\"type\":\"message_delta\",\"delta\":{\"stop_reason\":\"end_turn\"}}\n\ndata: {\"type\":\"message_stop\"}\n\n";
    let events = drive(
        &mut stream,
        vec![ReadResult::Data(body.as_bytes().to_vec()), ReadResult::Closed],
    );
    assert_eq!(events.len(), 1);
    match &events[0] {
        StreamEvent::Finish(meta) => {
            assert_eq!(meta.finish_reason, Some(FinishReason::Other));
            assert_eq!(meta.usage, None);
        },
        other => panic!("expected the finish event, got {:?}", other),
    }
}

#[test]
fn after_finish_every_poll_returns_an_empty_list() {
    let mut stream = live_stream();
    let body = "data: {\"type\":\"message_stop\"}\n\n";
    let _ = drive(&mut stream, vec![ReadResult::Data(body.as_bytes().to_vec())]);
    for _ in 0..3 {
        let r = stream.get_next(None);
        assert_eq!(r, Some(vec![]));
    }
}

#[test]
fn text_deltas_flow_through() {
    let mut stream = live_stream();
    let body = "data: {\"type\":\"content_block_delta\",\"delta\":{\"type\":\"text_delta\",\"text\":\"Hel\"}}\n\ndata: {\"type\":\"content_block_delta\",\"delta\":{\"type\":\"text_delta\",\"text\":\"lo\"}}\n\n";
    let events = drive(
        &mut stream,
        vec![ReadResult::Data(body.as_bytes().to_vec()), ReadResult::Closed],
    );
    let mut text = String::new();
    for e in &events {
        if let StreamEvent::Delta(d) = e {
            if let Some(parts) = &d.content {
                for p in parts {
                    if let golem_llm::types::ContentPart::Text(t) = p {
                        text.push_str(t);
                    }
                }
            }
        }
    }
    assert_eq!(text, "Hello");
}

#[test]
fn done_sentinel_is_not_decoded() {
    let mut stream = live_stream();
    let body = "data: [DONE]\n\n";
    let events = drive(
        &mut stream,
        vec![ReadResult::Data(body.as_bytes().to_vec()), ReadResult::Closed],
    );
    assert!(events.is_empty());
}

#[test]
fn transport_end_finishes_with_empty_result() {
    let mut stream = live_stream();
    let events = drive(&mut stream, vec![ReadResult::Closed]);
    assert!(events.is_empty());
    assert_eq!(stream.get_next(None), Some(vec![]));
}

#[test]
fn preflight_failure_reports_once_then_finishes() {
    let failure = golem_llm::types::Error {
        code: ErrorCode::InternalError,
        message: "Missing config key: API_KEY".to_string(),
        provider_error_json: None,
    };
    let mut stream: LlmChatStream<AnthropicChatStream> =
        LlmChatStream::failed(AnthropicChatStream::new(), failure.clone());
    let first = stream.get_next(None).unwrap();
    assert_eq!(first, vec![StreamEvent::Error(failure)]);
    assert_eq!(stream.get_next(None), Some(vec![]));
}

#[test]
fn transport_failure_surfaces_as_error_event() {
    let mut stream = live_stream();
    // the first poll reports the opening and buffers nothing
    assert_eq!(stream.get_next(None), None);
    let r = stream.get_next(Some(ReadResult::Failed("connection reset".to_string())));
    match r.as_deref() {
        Some([StreamEvent::Error(e)]) => {
            assert_eq!(e.code, ErrorCode::InternalError);
            assert!(e.message.contains("connection reset"));
        },
        other => panic!("expected one error event, got {:?}", other),
    }
    // the source closed itself: the next poll ends the stream
    assert_eq!(stream.get_next(None), Some(vec![]));
}
