use golem_llm::types::Poll;
use golem_llm::utf8_stream::{ReadResult, Utf8Stream, Utf8StreamError};

fn ready_ok(p: Poll<Option<Result<String, Utf8StreamError<String>>>>) -> String {
    match p {
        Poll::Ready(Some(Ok(s))) => s,
        other => panic!("expected a decoded chunk, got {:?}", other),
    }
}

#[test]
fn whole_ascii_chunk_decodes_at_once() {
    let mut s = Utf8Stream::new();
    let out = ready_ok(s.poll_next(Some(ReadResult::Data(b"hello".to_vec()))));
    assert_eq!(out, "hello");
}

#[test]
fn split_multibyte_char_is_held_back() {
    // "é" is [0xC3, 0xA9]; split between the two bytes
    let mut s = Utf8Stream::new();
    let first = ready_ok(s.poll_next(Some(ReadResult::Data(vec![b'a', 0xC3]))));
    assert_eq!(first, "a");
    let second = ready_ok(s.poll_next(Some(ReadResult::Data(vec![0xA9, b'b']))));
    assert_eq!(second, "\u{e9}b");
}

#[test]
fn chunking_yields_same_text_as_whole_buffer() {
    let text = "a\u{e9}\u{4e16}\u{1f600}z";
    let bytes = text.as_bytes().to_vec();

    let mut whole = Utf8Stream::new();
    let mut whole_out = ready_ok(whole.poll_next(Some(ReadResult::Data(bytes.clone()))));
    match whole.poll_next(Some(ReadResult::Closed)) {
        Poll::Ready(None) => {},
        Poll::Ready(Some(Ok(tail))) => whole_out.push_str(&tail),
        other => panic!("unexpected close result {:?}", other),
    }

    let mut chunked = Utf8Stream::new();
    let mut chunked_out = String::new();
    for b in &bytes {
        chunked_out.push_str(&ready_ok(chunked.poll_next(Some(ReadResult::Data(vec![*b])))));
    }
    match chunked.poll_next(Some(ReadResult::Closed)) {
        Poll::Ready(None) => {},
        Poll::Ready(Some(Ok(tail))) => chunked_out.push_str(&tail),
        other => panic!("unexpected close result {:?}", other),
    }

    assert_eq!(whole_out, text);
    assert_eq!(chunked_out, text);
}

#[test]
fn invalid_tail_fails_only_at_close() {
    let mut s = Utf8Stream::new();
    // 0xFF can never start a UTF-8 scalar
    let out = ready_ok(s.poll_next(Some(ReadResult::Data(vec![b'x', 0xFF]))));
    assert_eq!(out, "x");
    match s.poll_next(Some(ReadResult::Closed)) {
        Poll::Ready(Some(Err(Utf8StreamError::Utf8(bad)))) => assert_eq!(bad, vec![0xFF]),
        other => panic!("expected a UTF-8 error, got {:?}", other),
    }
}

#[test]
fn clean_close_with_empty_buffer_ends_stream() {
    let mut s = Utf8Stream::new();
    match s.poll_next(Some(ReadResult::Closed)) {
        Poll::Ready(None) => {},
        other => panic!("expected the end of the stream, got {:?}", other),
    }
    // after the close every poll is pending
    match s.poll_next(Some(ReadResult::Data(b"late".to_vec()))) {
        Poll::Pending => {},
        other => panic!("expected pending, got {:?}", other),
    }
}

#[test]
fn no_read_is_pending() {
    let mut s = Utf8Stream::new();
    match s.poll_next(None) {
        Poll::Pending => {},
        other => panic!("expected pending, got {:?}", other),
    }
}

#[test]
fn transport_failure_is_reported() {
    let mut s = Utf8Stream::new();
    match s.poll_next(Some(ReadResult::Failed("boom".to_string()))) {
        Poll::Ready(Some(Err(Utf8StreamError::Transport(m)))) => assert_eq!(m, "boom"),
        other => panic!("expected a transport error, got {:?}", other),
    }
}

#[test]
fn overlong_encoding_is_rejected() {
    // 0xC0 0xAF is an overlong encoding of '/'
    let mut s = Utf8Stream::new();
    let out = ready_ok(s.poll_next(Some(ReadResult::Data(vec![0xC0, 0xAF]))));
    assert_eq!(out, "");
    match s.poll_next(Some(ReadResult::Closed)) {
        Poll::Ready(Some(Err(Utf8StreamError::Utf8(bad)))) => assert_eq!(bad, vec![0xC0, 0xAF]),
        other => panic!("expected a UTF-8 error, got {:?}", other),
    }
}
