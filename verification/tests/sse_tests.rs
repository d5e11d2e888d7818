use golem_llm::event_stream::EventStream;

fn collect_events(stream: &mut EventStream) -> Vec<(String, String, String, Option<u64>)> {
    let mut out = Vec::new();
    while let Some(e) = stream.next_event() {
        out.push((e.event, e.data, e.id, e.retry));
    }
    out
}

#[test]
fn two_records_dispatch_two_events() {
    let mut s = EventStream::new();
    s.feed_str("data: hello\n\ndata: world\n\n");
    let events = collect_events(&mut s);
    assert_eq!(events.len(), 2);
    assert_eq!(events[0].0, "message");
    assert_eq!(events[0].1, "hello");
    assert_eq!(events[1].0, "message");
    assert_eq!(events[1].1, "world");
}

#[test]
fn chunking_does_not_change_events() {
    let body = "event: add\ndata: one\r\ndata: two\n\n: comment\nid: 7\ndata: x\n\n";
    let mut whole = EventStream::new();
    whole.feed_str(body);
    let expected = collect_events(&mut whole);

    let mut chunked = EventStream::new();
    for c in body.chars() {
        let mut buf = String::new();
        buf.push(c);
        chunked.feed_str(&buf);
    }
    let got = collect_events(&mut chunked);
    assert_eq!(expected, got);
    assert_eq!(expected.len(), 2);
    assert_eq!(expected[0].0, "add");
    assert_eq!(expected[0].1, "one\ntwo");
    assert_eq!(expected[1].1, "x");
    assert_eq!(expected[1].2, "7");
}

#[test]
fn blank_data_field_dispatches_nothing() {
    let mut s = EventStream::new();
    s.feed_str("data:\n\n");
    assert!(s.next_event().is_none());
}

#[test]
fn record_without_data_dispatches_nothing() {
    let mut s = EventStream::new();
    s.feed_str("event: ping\nid: 3\n\n");
    assert!(s.next_event().is_none());
    // the id still persists into the next record
    s.feed_str("data: later\n\n");
    let e = s.next_event().unwrap();
    assert_eq!(e.id, "3");
    assert_eq!(e.data, "later");
}

#[test]
fn trailing_line_feed_is_stripped() {
    let mut s = EventStream::new();
    s.feed_str("data: abc\n\n");
    let e = s.next_event().unwrap();
    assert_eq!(e.data, "abc");
    assert!(!e.data.ends_with('\n'));
}

#[test]
fn crlf_and_cr_terminate_lines() {
    let mut s = EventStream::new();
    s.feed_str("data: a\r\n\r\ndata: b\r\r");
    let events = collect_events(&mut s);
    assert_eq!(events.len(), 2);
    assert_eq!(events[0].1, "a");
    assert_eq!(events[1].1, "b");
}

#[test]
fn comments_are_ignored() {
    let mut s = EventStream::new();
    s.feed_str(": keep-alive\n\ndata: real\n\n");
    let events = collect_events(&mut s);
    assert_eq!(events.len(), 1);
    assert_eq!(events[0].1, "real");
}

#[test]
fn id_with_nul_is_ignored() {
    let mut s = EventStream::new();
    s.feed_str("id: ok\ndata: one\n\nid: b\u{0000}ad\ndata: two\n\n");
    let events = collect_events(&mut s);
    assert_eq!(events[0].2, "ok");
    assert_eq!(events[1].2, "ok");
}

#[test]
fn retry_parses_digits_only() {
    let mut s = EventStream::new();
    s.feed_str("retry: 1500\ndata: a\n\nretry: 2s\ndata: b\n\nretry: \ndata: c\n\n");
    let events = collect_events(&mut s);
    assert_eq!(events[0].3, Some(1500));
    assert_eq!(events[1].3, None);
    assert_eq!(events[2].3, None);
}

#[test]
fn leading_bom_is_dropped() {
    let mut s = EventStream::new();
    s.feed_str("\u{feff}data: bom\n\n");
    let e = s.next_event().unwrap();
    assert_eq!(e.data, "bom");
}

#[test]
fn unknown_fields_are_ignored() {
    let mut s = EventStream::new();
    s.feed_str("custom: zzz\ndata: kept\n\n");
    let e = s.next_event().unwrap();
    assert_eq!(e.data, "kept");
}

#[test]
fn field_without_colon_is_name_with_empty_value() {
    let mut s = EventStream::new();
    s.feed_str("data\ndata: x\n\n");
    // the bare `data` line contributes an empty value and a separator
    let e = s.next_event().unwrap();
    assert_eq!(e.data, "\nx");
}

#[test]
fn incomplete_record_waits_for_more_input() {
    let mut s = EventStream::new();
    s.feed_str("data: part");
    assert!(s.next_event().is_none());
    s.feed_str("ial\n\n");
    let e = s.next_event().unwrap();
    assert_eq!(e.data, "partial");
}

#[test]
fn last_event_id_tracks_dispatches() {
    let mut s = EventStream::new();
    s.set_last_event_id("seed".to_string());
    assert_eq!(s.last_event_id(), "seed");
    s.feed_str("id: 42\ndata: x\n\n");
    let _ = s.next_event().unwrap();
    assert_eq!(s.last_event_id(), "42");
}

#[test]
fn last_event_id_follows_the_event_handed_out() {
    // one chunk dispatches two records with distinct ids
    let mut s = EventStream::new();
    s.feed_str("id: first\ndata: a\n\nid: second\ndata: b\n\n");
    let e1 = s.next_event().unwrap();
    assert_eq!(e1.id, "first");
    assert_eq!(s.last_event_id(), "first");
    let e2 = s.next_event().unwrap();
    assert_eq!(e2.id, "second");
    assert_eq!(s.last_event_id(), "second");
}
