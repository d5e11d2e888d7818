//! One Server-Sent-Events source over one HTTP response.
//!
//! The response head is validated once (status 200, `text/event-stream`
//! content type); after that the source owns a UTF-8 framer and an SSE
//! framer, reports one `Open` event, then hands out `Message` events in
//! order.  Any transport or framing error permanently closes the source;
//! it never retries.

use vstd::prelude::*;
use vstd::utf8::{decode_utf8, valid_utf8};

use crate::event_stream::{lemma_feed_taken, spec_feed, EventStream, FramerModel};
use crate::message_event::{MessageEvent, MessageEventModel};
use crate::strutil::str_to_chars;
use crate::types::Poll;
use crate::utf8_stream::{spec_chunk_step, ReadResult, Utf8Stream, Utf8StreamError, Utf8StreamModel};

verus! {

/// The ready state of an [`EventSource`].
#[derive(Debug, Clone, Copy, Eq, PartialEq, Ord, PartialOrd)]
pub enum ReadyState {
    /// The source is waiting on a response from the endpoint.
    Connecting,
    /// The source is connected.
    Open,
    /// The source is closed and no longer emitting events.
    Closed,
}

/// Raised when a request builder cannot be duplicated for a retry.
#[derive(Debug, Clone, Copy)]
pub struct CannotCloneRequestError;

/// The part of one HTTP response that the source validates: the status
/// code and the content-type header, as plain values.
#[derive(Debug, Clone, PartialEq, Eq)]
pub struct HttpResponseHead {
    pub status: u16,
    pub content_type: Option<String>,
}

/// Mathematical image of an [`HttpResponseHead`].
pub struct HeadModel {
    pub status: u16,
    pub content_type: Option<Seq<char>>,
}

impl View for HttpResponseHead {
    type V = HeadModel;

    open spec fn view(&self) -> HeadModel {
        HeadModel {
            status: self.status,
            content_type: match &self.content_type {
                Some(ct) => Some(ct@),
                None => None,
            },
        }
    }
}

/// An error raised while validating the response or reading the stream.
#[derive(Debug, PartialEq, Eq)]
pub enum Error {
    /// The stream ended with bytes that are not valid UTF-8.
    Utf8(Vec<u8>),
    /// The stream text could not be framed as Server-Sent Events.
    Parser(String),
    /// The HTTP request could not be completed.
    Transport(String),
    /// The underlying response stream failed.
    TransportStream(String),
    /// The content type of the response is not `text/event-stream`;
    /// carries the offending value and the response head.
    InvalidContentType(String, HttpResponseHead),
    /// The status code of the response is not 200; carries the code and
    /// the response head.
    InvalidStatusCode(u16, HttpResponseHead),
    /// The configured last event id cannot be sent to the server.
    InvalidLastEventId(String),
    /// The stream ended.
    StreamEnded,
}

/// Mathematical image of an [`Error`].
pub enum ErrorModel {
    Utf8(Seq<u8>),
    Parser(Seq<char>),
    Transport(Seq<char>),
    TransportStream(Seq<char>),
    InvalidContentType(Seq<char>, HeadModel),
    InvalidStatusCode(u16, HeadModel),
    InvalidLastEventId(Seq<char>),
    StreamEnded,
}

impl View for Error {
    type V = ErrorModel;

    open spec fn view(&self) -> ErrorModel {
        match self {
            Error::Utf8(b) => ErrorModel::Utf8(b@),
            Error::Parser(s) => ErrorModel::Parser(s@),
            Error::Transport(s) => ErrorModel::Transport(s@),
            Error::TransportStream(s) => ErrorModel::TransportStream(s@),
            Error::InvalidContentType(s, h) => ErrorModel::InvalidContentType(s@, h@),
            Error::InvalidStatusCode(c, h) => ErrorModel::InvalidStatusCode(*c, h@),
            Error::InvalidLastEventId(s) => ErrorModel::InvalidLastEventId(s@),
            Error::StreamEnded => ErrorModel::StreamEnded,
        }
    }
}

/// Events created by the [`EventSource`].
#[derive(Debug, PartialEq, Eq)]
pub enum Event {
    /// Fired once, when the connection is opened, before any message.
    Open,
    /// Fired for each dispatched SSE record.
    Message(MessageEvent),
}

/// True when `a` equals `b` up to ASCII case, `b` being lowercase.
pub open spec fn char_eq_ci(a: char, b: char) -> bool {
    a == b || ('A' <= a && a <= 'Z' && a as u32 + 32 == b as u32)
}

/// True when the two sequences agree char by char up to ASCII case, the
/// second being lowercase.
pub open spec fn seq_eq_ci(s: Seq<char>, t: Seq<char>) -> bool {
    s.len() == t.len() && forall|j: int| 0 <= j < s.len() ==> char_eq_ci(#[trigger] s[j], t[j])
}

/// True when `c` is a space or a horizontal tab.
pub open spec fn is_ws(c: char) -> bool {
    c == ' ' || c == '\t'
}

/// The chars of `s` before its first `;`, or all of `s`.
pub open spec fn media_essence(s: Seq<char>) -> Seq<char>
    decreases s.len(),
{
    if s.len() == 0 {
        s
    } else if s[0] == ';' {
        Seq::empty()
    } else {
        seq![s[0]] + media_essence(s.drop_first())
    }
}

/// `s` without leading spaces and tabs.
pub open spec fn trim_start(s: Seq<char>) -> Seq<char>
    decreases s.len(),
{
    if s.len() > 0 && is_ws(s[0]) {
        trim_start(s.drop_first())
    } else {
        s
    }
}

/// `s` without trailing spaces and tabs.
pub open spec fn trim_end(s: Seq<char>) -> Seq<char>
    decreases s.len(),
{
    if s.len() > 0 && is_ws(s.last()) {
        trim_end(s.drop_last())
    } else {
        s
    }
}

/// True when the content-type value names the `text/event-stream` media
/// type: its part before any parameters, trimmed of surrounding blanks,
/// spells `text/event-stream` up to ASCII case.
pub open spec fn is_event_stream_media_type(s: Seq<char>) -> bool {
    seq_eq_ci(trim_end(trim_start(media_essence(s))), "text/event-stream"@)
}

proof fn lemma_media_essence_prefix(s: Seq<char>, k: int)
    requires
        0 <= k <= s.len(),
        forall|j: int| 0 <= j < k ==> s[j] != ';',
        k < s.len() ==> s[k] == ';',
    ensures
        media_essence(s) =~= s.subrange(0, k),
    decreases k,
{
    if s.len() == 0 {
        assert(s.subrange(0, k) =~= s);
    } else if k == 0 {
        assert(s.subrange(0, 0) =~= Seq::<char>::empty());
    } else {
        lemma_media_essence_prefix(s.drop_first(), k - 1);
        assert(s.drop_first().subrange(0, k - 1) =~= s.subrange(1, k));
        assert(media_essence(s) =~= seq![s[0]] + s.subrange(1, k));
        assert(seq![s[0]] + s.subrange(1, k) =~= s.subrange(0, k));
    }
}

proof fn lemma_trim_start_at(s: Seq<char>, a: int)
    requires
        0 <= a <= s.len(),
        forall|j: int| 0 <= j < a ==> is_ws(#[trigger] s[j]),
        a < s.len() ==> !is_ws(s[a]),
    ensures
        trim_start(s) =~= s.subrange(a, s.len() as int),
    decreases a,
{
    if a == 0 {
        assert(s.subrange(0, s.len() as int) =~= s);
    } else {
        lemma_trim_start_at(s.drop_first(), a - 1);
        assert(s.drop_first().subrange(a - 1, s.drop_first().len() as int) =~= s.subrange(
            a,
            s.len() as int,
        ));
    }
}

proof fn lemma_trim_end_at(s: Seq<char>, b: int)
    requires
        0 <= b <= s.len(),
        forall|j: int| b <= j < s.len() ==> is_ws(#[trigger] s[j]),
        b > 0 ==> !is_ws(s[b - 1]),
    ensures
        trim_end(s) =~= s.subrange(0, b),
    decreases s.len() - b,
{
    if b == s.len() {
        if s.len() > 0 && is_ws(s.last()) {
            assert(!is_ws(s[b - 1]));
            assert(false);
        }
        assert(s.subrange(0, b) =~= s);
    } else {
        assert(is_ws(s.last()));
        lemma_trim_end_at(s.drop_last(), b);
        assert(s.drop_last().subrange(0, b) =~= s.subrange(0, b));
    }
}

/// Checks a content-type value for the `text/event-stream` media type.
pub fn is_event_stream_content_type(s: &str) -> (r: bool)
    ensures
        r == is_event_stream_media_type(s@),
{
    let v = str_to_chars(s);
    let n = v.len();
    // cut at the first ';'
    let mut semi: usize = 0;
    while semi < n && v[semi] != ';'
        invariant
            semi <= n,
            n == v@.len(),
            forall|j: int| 0 <= j < semi ==> v@[j] != ';',
        decreases n - semi,
    {
        semi = semi + 1;
    }
    proof {
        lemma_media_essence_prefix(v@, semi as int);
    }
    let ghost essence = v@.subrange(0, semi as int);
    // trim leading blanks
    let mut a: usize = 0;
    while a < semi && (v[a] == ' ' || v[a] == '\t')
        invariant
            a <= semi <= n,
            n == v@.len(),
            forall|j: int| 0 <= j < a ==> is_ws(#[trigger] v@[j]),
        decreases semi - a,
    {
        a = a + 1;
    }
    // trim trailing blanks
    let mut b: usize = semi;
    while b > a && (v[b - 1] == ' ' || v[b - 1] == '\t')
        invariant
            a <= b <= semi <= n,
            n == v@.len(),
            forall|j: int| b <= j < semi ==> is_ws(#[trigger] v@[j]),
        decreases b,
    {
        b = b - 1;
    }
    proof {
        assert(forall|j: int| 0 <= j < a ==> is_ws(#[trigger] essence[j]));
        assert((a as int) < semi as int ==> !is_ws(essence[a as int]));
        lemma_trim_start_at(essence, a as int);
        let mid = essence.subrange(a as int, semi as int);
        assert(forall|j: int| (b - a) <= j < mid.len() ==> is_ws(#[trigger] mid[j]));
        if b > a {
            assert(!is_ws(mid[b - a - 1]));
        }
        lemma_trim_end_at(mid, b - a);
        assert(mid.subrange(0, b - a) =~= v@.subrange(a as int, b as int));
        assert(trim_end(trim_start(media_essence(v@))) =~= v@.subrange(a as int, b as int));
    }
    // compare, case-insensitively, with the expected media type
    let t = str_to_chars("text/event-stream");
    let tlen = t.len();
    if b - a != tlen {
        proof {
            assert(!seq_eq_ci(v@.subrange(a as int, b as int), t@));
        }
        return false;
    }
    let mut j: usize = 0;
    while j < tlen
        invariant
            j <= tlen,
            tlen == t@.len(),
            a + tlen == b,
            b <= n,
            n == v@.len(),
            v@ == s@,
            t@ == "text/event-stream"@,
            trim_end(trim_start(media_essence(s@))) == v@.subrange(a as int, b as int),
            forall|k: int| 0 <= k < j ==> char_eq_ci(#[trigger] v@[a + k], t@[k]),
        decreases tlen - j,
    {
        let c = v[a + j];
        let e = t[j];
        let ok: bool = if c == e {
            true
        } else if c >= 'A' && c <= 'Z' {
            (c as u32) + 32 == (e as u32)
        } else {
            false
        };
        if !ok {
            proof {
                assert(!char_eq_ci(v@[a + j], t@[j as int]));
                assert(v@.subrange(a as int, b as int)[j as int] == v@[a + j]);
                assert(!seq_eq_ci(v@.subrange(a as int, b as int), t@));
            }
            return false;
        }
        j = j + 1;
    }
    proof {
        assert(forall|k: int|
            0 <= k < tlen ==> #[trigger] v@.subrange(a as int, b as int)[k] == v@[a + k]);
        assert(seq_eq_ci(v@.subrange(a as int, b as int), t@));
    }
    true
}

/// The whole pipeline is chunk-boundary independent: running transport
/// bytes through the UTF-8 framer and the SSE framer in two chunks leaves
/// both framers exactly as running their concatenation at once does — so
/// the events dispatched never depend on how the transport cut its reads.
pub proof fn lemma_pipeline_split_invariance(
    buf: Seq<u8>,
    st: FramerModel,
    c1: Seq<u8>,
    c2: Seq<u8>,
)
    ensures
        ({
            let (r1, t1) = crate::utf8_stream::spec_chunk_step(buf, c1);
            let (r2, t2) = crate::utf8_stream::spec_chunk_step(r1, c2);
            let (r, t) = crate::utf8_stream::spec_chunk_step(buf, c1 + c2);
            spec_feed(spec_feed(st, t1), t2) == spec_feed(st, t) && r == r2
        }),
{
    crate::utf8_stream::lemma_split_invariance(buf, c1, c2);
    let (r1, t1) = crate::utf8_stream::spec_chunk_step(buf, c1);
    let (r2, t2) = crate::utf8_stream::spec_chunk_step(r1, c2);
    crate::event_stream::lemma_feed_chunks(st, t1, t2);
}

/// Mathematical image of an [`EventSource`].
pub struct SourceModel {
    /// The UTF-8 framer below.
    pub utf8: Utf8StreamModel,
    /// The SSE framer above it.
    pub framer: FramerModel,
    /// Whether the one `Open` event has been reported.
    pub opened: bool,
    /// Whether the source is permanently closed.
    pub is_closed: bool,
    /// A framing or transport error waiting to be reported, after the
    /// events dispatched before it.
    pub pending_error: Option<ErrorModel>,
}

/// Mathematical image of a [`ReadResult`].
pub enum ReadModel {
    Data(Seq<u8>),
    Closed,
    Failed(Seq<char>),
}

impl View for ReadResult {
    type V = ReadModel;

    open spec fn view(&self) -> ReadModel {
        match self {
            ReadResult::Data(b) => ReadModel::Data(b@),
            ReadResult::Closed => ReadModel::Closed,
            ReadResult::Failed(m) => ReadModel::Failed(m@),
        }
    }
}

/// How one transport read moves the source's framers: bytes run through
/// the UTF-8 framer into the SSE framer; a close flushes and terminates
/// them (leftover bytes that are not valid UTF-8 become a pending error);
/// a failure becomes a pending error with nothing else changed.
pub open spec fn spec_ingest(s: SourceModel, read: Option<ReadModel>) -> SourceModel {
    match read {
        None => s,
        Some(rm) => {
            if s.utf8.terminated {
                s
            } else {
                match rm {
                    ReadModel::Data(bytes) => {
                        let (rest, text) = spec_chunk_step(s.utf8.buffer, bytes);
                        SourceModel {
                            utf8: Utf8StreamModel { buffer: rest, terminated: false },
                            framer: spec_feed(s.framer, text),
                            ..s
                        }
                    },
                    ReadModel::Closed => {
                        let utf2 = Utf8StreamModel { buffer: Seq::empty(), terminated: true };
                        if s.utf8.buffer.len() == 0 {
                            SourceModel {
                                utf8: utf2,
                                framer: FramerModel { terminated: true, ..s.framer },
                                ..s
                            }
                        } else if valid_utf8(s.utf8.buffer) {
                            SourceModel {
                                utf8: utf2,
                                framer: FramerModel {
                                    terminated: true,
                                    ..spec_feed(s.framer, decode_utf8(s.utf8.buffer))
                                },
                                ..s
                            }
                        } else {
                            SourceModel {
                                utf8: utf2,
                                framer: FramerModel { terminated: true, ..s.framer },
                                pending_error: Some(ErrorModel::Utf8(s.utf8.buffer)),
                                ..s
                            }
                        }
                    },
                    ReadModel::Failed(m) => SourceModel {
                        pending_error: Some(ErrorModel::TransportStream(m)),
                        ..s
                    },
                }
            }
        },
    }
}

/// What one poll of the source reports, as a model value.
pub enum PollOutcome {
    /// The source was already closed.
    Closed,
    /// The one `Open` event.
    Opened,
    /// A dispatched record.
    Message(MessageEventModel),
    /// A framing or transport error; the source closes.
    Failed(ErrorModel),
    /// The stream ended cleanly; reported as `StreamEnded`, and the source closes.
    Ended,
    /// Nothing to report yet.
    Pending,
}

/// What one poll does and reports: the read runs through the framers, then
/// the first of these that applies is reported: already closed; the one
/// `Open`; the oldest not-yet-delivered record; a pending error (closing
/// the source); the end of the stream (closing the source); or `Pending`.
pub open spec fn spec_poll(st: SourceModel, read: Option<ReadModel>) -> (SourceModel, PollOutcome) {
    if st.is_closed {
        (st, PollOutcome::Closed)
    } else {
        let s1 = spec_ingest(st, read);
        if !st.opened {
            (SourceModel { opened: true, ..s1 }, PollOutcome::Opened)
        } else if s1.framer.taken < s1.framer.emitted.len() {
            (
                SourceModel {
                    framer: FramerModel {
                        taken: s1.framer.taken + 1,
                        last_event_id: s1.framer.emitted[s1.framer.taken as int].id,
                        ..s1.framer
                    },
                    ..s1
                },
                PollOutcome::Message(s1.framer.emitted[s1.framer.taken as int]),
            )
        } else if s1.pending_error is Some {
            (
                SourceModel { pending_error: None, is_closed: true, ..s1 },
                PollOutcome::Failed(s1.pending_error->0),
            )
        } else if s1.framer.terminated {
            (SourceModel { is_closed: true, ..s1 }, PollOutcome::Ended)
        } else {
            (s1, PollOutcome::Pending)
        }
    }
}

/// True when the polled value `r` reports the outcome `oc`.
pub open spec fn poll_matches(r: Poll<Option<Result<Event, Error>>>, oc: PollOutcome) -> bool {
    match oc {
        PollOutcome::Closed => r matches Poll::Ready(None),
        PollOutcome::Opened => match r {
            Poll::Ready(Some(Ok(Event::Open))) => true,
            _ => false,
        },
        PollOutcome::Message(em) => match r {
            Poll::Ready(Some(Ok(Event::Message(e)))) => e@ == em,
            _ => false,
        },
        PollOutcome::Failed(em) => match r {
            Poll::Ready(Some(Err(e))) => e@ == em,
            _ => false,
        },
        PollOutcome::Ended => match r {
            Poll::Ready(Some(Err(e))) => e@ is StreamEnded,
            _ => false,
        },
        PollOutcome::Pending => r matches Poll::Pending,
    }
}

/// A Server-Sent-Events source over one validated HTTP response.
#[derive(Debug)]
pub struct EventSource {
    utf8: Utf8Stream,
    stream: EventStream,
    opened: bool,
    is_closed: bool,
    pending_error: Option<Error>,
}

impl View for EventSource {
    type V = SourceModel;

    closed spec fn view(&self) -> SourceModel {
        SourceModel {
            utf8: self.utf8@,
            framer: self.stream@,
            opened: self.opened,
            is_closed: self.is_closed,
            pending_error: match &self.pending_error {
                Some(e) => Some(e@),
                None => None,
            },
        }
    }
}

impl EventSource {
    /// Validates one HTTP response head and, when it passes, wraps its body
    /// stream: the status must be 200 and the content type must name the
    /// `text/event-stream` media type.  Either failure is terminal and
    /// carries the response head for diagnostics.
    pub fn new(head: HttpResponseHead) -> (r: Result<EventSource, Error>)
        ensures
            ({
                match r {
                    Ok(src) => head@.status == 200 && (match head@.content_type {
                        Some(ct) => is_event_stream_media_type(ct),
                        None => false,
                    }) && src@.utf8.buffer.len() == 0 && !src@.utf8.terminated && src@.framer
                        == crate::event_stream::initial_framer() && !src@.opened && !src@.is_closed
                        && src@.pending_error is None,
                    Err(e) => match e@ {
                        ErrorModel::InvalidStatusCode(code, h) => head@.status != 200 && code
                            == head@.status && h == head@,
                        ErrorModel::InvalidContentType(ctv, h) => head@.status == 200 && h == head@
                            && (match head@.content_type {
                            Some(ct) => !is_event_stream_media_type(ct) && ctv == ct,
                            None => ctv.len() == 0,
                        }),
                        _ => false,
                    },
                }
            }),
    {
        if head.status != 200 {
            let code = head.status;
            return Err(Error::InvalidStatusCode(code, head));
        }
        match &head.content_type {
            None => {
                let empty = String::new();
                Err(Error::InvalidContentType(empty, head))
            },
            Some(ct) => {
                if is_event_stream_content_type(ct.as_str()) {
                    Ok(
                        EventSource {
                            utf8: Utf8Stream::new(),
                            stream: EventStream::new(),
                            opened: false,
                            is_closed: false,
                            pending_error: None,
                        },
                    )
                } else {
                    let ctv = ct.clone();
                    Err(Error::InvalidContentType(ctv, head))
                }
            },
        }
    }

    /// Closes the source; no further events are emitted.
    pub fn close(&mut self)
        ensures
            final(self)@ == (SourceModel { is_closed: true, ..old(self)@ }),
    {
        self.is_closed = true;
    }

    /// The current ready state: closed once closed, otherwise open.
    pub fn ready_state(&self) -> (r: ReadyState)
        ensures
            r == (if self@.is_closed {
                ReadyState::Closed
            } else {
                ReadyState::Open
            }),
    {
        if self.is_closed {
            ReadyState::Closed
        } else {
            ReadyState::Open
        }
    }

    /// One non-blocking poll.  The transport read (if any) runs through the
    /// framers as [`spec_ingest`] says; then, in order of precedence: a
    /// closed source reports the end; the first poll reports `Open`; a
    /// dispatched record is handed out; a pending error is reported and
    /// closes the source; a terminated stream reports `StreamEnded` and
    /// closes the source; otherwise the poll is `Pending`.
    pub fn poll_next(&mut self, read: Option<ReadResult>) -> (r: Poll<
        Option<Result<Event, Error>>,
    >)
        requires
            old(self)@.framer.taken <= old(self)@.framer.emitted.len(),
            old(self)@.utf8.terminated ==> old(self)@.framer.terminated,
        ensures
            ({
                let (s2, oc) = spec_poll(old(self)@, match read {
                    Some(rr) => Some(rr@),
                    None => None,
                });
                final(self)@ == s2 && poll_matches(r, oc)
            }),
            final(self)@.framer.taken <= final(self)@.framer.emitted.len(),
            final(self)@.utf8.terminated ==> final(self)@.framer.terminated,
    {
        if self.is_closed {
            return Poll::Ready(None);
        }
        let is_close_read = match &read {
            Some(ReadResult::Closed) => true,
            _ => false,
        };
        match self.utf8.poll_next(read) {
            Poll::Pending => {},
            Poll::Ready(None) => {},
            Poll::Ready(Some(Ok(text))) => {
                self.stream.feed_str(text.as_str());
                proof {
                    lemma_feed_taken(old(self)@.framer, text@);
                }
            },
            Poll::Ready(Some(Err(Utf8StreamError::Utf8(bad)))) => {
                self.pending_error = Some(Error::Utf8(bad));
            },
            Poll::Ready(Some(Err(Utf8StreamError::Transport(m)))) => {
                self.pending_error = Some(Error::TransportStream(m));
            },
        }
        if is_close_read {
            self.stream.terminate();
        }
        proof {
            if self.utf8@.buffer.len() == 0 {
                assert(self.utf8@.buffer =~= Seq::<u8>::empty());
            }
        }
        if !self.opened {
            self.opened = true;
            return Poll::Ready(Some(Ok(Event::Open)));
        }
        match self.stream.next_event() {
            Some(ev) => {
                return Poll::Ready(Some(Ok(Event::Message(ev))));
            },
            None => {},
        }
        let mut pending: Option<Error> = None;
        core::mem::swap(&mut pending, &mut self.pending_error);
        match pending {
            Some(err) => {
                self.is_closed = true;
                return Poll::Ready(Some(Err(err)));
            },
            None => {},
        }
        if self.stream.state().is_terminated() {
            self.is_closed = true;
            return Poll::Ready(Some(Err(Error::StreamEnded)));
        }
        Poll::Pending
    }
}

} // verus!
