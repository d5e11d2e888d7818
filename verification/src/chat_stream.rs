//! The provider-agnostic chat stream driver.
//!
//! [`LlmChatStream`] owns one [`EventSource`] and one provider decoder and
//! turns polled SSE records into [`StreamEvent`]s: the `[DONE]` sentinel
//! and unknown records yield nothing, a decoded `Finish` or `Error`
//! finishes the stream, the clean end of the transport finishes it with an
//! empty result, and once finished every poll returns an empty result.
//!
//! The host's readiness handle and the blocking loop around
//! [`get_next`](LlmChatStream::get_next) live with the embedder: this
//! driver is strictly non-blocking.

use vstd::prelude::*;
use vstd::string::StringExecFns;

use crate::event_source::{
    spec_poll, Error, ErrorModel, Event, EventSource, PollOutcome, ReadModel, SourceModel,
};
use crate::strutil::str_eq_str;
use crate::types::{ErrorCode, Poll, StreamEvent};
use crate::utf8_stream::ReadResult;

verus! {

/// The text used to report a source error to the caller, per error kind:
/// the status code and the count of undecodable bytes are spelled out.
pub open spec fn spec_error_text(e: ErrorModel) -> Seq<char> {
    match e {
        ErrorModel::Utf8(b) => "UTF8 error: the stream ended with "@ + crate::strutil::dec_digits(
            b.len() as int,
        ) + " bytes that are not valid UTF-8"@,
        ErrorModel::Parser(s) => "Protocol parser error: "@ + s,
        ErrorModel::Transport(m) => "Transport error: "@ + m,
        ErrorModel::TransportStream(m) => "Transport stream error: "@ + m,
        ErrorModel::InvalidContentType(v, _) => "Invalid header value: "@ + v,
        ErrorModel::InvalidStatusCode(code, _) => "Invalid status code: "@
            + crate::strutil::dec_digits(code as int),
        ErrorModel::InvalidLastEventId(s) => "Invalid `Last-Event-ID`: "@ + s,
        ErrorModel::StreamEnded => "Stream ended"@,
    }
}

/// One line of text describing a source error.
pub fn describe_error(e: &Error) -> (r: String)
    ensures
        r@ == spec_error_text(e@),
{
    match e {
        Error::Utf8(b) => {
            let count = crate::strutil::u64_to_string(b.len() as u64);
            String::from_str("UTF8 error: the stream ended with ").concat(count.as_str()).concat(
                " bytes that are not valid UTF-8",
            )
        },
        Error::Parser(s) => String::from_str("Protocol parser error: ").concat(s.as_str()),
        Error::Transport(m) => String::from_str("Transport error: ").concat(m.as_str()),
        Error::TransportStream(m) => String::from_str("Transport stream error: ").concat(
            m.as_str(),
        ),
        Error::InvalidContentType(v, _) => String::from_str("Invalid header value: ").concat(
            v.as_str(),
        ),
        Error::InvalidStatusCode(code, _) => {
            let digits = crate::strutil::u64_to_string(*code as u64);
            String::from_str("Invalid status code: ").concat(digits.as_str())
        },
        Error::InvalidLastEventId(s) => String::from_str("Invalid `Last-Event-ID`: ").concat(
            s.as_str(),
        ),
        Error::StreamEnded => String::from_str("Stream ended"),
    }
}

/// An `Error` value reporting that something is unsupported.
pub fn unsupported(what: &str) -> (r: crate::types::Error)
    ensures
        r.code == crate::types::ErrorCode::Unsupported,
        r.message@ == "Unsupported: "@ + what@,
        r.provider_error_json is None,
{
    crate::types::Error {
        code: crate::types::ErrorCode::Unsupported,
        message: String::from_str("Unsupported: ").concat(what),
        provider_error_json: None,
    }
}

/// An `Error` value wrapping a source error under a context line.
pub fn from_event_source_error(details: &str, err: &Error) -> (r: crate::types::Error)
    ensures
        r.code == crate::types::ErrorCode::InternalError,
        r.message@ == details@ + ": "@ + spec_error_text(err@),
        r.provider_error_json is None,
{
    let text = describe_error(err);
    crate::types::Error {
        code: crate::types::ErrorCode::InternalError,
        message: String::from_str(details).concat(": ").concat(text.as_str()),
        provider_error_json: None,
    }
}

/// The decoder a provider plugs into the driver: it turns one raw record
/// payload into at most one [`StreamEvent`], keeping whatever accumulation
/// state the provider needs.  `decode_rel` is the decoder's specification:
/// it relates the state before the call, the payload, the state after the
/// call and the result.
pub trait LlmChatStreamState: Sized {
    /// How one decoded payload relates states and result.
    spec fn decode_rel(
        pre: Self,
        raw: Seq<char>,
        post: Self,
        r: Result<Option<StreamEvent>, String>,
    ) -> bool;

    /// Decodes one raw record payload.
    fn decode_message(&mut self, raw: &str) -> (r: Result<Option<StreamEvent>, String>)
        ensures
            Self::decode_rel(*old(self), raw@, *final(self), r),
    ;
}

/// Mathematical image of an [`LlmChatStream`].
pub struct ChatStreamModel<T> {
    /// The event source, absent when the stream failed before any request.
    pub source: Option<SourceModel>,
    /// The pre-flight failure, reported once on the first poll.
    pub failure: Option<crate::types::Error>,
    /// Whether a terminal event has been delivered.
    pub finished: bool,
    /// The provider decoder's state.
    pub decoder: T,
}

/// Marks a decode result as a witness for the driver's contract; always
/// true, used only to steer quantifier instantiation.
pub open spec fn decode_witness(dr: Result<Option<StreamEvent>, String>) -> bool {
    true
}

/// Well-formedness carried between polls of the underlying source.  A
/// pending error is never `StreamEnded`: the clean end of the stream is
/// reported through its own outcome, not through a stored error.
pub open spec fn chat_stream_wf<T>(st: ChatStreamModel<T>) -> bool {
    match st.source {
        Some(src) => src.framer.taken <= src.framer.emitted.len() && (src.utf8.terminated
            ==> src.framer.terminated) && match src.pending_error {
            Some(e) => !(e is StreamEnded),
            None => true,
        },
        None => true,
    }
}

/// Everything one poll of the driver guarantees, relating the state
/// before (`st`), the state after (`stf`), the transport read and the
/// returned events.
pub open spec fn get_next_post<T: LlmChatStreamState>(
    st: ChatStreamModel<T>,
    stf: ChatStreamModel<T>,
    readm: Option<ReadModel>,
    r: Option<Vec<StreamEvent>>,
) -> bool {
            if st.finished {
                stf == st && match r {
                    Some(v) => v@.len() == 0,
                    None => false,
                }
            } else {
                match st.source {
                    None => match st.failure {
                        Some(err) => stf == (ChatStreamModel { finished: true, ..st })
                            && match r {
                            Some(v) => v@ == seq![StreamEvent::Error(err)],
                            None => false,
                        },
                        None => stf == st && r is None,
                    },
                    Some(src) => {
                        let (src2, oc) = spec_poll(src, readm);
                        match oc {
                            PollOutcome::Closed | PollOutcome::Ended => stf
                                == (ChatStreamModel {
                                source: Some(src2),
                                finished: true,
                                ..st
                            }) && match r {
                                Some(v) => v@.len() == 0,
                                None => false,
                            },
                            PollOutcome::Opened | PollOutcome::Pending => stf
                                == (ChatStreamModel { source: Some(src2), ..st }) && r is None,
                            PollOutcome::Failed(em) => stf == (ChatStreamModel {
                                source: Some(src2),
                                ..st
                            }) && match r {
                                Some(v) => v@.len() == 1 && match v@[0] {
                                    StreamEvent::Error(e) => e.code == ErrorCode::InternalError
                                        && e.message@ == spec_error_text(em)
                                        && e.provider_error_json is None,
                                    _ => false,
                                },
                                None => false,
                            },
                            PollOutcome::Message(em) => {
                                if em.data == "[DONE]"@ {
                                    stf == (ChatStreamModel { source: Some(src2), ..st }) && r
                                        is None
                                } else {
                                    exists|dr: Result<Option<StreamEvent>, String>|
                                        #[trigger] decode_witness(dr) && T::decode_rel(
                                            st.decoder,
                                            em.data,
                                            stf.decoder,
                                            dr,
                                        ) && match dr {
                                            Ok(Some(se)) => stf == (ChatStreamModel {
                                                source: Some(src2),
                                                decoder: stf.decoder,
                                                finished: se.is_terminal(),
                                                ..st
                                            }) && match r {
                                                Some(v) => v@ == seq![se],
                                                None => false,
                                            },
                                            Ok(None) => stf == (ChatStreamModel {
                                                source: Some(src2),
                                                decoder: stf.decoder,
                                                ..st
                                            }) && r is None,
                                            Err(msg) => stf == (ChatStreamModel {
                                                source: Some(src2),
                                                decoder: stf.decoder,
                                                ..st
                                            }) && match r {
                                                Some(v) => v@.len() == 1 && match v@[0] {
                                                    StreamEvent::Error(e) => e.code
                                                        == ErrorCode::InternalError
                                                        && e.message@ == msg@
                                                        && e.provider_error_json is None,
                                                    _ => false,
                                                },
                                                None => false,
                                            },
                                        }
                                }
                            },
                        }
                    },
                }
            }
}

/// Once a poll has left the stream finished or its source closed — as
/// every poll that delivers a `Finish`, a provider-reported `Error` or a
/// transport error does — the next poll returns an empty event list and
/// leaves the stream finished, whatever the transport reads; by induction,
/// every later poll returns an empty list.  (An error reported for a
/// payload that failed to decode closes nothing by itself: the stream
/// carries on.)
pub proof fn lemma_terminal_then_empty<T: LlmChatStreamState>(
    s1: ChatStreamModel<T>,
    s2: ChatStreamModel<T>,
    readm: Option<ReadModel>,
    r2: Option<Vec<StreamEvent>>,
)
    requires
        s1.finished || (match s1.source {
            Some(src) => src.is_closed,
            None => false,
        }),
        get_next_post(s1, s2, readm, r2),
    ensures
        match r2 {
            Some(v) => v@.len() == 0,
            None => false,
        },
        s2.finished,
        s2.finished || (match s2.source {
            Some(src) => src.is_closed,
            None => false,
        }),
{
}

/// A provider-agnostic, non-blocking chat stream over one event source and
/// one provider decoder.
#[derive(Debug)]
pub struct LlmChatStream<T> {
    stream: Option<EventSource>,
    failure: Option<crate::types::Error>,
    finished: bool,
    implementation: T,
}

impl<T> View for LlmChatStream<T> {
    type V = ChatStreamModel<T>;

    closed spec fn view(&self) -> ChatStreamModel<T> {
        ChatStreamModel {
            source: match &self.stream {
                Some(s) => Some(s@),
                None => None,
            },
            failure: self.failure,
            finished: self.finished,
            decoder: self.implementation,
        }
    }
}

impl<T: LlmChatStreamState> LlmChatStream<T> {
    /// A live stream over a validated event source.
    pub fn new(implementation: T, stream: EventSource) -> (s: LlmChatStream<T>)
        ensures
            s@ == (ChatStreamModel {
                source: Some(stream@),
                failure: None::<crate::types::Error>,
                finished: false,
                decoder: implementation,
            }),
    {
        LlmChatStream { stream: Some(stream), failure: None, finished: false, implementation }
    }

    /// A stream that failed before any network request: its first poll
    /// reports the error, after which it is finished.
    pub fn failed(implementation: T, error: crate::types::Error) -> (s: LlmChatStream<T>)
        ensures
            s@ == (ChatStreamModel {
                source: None::<SourceModel>,
                failure: Some(error),
                finished: false,
                decoder: implementation,
            }),
    {
        LlmChatStream { stream: None, failure: Some(error), finished: false, implementation }
    }

    /// One non-blocking poll.  `None` means the caller must wait; `Some`
    /// carries the events produced by this poll (possibly none, which after
    /// the stream finished is the lasting answer).
    ///
    /// Once finished, every poll returns `Some` of an empty list and
    /// changes nothing; and a poll whose events contain a `Finish` or a
    /// provider-decoded `Error` leaves the stream finished.  Together these
    /// give the terminal-state guarantee: after a terminal event, every
    /// later poll yields an empty list.
    pub fn get_next(&mut self, read: Option<ReadResult>) -> (r: Option<Vec<StreamEvent>>)
        requires
            chat_stream_wf(old(self)@),
        ensures
            chat_stream_wf(final(self)@),
            get_next_post(old(self)@, final(self)@, match read {
                Some(rr) => Some(rr@),
                None => None,
            }, r),
    {
        if self.finished {
            return Some(Vec::new());
        }
        match &mut self.stream {
            Some(source) => {
                let polled = source.poll_next(read);
                match polled {
                    Poll::Ready(None) => {
                        self.finished = true;
                        Some(Vec::new())
                    },
                    Poll::Ready(Some(Err(Error::StreamEnded))) => {
                        self.finished = true;
                        Some(Vec::new())
                    },
                    Poll::Ready(Some(Err(error))) => {
                        let text = describe_error(&error);
                        let mut events: Vec<StreamEvent> = Vec::new();
                        events.push(
                            StreamEvent::Error(
                                crate::types::Error {
                                    code: ErrorCode::InternalError,
                                    message: text,
                                    provider_error_json: None,
                                },
                            ),
                        );
                        Some(events)
                    },
                    Poll::Ready(Some(Ok(Event::Open))) => None,
                    Poll::Ready(Some(Ok(Event::Message(event)))) => {
                        if str_eq_str(event.data.as_str(), "[DONE]") {
                            None
                        } else {
                            let decoded = self.implementation.decode_message(event.data.as_str());
                            proof {
                                assert(decode_witness(decoded));
                            }
                            match decoded {
                                Ok(Some(stream_event)) => {
                                    let terminal = match &stream_event {
                                        StreamEvent::Delta(_) => false,
                                        _ => true,
                                    };
                                    if terminal {
                                        self.finished = true;
                                    }
                                    let mut events: Vec<StreamEvent> = Vec::new();
                                    events.push(stream_event);
                                    return Some(events);
                                },
                                Ok(None) => {
                                    return None;
                                },
                                Err(error) => {
                                    let mut events: Vec<StreamEvent> = Vec::new();
                                    events.push(
                                        StreamEvent::Error(
                                            crate::types::Error {
                                                code: ErrorCode::InternalError,
                                                message: error,
                                                provider_error_json: None,
                                            },
                                        ),
                                    );
                                    return Some(events);
                                },
                            }
                        }
                    },
                    Poll::Pending => None,
                }
            },
            None => {
                match &self.failure {
                    Some(error) => {
                        let err = error.duplicate();
                        self.finished = true;
                        let mut events: Vec<StreamEvent> = Vec::new();
                        events.push(StreamEvent::Error(err));
                        Some(events)
                    },
                    None => None,
                }
            },
        }
    }
}

} // verus!
