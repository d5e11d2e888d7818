//! One dispatched Server-Sent-Events record.

use vstd::prelude::*;

verus! {

/// Mathematical image of a [`MessageEvent`]: its four fields as sequences
/// and a plain retry value.
pub struct MessageEventModel {
    pub event: Seq<char>,
    pub data: Seq<char>,
    pub id: Seq<char>,
    pub retry: Option<u64>,
}

/// An event dispatched by the SSE framer.
#[derive(Debug, PartialEq, Eq, Clone)]
pub struct MessageEvent {
    /// The event name; defaults to `"message"` when the record gave none.
    pub event: String,
    /// The event data.
    pub data: String,
    /// The last event id seen up to and including this record.
    pub id: String,
    /// Reconnection delay in milliseconds, if the record carried one.
    pub retry: Option<u64>,
}

impl View for MessageEvent {
    type V = MessageEventModel;

    open spec fn view(&self) -> MessageEventModel {
        MessageEventModel {
            event: self.event@,
            data: self.data@,
            id: self.id@,
            retry: self.retry,
        }
    }
}

impl MessageEvent {
    /// A field-by-field copy with the same model.
    pub fn duplicate(&self) -> (r: MessageEvent)
        ensures
            r@ == self@,
    {
        MessageEvent {
            event: self.event.clone(),
            data: self.data.clone(),
            id: self.id.clone(),
            retry: self.retry,
        }
    }
}

impl Default for MessageEvent {
    /// An empty event: all fields blank, no retry delay.
    fn default() -> (e: MessageEvent)
        ensures
            e@.event.len() == 0,
            e@.data.len() == 0,
            e@.id.len() == 0,
            e@.retry is None,
    {
        MessageEvent { event: String::new(), data: String::new(), id: String::new(), retry: None }
    }
}

} // verus!
