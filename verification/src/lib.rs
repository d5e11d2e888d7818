//! A durable, replayable streaming pipeline for token-by-token conversations
//! with remote text-generation services: an incremental UTF-8 framer, a
//! Server-Sent-Events record framer, a provider-agnostic chat stream driver,
//! and a replay/continuation layer that can resume an interrupted response.

use vstd::prelude::*;

pub mod anthropic;
pub mod bedrock;
pub mod chat_stream;
pub mod durability;
pub mod event_source;
pub mod event_stream;
pub mod fragments;
pub mod grok;
pub mod json;
pub mod message_event;
pub mod ollama;
pub mod openai;
pub mod openrouter;
pub mod strutil;
pub mod types;
pub mod utf8_stream;

verus! {

/// Whether host-side logging has been set up; the setup itself is host glue
/// and lives outside this crate.
pub struct LoggingState {
    pub logging_initialized: bool,
}

} // verus!
