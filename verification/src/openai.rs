//! The OpenAI responses API: its wire model, the mapping into the generic
//! vocabulary, and the streaming decoder.
//!
//! Records are classified by their `type` discriminator; tool calls arrive
//! whole in `response.output_item.done`, so the decoder keeps no state.

use vstd::prelude::*;
use vstd::string::StringExecFns;

use crate::json::{json_of, json_to_text, obj_get, parse_json, spec_as_str, spec_as_u64, spec_json_text, spec_obj_get, Json};
use crate::strutil::{dec_digits, has_prefix};
use crate::types::{FinishReason, StreamEvent};

verus! {

/// One part of an output message: text, or a refusal.
#[derive(Debug, Clone, PartialEq, Eq)]
pub enum OutputMessageContent {
    Text { text: String },
    Refusal { refusal: String },
}

/// A provider error: its code text and message.
#[derive(Debug, Clone, PartialEq, Eq)]
pub struct ErrorObject {
    pub code: String,
    pub message: String,
}

/// Where a response stands.
#[derive(Debug, Clone, Copy, PartialEq, Eq)]
pub enum Status {
    Completed,
    Failed,
    InProgress,
    Incomplete,
}

/// Why a response is incomplete.
#[derive(Debug, Clone, PartialEq, Eq)]
pub struct IncompleteDetailsObject {
    pub reason: String,
}

/// The input of a request: plain text, or a list of items.
#[derive(Debug, Clone, PartialEq, Eq)]
pub enum Input {
    TextInput(String),
    List(Vec<InputItem>),
}

/// One input item: a message with content and role.
#[derive(Debug, Clone, PartialEq, Eq)]
pub enum InputItem {
    InputMessage { content: InnerInput, role: String },
}

/// A message's content: plain text, or a list of parts.
#[derive(Debug, Clone, PartialEq, Eq)]
pub enum InnerInput {
    TextInput(String),
    List(Vec<InnerInputItem>),
}

/// One content part: text, or an image reference.
#[derive(Debug, Clone, PartialEq, Eq)]
pub enum InnerInputItem {
    TextInput { text: String },
    ImageInput { image_url: String, detail: Detail },
}

/// Requested level of detail for an image input.
#[derive(Debug, Clone, Copy, PartialEq, Eq)]
pub enum Detail {
    Auto,
    Low,
    High,
}

/// Token accounting in the provider's vocabulary.
#[derive(Debug, Clone, Copy, PartialEq, Eq)]
pub struct Usage {
    pub input_tokens: u32,
    pub input_tokens_details: InputTokensDetails,
    pub output_tokens: u32,
    pub output_tokens_details: OutputTokensDetails,
    pub total_tokens: u32,
}

/// Detailed input-token accounting.
#[derive(Debug, Clone, Copy, PartialEq, Eq)]
pub struct InputTokensDetails {
    pub cached_tokens: u32,
}

/// Detailed output-token accounting.
#[derive(Debug, Clone, Copy, PartialEq, Eq)]
pub struct OutputTokensDetails {
    pub reasoning_tokens: u32,
}

/// Classifies a provider error code: a numeric HTTP status in the valid
/// range is classified as such, anything else is an internal error.
pub fn parse_error_code(code: String) -> (r: crate::types::ErrorCode)
    ensures
        r == spec_parse_error_code(code@),
{
    let chars = crate::strutil::str_to_chars(code.as_str());
    match crate::event_stream::parse_u64_digits(&chars) {
        Some(n) => {
            if 100 <= n && n <= 999 {
                crate::types::error_code_from_status(n as u16)
            } else {
                crate::types::ErrorCode::InternalError
            }
        },
        None => crate::types::ErrorCode::InternalError,
    }
}

/// Specification of [`parse_error_code`].
pub open spec fn spec_parse_error_code(code: Seq<char>) -> crate::types::ErrorCode {
    match crate::event_stream::parse_retry(code) {
        Some(n) => {
            if 100 <= n <= 999 {
                crate::types::spec_error_code_from_status(n as u16)
            } else {
                crate::types::ErrorCode::InternalError
            }
        },
        None => crate::types::ErrorCode::InternalError,
    }
}

/// One raw stream record, classified by its `type` discriminator.
#[derive(Debug)]
pub enum OpenAiMessage {
    /// The response failed with a provider error.
    Failed { code: String, message: String },
    /// The response failed without an error body.
    FailedUnknown,
    /// The response completed; carries what the metadata echoes.
    Completed {
        usage: Option<(u32, u32, u32)>,
        id: String,
        created_at: u64,
        metadata_json: Option<String>,
    },
    /// One streamed text increment.
    TextDelta { delta: String },
    /// One completed tool call.
    ToolCallDone { call_id: String, name: String, arguments_json: String },
    /// A record with an unknown or uninteresting discriminator; ignored.
    Ignored,
    /// A record that does not fit the expected shape; carries the error
    /// reported to the caller.
    Malformed { error: String },
}

/// True when `m` is the malformed class carrying exactly this text.
pub open spec fn is_malformed(m: OpenAiMessage, text: Seq<char>) -> bool {
    match m {
        OpenAiMessage::Malformed { error } => error@ == text,
        _ => false,
    }
}

/// What reading an optional `usage` object yields: all three counters
/// present as unsigned numbers fitting `u32`, else nothing.
pub open spec fn spec_read_usage(o: Option<Json>) -> Option<(u32, u32, u32)> {
    match o {
        Some(u) => match (
            spec_as_u64(spec_obj_get(u, "input_tokens"@)),
            spec_as_u64(spec_obj_get(u, "output_tokens"@)),
            spec_as_u64(spec_obj_get(u, "total_tokens"@)),
        ) {
            (Some(i), Some(ot), Some(t)) => if i <= u32::MAX && ot <= u32::MAX && t <= u32::MAX {
                Some((i as u32, ot as u32, t as u32))
            } else {
                None
            },
            _ => None,
        },
        None => None,
    }
}

/// How a parsed record must be classified, for every shape of the value:
/// the `type` discriminator picks the class, each class's fields are
/// pinned (the echoed metadata by the library's own JSON spelling), and
/// every malformed shape is pinned to its fault text.
pub open spec fn spec_classify_rel(j: Json, m: OpenAiMessage) -> bool {
    match spec_as_str(spec_obj_get(j, "type"@)) {
        Some(t) => {
            if t@ == "response.failed"@ {
                match spec_obj_get(j, "response"@) {
                    Some(response) => match spec_obj_get(response, "error"@) {
                        Some(e) => match (
                            spec_as_str(spec_obj_get(e, "code"@)),
                            spec_as_str(spec_obj_get(e, "message"@)),
                        ) {
                            (Some(code), Some(message)) => m == (OpenAiMessage::Failed {
                                code,
                                message,
                            }),
                            _ => m == OpenAiMessage::FailedUnknown,
                        },
                        None => m == OpenAiMessage::FailedUnknown,
                    },
                    None => is_malformed(
                        m,
                        "Unexpected stream event format, does not have 'response' field"@,
                    ),
                }
            } else if t@ == "response.completed"@ {
                match spec_obj_get(j, "response"@) {
                    Some(response) => match m {
                        OpenAiMessage::Completed { usage, id, created_at, metadata_json } => {
                            &&& usage == spec_read_usage(spec_obj_get(response, "usage"@))
                            &&& (match spec_as_str(spec_obj_get(response, "id"@)) {
                                Some(s) => id == s,
                                None => id@ == Seq::<char>::empty(),
                            })
                            &&& created_at == (match spec_as_u64(
                                spec_obj_get(response, "created_at"@),
                            ) {
                                Some(c) => c,
                                None => 0u64,
                            })
                            &&& (match spec_obj_get(response, "metadata"@) {
                                Some(meta) => match metadata_json {
                                    Some(s) => s@ == spec_json_text(meta),
                                    None => false,
                                },
                                None => metadata_json is None,
                            })
                        },
                        _ => false,
                    },
                    None => is_malformed(
                        m,
                        "Unexpected stream event format, does not have 'response' field"@,
                    ),
                }
            } else if t@ == "response.output_text.delta"@ {
                match spec_obj_get(j, "delta"@) {
                    Some(d) => match d {
                        Json::Str(delta) => m == (OpenAiMessage::TextDelta { delta }),
                        _ => is_malformed(
                            m,
                            "Failed to deserialize stream event: delta is not a string"@,
                        ),
                    },
                    None => is_malformed(
                        m,
                        "Failed to deserialize stream event: missing 'delta' field"@,
                    ),
                }
            } else if t@ == "response.output_item.done"@ {
                match spec_obj_get(j, "item"@) {
                    Some(item) => match spec_as_str(spec_obj_get(item, "type"@)) {
                        Some(it) => if it@ == "function_call"@ {
                            match (
                                spec_as_str(spec_obj_get(item, "call_id"@)),
                                spec_as_str(spec_obj_get(item, "name"@)),
                                spec_as_str(spec_obj_get(item, "arguments"@)),
                            ) {
                                (Some(call_id), Some(name), Some(arguments_json)) => m
                                    == (OpenAiMessage::ToolCallDone {
                                    call_id,
                                    name,
                                    arguments_json,
                                }),
                                _ => is_malformed(
                                    m,
                                    "Failed to deserialize stream event: malformed function call"@,
                                ),
                            }
                        } else {
                            m == OpenAiMessage::Ignored
                        },
                        None => is_malformed(
                            m,
                            "Failed to deserialize stream event: item has no type"@,
                        ),
                    },
                    None => is_malformed(
                        m,
                        "Failed to deserialize stream event: missing 'item' field"@,
                    ),
                }
            } else {
                m == OpenAiMessage::Ignored
            }
        },
        None => is_malformed(
            m,
            "Unexpected stream event format, does not have 'type' field"@,
        ),
    }
}

/// Classifies one raw stream record: `json_of` names what the payload
/// parses as, and the classification of that value is pinned by
/// [`spec_classify_rel`].
pub fn classify_message(raw: &str) -> (m: OpenAiMessage)
    ensures
        match json_of(raw@) {
            Some(j) => spec_classify_rel(j, m),
            None => match m {
                OpenAiMessage::Malformed { error } => has_prefix(
                    error@,
                    "Failed to deserialize stream event: "@,
                ),
                _ => false,
            },
        },
{
    let json = match parse_json(raw) {
        Ok(v) => v,
        Err(e) => {
            let error = String::from_str("Failed to deserialize stream event: ").concat(
                e.as_str(),
            );
            proof {
                assert(error@.subrange(
                    0,
                    "Failed to deserialize stream event: "@.len() as int,
                ) =~= "Failed to deserialize stream event: "@);
            }
            return OpenAiMessage::Malformed { error };
        },
    };
    let typ = match crate::json::get_str(&json, "type") {
        Some(t) => t,
        None => {
            return OpenAiMessage::Malformed {
                error: String::from_str(
                    "Unexpected stream event format, does not have 'type' field",
                ),
            };
        },
    };
    if crate::strutil::str_eq_str(typ.as_str(), "response.failed") {
        let response = match obj_get(&json, "response") {
            Some(r) => r,
            None => {
                return OpenAiMessage::Malformed {
                    error: String::from_str(
                        "Unexpected stream event format, does not have 'response' field",
                    ),
                };
            },
        };
        match obj_get(response, "error") {
            Some(e) => {
                let code = crate::json::get_str(e, "code");
                let message = crate::json::get_str(e, "message");
                match (code, message) {
                    (Some(code), Some(message)) => OpenAiMessage::Failed { code, message },
                    _ => OpenAiMessage::FailedUnknown,
                }
            },
            None => OpenAiMessage::FailedUnknown,
        }
    } else if crate::strutil::str_eq_str(typ.as_str(), "response.completed") {
        let response = match obj_get(&json, "response") {
            Some(r) => r,
            None => {
                return OpenAiMessage::Malformed {
                    error: String::from_str(
                        "Unexpected stream event format, does not have 'response' field",
                    ),
                };
            },
        };
        let usage = match obj_get(response, "usage") {
            Some(u) => {
                let input = crate::json::get_u64(u, "input_tokens");
                let output = crate::json::get_u64(u, "output_tokens");
                let total = crate::json::get_u64(u, "total_tokens");
                match (input, output, total) {
                    (Some(i), Some(o), Some(t)) => {
                        if i <= u32::MAX as u64 && o <= u32::MAX as u64 && t <= u32::MAX as u64 {
                            Some((i as u32, o as u32, t as u32))
                        } else {
                            None
                        }
                    },
                    _ => None,
                }
            },
            None => None,
        };
        let id = match crate::json::get_str(response, "id") {
            Some(s) => s,
            None => String::new(),
        };
        let created_at = match crate::json::get_u64(response, "created_at") {
            Some(c) => c,
            None => 0,
        };
        let metadata_json = match obj_get(response, "metadata") {
            Some(meta) => Some(json_to_text(meta)),
            None => None,
        };
        OpenAiMessage::Completed { usage, id, created_at, metadata_json }
    } else if crate::strutil::str_eq_str(typ.as_str(), "response.output_text.delta") {
        match obj_get(&json, "delta") {
            Some(d) => match d {
                Json::Str(delta) => OpenAiMessage::TextDelta { delta: delta.clone() },
                _ => OpenAiMessage::Malformed {
                    error: String::from_str(
                        "Failed to deserialize stream event: delta is not a string",
                    ),
                },
            },
            None => OpenAiMessage::Malformed {
                error: String::from_str(
                    "Failed to deserialize stream event: missing 'delta' field",
                ),
            },
        }
    } else if crate::strutil::str_eq_str(typ.as_str(), "response.output_item.done") {
        let item = match obj_get(&json, "item") {
            Some(i) => i,
            None => {
                return OpenAiMessage::Malformed {
                    error: String::from_str(
                        "Failed to deserialize stream event: missing 'item' field",
                    ),
                };
            },
        };
        match crate::json::get_str(item, "type") {
            Some(it) => {
                if crate::strutil::str_eq_str(it.as_str(), "function_call") {
                    let call_id = crate::json::get_str(item, "call_id");
                    let name = crate::json::get_str(item, "name");
                    let arguments = crate::json::get_str(item, "arguments");
                    match (call_id, name, arguments) {
                        (Some(call_id), Some(name), Some(arguments_json)) => {
                            OpenAiMessage::ToolCallDone { call_id, name, arguments_json }
                        },
                        _ => OpenAiMessage::Malformed {
                            error: String::from_str(
                                "Failed to deserialize stream event: malformed function call",
                            ),
                        },
                    }
                } else {
                    OpenAiMessage::Ignored
                }
            },
            None => OpenAiMessage::Malformed {
                error: String::from_str("Failed to deserialize stream event: item has no type"),
            },
        }
    } else {
        OpenAiMessage::Ignored
    }
}

/// Marks a classified record as a witness for the decoder's contract;
/// always true, used only to steer quantifier instantiation.
pub open spec fn openai_witness(m: OpenAiMessage) -> bool {
    true
}

/// What one classified record does to the decoder: the exact result for
/// every class.  This decoder keeps no accumulation state.
pub open spec fn decode_step_rel(m: OpenAiMessage, r: Result<Option<StreamEvent>, String>) -> bool {
    match m {
        OpenAiMessage::Failed { code, message } => match r {
            Ok(Some(StreamEvent::Error(e))) => e.code == spec_parse_error_code(code@) && e.message
                == message && e.provider_error_json is None,
            _ => false,
        },
        OpenAiMessage::FailedUnknown => match r {
            Ok(Some(StreamEvent::Error(e))) => e.code == crate::types::ErrorCode::InternalError
                && e.message@ == "Unknown error"@ && e.provider_error_json is None,
            _ => false,
        },
        OpenAiMessage::Completed { usage, id, created_at, metadata_json } => match r {
            Ok(Some(StreamEvent::Finish(meta))) => {
                &&& meta.finish_reason is None
                &&& meta.usage == (match usage {
                    Some((i, o, t)) => Some(
                        crate::types::Usage {
                            input_tokens: Some(i),
                            output_tokens: Some(o),
                            total_tokens: Some(t),
                        },
                    ),
                    None => None::<crate::types::Usage>,
                })
                &&& (match meta.provider_id {
                    Some(p) => p@ == id@,
                    None => false,
                })
                &&& (match meta.timestamp {
                    Some(ts) => ts@ == dec_digits(created_at as int),
                    None => false,
                })
                &&& meta.provider_metadata_json == metadata_json
            },
            _ => false,
        },
        OpenAiMessage::TextDelta { delta } => match r {
            Ok(Some(StreamEvent::Delta(d))) => (match d.content {
                Some(parts) => parts@ == seq![crate::types::ContentPart::Text(delta)],
                None => false,
            }) && d.tool_calls is None,
            _ => false,
        },
        OpenAiMessage::ToolCallDone { call_id, name, arguments_json } => match r {
            Ok(Some(StreamEvent::Delta(d))) => d.content is None && (match d.tool_calls {
                Some(calls) => calls@ == seq![
                    crate::types::ToolCall { id: call_id, name, arguments_json },
                ],
                None => false,
            }),
            _ => false,
        },
        OpenAiMessage::Ignored => r == Ok::<Option<StreamEvent>, String>(None),
        OpenAiMessage::Malformed { error } => r == Err::<Option<StreamEvent>, String>(error),
    }
}

/// The OpenAI stream decoder; it keeps no accumulation state of its own.
#[derive(Debug)]
pub struct OpenAIChatStream {
    _private: bool,
}

impl OpenAIChatStream {
    /// A fresh decoder.
    pub fn new() -> OpenAIChatStream {
        OpenAIChatStream { _private: false }
    }

    /// Applies one classified record.
    pub fn decode_parsed(&mut self, m: OpenAiMessage) -> (r: Result<Option<StreamEvent>, String>)
        ensures
            decode_step_rel(m, r),
    {
        match m {
            OpenAiMessage::Failed { code, message } => Ok(
                Some(
                    StreamEvent::Error(
                        crate::types::Error {
                            code: parse_error_code(code),
                            message,
                            provider_error_json: None,
                        },
                    ),
                ),
            ),
            OpenAiMessage::FailedUnknown => Ok(
                Some(
                    StreamEvent::Error(
                        crate::types::Error {
                            code: crate::types::ErrorCode::InternalError,
                            message: String::from_str("Unknown error"),
                            provider_error_json: None,
                        },
                    ),
                ),
            ),
            OpenAiMessage::Completed { usage, id, created_at, metadata_json } => {
                let converted = match usage {
                    Some((i, o, t)) => Some(
                        crate::types::Usage {
                            input_tokens: Some(i),
                            output_tokens: Some(o),
                            total_tokens: Some(t),
                        },
                    ),
                    None => None,
                };
                let ts = crate::strutil::u64_to_string(created_at);
                Ok(
                    Some(
                        StreamEvent::Finish(
                            crate::types::ResponseMetadata {
                                finish_reason: None,
                                usage: converted,
                                provider_id: Some(id),
                                timestamp: Some(ts),
                                provider_metadata_json: metadata_json,
                            },
                        ),
                    ),
                )
            },
            OpenAiMessage::TextDelta { delta } => {
                let mut parts: Vec<crate::types::ContentPart> = Vec::new();
                parts.push(crate::types::ContentPart::Text(delta));
                Ok(
                    Some(
                        StreamEvent::Delta(
                            crate::types::StreamDelta { content: Some(parts), tool_calls: None },
                        ),
                    ),
                )
            },
            OpenAiMessage::ToolCallDone { call_id, name, arguments_json } => {
                let mut calls: Vec<crate::types::ToolCall> = Vec::new();
                calls.push(crate::types::ToolCall { id: call_id, name, arguments_json });
                Ok(
                    Some(
                        StreamEvent::Delta(
                            crate::types::StreamDelta { content: None, tool_calls: Some(calls) },
                        ),
                    ),
                )
            },
            OpenAiMessage::Ignored => Ok(None),
            OpenAiMessage::Malformed { error } => Err(error),
        }
    }
}

impl crate::chat_stream::LlmChatStreamState for OpenAIChatStream {
    /// The payload parses as `json_of` says; its classification is pinned
    /// by [`spec_classify_rel`] and drives the exact step relation.
    open spec fn decode_rel(
        pre: OpenAIChatStream,
        raw: Seq<char>,
        post: OpenAIChatStream,
        r: Result<Option<StreamEvent>, String>,
    ) -> bool {
        match json_of(raw) {
            Some(j) => exists|m: OpenAiMessage|
                #[trigger] openai_witness(m) && spec_classify_rel(j, m) && decode_step_rel(m, r),
            None => match r {
                Err(msg) => has_prefix(msg@, "Failed to deserialize stream event: "@),
                _ => false,
            },
        }
    }

    fn decode_message(&mut self, raw: &str) -> (r: Result<Option<StreamEvent>, String>) {
        let m = classify_message(raw);
        proof {
            assert(openai_witness(m));
        }
        self.decode_parsed(m)
    }
}

} // verus!
