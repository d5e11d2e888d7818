//! The Ollama chat API: its wire model, the mapping into the generic
//! vocabulary, and the streaming decoder.
//!
//! One chunk carries at most one thing of interest — text, whole tool
//! calls, or a finish reason — and the decoder keeps no state of its own.

use vstd::prelude::*;
use vstd::string::StringExecFns;

use crate::json::{
    json_of, json_to_text, obj_get, parse_json, spec_as_array, spec_as_str, spec_as_u64,
    spec_json_text, spec_obj_get, Json,
};
use crate::strutil::{dec_digits, has_prefix};
use crate::types::{FinishReason, StreamEvent};

verus! {

/// The body of a request message: plain text, or a list of parts.
#[derive(Debug, Clone, PartialEq, Eq)]
pub enum MessageContentPayload {
    Text { content: String },
    Array { content: Vec<ContentPart> },
}

/// One part of a request message: text, or an image reference.
#[derive(Debug, Clone, PartialEq, Eq)]
pub enum ContentPart {
    Text { text: String },
    ImageUrl { image_url: ImageUrl },
}

/// An image referenced by URL.
#[derive(Debug, Clone, PartialEq, Eq)]
pub struct ImageUrl {
    pub url: String,
    pub detail: Option<String>,
}

/// How the model may choose tools: a mode name, or one named function.
#[derive(Debug, Clone, PartialEq, Eq)]
pub enum ToolChoice {
    String(String),
    Object { typ: String, function: OllamaFunctionChoice },
}

/// The function a tool choice names.
#[derive(Debug, Clone, PartialEq, Eq)]
pub struct OllamaFunctionChoice {
    pub name: String,
}

/// The body of a provider error response.
#[derive(Debug, Clone, PartialEq, Eq)]
pub struct OllamaErrorResponse {
    pub error: OllamaError,
}

/// One provider error: message, kind and code.
#[derive(Debug, Clone, PartialEq, Eq)]
pub struct OllamaError {
    pub message: String,
    pub typ: Option<String>,
    pub code: Option<String>,
}

/// Token accounting in the provider's vocabulary.
#[derive(Debug, Clone, Copy, PartialEq, Eq)]
pub struct OllamaUsage {
    pub prompt_tokens: u32,
    pub completion_tokens: u32,
    pub total_tokens: u32,
}

/// Maps the generic tool-choice name onto the provider's vocabulary:
/// `auto` and `none` pass through as mode names, anything else names a
/// function.
pub fn convert_tool_choice(tool_choice: String) -> (r: ToolChoice)
    ensures
        if tool_choice@ == "auto"@ || tool_choice@ == "none"@ {
            r == ToolChoice::String(tool_choice)
        } else {
            match r {
                ToolChoice::Object { typ, function } => typ@ == "function"@ && function
                    == (OllamaFunctionChoice { name: tool_choice }),
                _ => false,
            }
        },
{
    if crate::strutil::str_eq_str(tool_choice.as_str(), "auto") || crate::strutil::str_eq_str(
        tool_choice.as_str(),
        "none",
    ) {
        ToolChoice::String(tool_choice)
    } else {
        ToolChoice::Object {
            typ: String::from_str("function"),
            function: OllamaFunctionChoice { name: tool_choice },
        }
    }
}

/// Maps a provider finish reason onto the generic vocabulary; unknown
/// reasons map to `Other`.
pub open spec fn spec_finish_reason(s: Seq<char>) -> FinishReason {
    if s == "stop"@ {
        FinishReason::Stop
    } else if s == "length"@ {
        FinishReason::Length
    } else if s == "tool_calls"@ {
        FinishReason::ToolCalls
    } else if s == "content_filter"@ {
        FinishReason::ContentFilter
    } else {
        FinishReason::Other
    }
}

/// Maps a provider finish reason onto the generic vocabulary.
pub fn string_to_finish_reason(s: &str) -> (r: FinishReason)
    ensures
        r == spec_finish_reason(s@),
{
    if crate::strutil::str_eq_str(s, "stop") {
        FinishReason::Stop
    } else if crate::strutil::str_eq_str(s, "length") {
        FinishReason::Length
    } else if crate::strutil::str_eq_str(s, "tool_calls") {
        FinishReason::ToolCalls
    } else if crate::strutil::str_eq_str(s, "content_filter") {
        FinishReason::ContentFilter
    } else {
        FinishReason::Other
    }
}

/// The base64 alphabet character of a value below 64, in the standard
/// alphabet.
pub open spec fn b64_char(n: int) -> char
    recommends
        0 <= n < 64,
{
    if n < 26 {
        ((65 + n) as u8) as char
    } else if n < 52 {
        ((97 + n - 26) as u8) as char
    } else if n < 62 {
        ((48 + n - 52) as u8) as char
    } else if n == 62 {
        '+'
    } else {
        '/'
    }
}

/// The standard base64 spelling of a byte sequence: four chars per group
/// of three bytes, a short final group padded with `=`.
pub open spec fn base64_of(b: Seq<u8>) -> Seq<char>
    decreases b.len(),
{
    if b.len() == 0 {
        Seq::empty()
    } else if b.len() == 1 {
        let b0 = b[0] as int;
        seq![b64_char(b0 / 4), b64_char((b0 % 4) * 16), '=', '=']
    } else if b.len() == 2 {
        let b0 = b[0] as int;
        let b1 = b[1] as int;
        seq![b64_char(b0 / 4), b64_char((b0 % 4) * 16 + b1 / 16), b64_char((b1 % 16) * 4), '=']
    } else {
        let b0 = b[0] as int;
        let b1 = b[1] as int;
        let b2 = b[2] as int;
        seq![
            b64_char(b0 / 4),
            b64_char((b0 % 4) * 16 + b1 / 16),
            b64_char((b1 % 16) * 4 + b2 / 64),
            b64_char(b2 % 64),
        ] + base64_of(b.skip(3))
    }
}

/// The standard-alphabet base64 char of a value below 64.
fn b64c(v: u8) -> (c: char)
    requires
        v < 64,
    ensures
        c == b64_char(v as int),
{
    if v < 26 {
        ((65 + v) as u8) as char
    } else if v < 52 {
        ((97 + v - 26) as u8) as char
    } else if v < 62 {
        ((48 + v - 52) as u8) as char
    } else if v == 62 {
        '+'
    } else {
        '/'
    }
}

/// Spells bytes in standard base64: four chars per group of three bytes,
/// a short final group padded with `=`.
fn base64_encode(b: &Vec<u8>) -> (r: String)
    ensures
        r@ == base64_of(b@),
{
    let n = b.len();
    let mut out: Vec<char> = Vec::new();
    let mut i: usize = 0;
    proof {
        assert(b@.skip(0) =~= b@);
        assert(out@ + base64_of(b@.skip(0)) =~= base64_of(b@));
    }
    while n - i >= 3
        invariant
            i <= n,
            n == b@.len(),
            base64_of(b@) == out@ + base64_of(b@.skip(i as int)),
        decreases n - i,
    {
        let b0 = b[i];
        let b1 = b[i + 1];
        let b2 = b[i + 2];
        out.push(b64c(b0 / 4));
        out.push(b64c((b0 % 4) * 16 + b1 / 16));
        out.push(b64c((b1 % 16) * 4 + b2 / 64));
        out.push(b64c(b2 % 64));
        i = i + 3;
        proof {
            let rest = b@.skip((i - 3) as int);
            assert(rest[0] == b@[i - 3] && rest[1] == b@[i - 2] && rest[2] == b@[i - 1]);
            assert(rest.skip(3) =~= b@.skip(i as int));
            assert(base64_of(b@) =~= out@ + base64_of(b@.skip(i as int)));
        }
    }
    if n - i == 1 {
        let b0 = b[i];
        out.push(b64c(b0 / 4));
        out.push(b64c((b0 % 4) * 16));
        out.push('=');
        out.push('=');
        proof {
            let rest = b@.skip(i as int);
            assert(rest.len() == 1 && rest[0] == b@[i as int]);
            assert(out@ =~= base64_of(b@));
        }
    } else if n - i == 2 {
        let b0 = b[i];
        let b1 = b[i + 1];
        out.push(b64c(b0 / 4));
        out.push(b64c((b0 % 4) * 16 + b1 / 16));
        out.push(b64c((b1 % 16) * 4));
        out.push('=');
        proof {
            let rest = b@.skip(i as int);
            assert(rest.len() == 2 && rest[0] == b@[i as int] && rest[1] == b@[i + 1]);
            assert(out@ =~= base64_of(b@));
        }
    } else {
        proof {
            assert(b@.skip(i as int).len() == 0);
            assert(base64_of(b@.skip(i as int)) =~= Seq::<char>::empty());
            assert(out@ =~= base64_of(b@));
        }
    }
    crate::strutil::chars_to_string(&out)
}

/// Builds the inline `data:` URI an image is sent as, from its media type
/// and raw bytes.
pub fn image_to_data_uri(content_type: &str, bytes: &Vec<u8>) -> (r: String)
    ensures
        r@ == "data:"@ + content_type@ + ";base64,"@ + base64_of(bytes@),
{
    let encoded = base64_encode(bytes);
    let r = String::from_str("data:").concat(content_type).concat(";base64,").concat(
        encoded.as_str(),
    );
    proof {
        assert(r@ =~= "data:"@ + content_type@ + ";base64,"@ + base64_of(bytes@));
    }
    r
}

/// One raw stream chunk, classified by what its first choice carries.
#[derive(Debug)]
pub enum OllamaMessage {
    /// Non-empty text content.
    Content { text: String },
    /// Non-empty whole tool calls, as (id, name, arguments) triples.
    ToolCalls { calls: Vec<(String, String, String)> },
    /// A finish reason, with the chunk's id and creation time.
    Finished { reason: String, id: String, created: u64 },
    /// A chunk with no choice or nothing of interest; ignored.
    Ignored,
    /// A chunk that does not fit the expected shape; carries the error
    /// reported to the caller.
    Malformed { error: String },
}

/// True when `m` is the malformed class carrying exactly this text.
pub open spec fn is_malformed(m: OllamaMessage, text: Seq<char>) -> bool {
    match m {
        OllamaMessage::Malformed { error } => error@ == text,
        _ => false,
    }
}

/// What one element of a `tool_calls` array must carry to be usable: its
/// id, the function's name, and the function's argument value.
pub open spec fn spec_call_elem(elem: Json) -> Option<(String, String, Json)> {
    let id = spec_as_str(spec_obj_get(elem, "id"@));
    let f = spec_obj_get(elem, "function"@);
    let name = match f {
        Some(fv) => spec_as_str(spec_obj_get(fv, "name"@)),
        None => None,
    };
    let args = match f {
        Some(fv) => spec_obj_get(fv, "arguments"@),
        None => None,
    };
    match (id, name, args) {
        (Some(i), Some(n), Some(a)) => Some((i, n, a)),
        _ => None,
    }
}

/// True when every element of the array fits a tool-call class.
pub open spec fn spec_calls_ok(arr: Seq<Json>) -> bool {
    forall|k: int| 0 <= k < arr.len() ==> (#[trigger] spec_call_elem(arr[k])) is Some
}

/// True when `out` carries exactly the classifications of `arr`'s
/// elements, in order, the argument text in the library's JSON spelling.
pub open spec fn spec_calls_match(out: Seq<(String, String, String)>, arr: Seq<Json>) -> bool {
    out.len() == arr.len() && forall|k: int|
        0 <= k < arr.len() ==> match spec_call_elem(arr[k]) {
            Some((i, n, a)) => (#[trigger] out[k]).0 == i && out[k].1 == n && out[k].2@
                == spec_json_text(a),
            None => false,
        }
}

/// Classifies every element of a `tool_calls` array, serializing each
/// argument value, or reports that some element fits no class.
fn classify_calls(items: &Vec<Json>) -> (r: Option<Vec<(String, String, String)>>)
    ensures
        match r {
            Some(out) => spec_calls_ok(items@) && spec_calls_match(out@, items@),
            None => !spec_calls_ok(items@),
        },
{
    let n = items.len();
    let mut out: Vec<(String, String, String)> = Vec::new();
    let mut i: usize = 0;
    while i < n
        invariant
            i <= n,
            n == items@.len(),
            out@.len() == i,
            forall|k: int| 0 <= k < i ==> (#[trigger] spec_call_elem(items@[k])) is Some,
            forall|k: int|
                0 <= k < i ==> match spec_call_elem(items@[k]) {
                    Some((ci, cn, ca)) => (#[trigger] out@[k]).0 == ci && out@[k].1 == cn
                        && out@[k].2@ == spec_json_text(ca),
                    None => false,
                },
        decreases n - i,
    {
        let call = &items[i];
        let id = crate::json::get_str(call, "id");
        let f = obj_get(call, "function");
        let name = match f {
            Some(fv) => crate::json::get_str(fv, "name"),
            None => None,
        };
        let args = match f {
            Some(fv) => obj_get(fv, "arguments"),
            None => None,
        };
        match (id, name, args) {
            (Some(id), Some(name), Some(a)) => {
                let text = json_to_text(a);
                out.push((id, name, text));
            },
            _ => {
                proof {
                    assert(spec_call_elem(items@[i as int]) is None);
                }
                return None;
            },
        }
        i = i + 1;
    }
    Some(out)
}

/// How a parsed chunk must be classified, for every shape of the value:
/// non-empty text wins, then whole tool calls (their argument text by the
/// library's own JSON spelling), then a finish reason with the chunk's id
/// and creation time; anything else is ignored.
pub open spec fn spec_classify_rel(j: Json, m: OllamaMessage) -> bool {
    let choices = spec_as_array(spec_obj_get(j, "choices"@));
    if choices.len() == 0 {
        m == OllamaMessage::Ignored
    } else {
        let choice = choices[0];
        let delta = spec_obj_get(choice, "delta"@);
        let content = match delta {
            Some(d) => spec_as_str(spec_obj_get(d, "content"@)),
            None => None,
        };
        let has_content = match content {
            Some(text) => text@.len() > 0,
            None => false,
        };
        if has_content {
            match content {
                Some(text) => m == (OllamaMessage::Content { text }),
                None => false,
            }
        } else {
            let tool_calls = match delta {
                Some(d) => spec_obj_get(d, "tool_calls"@),
                None => None,
            };
            let arr = spec_as_array(tool_calls);
            if arr.len() > 0 {
                if spec_calls_ok(arr) {
                    match m {
                        OllamaMessage::ToolCalls { calls } => spec_calls_match(calls@, arr),
                        _ => false,
                    }
                } else {
                    is_malformed(
                        m,
                        "Failed to deserialize Ollama stream chunk : malformed tool call"@,
                    )
                }
            } else {
                match spec_as_str(spec_obj_get(choice, "finish_reason"@)) {
                    Some(reason) => match m {
                        OllamaMessage::Finished { reason: r2, id, created } => {
                            &&& r2 == reason
                            &&& (match spec_as_str(spec_obj_get(j, "id"@)) {
                                Some(s) => id == s,
                                None => id@ == Seq::<char>::empty(),
                            })
                            &&& created == (match spec_as_u64(spec_obj_get(j, "created"@)) {
                                Some(c) => c,
                                None => 0u64,
                            })
                        },
                        _ => false,
                    },
                    None => m == OllamaMessage::Ignored,
                }
            }
        }
    }
}

/// Classifies one raw stream chunk: `json_of` names what the payload
/// parses as, and the classification of that value is pinned by
/// [`spec_classify_rel`].
pub fn classify_message(raw: &str) -> (m: OllamaMessage)
    ensures
        match json_of(raw@) {
            Some(j) => spec_classify_rel(j, m),
            None => match m {
                OllamaMessage::Malformed { error } => has_prefix(
                    error@,
                    "Failed to deserialize Ollama stream chunk : "@,
                ),
                _ => false,
            },
        },
{
    let json = match parse_json(raw) {
        Ok(v) => v,
        Err(e) => {
            let error = String::from_str("Failed to deserialize Ollama stream chunk : ").concat(
                e.as_str(),
            );
            proof {
                assert(error@.subrange(
                    0,
                    "Failed to deserialize Ollama stream chunk : "@.len() as int,
                ) =~= "Failed to deserialize Ollama stream chunk : "@);
            }
            return OllamaMessage::Malformed { error };
        },
    };
    classify_json(&json)
}

/// Classifies one parsed chunk, as [`spec_classify_rel`] pins it.
fn classify_json(json: &Json) -> (m: OllamaMessage)
    ensures
        spec_classify_rel(*json, m),
{
    let choice = match obj_get(json, "choices") {
        Some(choices) => match choices {
            Json::Array(items) => if items.len() > 0 {
                proof {
                    assert(spec_as_array(spec_obj_get(*json, "choices"@)) == items@);
                }
                Some(&items[0])
            } else {
                proof {
                    assert(spec_as_array(spec_obj_get(*json, "choices"@)).len() == 0);
                }
                None
            },
            _ => {
                proof {
                    assert(spec_as_array(spec_obj_get(*json, "choices"@)) =~= Seq::<Json>::empty());
                }
                None
            },
        },
        None => {
            proof {
                assert(spec_as_array(spec_obj_get(*json, "choices"@)) =~= Seq::<Json>::empty());
            }
            None
        },
    };
    let choice = match choice {
        Some(c) => c,
        None => {
            return OllamaMessage::Ignored;
        },
    };
    proof {
        assert(spec_as_array(spec_obj_get(*json, "choices"@)).len() > 0);
        assert(spec_as_array(spec_obj_get(*json, "choices"@))[0] == *choice);
    }
    let delta = obj_get(choice, "delta");
    let content = match delta {
        Some(d) => crate::json::get_str(d, "content"),
        None => None,
    };
    match content {
        Some(text) => {
            if text.as_str().unicode_len() > 0 {
                return OllamaMessage::Content { text };
            }
        },
        None => {},
    }
    let tool_calls = match delta {
        Some(d) => obj_get(d, "tool_calls"),
        None => None,
    };
    match tool_calls {
        Some(calls_value) => {
            match calls_value {
                Json::Array(items) => {
                    proof {
                        assert(spec_as_array(Some(*calls_value)) == items@);
                    }
                    if items.len() > 0 {
                        match classify_calls(items) {
                            Some(out) => {
                                let mm = OllamaMessage::ToolCalls { calls: out };
                                proof {
                                    assert(spec_classify_rel(*json, mm));
                                }
                                return mm;
                            },
                            None => {
                                let mm = OllamaMessage::Malformed {
                                    error: String::from_str(
                                        "Failed to deserialize Ollama stream chunk : malformed tool call",
                                    ),
                                };
                                proof {
                                    assert(spec_classify_rel(*json, mm));
                                }
                                return mm;
                            },
                        }
                    }
                },
                _ => {
                    proof {
                        assert(spec_as_array(Some(*calls_value)) =~= Seq::<Json>::empty());
                    }
                },
            }
        },
        None => {},
    }
    match obj_get(choice, "finish_reason") {
        Some(fr) => match fr {
            Json::Str(reason) => {
                let id = match crate::json::get_str(json, "id") {
                    Some(s) => s,
                    None => String::new(),
                };
                let created = match crate::json::get_u64(json, "created") {
                    Some(v) => v,
                    None => 0,
                };
                OllamaMessage::Finished { reason: reason.clone(), id, created }
            },
            _ => OllamaMessage::Ignored,
        },
        None => OllamaMessage::Ignored,
    }
}

/// Marks a classified chunk as a witness for the decoder's contract;
/// always true, used only to steer quantifier instantiation.
pub open spec fn ollama_witness(m: OllamaMessage) -> bool {
    true
}

/// The provider metadata echoed with the final record: the chunk's id and
/// creation time, as a small JSON text.
pub open spec fn spec_finish_metadata_json(id: Seq<char>, created: int) -> Seq<char> {
    "{\"id\":\""@ + id + "\",\"created\":"@ + dec_digits(created) + "}"@
}

/// What one classified chunk does to the decoder: the exact result for
/// every class.
pub open spec fn decode_step_rel(m: OllamaMessage, r: Result<Option<StreamEvent>, String>) -> bool {
    match m {
        OllamaMessage::Content { text } => match r {
            Ok(Some(StreamEvent::Delta(d))) => (match d.content {
                Some(parts) => parts@ == seq![crate::types::ContentPart::Text(text)],
                None => false,
            }) && d.tool_calls is None,
            _ => false,
        },
        OllamaMessage::ToolCalls { calls } => match r {
            Ok(Some(StreamEvent::Delta(d))) => d.content is None && (match d.tool_calls {
                Some(out) => out@.len() == calls@.len() && forall|j: int|
                    0 <= j < calls@.len() ==> (#[trigger] out@[j]).id == calls@[j].0 && out@[j].name
                        == calls@[j].1 && out@[j].arguments_json == calls@[j].2,
                None => false,
            }),
            _ => false,
        },
        OllamaMessage::Finished { reason, id, created } => match r {
            Ok(Some(StreamEvent::Finish(meta))) => {
                &&& meta.finish_reason == Some(spec_finish_reason(reason@))
                &&& meta.usage is None
                &&& (match meta.provider_id {
                    Some(p) => p@ == id@,
                    None => false,
                })
                &&& (match meta.timestamp {
                    Some(ts) => ts@ == dec_digits(created as int),
                    None => false,
                })
                &&& (match meta.provider_metadata_json {
                    Some(pj) => pj@ == spec_finish_metadata_json(id@, created as int),
                    None => false,
                })
            },
            _ => false,
        },
        OllamaMessage::Ignored => r == Ok::<Option<StreamEvent>, String>(None),
        OllamaMessage::Malformed { error } => r == Err::<Option<StreamEvent>, String>(error),
    }
}

/// The Ollama stream decoder; it keeps no accumulation state of its own.
#[derive(Debug)]
pub struct OllamaChatStream {
    _private: bool,
}

impl OllamaChatStream {
    /// A fresh decoder.
    pub fn new() -> OllamaChatStream {
        OllamaChatStream { _private: false }
    }

    /// Applies one classified chunk.
    pub fn decode_parsed(&mut self, m: OllamaMessage) -> (r: Result<Option<StreamEvent>, String>)
        ensures
            decode_step_rel(m, r),
    {
        match m {
            OllamaMessage::Content { text } => {
                let mut parts: Vec<crate::types::ContentPart> = Vec::new();
                parts.push(crate::types::ContentPart::Text(text));
                Ok(
                    Some(
                        StreamEvent::Delta(
                            crate::types::StreamDelta { content: Some(parts), tool_calls: None },
                        ),
                    ),
                )
            },
            OllamaMessage::ToolCalls { calls } => {
                let mut out: Vec<crate::types::ToolCall> = Vec::new();
                let n = calls.len();
                let mut i: usize = 0;
                while i < n
                    invariant
                        i <= n,
                        n == calls@.len(),
                        out@.len() == i,
                        forall|j: int|
                            0 <= j < i ==> (#[trigger] out@[j]).id == calls@[j].0 && out@[j].name
                                == calls@[j].1 && out@[j].arguments_json == calls@[j].2,
                    decreases n - i,
                {
                    let t = &calls[i];
                    out.push(
                        crate::types::ToolCall {
                            id: t.0.clone(),
                            name: t.1.clone(),
                            arguments_json: t.2.clone(),
                        },
                    );
                    i = i + 1;
                }
                Ok(
                    Some(
                        StreamEvent::Delta(
                            crate::types::StreamDelta { content: None, tool_calls: Some(out) },
                        ),
                    ),
                )
            },
            OllamaMessage::Finished { reason, id, created } => {
                let finish_reason = string_to_finish_reason(reason.as_str());
                let ts = crate::strutil::u64_to_string(created);
                let pj = String::from_str("{\"id\":\"").concat(id.as_str()).concat(
                    "\",\"created\":",
                ).concat(ts.as_str()).concat("}");
                proof {
                    assert(pj@ =~= spec_finish_metadata_json(id@, created as int));
                }
                Ok(
                    Some(
                        StreamEvent::Finish(
                            crate::types::ResponseMetadata {
                                finish_reason: Some(finish_reason),
                                usage: None,
                                provider_id: Some(id),
                                timestamp: Some(ts),
                                provider_metadata_json: Some(pj),
                            },
                        ),
                    ),
                )
            },
            OllamaMessage::Ignored => Ok(None),
            OllamaMessage::Malformed { error } => Err(error),
        }
    }
}

impl crate::chat_stream::LlmChatStreamState for OllamaChatStream {
    /// The payload parses as `json_of` says; its classification is pinned
    /// by [`spec_classify_rel`] and drives the exact step relation.
    open spec fn decode_rel(
        pre: OllamaChatStream,
        raw: Seq<char>,
        post: OllamaChatStream,
        r: Result<Option<StreamEvent>, String>,
    ) -> bool {
        match json_of(raw) {
            Some(j) => exists|m: OllamaMessage|
                #[trigger] ollama_witness(m) && spec_classify_rel(j, m) && decode_step_rel(m, r),
            None => match r {
                Err(msg) => has_prefix(msg@, "Failed to deserialize Ollama stream chunk : "@),
                _ => false,
            },
        }
    }

    fn decode_message(&mut self, raw: &str) -> (r: Result<Option<StreamEvent>, String>) {
        let m = classify_message(raw);
        proof {
            assert(ollama_witness(m));
        }
        self.decode_parsed(m)
    }
}

/// Builds this provider's continuation prompt for resuming an interrupted
/// response: the retry instruction alone in one system message, the
/// original-question header as a user message, the original messages
/// verbatim, and the partial response under its header as a user message.
pub fn retry_prompt(
    original_messages: &Vec<crate::types::Message>,
    partial_result: &Vec<crate::types::StreamDelta>,
) -> (r: Vec<crate::types::Message>)
    ensures
        crate::durability::is_split_continuation_prompt(
            r@,
            original_messages@,
            partial_result@,
        ),
{
    crate::durability::provider_retry_prompt(original_messages, partial_result)
}

} // verus!
