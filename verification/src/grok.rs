//! The Grok chat-completions API: its wire model, the mapping into the
//! generic vocabulary, and the streaming decoder.
//!
//! Tool calls arrive whole here, so the decoder's only state is the finish
//! reason buffered until the final usage record closes the stream.

use vstd::prelude::*;
use vstd::string::StringExecFns;

use crate::json::{
    json_of, obj_get, parse_json, spec_as_array, spec_as_str, spec_as_u64, spec_obj_get, Json,
};
use crate::strutil::has_prefix;
use crate::types::StreamEvent;

verus! {

/// Asks the provider to append a usage record to the stream.
#[derive(Debug, Clone, Copy, PartialEq, Eq)]
pub struct StreamOptions {
    pub include_usage: bool,
}

/// One part of a request message: text, or an image reference.
#[derive(Debug, Clone, PartialEq, Eq)]
pub enum ContentPart {
    TextInput { text: String },
    ImageInput { image_url: ImageUrl },
}

/// Requested level of detail for an image input.
#[derive(Debug, Clone, Copy, PartialEq, Eq)]
pub enum Detail {
    Auto,
    Low,
    High,
}

/// Requested reasoning effort.
#[derive(Debug, Clone, Copy, PartialEq, Eq)]
pub enum Effort {
    Low,
    High,
}

/// An image referenced by URL.
#[derive(Debug, Clone, PartialEq, Eq)]
pub struct ImageUrl {
    pub url: String,
    pub detail: Option<Detail>,
}

/// One tool call reported by the model.
#[derive(Debug, Clone, PartialEq, Eq)]
pub enum ToolCall {
    Function { function: FunctionCall, id: String, index: Option<u32> },
}

/// The function a tool call names, with its argument JSON.
#[derive(Debug, Clone, PartialEq, Eq)]
pub struct FunctionCall {
    pub arguments: String,
    pub name: String,
}

/// Why a choice stopped, in the provider's vocabulary.
#[derive(Debug, Clone, Copy, PartialEq, Eq)]
pub enum FinishReason {
    Stop,
    Length,
    EndTurn,
    ToolCalls,
}

/// One choice's message in a full response.
#[derive(Debug, Clone, PartialEq, Eq)]
pub struct ResponseMessage {
    pub content: Option<String>,
    pub reasoning_content: Option<String>,
    pub refusal: Option<String>,
    pub tool_calls: Option<Vec<ToolCall>>,
}

/// Token accounting in the provider's vocabulary.
#[derive(Debug, Clone, Copy, PartialEq, Eq)]
pub struct Usage {
    pub completion_tokens: u32,
    pub completion_tokens_details: CompletionTokenDetails,
    pub prompt_tokens: u32,
    pub prompt_tokens_details: PromptTokenDetails,
    pub total_tokens: u32,
}

/// Detailed completion-token accounting.
#[derive(Debug, Clone, Copy, PartialEq, Eq)]
pub struct CompletionTokenDetails {
    pub accepted_prediction_tokens: u32,
    pub audio_tokens: u32,
    pub reasoning_tokens: u32,
    pub rejected_prediction_tokens: u32,
}

/// Detailed prompt-token accounting.
#[derive(Debug, Clone, Copy, PartialEq, Eq)]
pub struct PromptTokenDetails {
    pub audio_tokens: u32,
    pub cached_tokens: u32,
    pub image_tokens: u32,
    pub text_tokens: u32,
}

/// One choice's delta in a streamed chunk.
#[derive(Debug, Clone, PartialEq, Eq)]
pub struct ChoiceDelta {
    pub content: Option<String>,
    pub tool_calls: Option<Vec<ToolCall>>,
    pub role: String,
}

/// Maps the provider's finish reason onto the generic vocabulary.
pub fn convert_finish_reason(value: FinishReason) -> (r: crate::types::FinishReason)
    ensures
        r == spec_convert_finish_reason(value),
{
    match value {
        FinishReason::Stop => crate::types::FinishReason::Stop,
        FinishReason::Length => crate::types::FinishReason::Length,
        FinishReason::EndTurn => crate::types::FinishReason::Other,
        FinishReason::ToolCalls => crate::types::FinishReason::ToolCalls,
    }
}

/// Specification of [`convert_finish_reason`].
pub open spec fn spec_convert_finish_reason(value: FinishReason) -> crate::types::FinishReason {
    match value {
        FinishReason::Stop => crate::types::FinishReason::Stop,
        FinishReason::Length => crate::types::FinishReason::Length,
        FinishReason::EndTurn => crate::types::FinishReason::Other,
        FinishReason::ToolCalls => crate::types::FinishReason::ToolCalls,
    }
}

/// Maps the provider's token accounting onto the generic one.
pub fn convert_usage(value: &Usage) -> (r: crate::types::Usage)
    ensures
        r == (crate::types::Usage {
            input_tokens: Some(value.prompt_tokens),
            output_tokens: Some(value.completion_tokens),
            total_tokens: Some(value.total_tokens),
        }),
{
    crate::types::Usage {
        input_tokens: Some(value.prompt_tokens),
        output_tokens: Some(value.completion_tokens),
        total_tokens: Some(value.total_tokens),
    }
}

/// Maps one wire tool call onto the generic one.
pub fn convert_tool_call(value: &ToolCall) -> (r: crate::types::ToolCall)
    ensures
        ({
            match value {
                ToolCall::Function { function, id, .. } => r.id == id && r.name == function.name
                    && r.arguments_json == function.arguments,
            }
        }),
{
    match value {
        ToolCall::Function { function, id, .. } => crate::types::ToolCall {
            id: id.clone(),
            name: function.name.clone(),
            arguments_json: function.arguments.clone(),
        },
    }
}

/// One raw stream record, classified by its `object` discriminator.
#[derive(Debug)]
pub enum GrokMessage {
    /// One choice's delta: an optional finish reason, optional text, and
    /// whole tool calls as (id, name, arguments) triples.
    ChoiceChunk {
        finish_reason: Option<FinishReason>,
        content: Option<String>,
        tool_calls: Option<Vec<(String, String, String)>>,
    },
    /// The final usage record.
    UsageChunk { usage: Usage, created: u64 },
    /// A chunk with neither choices nor usage, or another object kind.
    Ignored,
    /// A record that does not fit the expected shape; carries the error
    /// reported to the caller.
    Malformed { error: String },
}

/// True when `m` is the malformed class carrying exactly this text.
pub open spec fn is_malformed(m: GrokMessage, text: Seq<char>) -> bool {
    match m {
        GrokMessage::Malformed { error } => error@ == text,
        _ => false,
    }
}

/// What reading an optional `finish_reason` value yields: one of the four
/// known names, else nothing.
pub open spec fn spec_read_finish_reason(o: Option<Json>) -> Option<FinishReason> {
    match spec_as_str(o) {
        Some(s) => if s@ == "stop"@ {
            Some(FinishReason::Stop)
        } else if s@ == "length"@ {
            Some(FinishReason::Length)
        } else if s@ == "end_turn"@ {
            Some(FinishReason::EndTurn)
        } else if s@ == "tool_calls"@ {
            Some(FinishReason::ToolCalls)
        } else {
            None
        },
        None => None,
    }
}

fn read_finish_reason(v: &Json) -> (r: Option<FinishReason>)
    ensures
        r == spec_read_finish_reason(Some(*v)),
{
    match v {
        Json::Str(s) => {
            if crate::strutil::str_eq_str(s.as_str(), "stop") {
                Some(FinishReason::Stop)
            } else if crate::strutil::str_eq_str(s.as_str(), "length") {
                Some(FinishReason::Length)
            } else if crate::strutil::str_eq_str(s.as_str(), "end_turn") {
                Some(FinishReason::EndTurn)
            } else if crate::strutil::str_eq_str(s.as_str(), "tool_calls") {
                Some(FinishReason::ToolCalls)
            } else {
                None
            }
        },
        _ => None,
    }
}

/// What reading an optional `usage` object yields: all three counters
/// present as unsigned numbers fitting `u32` (the detailed breakdowns are
/// not read), else nothing.
pub open spec fn spec_read_usage(o: Option<Json>) -> Option<Usage> {
    match o {
        Some(u) => match (
            spec_as_u64(spec_obj_get(u, "prompt_tokens"@)),
            spec_as_u64(spec_obj_get(u, "completion_tokens"@)),
            spec_as_u64(spec_obj_get(u, "total_tokens"@)),
        ) {
            (Some(p), Some(c), Some(t)) => if p <= u32::MAX && c <= u32::MAX && t <= u32::MAX {
                Some(
                    Usage {
                        completion_tokens: c as u32,
                        completion_tokens_details: CompletionTokenDetails {
                            accepted_prediction_tokens: 0,
                            audio_tokens: 0,
                            reasoning_tokens: 0,
                            rejected_prediction_tokens: 0,
                        },
                        prompt_tokens: p as u32,
                        prompt_tokens_details: PromptTokenDetails {
                            audio_tokens: 0,
                            cached_tokens: 0,
                            image_tokens: 0,
                            text_tokens: 0,
                        },
                        total_tokens: t as u32,
                    },
                )
            } else {
                None
            },
            _ => None,
        },
        None => None,
    }
}

fn read_usage(v: &Json) -> (r: Option<Usage>)
    ensures
        r == spec_read_usage(Some(*v)),
{
    let prompt = crate::json::get_u64(v, "prompt_tokens");
    let completion = crate::json::get_u64(v, "completion_tokens");
    let total = crate::json::get_u64(v, "total_tokens");
    match (prompt, completion, total) {
        (Some(p), Some(c), Some(t)) => {
            if p <= u32::MAX as u64 && c <= u32::MAX as u64 && t <= u32::MAX as u64 {
                Some(
                    Usage {
                        completion_tokens: c as u32,
                        completion_tokens_details: CompletionTokenDetails {
                            accepted_prediction_tokens: 0,
                            audio_tokens: 0,
                            reasoning_tokens: 0,
                            rejected_prediction_tokens: 0,
                        },
                        prompt_tokens: p as u32,
                        prompt_tokens_details: PromptTokenDetails {
                            audio_tokens: 0,
                            cached_tokens: 0,
                            image_tokens: 0,
                            text_tokens: 0,
                        },
                        total_tokens: t as u32,
                    },
                )
            } else {
                None
            }
        },
        _ => None,
    }
}

/// What one element of a `tool_calls` array must carry to be usable: its
/// id, the function's name and the function's argument text, all strings.
pub open spec fn spec_call_elem(elem: Json) -> Option<(String, String, String)> {
    let id = spec_as_str(spec_obj_get(elem, "id"@));
    let f = spec_obj_get(elem, "function"@);
    let name = match f {
        Some(fv) => spec_as_str(spec_obj_get(fv, "name"@)),
        None => None,
    };
    let args = match f {
        Some(fv) => spec_as_str(spec_obj_get(fv, "arguments"@)),
        None => None,
    };
    match (id, name, args) {
        (Some(i), Some(n), Some(a)) => Some((i, n, a)),
        _ => None,
    }
}

/// True when every element of the array fits a tool-call class.
pub open spec fn spec_calls_ok(arr: Seq<Json>) -> bool {
    forall|k: int| 0 <= k < arr.len() ==> (#[trigger] spec_call_elem(arr[k])) is Some
}

/// True when `out` carries exactly the classifications of `arr`'s
/// elements, in order.
pub open spec fn spec_calls_match(out: Seq<(String, String, String)>, arr: Seq<Json>) -> bool {
    out.len() == arr.len() && forall|k: int|
        0 <= k < arr.len() ==> Some(#[trigger] out[k]) == spec_call_elem(arr[k])
}

/// Classifies every element of a `tool_calls` array, or reports that some
/// element fits no class.
fn classify_calls(items: &Vec<Json>) -> (r: Option<Vec<(String, String, String)>>)
    ensures
        match r {
            Some(out) => spec_calls_ok(items@) && spec_calls_match(out@, items@),
            None => !spec_calls_ok(items@),
        },
{
    let n = items.len();
    let mut out: Vec<(String, String, String)> = Vec::new();
    let mut i: usize = 0;
    while i < n
        invariant
            i <= n,
            n == items@.len(),
            out@.len() == i,
            forall|k: int| 0 <= k < i ==> (#[trigger] spec_call_elem(items@[k])) is Some,
            forall|k: int| 0 <= k < i ==> Some(#[trigger] out@[k]) == spec_call_elem(items@[k]),
        decreases n - i,
    {
        let call = &items[i];
        let id = crate::json::get_str(call, "id");
        let f = obj_get(call, "function");
        let name = match f {
            Some(fv) => crate::json::get_str(fv, "name"),
            None => None,
        };
        let args = match f {
            Some(fv) => crate::json::get_str(fv, "arguments"),
            None => None,
        };
        match (id, name, args) {
            (Some(id), Some(name), Some(args)) => {
                out.push((id, name, args));
            },
            _ => {
                proof {
                    assert(spec_call_elem(items@[i as int]) is None);
                }
                return None;
            },
        }
        i = i + 1;
    }
    Some(out)
}

/// How the first choice of a chunk must be classified: its finish reason
/// and text are read, and its tool calls pinned element by element.
pub open spec fn spec_choice_rel(choice: Json, m: GrokMessage) -> bool {
    let finish_reason = match spec_obj_get(choice, "finish_reason"@) {
        Some(fr) => spec_read_finish_reason(Some(fr)),
        None => None,
    };
    let delta = spec_obj_get(choice, "delta"@);
    let content = match delta {
        Some(d) => spec_as_str(spec_obj_get(d, "content"@)),
        None => None,
    };
    let tool_calls = match delta {
        Some(d) => spec_obj_get(d, "tool_calls"@),
        None => None,
    };
    match tool_calls {
        Some(tc) => {
            let arr = spec_as_array(Some(tc));
            if spec_calls_ok(arr) {
                match m {
                    GrokMessage::ChoiceChunk { finish_reason: f2, content: c2, tool_calls: t2 } =>
                        f2 == finish_reason && c2 == content && (match t2 {
                        Some(calls) => spec_calls_match(calls@, arr),
                        None => false,
                    }),
                    _ => false,
                }
            } else {
                is_malformed(m, "Failed to deserialize stream event: malformed tool call"@)
            }
        },
        None => m == (GrokMessage::ChoiceChunk { finish_reason, content, tool_calls: None }),
    }
}

/// How a chunk without choices must be classified: by its usage record,
/// when it carries one.
pub open spec fn spec_usage_rel(j: Json, m: GrokMessage) -> bool {
    match spec_read_usage(spec_obj_get(j, "usage"@)) {
        Some(usage) => match m {
            GrokMessage::UsageChunk { usage: u2, created } => u2 == usage && created == (
            match spec_as_u64(spec_obj_get(j, "created"@)) {
                Some(c) => c,
                None => 0u64,
            }),
            _ => false,
        },
        None => m == GrokMessage::Ignored,
    }
}

/// How a parsed record must be classified, for every shape of the value:
/// the first choice's delta (finish reason buffered, whole tool calls
/// pinned element by element), else the final usage record, else nothing.
pub open spec fn spec_classify_rel(j: Json, m: GrokMessage) -> bool {
    match spec_as_str(spec_obj_get(j, "object"@)) {
        Some(t) => {
            if t@ != "chat.completion.chunk"@ {
                m == GrokMessage::Ignored
            } else {
                let choices = spec_as_array(spec_obj_get(j, "choices"@));
                if choices.len() > 0 {
                    spec_choice_rel(choices[0], m)
                } else {
                    spec_usage_rel(j, m)
                }
            }
        },
        None => is_malformed(
            m,
            "Unexpected stream event format, does not have 'object' field"@,
        ),
    }
}

/// Classifies one raw stream record: `json_of` names what the payload
/// parses as, and the classification of that value is pinned by
/// [`spec_classify_rel`].
pub fn classify_message(raw: &str) -> (m: GrokMessage)
    ensures
        match json_of(raw@) {
            Some(j) => spec_classify_rel(j, m),
            None => match m {
                GrokMessage::Malformed { error } => has_prefix(
                    error@,
                    "Failed to deserialize stream event: "@,
                ),
                _ => false,
            },
        },
{
    let json = match parse_json(raw) {
        Ok(v) => v,
        Err(e) => {
            let error = String::from_str("Failed to deserialize stream event: ").concat(
                e.as_str(),
            );
            proof {
                assert(error@.subrange(
                    0,
                    "Failed to deserialize stream event: "@.len() as int,
                ) =~= "Failed to deserialize stream event: "@);
            }
            return GrokMessage::Malformed { error };
        },
    };
    classify_json(&json)
}

/// Classifies one parsed record, as [`spec_classify_rel`] pins it.
#[verifier::rlimit(100)]
fn classify_json(json: &Json) -> (m: GrokMessage)
    ensures
        spec_classify_rel(*json, m),
{
    let typ = match crate::json::get_str(json, "object") {
        Some(t) => t,
        None => {
            return GrokMessage::Malformed {
                error: String::from_str(
                    "Unexpected stream event format, does not have 'object' field",
                ),
            };
        },
    };
    if !crate::strutil::str_eq_str(typ.as_str(), "chat.completion.chunk") {
        return GrokMessage::Ignored;
    }
    let first_choice = match obj_get(json, "choices") {
        Some(choices) => match choices {
            Json::Array(items) => if items.len() > 0 {
                proof {
                    assert(spec_as_array(spec_obj_get(*json, "choices"@)) == items@);
                }
                Some(&items[0])
            } else {
                proof {
                    assert(spec_as_array(spec_obj_get(*json, "choices"@)).len() == 0);
                }
                None
            },
            _ => {
                proof {
                    assert(spec_as_array(spec_obj_get(*json, "choices"@)) =~= Seq::<Json>::empty());
                }
                None
            },
        },
        None => {
            proof {
                assert(spec_as_array(spec_obj_get(*json, "choices"@)) =~= Seq::<Json>::empty());
            }
            None
        },
    };
    match first_choice {
        Some(choice) => {
            proof {
                assert(spec_as_array(spec_obj_get(*json, "choices"@)).len() > 0);
                assert(spec_as_array(spec_obj_get(*json, "choices"@))[0] == *choice);
            }
            let finish_reason = match obj_get(choice, "finish_reason") {
                Some(fr) => read_finish_reason(fr),
                None => None,
            };
            let delta = obj_get(choice, "delta");
            let content = match delta {
                Some(d) => crate::json::get_str(d, "content"),
                None => None,
            };
            let tool_calls = match delta {
                Some(d) => obj_get(d, "tool_calls"),
                None => None,
            };
            match tool_calls {
                Some(tc) => {
                    match tc {
                        Json::Array(items) => {
                            proof {
                                assert(spec_as_array(Some(*tc)) == items@);
                            }
                            match classify_calls(items) {
                                Some(out) => {
                                    let mm = GrokMessage::ChoiceChunk {
                                        finish_reason,
                                        content,
                                        tool_calls: Some(out),
                                    };
                                    proof {
                                        assert(spec_choice_rel(*choice, mm));
                                        assert(spec_classify_rel(*json, mm));
                                    }
                                    return mm;
                                },
                                None => {
                                    let mm = GrokMessage::Malformed {
                                        error: String::from_str(
                                            "Failed to deserialize stream event: malformed tool call",
                                        ),
                                    };
                                    proof {
                                        assert(spec_choice_rel(*choice, mm));
                                        assert(spec_classify_rel(*json, mm));
                                    }
                                    return mm;
                                },
                            }
                        },
                        _ => {
                            let mm = GrokMessage::ChoiceChunk {
                                finish_reason,
                                content,
                                tool_calls: Some(Vec::new()),
                            };
                            proof {
                                assert(spec_as_array(Some(*tc)) =~= Seq::<Json>::empty());
                                assert(spec_choice_rel(*choice, mm));
                                assert(spec_classify_rel(*json, mm));
                            }
                            return mm;
                        },
                    }
                },
                None => {
                    let mm = GrokMessage::ChoiceChunk { finish_reason, content, tool_calls: None };
                    proof {
                        assert(spec_choice_rel(*choice, mm));
                        assert(spec_classify_rel(*json, mm));
                    }
                    return mm;
                },
            }
        },
        None => {
            let usage = match obj_get(json, "usage") {
                Some(u) => read_usage(u),
                None => None,
            };
            match usage {
                Some(usage) => {
                    let created = match crate::json::get_u64(json, "created") {
                        Some(n) => n,
                        None => 0,
                    };
                    let mm = GrokMessage::UsageChunk { usage, created };
                    proof {
                        assert(spec_usage_rel(*json, mm));
                        assert(spec_classify_rel(*json, mm));
                    }
                    return mm;
                },
                None => {
                    proof {
                        assert(spec_usage_rel(*json, GrokMessage::Ignored));
                        assert(spec_classify_rel(*json, GrokMessage::Ignored));
                    }
                    GrokMessage::Ignored
                },
            }
        },
    }
}

/// Marks a classified record as a witness for the decoder's contract;
/// always true, used only to steer quantifier instantiation.
pub open spec fn grok_witness(m: GrokMessage) -> bool {
    true
}

/// What one classified record does to the decoder: the exact new state and
/// result for every class.  A choice's finish reason is buffered; a delta
/// with neither text nor tool calls yields nothing; the usage record emits
/// the one `Finish` with the buffered reason.
pub open spec fn decode_step_rel(
    pre: Option<crate::types::FinishReason>,
    m: GrokMessage,
    post: Option<crate::types::FinishReason>,
    r: Result<Option<StreamEvent>, String>,
) -> bool {
    match m {
        GrokMessage::ChoiceChunk { finish_reason, content, tool_calls } => {
            &&& post == (match finish_reason {
                Some(fr) => Some(spec_convert_finish_reason(fr)),
                None => pre,
            })
            &&& (match (content, tool_calls) {
                (None, None) => r == Ok::<Option<StreamEvent>, String>(None),
                (c, tc) => match r {
                    Ok(Some(StreamEvent::Delta(d))) => {
                        &&& (match (d.content, c) {
                            (Some(parts), Some(text)) => parts@ == seq![
                                crate::types::ContentPart::Text(text),
                            ],
                            (None, None) => true,
                            _ => false,
                        })
                        &&& (match (d.tool_calls, tc) {
                            (Some(calls), Some(triples)) => calls@.len() == triples@.len()
                                && forall|j: int|
                                0 <= j < triples@.len() ==> (#[trigger] calls@[j]).id
                                    == triples@[j].0 && calls@[j].name == triples@[j].1
                                    && calls@[j].arguments_json == triples@[j].2,
                            (None, None) => true,
                            _ => false,
                        })
                    },
                    _ => false,
                },
            })
        },
        GrokMessage::UsageChunk { usage, created } => post == pre && (match r {
            Ok(Some(StreamEvent::Finish(meta))) => {
                &&& meta.finish_reason == pre
                &&& meta.usage == Some(
                    crate::types::Usage {
                        input_tokens: Some(usage.prompt_tokens),
                        output_tokens: Some(usage.completion_tokens),
                        total_tokens: Some(usage.total_tokens),
                    },
                )
                &&& meta.provider_id is None
                &&& (match meta.timestamp {
                    Some(ts) => ts@ == crate::strutil::dec_digits(created as int),
                    None => false,
                })
                &&& meta.provider_metadata_json is None
            },
            _ => false,
        }),
        GrokMessage::Ignored => post == pre && r == Ok::<Option<StreamEvent>, String>(None),
        GrokMessage::Malformed { error } => post == pre && r == Err::<
            Option<StreamEvent>,
            String,
        >(error),
    }
}

/// The Grok stream decoder: it buffers the finish reason until the final
/// usage record.
#[derive(Debug)]
pub struct GrokChatStream {
    finish_reason: Option<crate::types::FinishReason>,
}

impl View for GrokChatStream {
    type V = Option<crate::types::FinishReason>;

    closed spec fn view(&self) -> Option<crate::types::FinishReason> {
        self.finish_reason
    }
}

impl GrokChatStream {
    /// A fresh decoder with no finish reason buffered.
    pub fn new() -> (s: GrokChatStream)
        ensures
            s@ is None,
    {
        GrokChatStream { finish_reason: None }
    }

    /// Applies one classified record.
    pub fn decode_parsed(&mut self, m: GrokMessage) -> (r: Result<Option<StreamEvent>, String>)
        ensures
            decode_step_rel(old(self)@, m, final(self)@, r),
    {
        match m {
            GrokMessage::ChoiceChunk { finish_reason, content, tool_calls } => {
                match finish_reason {
                    Some(fr) => {
                        self.finish_reason = Some(convert_finish_reason(fr));
                    },
                    None => {},
                }
                let has_content = match &content {
                    Some(_) => true,
                    None => false,
                };
                let has_calls = match &tool_calls {
                    Some(_) => true,
                    None => false,
                };
                if !has_content && !has_calls {
                    return Ok(None);
                }
                let content_parts: Option<Vec<crate::types::ContentPart>> = match content {
                    Some(text) => {
                        let mut parts: Vec<crate::types::ContentPart> = Vec::new();
                        parts.push(crate::types::ContentPart::Text(text));
                        Some(parts)
                    },
                    None => None,
                };
                let converted_calls: Option<Vec<crate::types::ToolCall>> = match tool_calls {
                    Some(triples) => {
                        let mut calls: Vec<crate::types::ToolCall> = Vec::new();
                        let n = triples.len();
                        let mut i: usize = 0;
                        while i < n
                            invariant
                                i <= n,
                                n == triples@.len(),
                                calls@.len() == i,
                                forall|j: int|
                                    0 <= j < i ==> (#[trigger] calls@[j]).id == triples@[j].0
                                        && calls@[j].name == triples@[j].1
                                        && calls@[j].arguments_json == triples@[j].2,
                            decreases n - i,
                        {
                            let t = &triples[i];
                            calls.push(
                                crate::types::ToolCall {
                                    id: t.0.clone(),
                                    name: t.1.clone(),
                                    arguments_json: t.2.clone(),
                                },
                            );
                            i = i + 1;
                        }
                        Some(calls)
                    },
                    None => None,
                };
                Ok(
                    Some(
                        StreamEvent::Delta(
                            crate::types::StreamDelta {
                                content: content_parts,
                                tool_calls: converted_calls,
                            },
                        ),
                    ),
                )
            },
            GrokMessage::UsageChunk { usage, created } => {
                let ts = crate::strutil::u64_to_string(created);
                Ok(
                    Some(
                        StreamEvent::Finish(
                            crate::types::ResponseMetadata {
                                finish_reason: self.finish_reason,
                                usage: Some(convert_usage(&usage)),
                                provider_id: None,
                                timestamp: Some(ts),
                                provider_metadata_json: None,
                            },
                        ),
                    ),
                )
            },
            GrokMessage::Ignored => Ok(None),
            GrokMessage::Malformed { error } => Err(error),
        }
    }
}

impl crate::chat_stream::LlmChatStreamState for GrokChatStream {
    /// The payload parses as `json_of` says; its classification is pinned
    /// by [`spec_classify_rel`] and drives the exact step relation.
    open spec fn decode_rel(
        pre: GrokChatStream,
        raw: Seq<char>,
        post: GrokChatStream,
        r: Result<Option<StreamEvent>, String>,
    ) -> bool {
        match json_of(raw) {
            Some(j) => exists|m: GrokMessage|
                #[trigger] grok_witness(m) && spec_classify_rel(j, m) && decode_step_rel(
                    pre@,
                    m,
                    post@,
                    r,
                ),
            None => post@ == pre@ && (match r {
                Err(msg) => has_prefix(msg@, "Failed to deserialize stream event: "@),
                _ => false,
            }),
        }
    }

    fn decode_message(&mut self, raw: &str) -> (r: Result<Option<StreamEvent>, String>) {
        let m = classify_message(raw);
        proof {
            assert(grok_witness(m));
        }
        self.decode_parsed(m)
    }
}

} // verus!
