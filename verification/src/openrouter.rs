//! The OpenRouter chat-completions API: its wire model, the mapping into
//! the generic vocabulary, and the streaming decoder.
//!
//! Tool calls may arrive whole, or as argument fragments addressed by a
//! positional index; the decoder accumulates fragments per index and emits
//! a completed call once a chunk no longer touches its index.  The finish
//! reason is buffered until the final usage record closes the stream.

use vstd::prelude::*;
use vstd::string::StringExecFns;

use crate::fragments::{
    frags_view, model_append, model_set, FragModel, FragmentMap, JsonFragment,
};
use crate::json::{
    json_of, json_to_text, obj_get, parse_json, spec_as_array, spec_as_str, spec_as_u64,
    spec_json_text, spec_obj_get, Json,
};
use crate::strutil::{dec_digits, has_prefix};
use crate::types::StreamEvent;

verus! {

/// How the model may choose tools: a mode name (`auto` or `none`), or one
/// named function.
#[derive(Debug, Clone, PartialEq, Eq)]
pub enum ToolChoice {
    String(String),
    Function(ToolChoiceFunction),
}

/// The function form of a tool choice.
#[derive(Debug, Clone, PartialEq, Eq)]
pub enum ToolChoiceFunction {
    Function { function: FunctionName },
}

/// A function named by a tool choice.
#[derive(Debug, Clone, PartialEq, Eq)]
pub struct FunctionName {
    pub name: String,
}

/// One part of a request message: text, or an image reference.
#[derive(Debug, Clone, PartialEq, Eq)]
pub enum ContentPart {
    TextInput { text: String },
    ImageInput { image_url: ImageUrl },
}

/// Requested level of detail for an image input.
#[derive(Debug, Clone, Copy, PartialEq, Eq)]
pub enum Detail {
    Auto,
    Low,
    High,
}

/// An image referenced by URL.
#[derive(Debug, Clone, PartialEq, Eq)]
pub struct ImageUrl {
    pub url: String,
    pub detail: Option<Detail>,
}

/// One tool call on the wire; streamed fragments carry an index and may
/// omit id and name.
#[derive(Debug, Clone, PartialEq, Eq)]
pub enum ToolCall {
    Function { function: FunctionCall, id: Option<String>, index: Option<u32> },
}

/// The function a tool call names, with its argument JSON so far.
#[derive(Debug, Clone, PartialEq, Eq)]
pub struct FunctionCall {
    pub arguments: String,
    pub name: Option<String>,
}

/// Why a choice stopped, in the provider's vocabulary.
#[derive(Debug, Clone, Copy, PartialEq, Eq)]
pub enum FinishReason {
    ToolCalls,
    Stop,
    Length,
    ContentFilter,
    Error,
}

/// One choice's message in a full response.
#[derive(Debug, Clone, PartialEq, Eq)]
pub struct ResponseMessage {
    pub content: Option<String>,
    pub role: String,
    pub tool_calls: Option<Vec<ToolCall>>,
}

/// Token accounting in the provider's vocabulary.
#[derive(Debug, Clone, Copy, PartialEq, Eq)]
pub struct Usage {
    pub completion_tokens: u32,
    pub prompt_tokens: u32,
    pub total_tokens: u32,
}

/// One choice's delta in a streamed chunk.
#[derive(Debug, Clone, PartialEq, Eq)]
pub struct ChoiceDelta {
    pub content: Option<String>,
    pub tool_calls: Option<Vec<ToolCall>>,
    pub role: Option<String>,
}

/// Maps the provider's finish reason onto the generic vocabulary.
pub fn convert_finish_reason(value: FinishReason) -> (r: crate::types::FinishReason)
    ensures
        r == spec_convert_finish_reason(value),
{
    match value {
        FinishReason::Stop => crate::types::FinishReason::Stop,
        FinishReason::Length => crate::types::FinishReason::Length,
        FinishReason::ContentFilter => crate::types::FinishReason::ContentFilter,
        FinishReason::ToolCalls => crate::types::FinishReason::ToolCalls,
        FinishReason::Error => crate::types::FinishReason::Error,
    }
}

/// Specification of [`convert_finish_reason`].
pub open spec fn spec_convert_finish_reason(value: FinishReason) -> crate::types::FinishReason {
    match value {
        FinishReason::Stop => crate::types::FinishReason::Stop,
        FinishReason::Length => crate::types::FinishReason::Length,
        FinishReason::ContentFilter => crate::types::FinishReason::ContentFilter,
        FinishReason::ToolCalls => crate::types::FinishReason::ToolCalls,
        FinishReason::Error => crate::types::FinishReason::Error,
    }
}

/// Maps the provider's token accounting onto the generic one.
pub fn convert_usage(value: &Usage) -> (r: crate::types::Usage)
    ensures
        r == (crate::types::Usage {
            input_tokens: Some(value.prompt_tokens),
            output_tokens: Some(value.completion_tokens),
            total_tokens: Some(value.total_tokens),
        }),
{
    crate::types::Usage {
        input_tokens: Some(value.prompt_tokens),
        output_tokens: Some(value.completion_tokens),
        total_tokens: Some(value.total_tokens),
    }
}

/// Maps the generic tool-choice name onto the provider's vocabulary:
/// `auto` and `none` pass through as mode names, anything else names a
/// function.
pub fn convert_tool_choice(tool_choice: String) -> (r: ToolChoice)
    ensures
        if tool_choice@ == "auto"@ || tool_choice@ == "none"@ {
            r == ToolChoice::String(tool_choice)
        } else {
            r == ToolChoice::Function(
                ToolChoiceFunction::Function {
                    function: FunctionName { name: tool_choice },
                },
            )
        },
{
    if crate::strutil::str_eq_str(tool_choice.as_str(), "auto") || crate::strutil::str_eq_str(
        tool_choice.as_str(),
        "none",
    ) {
        ToolChoice::String(tool_choice)
    } else {
        ToolChoice::Function(
            ToolChoiceFunction::Function { function: FunctionName { name: tool_choice } },
        )
    }
}

/// One streamed tool call, classified: whole, the start of a streamed one
/// (index, id and name known), or a fragment addressed by index.
#[derive(Debug)]
pub enum WireCall {
    Full { id: String, name: String, arguments: String },
    Start { index: u64, id: String, name: String, arguments: String },
    Fragment { index: u64, arguments: String },
}

/// One raw stream record, classified.
#[derive(Debug)]
pub enum OpenRouterMessage {
    /// A keep-alive comment line.
    Comment,
    /// The final usage record.
    UsageChunk { usage: Usage, created: u64 },
    /// A choice reporting a provider error; the finish reason (if any)
    /// still counts.
    ErrorChunk {
        finish_reason: Option<FinishReason>,
        code: u64,
        message: String,
        metadata_json: Option<String>,
    },
    /// One choice's delta.
    ChoiceChunk {
        finish_reason: Option<FinishReason>,
        content: Option<String>,
        tool_calls: Vec<WireCall>,
    },
    /// A chunk with no choices, or another object kind; ignored.
    Ignored,
    /// A record that does not fit the expected shape; carries the error
    /// reported to the caller.
    Malformed { error: String },
}

/// The views of a list of generic tool calls, as (id, name, arguments)
/// triples.
pub open spec fn calls_view(s: Seq<crate::types::ToolCall>) -> Seq<
    (Seq<char>, Seq<char>, Seq<char>),
> {
    s.map_values(|t: crate::types::ToolCall| (t.id@, t.name@, t.arguments_json@))
}

/// What a chunk's tool calls do to the fragment table: whole calls are
/// emitted in order; a start stores a fresh fragment under its index; a
/// fragment extends the one under its index; every touched index is noted.
pub open spec fn spec_apply_calls(
    frags: Seq<(u64, FragModel)>,
    seen: Seq<u64>,
    out: Seq<(Seq<char>, Seq<char>, Seq<char>)>,
    calls: Seq<WireCall>,
) -> (Seq<(u64, FragModel)>, Seq<u64>, Seq<(Seq<char>, Seq<char>, Seq<char>)>)
    decreases calls.len(),
{
    if calls.len() == 0 {
        (frags, seen, out)
    } else {
        let (f, s, o) = spec_apply_calls(frags, seen, out, calls.drop_last());
        match calls.last() {
            WireCall::Full { id, name, arguments } => (f, s, o.push((id@, name@, arguments@))),
            WireCall::Start { index, id, name, arguments } => (
                model_set(f, index, FragModel { id: id@, name: name@, json: arguments@ }),
                s.push(index),
                o,
            ),
            WireCall::Fragment { index, arguments } => (
                model_append(f, index, arguments@),
                s.push(index),
                o,
            ),
        }
    }
}

/// After a chunk, every fragment whose index the chunk did not touch is
/// finished: it leaves the table and is emitted, in table order.
pub open spec fn spec_flush(frags: Seq<(u64, FragModel)>, seen: Seq<u64>) -> (
    Seq<(u64, FragModel)>,
    Seq<(Seq<char>, Seq<char>, Seq<char>)>,
)
    decreases frags.len(),
{
    if frags.len() == 0 {
        (Seq::empty(), Seq::empty())
    } else {
        let (tf, to) = spec_flush(frags.drop_last(), seen);
        let last = frags.last();
        if seen.contains(last.0) {
            (tf.push(last), to)
        } else {
            (tf, to.push((last.1.id, last.1.name, last.1.json)))
        }
    }
}

/// Mathematical image of an [`OpenRouterChatStream`].
pub struct OpenRouterModel {
    pub fragments: Seq<(u64, FragModel)>,
    pub finish_reason: Option<crate::types::FinishReason>,
}

/// The decoder's private accumulation state: tool-call fragments keyed by
/// index, and the finish reason buffered until the usage record.
#[derive(Debug)]
pub struct OpenRouterChatStream {
    json_fragments: FragmentMap,
    finish_reason: Option<crate::types::FinishReason>,
}

impl View for OpenRouterChatStream {
    type V = OpenRouterModel;

    closed spec fn view(&self) -> OpenRouterModel {
        OpenRouterModel {
            fragments: frags_view(self.json_fragments@),
            finish_reason: self.finish_reason,
        }
    }
}

/// Marks a classified record as a witness for the decoder's contract;
/// always true, used only to steer quantifier instantiation.
pub open spec fn openrouter_witness(m: OpenRouterMessage) -> bool {
    true
}

/// What one classified record does to the decoder: the exact new state and
/// result for every class.
pub open spec fn decode_step_rel(
    pre: OpenRouterModel,
    m: OpenRouterMessage,
    post: OpenRouterModel,
    r: Result<Option<StreamEvent>, String>,
) -> bool {
    match m {
        OpenRouterMessage::Comment => post == pre && r == Ok::<Option<StreamEvent>, String>(None),
        OpenRouterMessage::UsageChunk { usage, created } => post == pre && (match r {
            Ok(Some(StreamEvent::Finish(meta))) => {
                &&& meta.finish_reason == pre.finish_reason
                &&& meta.usage == Some(
                    crate::types::Usage {
                        input_tokens: Some(usage.prompt_tokens),
                        output_tokens: Some(usage.completion_tokens),
                        total_tokens: Some(usage.total_tokens),
                    },
                )
                &&& meta.provider_id is None
                &&& (match meta.timestamp {
                    Some(ts) => ts@ == dec_digits(created as int),
                    None => false,
                })
                &&& meta.provider_metadata_json is None
            },
            _ => false,
        }),
        OpenRouterMessage::ErrorChunk { finish_reason, code, message, metadata_json } => {
            &&& post.fragments == pre.fragments
            &&& post.finish_reason == (match finish_reason {
                Some(fr) => Some(spec_convert_finish_reason(fr)),
                None => pre.finish_reason,
            })
            &&& (match r {
                Ok(Some(StreamEvent::Error(e))) => {
                    &&& e.code == (if 100 <= code <= 999 {
                        crate::types::spec_error_code_from_status(code as u16)
                    } else {
                        crate::types::ErrorCode::InternalError
                    })
                    &&& e.message == message
                    &&& e.provider_error_json == metadata_json
                },
                _ => false,
            })
        },
        OpenRouterMessage::ChoiceChunk { finish_reason, content, tool_calls } => {
            let (f1, seen, out1) = spec_apply_calls(
                pre.fragments,
                Seq::empty(),
                Seq::empty(),
                tool_calls@,
            );
            let (f2, extra) = spec_flush(f1, seen);
            let all_out = out1 + extra;
            &&& post.fragments == f2
            &&& post.finish_reason == (match finish_reason {
                Some(fr) => Some(spec_convert_finish_reason(fr)),
                None => pre.finish_reason,
            })
            &&& (if content is None && all_out.len() == 0 {
                r == Ok::<Option<StreamEvent>, String>(None)
            } else {
                match r {
                    Ok(Some(StreamEvent::Delta(d))) => {
                        &&& (match (d.content, content) {
                            (Some(parts), Some(text)) => parts@ == seq![
                                crate::types::ContentPart::Text(text),
                            ],
                            (None, None) => true,
                            _ => false,
                        })
                        &&& (match d.tool_calls {
                            Some(calls) => all_out.len() > 0 && calls_view(calls@) == all_out,
                            None => all_out.len() == 0,
                        })
                    },
                    _ => false,
                }
            })
        },
        OpenRouterMessage::Ignored => post == pre && r == Ok::<Option<StreamEvent>, String>(None),
        OpenRouterMessage::Malformed { error } => post == pre && r == Err::<
            Option<StreamEvent>,
            String,
        >(error),
    }
}

impl OpenRouterChatStream {
    /// A fresh decoder: no fragments, no finish reason.
    pub fn new() -> (s: OpenRouterChatStream)
        ensures
            s@.fragments.len() == 0,
            s@.finish_reason is None,
    {
        OpenRouterChatStream { json_fragments: FragmentMap::new(), finish_reason: None }
    }

    /// Applies one classified record to the decoder.
    pub fn decode_parsed(&mut self, m: OpenRouterMessage) -> (r: Result<
        Option<StreamEvent>,
        String,
    >)
        ensures
            decode_step_rel(old(self)@, m, final(self)@, r),
    {
        match m {
            OpenRouterMessage::Comment => Ok(None),
            OpenRouterMessage::UsageChunk { usage, created } => {
                let ts = crate::strutil::u64_to_string(created);
                Ok(
                    Some(
                        StreamEvent::Finish(
                            crate::types::ResponseMetadata {
                                finish_reason: self.finish_reason,
                                usage: Some(convert_usage(&usage)),
                                provider_id: None,
                                timestamp: Some(ts),
                                provider_metadata_json: None,
                            },
                        ),
                    ),
                )
            },
            OpenRouterMessage::ErrorChunk { finish_reason, code, message, metadata_json } => {
                match finish_reason {
                    Some(fr) => {
                        self.finish_reason = Some(convert_finish_reason(fr));
                    },
                    None => {},
                }
                let ec = if 100 <= code && code <= 999 {
                    crate::types::error_code_from_status(code as u16)
                } else {
                    crate::types::ErrorCode::InternalError
                };
                Ok(
                    Some(
                        StreamEvent::Error(
                            crate::types::Error {
                                code: ec,
                                message,
                                provider_error_json: metadata_json,
                            },
                        ),
                    ),
                )
            },
            OpenRouterMessage::ChoiceChunk { finish_reason, content, tool_calls } => {
                match finish_reason {
                    Some(fr) => {
                        self.finish_reason = Some(convert_finish_reason(fr));
                    },
                    None => {},
                }
                let ghost pre_frags = frags_view(self.json_fragments@);
                proof {
                    assert(pre_frags == old(self)@.fragments);
                }
                let mut seen: Vec<u64> = Vec::new();
                let mut out: Vec<crate::types::ToolCall> = Vec::new();
                let n = tool_calls.len();
                let mut i: usize = 0;
                while i < n
                    invariant
                        i <= n,
                        n == tool_calls@.len(),
                        pre_frags == old(self)@.fragments,
                        ({
                            let (f, s, o) = spec_apply_calls(
                                pre_frags,
                                Seq::empty(),
                                Seq::empty(),
                                tool_calls@.subrange(0, i as int),
                            );
                            frags_view(self.json_fragments@) == f && seen@ == s && calls_view(out@)
                                == o
                        }),
                        self.finish_reason == (match finish_reason {
                            Some(fr) => Some(spec_convert_finish_reason(fr)),
                            None => old(self)@.finish_reason,
                        }),
                    decreases n - i,
                {
                    proof {
                        assert(tool_calls@.subrange(0, i + 1).drop_last() =~= tool_calls@.subrange(
                            0,
                            i as int,
                        ));
                        assert(tool_calls@.subrange(0, i + 1).last() == tool_calls@[i as int]);
                    }
                    match &tool_calls[i] {
                        WireCall::Full { id, name, arguments } => {
                            let ghost out_pre = calls_view(out@);
                            out.push(
                                crate::types::ToolCall {
                                    id: id.clone(),
                                    name: name.clone(),
                                    arguments_json: arguments.clone(),
                                },
                            );
                            proof {
                                assert(calls_view(out@) =~= out_pre.push(
                                    (id@, name@, arguments@),
                                ));
                            }
                        },
                        WireCall::Start { index, id, name, arguments } => {
                            self.json_fragments.set(
                                *index,
                                JsonFragment {
                                    id: id.clone(),
                                    name: name.clone(),
                                    json: arguments.clone(),
                                },
                            );
                            seen.push(*index);
                        },
                        WireCall::Fragment { index, arguments } => {
                            self.json_fragments.append_json(*index, arguments.as_str());
                            seen.push(*index);
                        },
                    }
                    i = i + 1;
                }
                proof {
                    assert(tool_calls@.subrange(0, n as int) =~= tool_calls@);
                }
                // flush the fragments this chunk no longer touches
                let ghost f1 = frags_view(self.json_fragments@);
                let ghost out_after_calls = calls_view(out@);
                let ghost seen_after_calls = seen@;
                let total = self.json_fragments.len();
                let mut kept: Vec<(u64, JsonFragment)> = Vec::new();
                let mut idx: usize = 0;
                while idx < total
                    invariant
                        idx <= total,
                        total == self.json_fragments@.len(),
                        f1 == frags_view(self.json_fragments@),
                        seen@ == seen_after_calls,
                        ({
                            let (f, s, o) = spec_apply_calls(
                                old(self)@.fragments,
                                Seq::empty(),
                                Seq::empty(),
                                tool_calls@,
                            );
                            f1 == f && seen@ == s && out_after_calls == o
                        }),
                        ({
                            let (kf, ko) = spec_flush(f1.subrange(0, idx as int), seen@);
                            frags_view(kept@) == kf && calls_view(out@) == out_after_calls + ko
                        }),
                        self.finish_reason == (match finish_reason {
                            Some(fr) => Some(spec_convert_finish_reason(fr)),
                            None => old(self)@.finish_reason,
                        }),
                    decreases total - idx,
                {
                    proof {
                        assert(f1.subrange(0, idx + 1).drop_last() =~= f1.subrange(0, idx as int));
                        assert(f1.subrange(0, idx + 1).last() == f1[idx as int]);
                    }
                    let (k, frag) = self.json_fragments.get_at(idx);
                    proof {
                        assert(f1[idx as int] == (
                            self.json_fragments@[idx as int].0,
                            crate::fragments::frag_view(self.json_fragments@[idx as int].1),
                        ));
                    }
                    if crate::strutil::contains_u64(&seen, k) {
                        let ghost kept_pre = frags_view(kept@);
                        kept.push((k, frag));
                        proof {
                            assert(frags_view(kept@) =~= kept_pre.push(f1[idx as int]));
                        }
                    } else {
                        let ghost out_pre = calls_view(out@);
                        out.push(
                            crate::types::ToolCall {
                                id: frag.id,
                                name: frag.name,
                                arguments_json: frag.json,
                            },
                        );
                        proof {
                            assert(calls_view(out@) =~= out_pre.push(
                                (
                                    f1[idx as int].1.id,
                                    f1[idx as int].1.name,
                                    f1[idx as int].1.json,
                                ),
                            ));
                        }
                    }
                    idx = idx + 1;
                }
                proof {
                    assert(f1.subrange(0, total as int) =~= f1);
                }
                self.json_fragments = FragmentMap::from_vec(kept);

                let has_content = match &content {
                    Some(_) => true,
                    None => false,
                };
                if !has_content && out.len() == 0 {
                    return Ok(None);
                }
                let content_parts: Option<Vec<crate::types::ContentPart>> = match content {
                    Some(text) => {
                        let mut parts: Vec<crate::types::ContentPart> = Vec::new();
                        parts.push(crate::types::ContentPart::Text(text));
                        Some(parts)
                    },
                    None => None,
                };
                let tool_out: Option<Vec<crate::types::ToolCall>> = if out.len() == 0 {
                    None
                } else {
                    Some(out)
                };
                Ok(
                    Some(
                        StreamEvent::Delta(
                            crate::types::StreamDelta {
                                content: content_parts,
                                tool_calls: tool_out,
                            },
                        ),
                    ),
                )
            },
            OpenRouterMessage::Ignored => Ok(None),
            OpenRouterMessage::Malformed { error } => Err(error),
        }
    }
}

/// True when `m` is the malformed class carrying exactly this text.
pub open spec fn is_malformed(m: OpenRouterMessage, text: Seq<char>) -> bool {
    match m {
        OpenRouterMessage::Malformed { error } => error@ == text,
        _ => false,
    }
}

/// True when the raw record is a keep-alive comment line.
pub open spec fn spec_is_comment(raw: Seq<char>) -> bool {
    raw.len() >= 2 && raw[0] == ':' && raw[1] == ' '
}

/// What reading an optional `finish_reason` value yields: one of the five
/// known names, else nothing.
pub open spec fn spec_read_finish_reason(o: Option<Json>) -> Option<FinishReason> {
    match spec_as_str(o) {
        Some(s) => if s@ == "stop"@ {
            Some(FinishReason::Stop)
        } else if s@ == "length"@ {
            Some(FinishReason::Length)
        } else if s@ == "content_filter"@ {
            Some(FinishReason::ContentFilter)
        } else if s@ == "tool_calls"@ {
            Some(FinishReason::ToolCalls)
        } else if s@ == "error"@ {
            Some(FinishReason::Error)
        } else {
            None
        },
        None => None,
    }
}

fn read_finish_reason(v: &Json) -> (r: Option<FinishReason>)
    ensures
        r == spec_read_finish_reason(Some(*v)),
{
    match v {
        Json::Str(s) => {
            if crate::strutil::str_eq_str(s.as_str(), "stop") {
                Some(FinishReason::Stop)
            } else if crate::strutil::str_eq_str(s.as_str(), "length") {
                Some(FinishReason::Length)
            } else if crate::strutil::str_eq_str(s.as_str(), "content_filter") {
                Some(FinishReason::ContentFilter)
            } else if crate::strutil::str_eq_str(s.as_str(), "tool_calls") {
                Some(FinishReason::ToolCalls)
            } else if crate::strutil::str_eq_str(s.as_str(), "error") {
                Some(FinishReason::Error)
            } else {
                None
            }
        },
        _ => None,
    }
}

/// What reading an optional `usage` object yields: all three counters
/// present as unsigned numbers fitting `u32`, else nothing.
pub open spec fn spec_read_usage(o: Option<Json>) -> Option<Usage> {
    match o {
        Some(u) => match (
            spec_as_u64(spec_obj_get(u, "prompt_tokens"@)),
            spec_as_u64(spec_obj_get(u, "completion_tokens"@)),
            spec_as_u64(spec_obj_get(u, "total_tokens"@)),
        ) {
            (Some(p), Some(c), Some(t)) => if p <= u32::MAX && c <= u32::MAX && t <= u32::MAX {
                Some(
                    Usage {
                        completion_tokens: c as u32,
                        prompt_tokens: p as u32,
                        total_tokens: t as u32,
                    },
                )
            } else {
                None
            },
            _ => None,
        },
        None => None,
    }
}

fn read_usage(v: &Json) -> (r: Option<Usage>)
    ensures
        r == spec_read_usage(Some(*v)),
{
    let prompt = crate::json::get_u64(v, "prompt_tokens");
    let completion = crate::json::get_u64(v, "completion_tokens");
    let total = crate::json::get_u64(v, "total_tokens");
    match (prompt, completion, total) {
        (Some(p), Some(c), Some(t)) => {
            if p <= u32::MAX as u64 && c <= u32::MAX as u64 && t <= u32::MAX as u64 {
                Some(
                    Usage {
                        completion_tokens: c as u32,
                        prompt_tokens: p as u32,
                        total_tokens: t as u32,
                    },
                )
            } else {
                None
            }
        },
        _ => None,
    }
}

/// What one element of a `tool_calls` array classifies as: a whole call
/// (id and name, no index), the start of a streamed one (id, name and
/// index), or a fragment (index); an element without argument text, or
/// with neither a usable id/name pair nor an index, fits no class.
pub open spec fn spec_call_elem(elem: Json) -> Option<WireCall> {
    let id = spec_as_str(spec_obj_get(elem, "id"@));
    let index = spec_as_u64(spec_obj_get(elem, "index"@));
    let f = spec_obj_get(elem, "function"@);
    let name = match f {
        Some(fv) => spec_as_str(spec_obj_get(fv, "name"@)),
        None => None,
    };
    let arguments = match f {
        Some(fv) => spec_as_str(spec_obj_get(fv, "arguments"@)),
        None => None,
    };
    match arguments {
        Some(args) => match (id, name, index) {
            (Some(id), Some(name), None) => Some(WireCall::Full { id, name, arguments: args }),
            (Some(id), Some(name), Some(ix)) => Some(
                WireCall::Start { index: ix, id, name, arguments: args },
            ),
            (_, _, Some(ix)) => Some(WireCall::Fragment { index: ix, arguments: args }),
            _ => None,
        },
        None => None,
    }
}

/// True when every element of the array fits a tool-call class.
pub open spec fn spec_calls_ok(arr: Seq<Json>) -> bool {
    forall|k: int| 0 <= k < arr.len() ==> (#[trigger] spec_call_elem(arr[k])) is Some
}

/// True when `out` carries exactly the classifications of `arr`'s
/// elements, in order.
pub open spec fn spec_calls_match(out: Seq<WireCall>, arr: Seq<Json>) -> bool {
    out.len() == arr.len() && forall|k: int|
        0 <= k < arr.len() ==> Some(#[trigger] out[k]) == spec_call_elem(arr[k])
}

/// Classifies every element of a `tool_calls` array, or reports that some
/// element fits no class.
fn classify_calls(items: &Vec<Json>) -> (r: Option<Vec<WireCall>>)
    ensures
        match r {
            Some(out) => spec_calls_ok(items@) && spec_calls_match(out@, items@),
            None => !spec_calls_ok(items@),
        },
{
    let n = items.len();
    let mut out: Vec<WireCall> = Vec::new();
    let mut i: usize = 0;
    while i < n
        invariant
            i <= n,
            n == items@.len(),
            out@.len() == i,
            forall|k: int| 0 <= k < i ==> (#[trigger] spec_call_elem(items@[k])) is Some,
            forall|k: int| 0 <= k < i ==> Some(#[trigger] out@[k]) == spec_call_elem(items@[k]),
        decreases n - i,
    {
        let call = &items[i];
        let id = crate::json::get_str(call, "id");
        let index = crate::json::get_u64(call, "index");
        let f = obj_get(call, "function");
        let name = match f {
            Some(fv) => crate::json::get_str(fv, "name"),
            None => None,
        };
        let arguments = match f {
            Some(fv) => crate::json::get_str(fv, "arguments"),
            None => None,
        };
        let arguments = match arguments {
            Some(a) => a,
            None => {
                proof {
                    assert(spec_call_elem(items@[i as int]) is None);
                }
                return None;
            },
        };
        match (id, name, index) {
            (Some(id), Some(name), None) => {
                out.push(WireCall::Full { id, name, arguments });
            },
            (Some(id), Some(name), Some(index)) => {
                out.push(WireCall::Start { index, id, name, arguments });
            },
            (_, _, Some(index)) => {
                out.push(WireCall::Fragment { index, arguments });
            },
            _ => {
                proof {
                    assert(spec_call_elem(items@[i as int]) is None);
                }
                return None;
            },
        }
        i = i + 1;
    }
    Some(out)
}

/// How a parsed record must be classified, for every shape of the value:
/// the final usage record wins, then the first choice — its finish reason,
/// a provider error (metadata echoed in the library's own JSON spelling),
/// or its delta with every tool-call element pinned.
pub open spec fn spec_classify_rel(j: Json, m: OpenRouterMessage) -> bool {
    match spec_as_str(spec_obj_get(j, "object"@)) {
        Some(t) => {
            if t@ != "chat.completion.chunk"@ {
                m == OpenRouterMessage::Ignored
            } else {
                let usage = spec_read_usage(spec_obj_get(j, "usage"@));
                match usage {
                    Some(usage) => match m {
                        OpenRouterMessage::UsageChunk { usage: u2, created } => u2 == usage
                            && created == (match spec_as_u64(spec_obj_get(j, "created"@)) {
                            Some(c) => c,
                            None => 0u64,
                        }),
                        _ => false,
                    },
                    None => {
                        let choices = spec_as_array(spec_obj_get(j, "choices"@));
                        if choices.len() == 0 {
                            m == OpenRouterMessage::Ignored
                        } else {
                            let choice = choices[0];
                            let finish_reason = match spec_obj_get(choice, "finish_reason"@) {
                                Some(fr) => spec_read_finish_reason(Some(fr)),
                                None => None,
                            };
                            match spec_obj_get(choice, "error"@) {
                                Some(err) => match m {
                                    OpenRouterMessage::ErrorChunk {
                                        finish_reason: f2,
                                        code,
                                        message,
                                        metadata_json,
                                    } => {
                                        &&& f2 == finish_reason
                                        &&& code == (match spec_as_u64(
                                            spec_obj_get(err, "code"@),
                                        ) {
                                            Some(c) => c,
                                            None => 0u64,
                                        })
                                        &&& (match spec_as_str(spec_obj_get(err, "message"@)) {
                                            Some(s) => message == s,
                                            None => message@ == Seq::<char>::empty(),
                                        })
                                        &&& (match spec_obj_get(err, "metadata"@) {
                                            Some(meta) => match metadata_json {
                                                Some(s) => s@ == spec_json_text(meta),
                                                None => false,
                                            },
                                            None => metadata_json is None,
                                        })
                                    },
                                    _ => false,
                                },
                                None => {
                                    let delta = spec_obj_get(choice, "delta"@);
                                    let content = match delta {
                                        Some(d) => spec_as_str(spec_obj_get(d, "content"@)),
                                        None => None,
                                    };
                                    let arr = match delta {
                                        Some(d) => spec_as_array(spec_obj_get(d, "tool_calls"@)),
                                        None => Seq::empty(),
                                    };
                                    if spec_calls_ok(arr) {
                                        match m {
                                            OpenRouterMessage::ChoiceChunk {
                                                finish_reason: f2,
                                                content: c2,
                                                tool_calls,
                                            } => f2 == finish_reason && c2 == content
                                                && spec_calls_match(tool_calls@, arr),
                                            _ => false,
                                        }
                                    } else {
                                        is_malformed(m, "Unexpected tool call format"@)
                                    }
                                },
                            }
                        }
                    },
                }
            }
        },
        None => is_malformed(
            m,
            "Unexpected stream event format, does not have 'object' field"@,
        ),
    }
}

/// Classifies one raw stream record: a comment line is recognized from the
/// text itself; otherwise `json_of` names what the payload parses as, and
/// the classification of that value is pinned by [`spec_classify_rel`].
pub fn classify_message(raw: &str) -> (m: OpenRouterMessage)
    ensures
        if spec_is_comment(raw@) {
            m == OpenRouterMessage::Comment
        } else {
            match json_of(raw@) {
                Some(j) => spec_classify_rel(j, m),
                None => match m {
                    OpenRouterMessage::Malformed { error } => has_prefix(
                        error@,
                        "Failed to deserialize stream event: "@,
                    ),
                    _ => false,
                },
            }
        },
{
    let chars = crate::strutil::str_to_chars(raw);
    if chars.len() >= 2 && chars[0] == ':' && chars[1] == ' ' {
        return OpenRouterMessage::Comment;
    }
    let json = match parse_json(raw) {
        Ok(v) => v,
        Err(e) => {
            let error = String::from_str("Failed to deserialize stream event: ").concat(
                e.as_str(),
            );
            proof {
                assert(error@.subrange(
                    0,
                    "Failed to deserialize stream event: "@.len() as int,
                ) =~= "Failed to deserialize stream event: "@);
            }
            return OpenRouterMessage::Malformed { error };
        },
    };
    classify_json(&json)
}

/// Classifies one parsed record, as [`spec_classify_rel`] pins it.
fn classify_json(json: &Json) -> (m: OpenRouterMessage)
    ensures
        spec_classify_rel(*json, m),
{
    let typ = match crate::json::get_str(json, "object") {
        Some(t) => t,
        None => {
            return OpenRouterMessage::Malformed {
                error: String::from_str(
                    "Unexpected stream event format, does not have 'object' field",
                ),
            };
        },
    };
    if !crate::strutil::str_eq_str(typ.as_str(), "chat.completion.chunk") {
        return OpenRouterMessage::Ignored;
    }
    let usage = match obj_get(json, "usage") {
        Some(u) => read_usage(u),
        None => None,
    };
    match usage {
        Some(usage) => {
            let created = match crate::json::get_u64(json, "created") {
                Some(c) => c,
                None => 0,
            };
            return OpenRouterMessage::UsageChunk { usage, created };
        },
        None => {},
    }
    let choice = match obj_get(json, "choices") {
        Some(choices) => match choices {
            Json::Array(items) => if items.len() > 0 {
                proof {
                    assert(spec_as_array(spec_obj_get(*json, "choices"@)) == items@);
                }
                Some(&items[0])
            } else {
                proof {
                    assert(spec_as_array(spec_obj_get(*json, "choices"@)).len() == 0);
                }
                None
            },
            _ => {
                proof {
                    assert(spec_as_array(spec_obj_get(*json, "choices"@)) =~= Seq::<Json>::empty());
                }
                None
            },
        },
        None => {
            proof {
                assert(spec_as_array(spec_obj_get(*json, "choices"@)) =~= Seq::<Json>::empty());
            }
            None
        },
    };
    let choice = match choice {
        Some(c) => c,
        None => {
            return OpenRouterMessage::Ignored;
        },
    };
    proof {
        assert(spec_as_array(spec_obj_get(*json, "choices"@)).len() > 0);
        assert(spec_as_array(spec_obj_get(*json, "choices"@))[0] == *choice);
    }
    let finish_reason = match obj_get(choice, "finish_reason") {
        Some(fr) => read_finish_reason(fr),
        None => None,
    };
    match obj_get(choice, "error") {
        Some(err) => {
            let code = match crate::json::get_u64(err, "code") {
                Some(c) => c,
                None => 0,
            };
            let message = match crate::json::get_str(err, "message") {
                Some(s) => s,
                None => String::new(),
            };
            let metadata_json = match obj_get(err, "metadata") {
                Some(meta) => Some(json_to_text(meta)),
                None => None,
            };
            return OpenRouterMessage::ErrorChunk { finish_reason, code, message, metadata_json };
        },
        None => {},
    }
    let delta = obj_get(choice, "delta");
    let content = match delta {
        Some(d) => crate::json::get_str(d, "content"),
        None => None,
    };
    match delta {
        Some(d) => {
            match obj_get(d, "tool_calls") {
                Some(calls_value) => {
                    match calls_value {
                        Json::Array(items) => {
                            proof {
                                assert(spec_as_array(Some(*calls_value)) == items@);
                            }
                            match classify_calls(items) {
                                Some(out) => {
                                    let mm = OpenRouterMessage::ChoiceChunk {
                                        finish_reason,
                                        content,
                                        tool_calls: out,
                                    };
                                    proof {
                                        assert(spec_classify_rel(*json, mm));
                                    }
                                    return mm;
                                },
                                None => {
                                    let mm = OpenRouterMessage::Malformed {
                                        error: String::from_str("Unexpected tool call format"),
                                    };
                                    proof {
                                        assert(spec_classify_rel(*json, mm));
                                    }
                                    return mm;
                                },
                            }
                        },
                        _ => {
                            proof {
                                assert(spec_as_array(Some(*calls_value)) =~= Seq::<Json>::empty());
                            }
                        },
                    }
                },
                None => {},
            }
        },
        None => {},
    }
    OpenRouterMessage::ChoiceChunk { finish_reason, content, tool_calls: Vec::new() }
}

impl crate::chat_stream::LlmChatStreamState for OpenRouterChatStream {
    /// A comment line is recognized from the text itself; otherwise the
    /// payload parses as `json_of` says, its classification pinned by
    /// [`spec_classify_rel`] and driving the exact step relation.
    open spec fn decode_rel(
        pre: OpenRouterChatStream,
        raw: Seq<char>,
        post: OpenRouterChatStream,
        r: Result<Option<StreamEvent>, String>,
    ) -> bool {
        if spec_is_comment(raw) {
            post@ == pre@ && r == Ok::<Option<StreamEvent>, String>(None)
        } else {
            match json_of(raw) {
                Some(j) => exists|m: OpenRouterMessage|
                    #[trigger] openrouter_witness(m) && spec_classify_rel(j, m)
                        && decode_step_rel(pre@, m, post@, r),
                None => post@ == pre@ && (match r {
                    Err(msg) => has_prefix(msg@, "Failed to deserialize stream event: "@),
                    _ => false,
                }),
            }
        }
    }

    fn decode_message(&mut self, raw: &str) -> (r: Result<Option<StreamEvent>, String>) {
        let m = classify_message(raw);
        proof {
            assert(openrouter_witness(m));
        }
        self.decode_parsed(m)
    }
}

/// Builds this provider's continuation prompt for resuming an interrupted
/// response: the retry instruction alone in one system message, the
/// original-question header as a user message, the original messages
/// verbatim, and the partial response under its header as a user message.
pub fn retry_prompt(
    original_messages: &Vec<crate::types::Message>,
    partial_result: &Vec<crate::types::StreamDelta>,
) -> (r: Vec<crate::types::Message>)
    ensures
        crate::durability::is_split_continuation_prompt(
            r@,
            original_messages@,
            partial_result@,
        ),
{
    crate::durability::provider_retry_prompt(original_messages, partial_result)
}

} // verus!
