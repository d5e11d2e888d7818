//! The Anthropic messages API: its wire model, the mapping into the
//! generic vocabulary, and the streaming decoder.
//!
//! The decoder classifies each raw record by its `type` discriminator,
//! accumulates tool-call argument fragments by their block index, buffers
//! stop reason and usage until the final record, and emits one `Finish`
//! when the provider signals the end of the message.

use vstd::prelude::*;
use vstd::string::StringExecFns;

use crate::fragments::{spec_find, FragmentMap, JsonFragment};
use crate::json::{
    json_of, obj_get, parse_json, spec_as_str, spec_as_u64, spec_json_text, spec_obj_get, Json,
};
use crate::strutil::has_prefix;
use crate::types::{ContentPart, ErrorCode, FinishReason, StreamDelta, StreamEvent, ToolCall};

verus! {

/// Metadata attached to a messages request.
#[derive(Debug, Clone, PartialEq, Eq)]
pub struct MessagesRequestMetadata {
    pub user_id: Option<String>,
}

/// Prompt caching control for one content block.
#[derive(Debug, Clone, Copy, PartialEq, Eq)]
pub enum CacheControl {
    Ephemeral,
}

/// Where an image comes from: a URL, or inline base64 data.
#[derive(Debug, Clone, PartialEq, Eq)]
pub enum ImageSource {
    Url { url: String },
    Base64 { data: String, media_type: MediaType },
}

/// The media type of an inline image.
#[derive(Debug, Clone, Copy, PartialEq, Eq)]
pub enum MediaType {
    Jpeg,
    Png,
    Gif,
    Webp,
}

/// How the model may choose tools.  A named tool is `Tool`; `NoTool`
/// forbids tool use (the wire spells it `none`).
#[derive(Debug, Clone, PartialEq, Eq)]
pub enum ToolChoice {
    Auto { disable_parallel_tool_use: Option<bool> },
    Any { disable_parallel_tool_use: Option<bool> },
    Tool { name: String, disable_parallel_tool_use: Option<bool> },
    NoTool,
}

/// Why the model stopped, in the provider's vocabulary.
#[derive(Debug, Clone, Copy, PartialEq, Eq)]
pub enum StopReason {
    EndTurn,
    MaxTokens,
    StopSequence,
    ToolUse,
}

/// Token accounting in the provider's vocabulary.
#[derive(Debug, Clone, Copy, PartialEq, Eq)]
pub struct Usage {
    pub cache_creation_input_tokens: Option<u32>,
    pub cache_read_input_tokens: Option<u32>,
    pub input_tokens: u32,
    pub output_tokens: u32,
}

/// Who authored a wire message.
#[derive(Debug, Clone, Copy, PartialEq, Eq)]
pub enum Role {
    User,
    Assistant,
}

/// The body of a provider error response.
#[derive(Debug, Clone, PartialEq, Eq)]
pub struct ErrorResponseDetails {
    pub message: String,
    pub typ: String,
}

/// One streamed change to a content block: more text, or more of a tool
/// call's argument JSON.
#[derive(Debug, Clone, PartialEq, Eq)]
pub enum ContentBlockDelta {
    TextDelta { text: String },
    InputJsonDelta { partial_json: String },
}

/// One content block of a message.
#[derive(Debug)]
pub enum Content {
    Text { text: String, cache_control: Option<CacheControl> },
    Image { source: ImageSource, cache_control: Option<CacheControl> },
    ToolUse {
        id: String,
        input: Json,
        name: String,
        cache_control: Option<CacheControl>,
    },
    ToolResult {
        tool_use_id: String,
        cache_control: Option<CacheControl>,
        content: Vec<Content>,
        is_error: bool,
    },
}

/// A full, non-streamed messages response.
#[derive(Debug)]
pub struct MessagesResponse {
    pub content: Vec<Content>,
    pub id: String,
    pub model: String,
    pub role: Role,
    pub stop_reason: Option<StopReason>,
    pub usage: Usage,
}

/// Maps the generic tool-choice name onto the provider's vocabulary:
/// `auto`, `none` and `any` select those modes, anything else names a tool.
pub fn convert_tool_choice(tool_name: String) -> (r: ToolChoice)
    ensures
        r == spec_convert_tool_choice(tool_name),
{
    if crate::strutil::str_eq_str(tool_name.as_str(), "auto") {
        ToolChoice::Auto { disable_parallel_tool_use: None }
    } else if crate::strutil::str_eq_str(tool_name.as_str(), "none") {
        ToolChoice::NoTool
    } else if crate::strutil::str_eq_str(tool_name.as_str(), "any") {
        ToolChoice::Any { disable_parallel_tool_use: None }
    } else {
        ToolChoice::Tool { name: tool_name, disable_parallel_tool_use: None }
    }
}

/// Specification of [`convert_tool_choice`].
pub open spec fn spec_convert_tool_choice(tool_name: String) -> ToolChoice {
    if tool_name@ == "auto"@ {
        ToolChoice::Auto { disable_parallel_tool_use: None }
    } else if tool_name@ == "none"@ {
        ToolChoice::NoTool
    } else if tool_name@ == "any"@ {
        ToolChoice::Any { disable_parallel_tool_use: None }
    } else {
        ToolChoice::Tool { name: tool_name, disable_parallel_tool_use: None }
    }
}

/// Maps the provider's stop reason onto the generic vocabulary.
pub fn stop_reason_to_finish_reason(stop_reason: StopReason) -> (r: FinishReason)
    ensures
        r == spec_stop_reason_to_finish_reason(stop_reason),
{
    match stop_reason {
        StopReason::EndTurn => FinishReason::Other,
        StopReason::MaxTokens => FinishReason::Length,
        StopReason::StopSequence => FinishReason::Stop,
        StopReason::ToolUse => FinishReason::ToolCalls,
    }
}

/// Specification of [`stop_reason_to_finish_reason`].
pub open spec fn spec_stop_reason_to_finish_reason(stop_reason: StopReason) -> FinishReason {
    match stop_reason {
        StopReason::EndTurn => FinishReason::Other,
        StopReason::MaxTokens => FinishReason::Length,
        StopReason::StopSequence => FinishReason::Stop,
        StopReason::ToolUse => FinishReason::ToolCalls,
    }
}

/// Maps the provider's token accounting onto the generic one: input and
/// output counts carry over, no total is reported.
pub fn convert_usage(usage: Usage) -> (r: crate::types::Usage)
    ensures
        r == (crate::types::Usage {
            input_tokens: Some(usage.input_tokens),
            output_tokens: Some(usage.output_tokens),
            total_tokens: None::<u32>,
        }),
{
    crate::types::Usage {
        input_tokens: Some(usage.input_tokens),
        output_tokens: Some(usage.output_tokens),
        total_tokens: None,
    }
}

/// True when some content block carries an inline base64 image, which a
/// response cannot hold.
pub open spec fn spec_has_base64(cs: Seq<Content>) -> bool {
    exists|i: int|
        0 <= i < cs.len() && match #[trigger] cs[i] {
            Content::Image { source: ImageSource::Base64 { .. }, .. } => true,
            _ => false,
        }
}

/// The generic content parts of a response's blocks, in order: its texts
/// and URL images; tool blocks contribute nothing here.
pub open spec fn spec_response_parts(cs: Seq<Content>) -> Seq<crate::types::ContentPart>
    decreases cs.len(),
{
    if cs.len() == 0 {
        Seq::empty()
    } else {
        spec_response_parts(cs.drop_last()) + (match cs.last() {
            Content::Text { text, .. } => seq![crate::types::ContentPart::Text(text)],
            Content::Image { source: ImageSource::Url { url }, .. } => seq![
                crate::types::ContentPart::Image(
                    crate::types::ImageUrl { url, detail: None },
                ),
            ],
            _ => Seq::empty(),
        })
    }
}

/// The (id, name, input) triples of a response's tool-use blocks, in order.
pub open spec fn spec_response_tool_heads(cs: Seq<Content>) -> Seq<(String, String, Json)>
    decreases cs.len(),
{
    if cs.len() == 0 {
        Seq::empty()
    } else {
        spec_response_tool_heads(cs.drop_last()) + (match cs.last() {
            Content::ToolUse { id, input, name, .. } => seq![(id, name, input)],
            _ => Seq::empty(),
        })
    }
}

/// Turns a full response into a chat event.  A base64 image makes the
/// whole response unsupported; otherwise the text and image blocks become
/// content parts and the tool-use blocks become tool calls, their argument
/// text the library's own JSON spelling of the block's input; a response
/// without content parts is a tool request, any other carries the mapped
/// stop reason and usage.
pub fn process_response(response: MessagesResponse) -> (r: crate::types::ChatEvent)
    ensures
        ({
            if spec_has_base64(response.content@) {
                match r {
                    crate::types::ChatEvent::Error(e) => e.code
                        == crate::types::ErrorCode::Unsupported && e.message@
                        == "Base64 response images are not supported"@ && e.provider_error_json
                        is None,
                    _ => false,
                }
            } else {
                let parts = spec_response_parts(response.content@);
                let heads = spec_response_tool_heads(response.content@);
                if parts.len() == 0 {
                    match r {
                        crate::types::ChatEvent::ToolRequest(calls) => calls@.len() == heads.len()
                            && forall|i: int|
                            0 <= i < heads.len() ==> (#[trigger] calls@[i]).id == heads[i].0
                                && calls@[i].name == heads[i].1 && calls@[i].arguments_json@
                                == spec_json_text(heads[i].2),
                        _ => false,
                    }
                } else {
                    match r {
                        crate::types::ChatEvent::Message(m) => {
                            &&& m.id == response.id
                            &&& m.content@ == parts
                            &&& m.tool_calls@.len() == heads.len()
                            &&& forall|i: int|
                                0 <= i < heads.len() ==> (#[trigger] m.tool_calls@[i]).id
                                    == heads[i].0 && m.tool_calls@[i].name == heads[i].1
                                    && m.tool_calls@[i].arguments_json@ == spec_json_text(
                                    heads[i].2,
                                )
                            &&& m.metadata.finish_reason == (match response.stop_reason {
                                Some(sr) => Some(spec_stop_reason_to_finish_reason(sr)),
                                None => None::<FinishReason>,
                            })
                            &&& m.metadata.usage == Some(
                                crate::types::Usage {
                                    input_tokens: Some(response.usage.input_tokens),
                                    output_tokens: Some(response.usage.output_tokens),
                                    total_tokens: None::<u32>,
                                },
                            )
                            &&& m.metadata.provider_id is None
                            &&& m.metadata.timestamp is None
                            &&& m.metadata.provider_metadata_json is None
                        },
                        _ => false,
                    }
                }
            }
        }),
{
    let mut contents: Vec<crate::types::ContentPart> = Vec::new();
    let mut tool_calls: Vec<crate::types::ToolCall> = Vec::new();

    let ghost cs = response.content@;
    let mut blocks = response.content;
    let n = blocks.len();
    let mut i: usize = 0;
    while i < n
        invariant
            i <= n,
            n == cs.len(),
            cs == response.content@,
            blocks@ == cs,
            !spec_has_base64(cs.subrange(0, i as int)),
            contents@ == spec_response_parts(cs.subrange(0, i as int)),
            ({
                let heads = spec_response_tool_heads(cs.subrange(0, i as int));
                tool_calls@.len() == heads.len() && forall|j: int|
                    0 <= j < heads.len() ==> (#[trigger] tool_calls@[j]).id == heads[j].0
                        && tool_calls@[j].name == heads[j].1 && tool_calls@[j].arguments_json@
                        == spec_json_text(heads[j].2)
            }),
        decreases n - i,
    {
        proof {
            assert(cs.subrange(0, i + 1).drop_last() =~= cs.subrange(0, i as int));
            assert(cs.subrange(0, i + 1).last() == cs[i as int]);
        }
        match &blocks[i] {
            Content::Text { text, .. } => {
                contents.push(crate::types::ContentPart::Text(text.clone()));
                proof {
                    assert(contents@ =~= spec_response_parts(cs.subrange(0, i + 1)));
                }
            },
            Content::Image { source, .. } => {
                match source {
                    ImageSource::Url { url } => {
                        contents.push(
                            crate::types::ContentPart::Image(
                                crate::types::ImageUrl { url: url.clone(), detail: None },
                            ),
                        );
                        proof {
                            assert(contents@ =~= spec_response_parts(cs.subrange(0, i + 1)));
                        }
                    },
                    ImageSource::Base64 { .. } => {
                        proof {
                            assert(spec_has_base64(cs));
                        }
                        return crate::types::ChatEvent::Error(
                            crate::types::Error {
                                code: crate::types::ErrorCode::Unsupported,
                                message: String::from_str(
                                    "Base64 response images are not supported",
                                ),
                                provider_error_json: None,
                            },
                        );
                    },
                }
            },
            Content::ToolUse { id, input, name, .. } => {
                let arguments_json = crate::json::json_to_text(input);
                tool_calls.push(
                    crate::types::ToolCall {
                        id: id.clone(),
                        name: name.clone(),
                        arguments_json,
                    },
                );
            },
            Content::ToolResult { .. } => {},
        }
        proof {
            assert forall|w: int|
                0 <= w < i + 1 implies !(match #[trigger] cs.subrange(0, i + 1)[w] {
                Content::Image { source: ImageSource::Base64 { .. }, .. } => true,
                _ => false,
            }) by {
                assert(cs.subrange(0, i + 1)[w] == cs[w]);
                if w < i {
                    assert(cs.subrange(0, i as int)[w] == cs[w]);
                }
            }
        }
        i = i + 1;
    }
    proof {
        assert(cs.subrange(0, n as int) =~= cs);
    }

    if contents.len() == 0 {
        crate::types::ChatEvent::ToolRequest(tool_calls)
    } else {
        let metadata = crate::types::ResponseMetadata {
            finish_reason: match response.stop_reason {
                Some(sr) => Some(stop_reason_to_finish_reason(sr)),
                None => None,
            },
            usage: Some(convert_usage(response.usage)),
            provider_id: None,
            timestamp: None,
            provider_metadata_json: None,
        };
        crate::types::ChatEvent::Message(
            crate::types::CompleteResponse {
                id: response.id,
                content: contents,
                tool_calls,
                metadata,
            },
        )
    }
}

/// One raw stream record, classified by its `type` discriminator.
#[derive(Debug)]
pub enum AnthropicMessage {
    /// A provider-reported error with its message.
    ErrorEvent { message: String },
    /// A content block opens; a tool-use block carries its id and name.
    ContentBlockStart { index: u64, tool_use: Option<(String, String)> },
    /// More text for the current text block.
    TextDelta { text: String },
    /// More argument JSON for the tool-use block at `index`.
    InputJsonDelta { index: u64, partial_json: String },
    /// The content block at `index` is complete.
    ContentBlockStop { index: u64 },
    /// Stop reason and token usage for the whole message.
    MessageDelta { stop_reason: Option<StopReason>, usage: Option<Usage> },
    /// The message is complete.
    MessageStop,
    /// A record with an unknown discriminator; ignored.
    Ignored,
    /// A record that does not fit the expected shape; carries the error
    /// reported to the caller.
    Malformed { error: String },
}

/// True when `m` is the malformed class carrying exactly this text.
pub open spec fn is_malformed(m: AnthropicMessage, text: Seq<char>) -> bool {
    match m {
        AnthropicMessage::Malformed { error } => error@ == text,
        _ => false,
    }
}

/// What reading an optional `usage` object yields: both mandatory counters
/// present as unsigned numbers fitting `u32`, else nothing.
pub open spec fn spec_read_usage(o: Option<Json>) -> Option<Usage> {
    match o {
        Some(u) => {
            let inp = spec_as_u64(spec_obj_get(u, "input_tokens"@));
            let out = spec_as_u64(spec_obj_get(u, "output_tokens"@));
            match (inp, out) {
                (Some(i), Some(t)) => if i <= u32::MAX && t <= u32::MAX {
                    Some(
                        Usage {
                            cache_creation_input_tokens: None,
                            cache_read_input_tokens: None,
                            input_tokens: i as u32,
                            output_tokens: t as u32,
                        },
                    )
                } else {
                    None
                },
                _ => None,
            }
        },
        None => None,
    }
}

/// Reads an optional `usage` object.
fn read_usage(v: &Json) -> (r: Option<Usage>)
    ensures
        r == spec_read_usage(Some(*v)),
{
    let input = crate::json::get_u64(v, "input_tokens");
    let output = crate::json::get_u64(v, "output_tokens");
    match (input, output) {
        (Some(i), Some(o)) => {
            if i <= u32::MAX as u64 && o <= u32::MAX as u64 {
                Some(
                    Usage {
                        cache_creation_input_tokens: None,
                        cache_read_input_tokens: None,
                        input_tokens: i as u32,
                        output_tokens: o as u32,
                    },
                )
            } else {
                None
            }
        },
        _ => None,
    }
}

/// What reading an optional `stop_reason` value yields: one of the four
/// known names, else nothing.
pub open spec fn spec_read_stop_reason(o: Option<Json>) -> Option<StopReason> {
    match spec_as_str(o) {
        Some(s) => if s@ == "end_turn"@ {
            Some(StopReason::EndTurn)
        } else if s@ == "max_tokens"@ {
            Some(StopReason::MaxTokens)
        } else if s@ == "stop_sequence"@ {
            Some(StopReason::StopSequence)
        } else if s@ == "tool_use"@ {
            Some(StopReason::ToolUse)
        } else {
            None
        },
        None => None,
    }
}

/// Reads a `stop_reason` value; unknown names are ignored.
fn read_stop_reason(v: &Json) -> (r: Option<StopReason>)
    ensures
        r == spec_read_stop_reason(Some(*v)),
{
    match v {
        Json::Str(s) => {
            if crate::strutil::str_eq_str(s.as_str(), "end_turn") {
                Some(StopReason::EndTurn)
            } else if crate::strutil::str_eq_str(s.as_str(), "max_tokens") {
                Some(StopReason::MaxTokens)
            } else if crate::strutil::str_eq_str(s.as_str(), "stop_sequence") {
                Some(StopReason::StopSequence)
            } else if crate::strutil::str_eq_str(s.as_str(), "tool_use") {
                Some(StopReason::ToolUse)
            } else {
                None
            }
        },
        _ => None,
    }
}

/// How a parsed record must be classified, for every shape of the value:
/// the `type` discriminator picks the class, each class's fields are
/// pinned, and every malformed shape is pinned to its fault text.  The
/// decoder's contract composes this with the step relation, so a decoder
/// that ignored a well-formed record would not verify.
pub open spec fn spec_classify_rel(j: Json, m: AnthropicMessage) -> bool {
    match spec_as_str(spec_obj_get(j, "type"@)) {
        Some(t) => {
            if t@ == "error"@ {
                let message = match spec_obj_get(j, "error"@) {
                    Some(e) => spec_as_str(spec_obj_get(e, "message"@)),
                    None => None,
                };
                match message {
                    Some(msg) => m == (AnthropicMessage::ErrorEvent { message: msg }),
                    None => is_malformed(
                        m,
                        "Failed to deserialize stream event: missing error body"@,
                    ),
                }
            } else if t@ == "content_block_start"@ {
                match spec_as_u64(spec_obj_get(j, "index"@)) {
                    Some(index) => match spec_obj_get(j, "content_block"@) {
                        Some(block) => match spec_as_str(spec_obj_get(block, "type"@)) {
                            Some(bt) => if bt@ == "tool_use"@ {
                                match (
                                    spec_as_str(spec_obj_get(block, "id"@)),
                                    spec_as_str(spec_obj_get(block, "name"@)),
                                ) {
                                    (Some(id), Some(name)) => m
                                        == (AnthropicMessage::ContentBlockStart {
                                        index,
                                        tool_use: Some((id, name)),
                                    }),
                                    _ => is_malformed(
                                        m,
                                        "Failed to deserialize stream event: malformed tool_use block"@,
                                    ),
                                }
                            } else {
                                m == (AnthropicMessage::ContentBlockStart {
                                    index,
                                    tool_use: None,
                                })
                            },
                            None => is_malformed(
                                m,
                                "Failed to deserialize stream event: content block has no type"@,
                            ),
                        },
                        None => is_malformed(
                            m,
                            "Unexpected stream event format, does not have 'content_block' field"@,
                        ),
                    },
                    None => is_malformed(
                        m,
                        "Unexpected stream event format, does not have 'index' field"@,
                    ),
                }
            } else if t@ == "content_block_delta"@ {
                match spec_obj_get(j, "delta"@) {
                    Some(delta) => match spec_as_str(spec_obj_get(delta, "type"@)) {
                        Some(dt) => if dt@ == "text_delta"@ {
                            match spec_as_str(spec_obj_get(delta, "text"@)) {
                                Some(text) => m == (AnthropicMessage::TextDelta { text }),
                                None => is_malformed(
                                    m,
                                    "Failed to deserialize stream event: text delta has no text"@,
                                ),
                            }
                        } else if dt@ == "input_json_delta"@ {
                            match (
                                spec_as_u64(spec_obj_get(j, "index"@)),
                                spec_as_str(spec_obj_get(delta, "partial_json"@)),
                            ) {
                                (Some(index), Some(partial_json)) => m
                                    == (AnthropicMessage::InputJsonDelta { index, partial_json }),
                                (None, _) => is_malformed(
                                    m,
                                    "Unexpected stream event format, does not have 'index' field"@,
                                ),
                                _ => is_malformed(
                                    m,
                                    "Failed to deserialize stream event: malformed input_json_delta"@,
                                ),
                            }
                        } else {
                            is_malformed(
                                m,
                                "Failed to deserialize stream event: unknown delta type"@,
                            )
                        },
                        None => is_malformed(
                            m,
                            "Failed to deserialize stream event: delta has no type"@,
                        ),
                    },
                    None => is_malformed(
                        m,
                        "Unexpected stream event format, does not have 'delta' field"@,
                    ),
                }
            } else if t@ == "content_block_stop"@ {
                match spec_as_u64(spec_obj_get(j, "index"@)) {
                    Some(index) => m == (AnthropicMessage::ContentBlockStop { index }),
                    None => is_malformed(
                        m,
                        "Unexpected stream event format, does not have 'index' field"@,
                    ),
                }
            } else if t@ == "message_delta"@ {
                let stop_reason = match spec_obj_get(j, "delta"@) {
                    Some(d) => spec_read_stop_reason(spec_obj_get(d, "stop_reason"@)),
                    None => None,
                };
                let usage = spec_read_usage(spec_obj_get(j, "usage"@));
                m == (AnthropicMessage::MessageDelta { stop_reason, usage })
            } else if t@ == "message_stop"@ {
                m == AnthropicMessage::MessageStop
            } else {
                m == AnthropicMessage::Ignored
            }
        },
        None => is_malformed(
            m,
            "Unexpected stream event format, does not have 'type' field"@,
        ),
    }
}

/// Classifies one raw stream record: `json_of` names what the payload
/// parses as, and the classification of that value is pinned by
/// [`spec_classify_rel`]; an unparsable payload is malformed, its fault
/// text carrying the parser's own words after the fixed prefix.
pub fn classify_message(raw: &str) -> (m: AnthropicMessage)
    ensures
        match json_of(raw@) {
            Some(j) => spec_classify_rel(j, m),
            None => match m {
                AnthropicMessage::Malformed { error } => has_prefix(
                    error@,
                    "Failed to deserialize stream event: "@,
                ),
                _ => false,
            },
        },
{
    let json = match parse_json(raw) {
        Ok(v) => v,
        Err(e) => {
            let error = String::from_str("Failed to deserialize stream event: ").concat(
                e.as_str(),
            );
            proof {
                assert(error@.subrange(
                    0,
                    "Failed to deserialize stream event: "@.len() as int,
                ) =~= "Failed to deserialize stream event: "@);
            }
            return AnthropicMessage::Malformed { error };
        },
    };
    let typ = match crate::json::get_str(&json, "type") {
        Some(t) => t,
        None => {
            return AnthropicMessage::Malformed {
                error: String::from_str(
                    "Unexpected stream event format, does not have 'type' field",
                ),
            };
        },
    };
    if crate::strutil::str_eq_str(typ.as_str(), "error") {
        let message = match obj_get(&json, "error") {
            Some(e) => crate::json::get_str(e, "message"),
            None => None,
        };
        match message {
            Some(msg) => AnthropicMessage::ErrorEvent { message: msg },
            None => AnthropicMessage::Malformed {
                error: String::from_str("Failed to deserialize stream event: missing error body"),
            },
        }
    } else if crate::strutil::str_eq_str(typ.as_str(), "content_block_start") {
        let index = match crate::json::get_u64(&json, "index") {
            Some(i) => i,
            None => {
                return AnthropicMessage::Malformed {
                    error: String::from_str(
                        "Unexpected stream event format, does not have 'index' field",
                    ),
                };
            },
        };
        let block = match obj_get(&json, "content_block") {
            Some(b) => b,
            None => {
                return AnthropicMessage::Malformed {
                    error: String::from_str(
                        "Unexpected stream event format, does not have 'content_block' field",
                    ),
                };
            },
        };
        match crate::json::get_str(block, "type") {
            Some(bt) => {
                if crate::strutil::str_eq_str(bt.as_str(), "tool_use") {
                    let id = crate::json::get_str(block, "id");
                    let name = crate::json::get_str(block, "name");
                    match (id, name) {
                        (Some(id), Some(name)) => AnthropicMessage::ContentBlockStart {
                            index,
                            tool_use: Some((id, name)),
                        },
                        _ => AnthropicMessage::Malformed {
                            error: String::from_str(
                                "Failed to deserialize stream event: malformed tool_use block",
                            ),
                        },
                    }
                } else {
                    AnthropicMessage::ContentBlockStart { index, tool_use: None }
                }
            },
            None => AnthropicMessage::Malformed {
                error: String::from_str(
                    "Failed to deserialize stream event: content block has no type",
                ),
            },
        }
    } else if crate::strutil::str_eq_str(typ.as_str(), "content_block_delta") {
        let delta = match obj_get(&json, "delta") {
            Some(d) => d,
            None => {
                return AnthropicMessage::Malformed {
                    error: String::from_str(
                        "Unexpected stream event format, does not have 'delta' field",
                    ),
                };
            },
        };
        match crate::json::get_str(delta, "type") {
            Some(dt) => {
                if crate::strutil::str_eq_str(dt.as_str(), "text_delta") {
                    match crate::json::get_str(delta, "text") {
                        Some(text) => AnthropicMessage::TextDelta { text },
                        None => AnthropicMessage::Malformed {
                            error: String::from_str(
                                "Failed to deserialize stream event: text delta has no text",
                            ),
                        },
                    }
                } else if crate::strutil::str_eq_str(dt.as_str(), "input_json_delta") {
                    let index = crate::json::get_u64(&json, "index");
                    let partial = crate::json::get_str(delta, "partial_json");
                    match (index, partial) {
                        (Some(index), Some(partial_json)) => AnthropicMessage::InputJsonDelta {
                            index,
                            partial_json,
                        },
                        (None, _) => AnthropicMessage::Malformed {
                            error: String::from_str(
                                "Unexpected stream event format, does not have 'index' field",
                            ),
                        },
                        _ => AnthropicMessage::Malformed {
                            error: String::from_str(
                                "Failed to deserialize stream event: malformed input_json_delta",
                            ),
                        },
                    }
                } else {
                    AnthropicMessage::Malformed {
                        error: String::from_str(
                            "Failed to deserialize stream event: unknown delta type",
                        ),
                    }
                }
            },
            None => AnthropicMessage::Malformed {
                error: String::from_str("Failed to deserialize stream event: delta has no type"),
            },
        }
    } else if crate::strutil::str_eq_str(typ.as_str(), "content_block_stop") {
        match crate::json::get_u64(&json, "index") {
            Some(index) => AnthropicMessage::ContentBlockStop { index },
            None => AnthropicMessage::Malformed {
                error: String::from_str(
                    "Unexpected stream event format, does not have 'index' field",
                ),
            },
        }
    } else if crate::strutil::str_eq_str(typ.as_str(), "message_delta") {
        let stop_reason = match obj_get(&json, "delta") {
            Some(d) => match obj_get(d, "stop_reason") {
                Some(sr) => read_stop_reason(sr),
                None => None,
            },
            None => None,
        };
        let usage = match obj_get(&json, "usage") {
            Some(u) => read_usage(u),
            None => None,
        };
        AnthropicMessage::MessageDelta { stop_reason, usage }
    } else if crate::strutil::str_eq_str(typ.as_str(), "message_stop") {
        AnthropicMessage::MessageStop
    } else {
        AnthropicMessage::Ignored
    }
}

/// Mathematical image of an [`AnthropicChatStream`].
pub struct AnthropicModel {
    pub fragments: Seq<(u64, JsonFragment)>,
    pub metadata: crate::types::ResponseMetadata,
}

/// The decoder's private accumulation state: tool-call fragments keyed by
/// block index, and the metadata buffered for the final `Finish`.
#[derive(Debug)]
pub struct AnthropicChatStream {
    json_fragments: FragmentMap,
    response_metadata: crate::types::ResponseMetadata,
}

impl View for AnthropicChatStream {
    type V = AnthropicModel;

    closed spec fn view(&self) -> AnthropicModel {
        AnthropicModel { fragments: self.json_fragments@, metadata: self.response_metadata }
    }
}

/// Marks a classified record as a witness for the decoder's contract;
/// always true, used only to steer quantifier instantiation.
pub open spec fn anthropic_witness(m: AnthropicMessage) -> bool {
    true
}

/// What one classified record does to the decoder: the exact new state and
/// result for every class.
pub open spec fn decode_step_rel(
    pre: AnthropicModel,
    m: AnthropicMessage,
    post: AnthropicModel,
    r: Result<Option<StreamEvent>, String>,
) -> bool {
    match m {
        AnthropicMessage::ErrorEvent { message } => post == pre && (match r {
            Ok(Some(StreamEvent::Error(e))) => e.code == ErrorCode::InternalError && e.message
                == message && e.provider_error_json is None,
            _ => false,
        }),
        AnthropicMessage::ContentBlockStart { index, tool_use } => match tool_use {
            Some((id, name)) => {
                &&& post.metadata == pre.metadata
                &&& r == Ok::<Option<StreamEvent>, String>(None)
                &&& ({
                    let i = spec_find(pre.fragments, index);
                    let stored = (post.fragments[if i >= 0 {
                        i
                    } else {
                        post.fragments.len() - 1
                    }]);
                    &&& post.fragments.len() == (if i >= 0 {
                        pre.fragments.len()
                    } else {
                        pre.fragments.len() + 1
                    })
                    &&& forall|j: int|
                        0 <= j < pre.fragments.len() && j != i ==> post.fragments[j]
                            == pre.fragments[j]
                    &&& stored.0 == index
                    &&& stored.1.id == id
                    &&& stored.1.name == name
                    &&& stored.1.json@.len() == 0
                })
            },
            None => post == pre && r == Ok::<Option<StreamEvent>, String>(None),
        },
        AnthropicMessage::TextDelta { text } => post == pre && (match r {
            Ok(Some(StreamEvent::Delta(d))) => (match d.content {
                Some(parts) => parts@ == seq![ContentPart::Text(text)],
                None => false,
            }) && d.tool_calls is None,
            _ => false,
        }),
        AnthropicMessage::InputJsonDelta { index, partial_json } => {
            &&& post.metadata == pre.metadata
            &&& r == Ok::<Option<StreamEvent>, String>(None)
            &&& ({
                let i = spec_find(pre.fragments, index);
                if i >= 0 {
                    &&& post.fragments.len() == pre.fragments.len()
                    &&& forall|j: int|
                        0 <= j < pre.fragments.len() && j != i ==> post.fragments[j]
                            == pre.fragments[j]
                    &&& post.fragments[i].0 == index
                    &&& post.fragments[i].1.id == pre.fragments[i].1.id
                    &&& post.fragments[i].1.name == pre.fragments[i].1.name
                    &&& post.fragments[i].1.json@ == pre.fragments[i].1.json@ + partial_json@
                } else {
                    &&& post.fragments.len() == pre.fragments.len() + 1
                    &&& forall|j: int|
                        0 <= j < pre.fragments.len() ==> post.fragments[j] == pre.fragments[j]
                    &&& post.fragments.last().0 == index
                    &&& post.fragments.last().1.id@.len() == 0
                    &&& post.fragments.last().1.name@.len() == 0
                    &&& post.fragments.last().1.json@ == partial_json@
                }
            })
        },
        AnthropicMessage::ContentBlockStop { index } => {
            let i = spec_find(pre.fragments, index);
            if i >= 0 {
                &&& post.metadata == pre.metadata
                &&& post.fragments == pre.fragments.remove(i)
                &&& (match r {
                    Ok(Some(StreamEvent::Delta(d))) => d.content is None && (match d.tool_calls {
                        Some(calls) => calls@.len() == 1 && calls@[0].id == pre.fragments[i].1.id
                            && calls@[0].name == pre.fragments[i].1.name
                            && calls@[0].arguments_json == pre.fragments[i].1.json,
                        None => false,
                    }),
                    _ => false,
                })
            } else {
                post == pre && r == Ok::<Option<StreamEvent>, String>(None)
            }
        },
        AnthropicMessage::MessageDelta { stop_reason, usage } => {
            &&& post.fragments == pre.fragments
            &&& r == Ok::<Option<StreamEvent>, String>(None)
            &&& post.metadata.finish_reason == (match stop_reason {
                Some(sr) => Some(spec_stop_reason_to_finish_reason(sr)),
                None => pre.metadata.finish_reason,
            })
            &&& post.metadata.usage == (match usage {
                Some(u) => Some(
                    crate::types::Usage {
                        input_tokens: Some(u.input_tokens),
                        output_tokens: Some(u.output_tokens),
                        total_tokens: None::<u32>,
                    },
                ),
                None => pre.metadata.usage,
            })
            &&& post.metadata.provider_id == pre.metadata.provider_id
            &&& post.metadata.timestamp == pre.metadata.timestamp
            &&& post.metadata.provider_metadata_json == pre.metadata.provider_metadata_json
        },
        AnthropicMessage::MessageStop => post == pre && (match r {
            Ok(Some(StreamEvent::Finish(meta))) => meta == pre.metadata,
            _ => false,
        }),
        AnthropicMessage::Ignored => post == pre && r == Ok::<Option<StreamEvent>, String>(None),
        AnthropicMessage::Malformed { error } => post == pre && r == Err::<Option<StreamEvent>, String>(error),
    }
}

impl AnthropicChatStream {
    /// A fresh decoder: no fragments, empty metadata.
    pub fn new() -> (s: AnthropicChatStream)
        ensures
            s@.fragments.len() == 0,
            s@.metadata == (crate::types::ResponseMetadata {
                finish_reason: None::<FinishReason>,
                usage: None::<crate::types::Usage>,
                provider_id: None::<String>,
                timestamp: None::<String>,
                provider_metadata_json: None::<String>,
            }),
    {
        AnthropicChatStream {
            json_fragments: FragmentMap::new(),
            response_metadata: crate::types::ResponseMetadata {
                finish_reason: None,
                usage: None,
                provider_id: None,
                timestamp: None,
                provider_metadata_json: None,
            },
        }
    }

    /// Applies one classified record to the decoder.
    pub fn decode_parsed(&mut self, m: AnthropicMessage) -> (r: Result<Option<StreamEvent>, String>)
        ensures
            decode_step_rel(old(self)@, m, final(self)@, r),
    {
        match m {
            AnthropicMessage::ErrorEvent { message } => Ok(
                Some(
                    StreamEvent::Error(
                        crate::types::Error {
                            code: ErrorCode::InternalError,
                            message,
                            provider_error_json: None,
                        },
                    ),
                ),
            ),
            AnthropicMessage::ContentBlockStart { index, tool_use } => {
                match tool_use {
                    Some((id, name)) => {
                        let ghost pre_frags = self.json_fragments@;
                        let frag = JsonFragment { id, name, json: String::new() };
                        let ghost fragg = frag;
                        self.json_fragments.set(index, frag);
                        proof {
                            let i = spec_find(pre_frags, index);
                            if i >= 0 {
                                assert(self.json_fragments@ == pre_frags.update(i, (index, fragg)));
                                assert(self.json_fragments@.len() == pre_frags.len());
                            } else {
                                assert(self.json_fragments@ == pre_frags.push((index, fragg)));
                                assert(self.json_fragments@.len() == pre_frags.len() + 1);
                            }
                        }
                        Ok(None)
                    },
                    None => Ok(None),
                }
            },
            AnthropicMessage::TextDelta { text } => {
                let mut parts: Vec<ContentPart> = Vec::new();
                parts.push(ContentPart::Text(text));
                Ok(
                    Some(
                        StreamEvent::Delta(
                            StreamDelta { content: Some(parts), tool_calls: None },
                        ),
                    ),
                )
            },
            AnthropicMessage::InputJsonDelta { index, partial_json } => {
                self.json_fragments.append_json(index, partial_json.as_str());
                Ok(None)
            },
            AnthropicMessage::ContentBlockStop { index } => {
                match self.json_fragments.take(index) {
                    Some(fragment) => {
                        let mut calls: Vec<ToolCall> = Vec::new();
                        calls.push(
                            ToolCall {
                                id: fragment.id,
                                name: fragment.name,
                                arguments_json: fragment.json,
                            },
                        );
                        Ok(
                            Some(
                                StreamEvent::Delta(
                                    StreamDelta { content: None, tool_calls: Some(calls) },
                                ),
                            ),
                        )
                    },
                    None => Ok(None),
                }
            },
            AnthropicMessage::MessageDelta { stop_reason, usage } => {
                match stop_reason {
                    Some(sr) => {
                        self.response_metadata.finish_reason = Some(
                            stop_reason_to_finish_reason(sr),
                        );
                    },
                    None => {},
                }
                match usage {
                    Some(u) => {
                        self.response_metadata.usage = Some(convert_usage(u));
                    },
                    None => {},
                }
                Ok(None)
            },
            AnthropicMessage::MessageStop => {
                let meta = self.response_metadata.duplicate();
                Ok(Some(StreamEvent::Finish(meta)))
            },
            AnthropicMessage::Ignored => Ok(None),
            AnthropicMessage::Malformed { error } => Err(error),
        }
    }
}

impl crate::chat_stream::LlmChatStreamState for AnthropicChatStream {
    /// The payload parses as `json_of` says; its classification is pinned
    /// by [`spec_classify_rel`] and drives the exact step relation.
    open spec fn decode_rel(
        pre: AnthropicChatStream,
        raw: Seq<char>,
        post: AnthropicChatStream,
        r: Result<Option<StreamEvent>, String>,
    ) -> bool {
        match json_of(raw) {
            Some(j) => exists|m: AnthropicMessage|
                #[trigger] anthropic_witness(m) && spec_classify_rel(j, m) && decode_step_rel(
                    pre@,
                    m,
                    post@,
                    r,
                ),
            None => post@ == pre@ && (match r {
                Err(msg) => has_prefix(msg@, "Failed to deserialize stream event: "@),
                _ => false,
            }),
        }
    }

    fn decode_message(&mut self, raw: &str) -> (r: Result<Option<StreamEvent>, String>) {
        let m = classify_message(raw);
        proof {
            assert(anthropic_witness(m));
        }
        self.decode_parsed(m)
    }
}

/// Builds this provider's continuation prompt for resuming an interrupted
/// response: the retry instruction alone in one system message, the
/// original-question header as a user message, the original messages
/// verbatim, and the partial response under its header as a user message.
pub fn retry_prompt(
    original_messages: &Vec<crate::types::Message>,
    partial_result: &Vec<crate::types::StreamDelta>,
) -> (r: Vec<crate::types::Message>)
    ensures
        crate::durability::is_split_continuation_prompt(
            r@,
            original_messages@,
            partial_result@,
        ),
{
    crate::durability::provider_retry_prompt(original_messages, partial_result)
}

} // verus!
