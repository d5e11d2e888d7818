//! The provider-agnostic chat data model: messages, configuration, tool
//! calls, stream events and the error vocabulary shared by every provider.

use vstd::prelude::*;

verus! {

/// Who authored a message.
#[derive(Clone, Copy, Debug, PartialEq, Eq)]
pub enum Role {
    User,
    Assistant,
    System,
    Tool,
}

/// Requested level of detail for an image input.
#[derive(Clone, Copy, Debug, PartialEq, Eq)]
pub enum ImageDetail {
    Low,
    High,
    Auto,
}

/// An image referenced by URL.
#[derive(Clone, Debug, PartialEq, Eq)]
pub struct ImageUrl {
    pub url: String,
    pub detail: Option<ImageDetail>,
}

/// One part of a message body: plain text or an image reference.
#[derive(Clone, Debug, PartialEq, Eq)]
pub enum ContentPart {
    Text(String),
    Image(ImageUrl),
}

/// Mathematical image of a [`ContentPart`]: text chars, or an image as its
/// URL chars and detail.
pub enum ContentPartModel {
    Text(Seq<char>),
    Image(Seq<char>, Option<ImageDetail>),
}

impl View for ContentPart {
    type V = ContentPartModel;

    open spec fn view(&self) -> ContentPartModel {
        match self {
            ContentPart::Text(t) => ContentPartModel::Text(t@),
            ContentPart::Image(u) => ContentPartModel::Image(u.url@, u.detail),
        }
    }
}

/// One chat message.
#[derive(Clone, Debug, PartialEq, Eq)]
pub struct Message {
    pub role: Role,
    pub name: Option<String>,
    pub content: Vec<ContentPart>,
}

/// A key-value pair of provider-specific options.
#[derive(Clone, Debug, PartialEq, Eq)]
pub struct Kv {
    pub key: String,
    pub value: String,
}

/// A tool the model may call.
#[derive(Clone, Debug, PartialEq, Eq)]
pub struct ToolDefinition {
    pub name: String,
    pub description: Option<String>,
    pub parameters_schema: String,
}

/// Request configuration shared by all providers.
#[derive(Clone, Debug, PartialEq, Eq)]
pub struct Config {
    pub model: String,
    pub max_tokens: Option<u32>,
    pub stop_sequences: Option<Vec<String>>,
    pub tools: Vec<ToolDefinition>,
    pub tool_choice: Option<String>,
    pub provider_options: Vec<Kv>,
}

/// A completed tool invocation requested by the model.
#[derive(Clone, Debug, PartialEq, Eq)]
pub struct ToolCall {
    pub id: String,
    pub name: String,
    pub arguments_json: String,
}

/// A successful tool execution result handed back to the model.
#[derive(Clone, Debug, PartialEq, Eq)]
pub struct ToolSuccess {
    pub id: String,
    pub name: String,
    pub result_json: String,
    pub execution_time_ms: Option<u32>,
}

/// A failed tool execution result handed back to the model.
#[derive(Clone, Debug, PartialEq, Eq)]
pub struct ToolFailure {
    pub id: String,
    pub name: String,
    pub error_message: String,
    pub error_code: Option<String>,
}

/// Outcome of one tool invocation.
#[derive(Clone, Debug, PartialEq, Eq)]
pub enum ToolResult {
    Success(ToolSuccess),
    Error(ToolFailure),
}

/// Token accounting reported by a provider.
#[derive(Clone, Copy, Debug, PartialEq, Eq)]
pub struct Usage {
    pub input_tokens: Option<u32>,
    pub output_tokens: Option<u32>,
    pub total_tokens: Option<u32>,
}

/// Why a response stopped, in provider-agnostic vocabulary.
#[derive(Clone, Copy, Debug, PartialEq, Eq)]
pub enum FinishReason {
    Stop,
    Length,
    ToolCalls,
    ContentFilter,
    Error,
    Other,
}

/// Metadata attached to the end of a response.
#[derive(Clone, Debug, PartialEq, Eq)]
pub struct ResponseMetadata {
    pub finish_reason: Option<FinishReason>,
    pub usage: Option<Usage>,
    pub provider_id: Option<String>,
    pub timestamp: Option<String>,
    pub provider_metadata_json: Option<String>,
}

/// A full, non-streamed model response.
#[derive(Clone, Debug, PartialEq, Eq)]
pub struct CompleteResponse {
    pub id: String,
    pub content: Vec<ContentPart>,
    pub tool_calls: Vec<ToolCall>,
    pub metadata: ResponseMetadata,
}

/// Machine-readable classification of an error.
#[derive(Clone, Copy, Debug, PartialEq, Eq)]
pub enum ErrorCode {
    InvalidRequest,
    AuthenticationFailed,
    RateLimitExceeded,
    InternalError,
    Unsupported,
    Unknown,
}

/// An error surfaced to the caller as data.
#[derive(Clone, Debug, PartialEq, Eq)]
pub struct Error {
    pub code: ErrorCode,
    pub message: String,
    pub provider_error_json: Option<String>,
}

/// Result of a non-streaming chat call.
#[derive(Clone, Debug, PartialEq, Eq)]
pub enum ChatEvent {
    Message(CompleteResponse),
    ToolRequest(Vec<ToolCall>),
    Error(Error),
}

/// One incremental fragment of a streamed response.
#[derive(Clone, Debug, PartialEq, Eq)]
pub struct StreamDelta {
    pub content: Option<Vec<ContentPart>>,
    pub tool_calls: Option<Vec<ToolCall>>,
}

/// One event of a streamed response: an increment, the terminal metadata,
/// or a terminal error.
#[derive(Clone, Debug, PartialEq, Eq)]
pub enum StreamEvent {
    Delta(StreamDelta),
    Finish(ResponseMetadata),
    Error(Error),
}

impl StreamEvent {
    /// True for the events that end a stream: `Finish` and `Error`.
    pub open spec fn is_terminal(self) -> bool {
        !(self is Delta)
    }
}

/// Message equality up to vector identity: same role, name and content.
pub open spec fn message_like(a: Message, b: Message) -> bool {
    a.role == b.role && a.name == b.name && a.content@ == b.content@
}

/// Equality of optional content-part lists by their elements.
pub open spec fn opt_parts_like(a: Option<Vec<ContentPart>>, b: Option<Vec<ContentPart>>) -> bool {
    match (a, b) {
        (Some(x), Some(y)) => x@ == y@,
        (None, None) => true,
        _ => false,
    }
}

/// Equality of optional tool-call lists by their elements.
pub open spec fn opt_calls_like(a: Option<Vec<ToolCall>>, b: Option<Vec<ToolCall>>) -> bool {
    match (a, b) {
        (Some(x), Some(y)) => x@ == y@,
        (None, None) => true,
        _ => false,
    }
}

/// Delta equality up to vector identity.
pub open spec fn delta_like(a: StreamDelta, b: StreamDelta) -> bool {
    opt_parts_like(a.content, b.content) && opt_calls_like(a.tool_calls, b.tool_calls)
}

/// Complete-response equality up to vector identity.
pub open spec fn response_like(a: CompleteResponse, b: CompleteResponse) -> bool {
    a.id == b.id && a.content@ == b.content@ && a.tool_calls@ == b.tool_calls@ && a.metadata
        == b.metadata
}

/// Chat-event equality up to vector identity.
pub open spec fn chat_event_like(a: ChatEvent, b: ChatEvent) -> bool {
    match (a, b) {
        (ChatEvent::Message(x), ChatEvent::Message(y)) => response_like(x, y),
        (ChatEvent::ToolRequest(x), ChatEvent::ToolRequest(y)) => x@ == y@,
        (ChatEvent::Error(x), ChatEvent::Error(y)) => x == y,
        _ => false,
    }
}

/// Stream-event equality up to vector identity.
pub open spec fn stream_event_like(a: StreamEvent, b: StreamEvent) -> bool {
    match (a, b) {
        (StreamEvent::Delta(x), StreamEvent::Delta(y)) => delta_like(x, y),
        (StreamEvent::Finish(x), StreamEvent::Finish(y)) => x == y,
        (StreamEvent::Error(x), StreamEvent::Error(y)) => x == y,
        _ => false,
    }
}

/// Event-list equality up to vector identity, element by element.
pub open spec fn events_like(a: Seq<StreamEvent>, b: Seq<StreamEvent>) -> bool {
    a.len() == b.len() && forall|i: int|
        0 <= i < a.len() ==> stream_event_like(#[trigger] a[i], b[i])
}

impl Error {
    /// A field-by-field copy equal to `self`.
    pub fn duplicate(&self) -> (r: Error)
        ensures
            r == *self,
    {
        Error {
            code: self.code,
            message: self.message.clone(),
            provider_error_json: duplicate_opt_string(&self.provider_error_json),
        }
    }
}

impl ImageUrl {
    /// A field-by-field copy equal to `self`.
    pub fn duplicate(&self) -> (r: ImageUrl)
        ensures
            r == *self,
    {
        ImageUrl { url: self.url.clone(), detail: self.detail }
    }
}

impl ContentPart {
    /// A field-by-field copy equal to `self`.
    pub fn duplicate(&self) -> (r: ContentPart)
        ensures
            r == *self,
    {
        match self {
            ContentPart::Text(t) => ContentPart::Text(t.clone()),
            ContentPart::Image(u) => ContentPart::Image(u.duplicate()),
        }
    }
}

/// A copy of an optional string, equal to the original.
pub fn duplicate_opt_string(s: &Option<String>) -> (r: Option<String>)
    ensures
        r == *s,
{
    match s {
        Some(v) => Some(v.clone()),
        None => None,
    }
}

/// A copy of a vector of content parts, with the same elements.
pub fn duplicate_parts(v: &Vec<ContentPart>) -> (r: Vec<ContentPart>)
    ensures
        r@ == v@,
{
    let mut out: Vec<ContentPart> = Vec::new();
    let n = v.len();
    let mut i: usize = 0;
    while i < n
        invariant
            i <= n,
            n == v@.len(),
            out@ == v@.subrange(0, i as int),
        decreases n - i,
    {
        out.push(v[i].duplicate());
        i = i + 1;
        proof {
            assert(out@ =~= v@.subrange(0, i as int));
        }
    }
    proof {
        assert(out@ =~= v@);
    }
    out
}

impl Message {
    /// A field-by-field copy with the same role, name and content.
    pub fn duplicate(&self) -> (r: Message)
        ensures
            message_like(r, *self),
    {
        Message {
            role: self.role,
            name: duplicate_opt_string(&self.name),
            content: duplicate_parts(&self.content),
        }
    }
}

impl ToolCall {
    /// A field-by-field copy equal to `self`.
    pub fn duplicate(&self) -> (r: ToolCall)
        ensures
            r == *self,
    {
        ToolCall {
            id: self.id.clone(),
            name: self.name.clone(),
            arguments_json: self.arguments_json.clone(),
        }
    }
}

/// A copy of a vector of tool calls, with the same elements.
pub fn duplicate_tool_calls(v: &Vec<ToolCall>) -> (r: Vec<ToolCall>)
    ensures
        r@ == v@,
{
    let mut out: Vec<ToolCall> = Vec::new();
    let n = v.len();
    let mut i: usize = 0;
    while i < n
        invariant
            i <= n,
            n == v@.len(),
            out@ == v@.subrange(0, i as int),
        decreases n - i,
    {
        out.push(v[i].duplicate());
        i = i + 1;
        proof {
            assert(out@ =~= v@.subrange(0, i as int));
        }
    }
    proof {
        assert(out@ =~= v@);
    }
    out
}

impl ResponseMetadata {
    /// A field-by-field copy equal to `self`.
    pub fn duplicate(&self) -> (r: ResponseMetadata)
        ensures
            r == *self,
    {
        ResponseMetadata {
            finish_reason: self.finish_reason,
            usage: self.usage,
            provider_id: duplicate_opt_string(&self.provider_id),
            timestamp: duplicate_opt_string(&self.timestamp),
            provider_metadata_json: duplicate_opt_string(&self.provider_metadata_json),
        }
    }
}

impl StreamDelta {
    /// A field-by-field copy with the same content and tool calls.
    pub fn duplicate(&self) -> (r: StreamDelta)
        ensures
            delta_like(r, *self),
    {
        StreamDelta {
            content: match &self.content {
                Some(parts) => Some(duplicate_parts(parts)),
                None => None,
            },
            tool_calls: match &self.tool_calls {
                Some(calls) => Some(duplicate_tool_calls(calls)),
                None => None,
            },
        }
    }
}

impl CompleteResponse {
    /// A field-by-field copy with the same id, content, tool calls and metadata.
    pub fn duplicate(&self) -> (r: CompleteResponse)
        ensures
            response_like(r, *self),
    {
        CompleteResponse {
            id: self.id.clone(),
            content: duplicate_parts(&self.content),
            tool_calls: duplicate_tool_calls(&self.tool_calls),
            metadata: self.metadata.duplicate(),
        }
    }
}

impl ChatEvent {
    /// A field-by-field copy carrying the same event.
    pub fn duplicate(&self) -> (r: ChatEvent)
        ensures
            chat_event_like(r, *self),
    {
        match self {
            ChatEvent::Message(m) => ChatEvent::Message(m.duplicate()),
            ChatEvent::ToolRequest(calls) => ChatEvent::ToolRequest(duplicate_tool_calls(calls)),
            ChatEvent::Error(e) => ChatEvent::Error(e.duplicate()),
        }
    }
}

impl StreamEvent {
    /// A field-by-field copy carrying the same event.
    pub fn duplicate(&self) -> (r: StreamEvent)
        ensures
            stream_event_like(r, *self),
    {
        match self {
            StreamEvent::Delta(d) => StreamEvent::Delta(d.duplicate()),
            StreamEvent::Finish(m) => StreamEvent::Finish(m.duplicate()),
            StreamEvent::Error(e) => StreamEvent::Error(e.duplicate()),
        }
    }
}

/// A copy of a vector of stream events, event-like the original.
pub fn duplicate_stream_events(v: &Vec<StreamEvent>) -> (r: Vec<StreamEvent>)
    ensures
        events_like(r@, v@),
{
    let mut out: Vec<StreamEvent> = Vec::new();
    let n = v.len();
    let mut i: usize = 0;
    while i < n
        invariant
            i <= n,
            n == v@.len(),
            out@.len() == i,
            forall|j: int| 0 <= j < i ==> stream_event_like(#[trigger] out@[j], v@[j]),
        decreases n - i,
    {
        out.push(v[i].duplicate());
        i = i + 1;
    }
    out
}

/// Result of a non-blocking poll: a value, or nothing yet.
#[derive(Clone, Debug, PartialEq, Eq)]
pub enum Poll<T> {
    Ready(T),
    Pending,
}

/// Classifies an HTTP status code the way every provider client does:
/// 429 is a rate limit, 401/402/403 are authentication failures, any other
/// client error is an invalid request, and everything else is internal.
pub fn error_code_from_status(status: u16) -> (code: ErrorCode)
    ensures
        code == spec_error_code_from_status(status),
{
    if status == 429 {
        ErrorCode::RateLimitExceeded
    } else if status == 401 || status == 402 || status == 403 {
        ErrorCode::AuthenticationFailed
    } else if 400 <= status && status <= 499 {
        ErrorCode::InvalidRequest
    } else {
        ErrorCode::InternalError
    }
}

/// Specification of [`error_code_from_status`].
pub open spec fn spec_error_code_from_status(status: u16) -> ErrorCode {
    if status == 429 {
        ErrorCode::RateLimitExceeded
    } else if status == 401 || status == 402 || status == 403 {
        ErrorCode::AuthenticationFailed
    } else if 400 <= status <= 499 {
        ErrorCode::InvalidRequest
    } else {
        ErrorCode::InternalError
    }
}

} // verus!
