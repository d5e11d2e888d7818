//! The durable wrapper: a recorded call ledger deciding live-versus-replay
//! execution, the replayable chat stream state machine, and the
//! continuation prompt that resumes an interrupted response.

use vstd::prelude::*;
use vstd::string::StringExecFns;

use crate::chat_stream::{chat_stream_wf, ChatStreamModel, LlmChatStream, LlmChatStreamState};
use crate::types::{
    chat_event_like, delta_like, duplicate_stream_events, events_like, message_like, ChatEvent,
    Config, ContentPart, ContentPartModel, Message, Role, StreamDelta, StreamEvent, ToolCall,
    ToolResult,
};
use crate::utf8_stream::ReadResult;

verus! {

/// The instruction prepended to a continuation prompt.
pub open spec fn retry_instruction() -> Seq<char> {
    "You were asked the same question previously, but the response was interrupted before completion. Please continue your response from where you left off. Do not include the part of the response that was already seen."@
}

/// The header echoed before the original messages.
pub open spec fn original_header() -> Seq<char> {
    "Here is the original question:"@
}

/// The header echoed before the partial response.
pub open spec fn partial_header() -> Seq<char> {
    "Here is the partial response that was successfully received:"@
}

/// The inline placeholder a delta's tool call is serialized to.
pub open spec fn spec_tool_placeholder(t: ToolCall) -> Seq<char> {
    "<tool-call id=\""@ + t.id@ + "\" name=\""@ + t.name@ + "\" arguments=\""@
        + t.arguments_json@ + "\"/>"@
}

/// The views of a list of content parts.
pub open spec fn parts_view(s: Seq<ContentPart>) -> Seq<ContentPartModel> {
    s.map_values(|p: ContentPart| p@)
}

/// The placeholder texts of a list of tool calls.
pub open spec fn placeholders_view(ts: Seq<ToolCall>) -> Seq<ContentPartModel> {
    ts.map_values(|t: ToolCall| ContentPartModel::Text(spec_tool_placeholder(t)))
}

/// What one delta contributes to the flattened partial response: its text
/// and image parts in order, then one placeholder per tool call.
pub open spec fn spec_delta_parts(d: StreamDelta) -> Seq<ContentPartModel> {
    (match d.content {
        Some(c) => parts_view(c@),
        None => Seq::empty(),
    }) + (match d.tool_calls {
        Some(ts) => placeholders_view(ts@),
        None => Seq::empty(),
    })
}

/// The flattened partial response: every delta's contribution, in order.
pub open spec fn spec_partial_parts(ds: Seq<StreamDelta>) -> Seq<ContentPartModel>
    decreases ds.len(),
{
    if ds.len() == 0 {
        Seq::empty()
    } else {
        spec_partial_parts(ds.drop_last()) + spec_delta_parts(ds.last())
    }
}

proof fn lemma_parts_view_push(s: Seq<ContentPart>, x: ContentPart)
    ensures
        parts_view(s.push(x)) =~= parts_view(s).push(x@),
{
}

proof fn lemma_placeholders_view_push(s: Seq<ToolCall>, x: ToolCall)
    ensures
        placeholders_view(s.push(x)) =~= placeholders_view(s).push(
            ContentPartModel::Text(spec_tool_placeholder(x)),
        ),
{
}

/// What a continuation prompt is: one system message carrying the retry
/// instruction and the original-question header, the original messages
/// echoed verbatim, and one system message carrying the partial-response
/// header followed by the flattened partial response.
pub open spec fn is_continuation_prompt(
    r: Seq<Message>,
    originals: Seq<Message>,
    partial: Seq<StreamDelta>,
) -> bool {
    &&& r.len() == originals.len() + 2
    &&& r[0].role == Role::System
    &&& r[0].name is None
    &&& parts_view(r[0].content@) == seq![
        ContentPartModel::Text(retry_instruction()),
        ContentPartModel::Text(original_header()),
    ]
    &&& forall|i: int|
        0 <= i < originals.len() ==> message_like(#[trigger] r[i + 1], originals[i])
    &&& r[r.len() - 1].role == Role::System
    &&& r[r.len() - 1].name is None
    &&& parts_view(r[r.len() - 1].content@) == seq![ContentPartModel::Text(partial_header())]
        + spec_partial_parts(partial)
}

/// Builds the partial-response section: the header, then every recorded
/// delta's content, text first and tool-call placeholders after, in order.
fn partial_section(partial_result: &Vec<StreamDelta>) -> (r: Vec<ContentPart>)
    ensures
        parts_view(r@) == seq![ContentPartModel::Text(partial_header())] + spec_partial_parts(
            partial_result@,
        ),
{
    let mut partial: Vec<ContentPart> = Vec::new();
    partial.push(
        ContentPart::Text(
            String::from_str("Here is the partial response that was successfully received:"),
        ),
    );
    let ghost header_parts = parts_view(partial@);
    proof {
        assert(header_parts =~= seq![ContentPartModel::Text(partial_header())]);
    }
    let m = partial_result.len();
    let mut j: usize = 0;
    while j < m
        invariant
            j <= m,
            m == partial_result@.len(),
            parts_view(partial@) == seq![ContentPartModel::Text(partial_header())]
                + spec_partial_parts(partial_result@.subrange(0, j as int)),
        decreases m - j,
    {
        let ghost pre = partial_result@.subrange(0, j as int);
        let delta = &partial_result[j];
        match &delta.content {
            Some(parts) => {
                let pn = parts.len();
                let mut k: usize = 0;
                while k < pn
                    invariant
                        k <= pn,
                        pn == parts@.len(),
                        parts_view(partial@) == seq![ContentPartModel::Text(partial_header())]
                            + spec_partial_parts(pre) + parts_view(parts@.subrange(0, k as int)),
                    decreases pn - k,
                {
                    let ghost before = partial@;
                    let p = parts[k].duplicate();
                    partial.push(p);
                    proof {
                        lemma_parts_view_push(before, p);
                        assert(parts@.subrange(0, k + 1) =~= parts@.subrange(0, k as int).push(
                            parts@[k as int],
                        ));
                        lemma_parts_view_push(parts@.subrange(0, k as int), parts@[k as int]);
                        assert(parts_view(partial@) =~= seq![
                            ContentPartModel::Text(partial_header()),
                        ] + spec_partial_parts(pre) + parts_view(parts@.subrange(0, k + 1)));
                    }
                    k = k + 1;
                }
            },
            None => {},
        }
        match &delta.tool_calls {
            Some(calls) => {
                let cn = calls.len();
                let mut k: usize = 0;
                while k < cn
                    invariant
                        k <= cn,
                        cn == calls@.len(),
                        parts_view(partial@) == seq![ContentPartModel::Text(partial_header())]
                            + spec_partial_parts(pre) + (match partial_result@[j as int].content {
                            Some(c) => parts_view(c@),
                            None => Seq::empty(),
                        }) + placeholders_view(calls@.subrange(0, k as int)),
                    decreases cn - k,
                {
                    let t = &calls[k];
                    let s = String::from_str("<tool-call id=\"").concat(t.id.as_str()).concat(
                        "\" name=\"",
                    ).concat(t.name.as_str()).concat("\" arguments=\"").concat(
                        t.arguments_json.as_str(),
                    ).concat("\"/>");
                    proof {
                        assert(s@ =~= spec_tool_placeholder(calls@[k as int]));
                    }
                    let ghost before = partial@;
                    let part = ContentPart::Text(s);
                    partial.push(part);
                    proof {
                        lemma_parts_view_push(before, part);
                        assert(part@ == ContentPartModel::Text(
                            spec_tool_placeholder(calls@[k as int]),
                        ));
                        assert(calls@.subrange(0, k + 1) =~= calls@.subrange(0, k as int).push(
                            calls@[k as int],
                        ));
                        lemma_placeholders_view_push(calls@.subrange(0, k as int), calls@[k as int]);
                        assert(parts_view(partial@) =~= seq![
                            ContentPartModel::Text(partial_header()),
                        ] + spec_partial_parts(pre) + (match partial_result@[j as int].content {
                            Some(c) => parts_view(c@),
                            None => Seq::<ContentPartModel>::empty(),
                        }) + placeholders_view(calls@.subrange(0, k + 1)));
                    }
                    k = k + 1;
                }
            },
            None => {},
        }
        j = j + 1;
        proof {
            assert(partial_result@.subrange(0, j as int).drop_last() =~= pre);
            assert(partial_result@.subrange(0, j as int).last() == partial_result@[j - 1]);
            assert(parts_view(partial@) =~= seq![ContentPartModel::Text(partial_header())]
                + spec_partial_parts(partial_result@.subrange(0, j as int)));
        }
    }
    proof {
        assert(partial_result@.subrange(0, m as int) =~= partial_result@);
    }
    partial
}

/// Builds the continuation prompt that resumes an interrupted response:
/// one system message with the retry instruction and the original-question
/// header, the original messages verbatim, and one system message with the
/// partial-response header followed by the recorded deltas' content, text
/// first and tool-call placeholders after, delta by delta in order.
pub fn retry_prompt(original_messages: &Vec<Message>, partial_result: &Vec<StreamDelta>) -> (r:
    Vec<Message>)
    ensures
        is_continuation_prompt(r@, original_messages@, partial_result@),
{
    let mut extended: Vec<Message> = Vec::new();
    let mut intro: Vec<ContentPart> = Vec::new();
    intro.push(
        ContentPart::Text(
            String::from_str(
                "You were asked the same question previously, but the response was interrupted before completion. Please continue your response from where you left off. Do not include the part of the response that was already seen.",
            ),
        ),
    );
    intro.push(ContentPart::Text(String::from_str("Here is the original question:")));
    proof {
        assert(parts_view(intro@) =~= seq![
            ContentPartModel::Text(retry_instruction()),
            ContentPartModel::Text(original_header()),
        ]);
    }
    extended.push(Message { role: Role::System, name: None, content: intro });

    let n = original_messages.len();
    let mut i: usize = 0;
    while i < n
        invariant
            i <= n,
            n == original_messages@.len(),
            extended@.len() == i + 1,
            extended@[0].role == Role::System,
            extended@[0].name is None,
            parts_view(extended@[0].content@) == seq![
                ContentPartModel::Text(retry_instruction()),
                ContentPartModel::Text(original_header()),
            ],
            forall|k: int|
                0 <= k < i ==> message_like(#[trigger] extended@[k + 1], original_messages@[k]),
        decreases n - i,
    {
        extended.push(original_messages[i].duplicate());
        i = i + 1;
    }

    let partial = partial_section(partial_result);
    extended.push(Message { role: Role::System, name: None, content: partial });
    extended
}

/// What the provider modules' continuation prompt is: the retry
/// instruction alone in one system message, the original-question header
/// as a user message, the original messages echoed verbatim, and one user
/// message carrying the partial-response header followed by the flattened
/// partial response.
pub open spec fn is_split_continuation_prompt(
    r: Seq<Message>,
    originals: Seq<Message>,
    partial: Seq<StreamDelta>,
) -> bool {
    &&& r.len() == originals.len() + 3
    &&& r[0].role == Role::System
    &&& r[0].name is None
    &&& parts_view(r[0].content@) == seq![ContentPartModel::Text(retry_instruction())]
    &&& r[1].role == Role::User
    &&& r[1].name is None
    &&& parts_view(r[1].content@) == seq![ContentPartModel::Text(original_header())]
    &&& forall|i: int|
        0 <= i < originals.len() ==> message_like(#[trigger] r[i + 2], originals[i])
    &&& r[r.len() - 1].role == Role::User
    &&& r[r.len() - 1].name is None
    &&& parts_view(r[r.len() - 1].content@) == seq![ContentPartModel::Text(partial_header())]
        + spec_partial_parts(partial)
}

/// Builds the continuation prompt in the form the provider modules use:
/// as [`is_split_continuation_prompt`] says, with the headers standing in
/// user messages of their own.
pub fn provider_retry_prompt(
    original_messages: &Vec<Message>,
    partial_result: &Vec<StreamDelta>,
) -> (r: Vec<Message>)
    ensures
        is_split_continuation_prompt(r@, original_messages@, partial_result@),
{
    let mut extended: Vec<Message> = Vec::new();
    let mut intro: Vec<ContentPart> = Vec::new();
    intro.push(
        ContentPart::Text(
            String::from_str(
                "You were asked the same question previously, but the response was interrupted before completion. Please continue your response from where you left off. Do not include the part of the response that was already seen.",
            ),
        ),
    );
    proof {
        assert(parts_view(intro@) =~= seq![ContentPartModel::Text(retry_instruction())]);
    }
    extended.push(Message { role: Role::System, name: None, content: intro });

    let mut ask: Vec<ContentPart> = Vec::new();
    ask.push(ContentPart::Text(String::from_str("Here is the original question:")));
    proof {
        assert(parts_view(ask@) =~= seq![ContentPartModel::Text(original_header())]);
    }
    extended.push(Message { role: Role::User, name: None, content: ask });

    let n = original_messages.len();
    let mut i: usize = 0;
    while i < n
        invariant
            i <= n,
            n == original_messages@.len(),
            extended@.len() == i + 2,
            extended@[0].role == Role::System,
            extended@[0].name is None,
            parts_view(extended@[0].content@) == seq![
                ContentPartModel::Text(retry_instruction()),
            ],
            extended@[1].role == Role::User,
            extended@[1].name is None,
            parts_view(extended@[1].content@) == seq![ContentPartModel::Text(original_header())],
            forall|k: int|
                0 <= k < i ==> message_like(#[trigger] extended@[k + 2], original_messages@[k]),
        decreases n - i,
    {
        extended.push(original_messages[i].duplicate());
        i = i + 1;
    }

    let partial = partial_section(partial_result);
    extended.push(Message { role: Role::User, name: None, content: partial });
    extended
}

/// The text spelled by a list of content parts: the text parts
/// concatenated in order, image parts contributing nothing.
pub open spec fn model_parts_text(ps: Seq<ContentPartModel>) -> Seq<char>
    decreases ps.len(),
{
    if ps.len() == 0 {
        Seq::empty()
    } else {
        model_parts_text(ps.drop_last()) + (match ps.last() {
            ContentPartModel::Text(t) => t,
            ContentPartModel::Image(_, _) => Seq::empty(),
        })
    }
}

/// The concatenated text content of a list of deltas, in order.
pub open spec fn spec_deltas_text(ds: Seq<StreamDelta>) -> Seq<char>
    decreases ds.len(),
{
    if ds.len() == 0 {
        Seq::empty()
    } else {
        spec_deltas_text(ds.drop_last()) + (match ds.last().content {
            Some(c) => model_parts_text(parts_view(c@)),
            None => Seq::empty(),
        })
    }
}

proof fn lemma_parts_text_concat(a: Seq<ContentPartModel>, b: Seq<ContentPartModel>)
    ensures
        model_parts_text(a + b) == model_parts_text(a) + model_parts_text(b),
    decreases b.len(),
{
    if b.len() == 0 {
        assert(a + b =~= a);
        assert(model_parts_text(a) + model_parts_text(b) =~= model_parts_text(a));
    } else {
        lemma_parts_text_concat(a, b.drop_last());
        assert((a + b).drop_last() =~= a + b.drop_last());
        assert((a + b).last() == b.last());
        assert(model_parts_text(a) + model_parts_text(b) =~= model_parts_text(a) + (
        model_parts_text(b.drop_last()) + (match b.last() {
            ContentPartModel::Text(t) => t,
            ContentPartModel::Image(_, _) => Seq::<char>::empty(),
        })));
    }
}

/// The text echoed in the continuation prompt's partial-response section
/// is exactly the concatenation of the recorded deltas' text content, in
/// order, for deltas that carry no tool calls (a tool call adds its
/// placeholder after the delta's text).
pub proof fn lemma_echo_is_partial_text(ds: Seq<StreamDelta>)
    requires
        forall|i: int| 0 <= i < ds.len() ==> (#[trigger] ds[i]).tool_calls is None,
    ensures
        model_parts_text(spec_partial_parts(ds)) == spec_deltas_text(ds),
    decreases ds.len(),
{
    if ds.len() > 0 {
        let pre = ds.drop_last();
        let d = ds.last();
        assert(forall|i: int| 0 <= i < pre.len() ==> (#[trigger] pre[i]).tool_calls is None);
        lemma_echo_is_partial_text(pre);
        lemma_parts_text_concat(spec_partial_parts(pre), spec_delta_parts(d));
        assert(ds[ds.len() - 1].tool_calls is None);
        let content_parts = match d.content {
            Some(c) => parts_view(c@),
            None => Seq::<ContentPartModel>::empty(),
        };
        assert(spec_delta_parts(d) =~= content_parts);
        if d.content is None {
            assert(model_parts_text(content_parts) =~= Seq::<char>::empty());
        }
    }
}

/// The input recorded for a `send` or `stream` call.
#[derive(Debug, PartialEq, Eq)]
pub struct SendInput {
    pub messages: Vec<Message>,
    pub config: Config,
}

/// One recorded call: its kind, input and output.
#[derive(Debug, PartialEq, Eq)]
pub enum LedgerEntry {
    /// A completed `send` call.
    Send { input: SendInput, output: ChatEvent },
    /// A completed `continue` call.
    Continue {
        messages: Vec<Message>,
        tool_results: Vec<(ToolCall, ToolResult)>,
        config: Config,
        output: ChatEvent,
    },
    /// A started `stream` call.
    Stream { input: SendInput },
    /// One `get_next` poll of a stream and what it returned.
    GetNext { output: Option<Vec<StreamEvent>> },
}

/// Mathematical image of a [`Ledger`]: the recorded entries and how many
/// of them have been replayed.
pub struct LedgerModel {
    pub entries: Seq<LedgerEntry>,
    pub pos: nat,
}

/// True when the ledger has been replayed to its end, so execution is
/// live: calls are performed for real and recorded.
pub open spec fn spec_ledger_live(l: LedgerModel) -> bool {
    l.pos >= l.entries.len()
}

/// What replaying one entry does: hand out the entry under the cursor and
/// advance, or nothing at the end.
pub open spec fn spec_replay_step(l: LedgerModel) -> (LedgerModel, Option<LedgerEntry>) {
    if l.pos < l.entries.len() {
        (LedgerModel { pos: l.pos + 1, ..l }, Some(l.entries[l.pos as int]))
    } else {
        (l, None)
    }
}

/// The append-only record of prior call inputs and outputs, consulted to
/// decide live-versus-replay execution.  Entries before the cursor have
/// been replayed; recording appends at the end and keeps the ledger live.
#[derive(Debug)]
pub struct Ledger {
    entries: Vec<LedgerEntry>,
    pos: usize,
}

impl View for Ledger {
    type V = LedgerModel;

    closed spec fn view(&self) -> LedgerModel {
        LedgerModel { entries: self.entries@, pos: self.pos as nat }
    }
}

impl Ledger {
    /// An empty ledger: a fresh worker with nothing recorded, so live.
    pub fn new() -> (l: Ledger)
        ensures
            l@.entries.len() == 0,
            l@.pos == 0,
    {
        Ledger { entries: Vec::new(), pos: 0 }
    }

    /// A ledger recovered after a restart: the recorded entries, with the
    /// replay cursor at the start.
    pub fn resume(entries: Vec<LedgerEntry>) -> (l: Ledger)
        ensures
            l@.entries == entries@,
            l@.pos == 0,
    {
        Ledger { entries, pos: 0 }
    }

    /// True when every recorded entry has been replayed: execution is live.
    pub fn is_live(&self) -> (r: bool)
        ensures
            r == spec_ledger_live(self@),
    {
        self.pos >= self.entries.len()
    }

    /// Appends one entry; only a live ledger records, and it stays live.
    pub fn record(&mut self, entry: LedgerEntry)
        requires
            spec_ledger_live(old(self)@),
        ensures
            final(self)@.entries == old(self)@.entries.push(entry),
            spec_ledger_live(final(self)@),
    {
        self.entries.push(entry);
        self.pos = self.entries.len();
    }

    /// Replays the `send` or `continue` entry under the cursor: returns a
    /// copy of the recorded result and advances.  Returns `None`, moving
    /// nothing, when the ledger is live or the entry is of another kind.
    pub fn replay_call(&mut self) -> (r: Option<ChatEvent>)
        ensures
            ({
                let l = old(self)@;
                if l.pos < l.entries.len() && (match l.entries[l.pos as int] {
                    LedgerEntry::Send { .. } | LedgerEntry::Continue { .. } => true,
                    _ => false,
                }) {
                    &&& final(self)@ == (LedgerModel { pos: l.pos + 1, ..l })
                    &&& match (r, l.entries[l.pos as int]) {
                        (Some(e), LedgerEntry::Send { output, .. }) => chat_event_like(e, output),
                        (Some(e), LedgerEntry::Continue { output, .. }) => chat_event_like(
                            e,
                            output,
                        ),
                        _ => false,
                    }
                } else {
                    final(self)@ == l && r is None
                }
            }),
    {
        if self.pos < self.entries.len() {
            match &self.entries[self.pos] {
                LedgerEntry::Send { output, .. } => {
                    let e = output.duplicate();
                    self.pos = self.pos + 1;
                    Some(e)
                },
                LedgerEntry::Continue { output, .. } => {
                    let e = output.duplicate();
                    self.pos = self.pos + 1;
                    Some(e)
                },
                _ => None,
            }
        } else {
            None
        }
    }

    /// Replays the `stream` entry under the cursor: advances past it and
    /// reports success.  Reports `false`, moving nothing, when the ledger
    /// is live or the entry is of another kind.
    pub fn replay_stream(&mut self) -> (r: bool)
        ensures
            ({
                let l = old(self)@;
                if l.pos < l.entries.len() && l.entries[l.pos as int] is Stream {
                    final(self)@ == (LedgerModel { pos: l.pos + 1, ..l }) && r
                } else {
                    final(self)@ == l && !r
                }
            }),
    {
        if self.pos < self.entries.len() {
            match &self.entries[self.pos] {
                LedgerEntry::Stream { .. } => {
                    self.pos = self.pos + 1;
                    true
                },
                _ => false,
            }
        } else {
            false
        }
    }

    /// Replays the `get_next` entry under the cursor: returns a copy of
    /// the recorded events and advances.  Returns `None`, moving nothing,
    /// when the ledger is live or the entry is of another kind.
    pub fn replay_get_next(&mut self) -> (r: Option<Option<Vec<StreamEvent>>>)
        ensures
            ({
                let l = old(self)@;
                if l.pos < l.entries.len() && l.entries[l.pos as int] is GetNext {
                    &&& final(self)@ == (LedgerModel { pos: l.pos + 1, ..l })
                    &&& match (r, l.entries[l.pos as int]) {
                        (Some(rec), LedgerEntry::GetNext { output }) => match (rec, output) {
                            (Some(a), Some(b)) => events_like(a@, b@),
                            (None, None) => true,
                            _ => false,
                        },
                        _ => false,
                    }
                } else {
                    final(self)@ == l && r is None
                }
            }),
    {
        if self.pos < self.entries.len() {
            match &self.entries[self.pos] {
                LedgerEntry::GetNext { output } => {
                    let rec: Option<Vec<StreamEvent>> = match output {
                        Some(v) => Some(duplicate_stream_events(v)),
                        None => None,
                    };
                    self.pos = self.pos + 1;
                    Some(rec)
                },
                _ => None,
            }
        } else {
            None
        }
    }
}

/// Replaying a ledger whose cursor stands on a recorded `send` call hands
/// back exactly the recorded result and only advances the cursor: a
/// restarted worker re-issuing the same call reads the prior answer and
/// asks for no live execution, so no transport is touched.
pub proof fn lemma_send_replay_idempotent(l: LedgerModel)
    requires
        l.pos < l.entries.len(),
        l.entries[l.pos as int] is Send,
    ensures
        ({
            let (l2, e) = spec_replay_step(l);
            &&& l2.entries == l.entries
            &&& l2.pos == l.pos + 1
            &&& match (e, l.entries[l.pos as int]) {
                (Some(LedgerEntry::Send { output: a, input: ia }), LedgerEntry::Send {
                    output: b,
                    input: ib,
                }) => a == b && ia == ib,
                _ => false,
            }
        }),
{
}

/// What a caller must do for a `send` or `continue` call: perform it live
/// (and record the result), hand back the replayed result, or stop on a
/// ledger whose next entry is of the wrong kind.
#[derive(Debug, PartialEq, Eq)]
pub enum CallDecision {
    Live,
    Replayed(ChatEvent),
    Corrupt,
}

/// What a caller must do for a `stream` call: open a live provider stream
/// (and record the call), replay the recorded one, or stop on a ledger
/// whose next entry is of the wrong kind.
#[derive(Debug, PartialEq, Eq)]
pub enum StreamDecision {
    LiveStream,
    ReplayStream,
    Corrupt,
}

/// Wraps a provider implementation with durability: every call boundary
/// consults the ledger to decide replay-versus-live, and live results are
/// recorded at the same boundary.
#[derive(Debug)]
pub struct DurableLLM {
    ledger: Ledger,
}

impl View for DurableLLM {
    type V = LedgerModel;

    closed spec fn view(&self) -> LedgerModel {
        self.ledger@
    }
}

impl DurableLLM {
    /// A fresh wrapper with an empty ledger: everything runs live.
    pub fn new() -> (d: DurableLLM)
        ensures
            d@.entries.len() == 0,
            d@.pos == 0,
    {
        DurableLLM { ledger: Ledger::new() }
    }

    /// A wrapper recovered after a restart: the recorded entries replay
    /// first.
    pub fn resume(entries: Vec<LedgerEntry>) -> (d: DurableLLM)
        ensures
            d@.entries == entries@,
            d@.pos == 0,
    {
        DurableLLM { ledger: Ledger::resume(entries) }
    }

    /// True when every recorded entry has been replayed.
    pub fn is_live(&self) -> (r: bool)
        ensures
            r == spec_ledger_live(self@),
    {
        self.ledger.is_live()
    }

    /// The decision for a `send` or `continue` call: live execution on a
    /// live ledger, otherwise the recorded result — returned verbatim,
    /// with no live execution and so no transport interaction.
    pub fn call_entry(&mut self) -> (r: CallDecision)
        ensures
            ({
                let l = old(self)@;
                if spec_ledger_live(l) {
                    final(self)@ == l && r == CallDecision::Live
                } else if (match l.entries[l.pos as int] {
                    LedgerEntry::Send { .. } | LedgerEntry::Continue { .. } => true,
                    _ => false,
                }) {
                    &&& final(self)@ == (LedgerModel { pos: l.pos + 1, ..l })
                    &&& match (r, l.entries[l.pos as int]) {
                        (CallDecision::Replayed(e), LedgerEntry::Send { output, .. }) =>
                            chat_event_like(e, output),
                        (CallDecision::Replayed(e), LedgerEntry::Continue { output, .. }) =>
                            chat_event_like(e, output),
                        _ => false,
                    }
                } else {
                    final(self)@ == l && r == CallDecision::Corrupt
                }
            }),
    {
        if self.ledger.is_live() {
            CallDecision::Live
        } else {
            match self.ledger.replay_call() {
                Some(e) => CallDecision::Replayed(e),
                None => CallDecision::Corrupt,
            }
        }
    }

    /// Records the result of a live `send` call.
    pub fn record_send(&mut self, input: SendInput, output: &ChatEvent)
        requires
            spec_ledger_live(old(self)@),
        ensures
            spec_ledger_live(final(self)@),
            final(self)@.entries.len() == old(self)@.entries.len() + 1,
            forall|j: int|
                0 <= j < old(self)@.entries.len() ==> final(self)@.entries[j] == old(
                    self,
                )@.entries[j],
            ({
                match final(self)@.entries.last() {
                    LedgerEntry::Send { input: i2, output: o2 } => i2 == input && chat_event_like(
                        o2,
                        *output,
                    ),
                    _ => false,
                }
            }),
    {
        let copy = output.duplicate();
        self.ledger.record(LedgerEntry::Send { input, output: copy });
    }

    /// Records the result of a live `continue` call.
    pub fn record_continue(
        &mut self,
        messages: Vec<Message>,
        tool_results: Vec<(ToolCall, ToolResult)>,
        config: Config,
        output: &ChatEvent,
    )
        requires
            spec_ledger_live(old(self)@),
        ensures
            spec_ledger_live(final(self)@),
            final(self)@.entries.len() == old(self)@.entries.len() + 1,
            forall|j: int|
                0 <= j < old(self)@.entries.len() ==> final(self)@.entries[j] == old(
                    self,
                )@.entries[j],
            ({
                match final(self)@.entries.last() {
                    LedgerEntry::Continue { messages: m2, tool_results: t2, config: c2, output: o2 } =>
                        m2 == messages && t2 == tool_results && c2 == config && chat_event_like(
                            o2,
                            *output,
                        ),
                    _ => false,
                }
            }),
    {
        let copy = output.duplicate();
        self.ledger.record(
            LedgerEntry::Continue { messages, tool_results, config, output: copy },
        );
    }

    /// The decision for a `stream` call: a live stream on a live ledger,
    /// otherwise a replaying stream.
    pub fn stream_entry(&mut self) -> (r: StreamDecision)
        ensures
            ({
                let l = old(self)@;
                if spec_ledger_live(l) {
                    final(self)@ == l && r == StreamDecision::LiveStream
                } else if l.entries[l.pos as int] is Stream {
                    final(self)@ == (LedgerModel { pos: l.pos + 1, ..l }) && r
                        == StreamDecision::ReplayStream
                } else {
                    final(self)@ == l && r == StreamDecision::Corrupt
                }
            }),
    {
        if self.ledger.is_live() {
            StreamDecision::LiveStream
        } else {
            if self.ledger.replay_stream() {
                StreamDecision::ReplayStream
            } else {
                StreamDecision::Corrupt
            }
        }
    }

    /// Records a live `stream` call.
    pub fn record_stream(&mut self, input: SendInput)
        requires
            spec_ledger_live(old(self)@),
        ensures
            spec_ledger_live(final(self)@),
            final(self)@.entries.len() == old(self)@.entries.len() + 1,
            forall|j: int|
                0 <= j < old(self)@.entries.len() ==> final(self)@.entries[j] == old(
                    self,
                )@.entries[j],
            ({
                match final(self)@.entries.last() {
                    LedgerEntry::Stream { input: i2 } => i2 == input,
                    _ => false,
                }
            }),
    {
        self.ledger.record(LedgerEntry::Stream { input });
    }

    /// Records one live `get_next` result.
    pub fn record_get_next(&mut self, output: &Option<Vec<StreamEvent>>)
        requires
            spec_ledger_live(old(self)@),
        ensures
            spec_ledger_live(final(self)@),
            final(self)@.entries.len() == old(self)@.entries.len() + 1,
            forall|j: int|
                0 <= j < old(self)@.entries.len() ==> final(self)@.entries[j] == old(
                    self,
                )@.entries[j],
            ({
                match (final(self)@.entries.last(), output) {
                    (LedgerEntry::GetNext { output: Some(a) }, Some(b)) => events_like(a@, b@),
                    (LedgerEntry::GetNext { output: None }, None) => true,
                    _ => false,
                }
            }),
    {
        let copy: Option<Vec<StreamEvent>> = match output {
            Some(v) => Some(duplicate_stream_events(v)),
            None => None,
        };
        self.ledger.record(LedgerEntry::GetNext { output: copy });
    }

    /// Replays one recorded `get_next` result, or reports `None` when the
    /// ledger is live or its next entry is of the wrong kind.
    pub fn replay_get_next(&mut self) -> (r: Option<Option<Vec<StreamEvent>>>)
        ensures
            ({
                let l = old(self)@;
                if l.pos < l.entries.len() && l.entries[l.pos as int] is GetNext {
                    &&& final(self)@ == (LedgerModel { pos: l.pos + 1, ..l })
                    &&& match (r, l.entries[l.pos as int]) {
                        (Some(rec), LedgerEntry::GetNext { output }) => match (rec, output) {
                            (Some(a), Some(b)) => events_like(a@, b@),
                            (None, None) => true,
                            _ => false,
                        },
                        _ => false,
                    }
                } else {
                    final(self)@ == l && r is None
                }
            }),
    {
        self.ledger.replay_get_next()
    }
}

/// Elementwise delta equality up to vector identity.
pub open spec fn deltas_like(a: Seq<StreamDelta>, b: Seq<StreamDelta>) -> bool {
    a.len() == b.len() && forall|i: int| 0 <= i < a.len() ==> delta_like(#[trigger] a[i], b[i])
}

/// How replayed events update the replay bookkeeping: every delta is
/// appended to the partial result, and a `Finish` or `Error` marks the
/// stream finished.
pub open spec fn spec_replay_fold(
    partial: Seq<StreamDelta>,
    finished: bool,
    events: Seq<StreamEvent>,
) -> (Seq<StreamDelta>, bool)
    decreases events.len(),
{
    if events.len() == 0 {
        (partial, finished)
    } else {
        let (p, f) = spec_replay_fold(partial, finished, events.drop_last());
        match events.last() {
            StreamEvent::Delta(d) => (p.push(d), f),
            StreamEvent::Finish(_) => (p, true),
            StreamEvent::Error(_) => (p, true),
        }
    }
}

/// Mathematical image of a [`DurableChatStreamState`].
pub enum DurableStateModel<T> {
    /// Actively driven by a live chat stream.
    Live { stream: ChatStreamModel<T> },
    /// Replaying the recorded call; no live network stream exists yet.
    Replay {
        original_messages: Seq<Message>,
        config: Config,
        partial_result: Seq<StreamDelta>,
        finished: bool,
    },
}

/// Mathematical image of a [`DurableChatStream`].
pub struct DurableModel<T> {
    pub state: DurableStateModel<T>,
    /// How many lazy readiness handles were issued while replaying.
    pub lazy_pollables: nat,
}

/// The durable chat stream's state: live, or replaying the record.
/// Exactly one variant is active; the transition goes from `Replay` to
/// `Live` only, at most once, when the replay is exhausted without a
/// terminal event.
#[derive(Debug)]
pub enum DurableChatStreamState<T> {
    Live { stream: LlmChatStream<T> },
    Replay {
        original_messages: Vec<Message>,
        config: Config,
        partial_result: Vec<StreamDelta>,
        finished: bool,
    },
}

/// A chat stream wrapped with replay/continuation durability.
#[derive(Debug)]
pub struct DurableChatStream<T> {
    state: DurableChatStreamState<T>,
    lazy_pollables: usize,
}

impl<T> View for DurableChatStream<T> {
    type V = DurableModel<T>;

    closed spec fn view(&self) -> DurableModel<T> {
        DurableModel {
            state: match &self.state {
                DurableChatStreamState::Live { stream } => DurableStateModel::Live {
                    stream: stream@,
                },
                DurableChatStreamState::Replay {
                    original_messages,
                    config,
                    partial_result,
                    finished,
                } => DurableStateModel::Replay {
                    original_messages: original_messages@,
                    config: *config,
                    partial_result: partial_result@,
                    finished: *finished,
                },
            },
            lazy_pollables: self.lazy_pollables as nat,
        }
    }
}

/// What a caller of [`DurableChatStream::subscribe`] must do for a
/// readiness handle: take one from the live stream's source, or create a
/// lazy handle with the given index, to be bound when the stream goes live.
#[derive(Debug, PartialEq, Eq)]
pub enum SubscribeDecision {
    FromStream,
    Lazy(usize),
}

impl<T: LlmChatStreamState> DurableChatStream<T> {
    /// A live durable stream over a freshly created chat stream.
    pub fn live(stream: LlmChatStream<T>) -> (s: DurableChatStream<T>)
        ensures
            s@.state == (DurableStateModel::Live { stream: stream@ }),
            s@.lazy_pollables == 0,
    {
        DurableChatStream { state: DurableChatStreamState::Live { stream }, lazy_pollables: 0 }
    }

    /// A replaying durable stream for a recorded call: nothing received
    /// yet, not finished.  This is also how every restarted stream starts.
    pub fn replay(original_messages: Vec<Message>, config: Config) -> (s: DurableChatStream<T>)
        ensures
            s@.state == (DurableStateModel::<T>::Replay {
                original_messages: original_messages@,
                config,
                partial_result: Seq::<StreamDelta>::empty(),
                finished: false,
            }),
            s@.lazy_pollables == 0,
    {
        let s = DurableChatStream {
            state: DurableChatStreamState::Replay {
                original_messages,
                config,
                partial_result: Vec::new(),
                finished: false,
            },
            lazy_pollables: 0,
        };
        proof {
            assert(match s@.state {
                DurableStateModel::Replay { partial_result, .. } => partial_result
                    =~= Seq::<StreamDelta>::empty(),
                _ => false,
            });
        }
        s
    }

    /// Decides how to serve a readiness handle: from the live stream, or
    /// as a fresh lazy handle (counted, so that the transition to live can
    /// bind every one of them).
    pub fn subscribe(&mut self) -> (r: SubscribeDecision)
        requires
            old(self)@.lazy_pollables < usize::MAX,
        ensures
            ({
                let st = old(self)@;
                match st.state {
                    DurableStateModel::Live { .. } => final(self)@ == st && r
                        == SubscribeDecision::FromStream,
                    DurableStateModel::Replay { .. } => final(self)@ == (DurableModel {
                        lazy_pollables: st.lazy_pollables + 1,
                        ..st
                    }) && r == SubscribeDecision::Lazy(st.lazy_pollables as usize),
                }
            }),
    {
        match &self.state {
            DurableChatStreamState::Live { .. } => SubscribeDecision::FromStream,
            DurableChatStreamState::Replay { .. } => {
                let idx = self.lazy_pollables;
                self.lazy_pollables = self.lazy_pollables + 1;
                SubscribeDecision::Lazy(idx)
            },
        }
    }

    /// Replay bookkeeping for one recorded `get_next` result: every
    /// replayed delta is appended to the partial result, a replayed
    /// `Finish` or `Error` marks the call finished, and the recorded
    /// result is handed back unchanged.
    pub fn replay_recorded(&mut self, recorded: Option<Vec<StreamEvent>>) -> (r: Option<
        Vec<StreamEvent>,
    >)
        requires
            old(self)@.state is Replay,
        ensures
            r == recorded,
            ({
                let st = old(self)@;
                let stf = final(self)@;
                match (st.state, stf.state) {
                    (
                        DurableStateModel::Replay {
                            original_messages: om,
                            config: cf,
                            partial_result: p0,
                            finished: f0,
                        },
                        DurableStateModel::Replay {
                            original_messages: om2,
                            config: cf2,
                            partial_result: p2,
                            finished: f2,
                        },
                    ) => {
                        let (pr, fr) = spec_replay_fold(p0, f0, match recorded {
                            Some(v) => v@,
                            None => Seq::empty(),
                        });
                        om2 == om && cf2 == cf && deltas_like(p2, pr) && f2 == fr
                            && stf.lazy_pollables == st.lazy_pollables
                    },
                    _ => false,
                }
            }),
    {
        match &mut self.state {
            DurableChatStreamState::Replay { partial_result, finished, .. } => {
                match &recorded {
                    Some(events) => {
                        let n = events.len();
                        let ghost p0 = partial_result@;
                        let ghost f0 = *finished;
                        let mut i: usize = 0;
                        while i < n
                            invariant
                                i <= n,
                                n == events@.len(),
                                ({
                                    let (pr, fr) = spec_replay_fold(
                                        p0,
                                        f0,
                                        events@.subrange(0, i as int),
                                    );
                                    deltas_like(partial_result@, pr) && *finished == fr
                                }),
                            decreases n - i,
                        {
                            proof {
                                assert(events@.subrange(0, i + 1).drop_last() =~= events@.subrange(
                                    0,
                                    i as int,
                                ));
                                assert(events@.subrange(0, i + 1).last() == events@[i as int]);
                            }
                            match &events[i] {
                                StreamEvent::Delta(d) => {
                                    partial_result.push(d.duplicate());
                                },
                                StreamEvent::Finish(_) => {
                                    *finished = true;
                                },
                                StreamEvent::Error(_) => {
                                    *finished = true;
                                },
                            }
                            i = i + 1;
                        }
                        proof {
                            assert(events@.subrange(0, n as int) =~= events@);
                        }
                    },
                    None => {},
                }
            },
            DurableChatStreamState::Live { .. } => {},
        }
        recorded
    }

    /// The configuration the stream was created with, while replaying.
    pub fn config(&self) -> (r: &Config)
        requires
            self@.state is Replay,
        ensures
            match self@.state {
                DurableStateModel::Replay { config, .. } => *r == config,
                _ => false,
            },
    {
        match &self.state {
            DurableChatStreamState::Replay { config, .. } => config,
            DurableChatStreamState::Live { .. } => unreached(),
        }
    }

    /// Live execution while still replaying: a finished call answers
    /// nothing forever; an unfinished one needs a continuation — the
    /// caller must issue the returned prompt to the provider and attach
    /// the resulting live stream.
    pub fn continuation(&self) -> (r: Option<Vec<Message>>)
        requires
            self@.state is Replay,
        ensures
            ({
                match self@.state {
                    DurableStateModel::Replay {
                        original_messages,
                        partial_result,
                        finished,
                        ..
                    } => {
                        if finished {
                            r is None
                        } else {
                            match r {
                                Some(v) => is_continuation_prompt(
                                    v@,
                                    original_messages,
                                    partial_result,
                                ),
                                None => false,
                            }
                        }
                    },
                    _ => false,
                }
            }),
    {
        match &self.state {
            DurableChatStreamState::Replay {
                original_messages,
                partial_result,
                finished,
                ..
            } => {
                if *finished {
                    None
                } else {
                    Some(retry_prompt(original_messages, partial_result))
                }
            },
            DurableChatStreamState::Live { .. } => unreached(),
        }
    }

    /// The one-directional transition from `Replay` to `Live`, taken when
    /// the replay ran out without a terminal event: the fresh stream takes
    /// over, and every lazy readiness handle issued so far must now be
    /// bound to it by the caller.
    pub fn attach_live(&mut self, stream: LlmChatStream<T>) -> (to_bind: usize)
        requires
            old(self)@.state is Replay,
            ({
                match old(self)@.state {
                    DurableStateModel::Replay { finished, .. } => !finished,
                    _ => false,
                }
            }),
        ensures
            final(self)@.state == (DurableStateModel::Live { stream: stream@ }),
            final(self)@.lazy_pollables == old(self)@.lazy_pollables,
            to_bind == old(self)@.lazy_pollables,
    {
        self.state = DurableChatStreamState::Live { stream };
        self.lazy_pollables
    }

    /// Live execution in live state: the poll goes straight to the
    /// underlying chat stream driver.
    pub fn live_get_next(&mut self, read: Option<ReadResult>) -> (r: Option<Vec<StreamEvent>>)
        requires
            old(self)@.state is Live,
            ({
                match old(self)@.state {
                    DurableStateModel::Live { stream } => chat_stream_wf(stream),
                    _ => false,
                }
            }),
        ensures
            final(self)@.lazy_pollables == old(self)@.lazy_pollables,
            ({
                match (old(self)@.state, final(self)@.state) {
                    (
                        DurableStateModel::Live { stream: s0 },
                        DurableStateModel::Live { stream: s2 },
                    ) => chat_stream_wf(s2) && crate::chat_stream::get_next_post(
                        s0,
                        s2,
                        match read {
                            Some(rr) => Some(rr@),
                            None => None,
                        },
                        r,
                    ),
                    _ => false,
                }
            }),
    {
        match &mut self.state {
            DurableChatStreamState::Live { stream } => stream.get_next(read),
            DurableChatStreamState::Replay { .. } => unreached(),
        }
    }
}

} // verus!
