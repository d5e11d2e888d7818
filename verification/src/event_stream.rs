//! Incremental Server-Sent-Events framing.
//!
//! The stream of text is cut into lines (terminated by LF, CR or CRLF), each
//! line is classified as a field, a comment or a blank line, and a blank line
//! dispatches the accumulated record as one [`MessageEvent`].  The whole
//! layer is a deterministic machine driven one char at a time, so the events
//! produced do not depend on how the input was split into chunks.

use vstd::prelude::*;
use vstd::string::StringExecFns;

use crate::message_event::{MessageEvent, MessageEventModel};
use crate::strutil::{chars_eq_str, chars_to_string, contains_char};

verus! {

/// A classified SSE line, as sequences: a `field: value` pair, a comment,
/// or a blank line.  A field line without a colon carries an empty value.
pub enum LineModel {
    Field(Seq<char>, Seq<char>),
    Comment,
    Empty,
}

/// A classified SSE line as parsed from the input text.
#[derive(Debug, PartialEq, Eq)]
pub enum RawEventLine {
    /// `name: value`; the value is `None` when the line held no colon.
    Field(Vec<char>, Option<Vec<char>>),
    /// A line starting with `:`, ignored.
    Comment(Vec<char>),
    /// A blank line; dispatches the accumulated record.
    Empty,
}

impl View for RawEventLine {
    type V = LineModel;

    open spec fn view(&self) -> LineModel {
        match self {
            RawEventLine::Field(name, value) => LineModel::Field(
                name@,
                match value {
                    Some(v) => v@,
                    None => Seq::empty(),
                },
            ),
            RawEventLine::Comment(_) => LineModel::Comment,
            RawEventLine::Empty => LineModel::Empty,
        }
    }
}

/// Index of the first `:` in `s`, or -1 when there is none.
pub open spec fn first_colon(s: Seq<char>) -> int
    decreases s.len(),
{
    if s.len() == 0 {
        -1
    } else if s[0] == ':' {
        0
    } else {
        let r = first_colon(s.drop_first());
        if r < 0 {
            -1
        } else {
            r + 1
        }
    }
}

proof fn lemma_first_colon_at(s: Seq<char>, k: int)
    requires
        0 <= k < s.len(),
        s[k] == ':',
        forall|j: int| 0 <= j < k ==> s[j] != ':',
    ensures
        first_colon(s) == k,
    decreases k,
{
    if k > 0 {
        lemma_first_colon_at(s.drop_first(), k - 1);
    }
}

proof fn lemma_first_colon_none(s: Seq<char>)
    requires
        forall|j: int| 0 <= j < s.len() ==> s[j] != ':',
    ensures
        first_colon(s) == -1,
    decreases s.len(),
{
    if s.len() > 0 {
        lemma_first_colon_none(s.drop_first());
    }
}

/// Drops one leading space from a field value, as the SSE grammar asks.
pub open spec fn strip_leading_space(s: Seq<char>) -> Seq<char> {
    if s.len() > 0 && s[0] == ' ' {
        s.drop_first()
    } else {
        s
    }
}

/// How one complete line is read: blank, comment, or `name[: value]`.
pub open spec fn spec_classify_line(line: Seq<char>) -> LineModel {
    if line.len() == 0 {
        LineModel::Empty
    } else if line[0] == ':' {
        LineModel::Comment
    } else {
        let i = first_colon(line);
        if i < 0 {
            LineModel::Field(line, Seq::empty())
        } else {
            LineModel::Field(
                line.subrange(0, i),
                strip_leading_space(line.subrange(i + 1, line.len() as int)),
            )
        }
    }
}

/// Classifies one complete line of input.
pub fn classify_line(line: &Vec<char>) -> (r: RawEventLine)
    ensures
        r@ == spec_classify_line(line@),
{
    let n = line.len();
    if n == 0 {
        return RawEventLine::Empty;
    }
    if line[0] == ':' {
        let mut body: Vec<char> = Vec::new();
        let mut i: usize = 1;
        while i < n
            invariant
                1 <= i <= n,
                n == line@.len(),
                body@ == line@.subrange(1, i as int),
            decreases n - i,
        {
            body.push(line[i]);
            i = i + 1;
            proof {
                assert(body@ =~= line@.subrange(1, i as int));
            }
        }
        return RawEventLine::Comment(body);
    }
    let mut i: usize = 0;
    while i < n && line[i] != ':'
        invariant
            0 <= i <= n,
            n == line@.len(),
            forall|j: int| 0 <= j < i ==> line@[j] != ':',
        decreases n - i,
    {
        i = i + 1;
    }
    if i == n {
        proof {
            lemma_first_colon_none(line@);
        }
        let mut name: Vec<char> = Vec::new();
        let mut j: usize = 0;
        while j < n
            invariant
                j <= n,
                n == line@.len(),
                name@ == line@.subrange(0, j as int),
            decreases n - j,
        {
            name.push(line[j]);
            j = j + 1;
            proof {
                assert(name@ =~= line@.subrange(0, j as int));
            }
        }
        proof {
            assert(name@ =~= line@);
        }
        RawEventLine::Field(name, None)
    } else {
        proof {
            lemma_first_colon_at(line@, i as int);
        }
        let mut name: Vec<char> = Vec::new();
        let mut j: usize = 0;
        while j < i
            invariant
                j <= i <= n,
                n == line@.len(),
                name@ == line@.subrange(0, j as int),
            decreases i - j,
        {
            name.push(line[j]);
            j = j + 1;
            proof {
                assert(name@ =~= line@.subrange(0, j as int));
            }
        }
        let mut value: Vec<char> = Vec::new();
        let vstart: usize = if i + 1 < n && line[i + 1] == ' ' {
            i + 2
        } else {
            i + 1
        };
        let mut k: usize = vstart;
        while k < n
            invariant
                vstart <= k <= n,
                n == line@.len(),
                value@ == line@.subrange(vstart as int, k as int),
            decreases n - k,
        {
            value.push(line[k]);
            k = k + 1;
            proof {
                assert(value@ =~= line@.subrange(vstart as int, k as int));
            }
        }
        proof {
            let iv = i as int;
            let rest = line@.subrange(iv + 1, line@.len() as int);
            if vstart == i + 2 {
                assert(rest.len() > 0 && rest[0] == ' ');
                assert(value@ =~= strip_leading_space(rest));
            } else {
                assert(value@ =~= strip_leading_space(rest));
            }
        }
        RawEventLine::Field(name, Some(value))
    }
}

/// True when `c` is an ASCII decimal digit.
pub open spec fn is_ascii_digit(c: char) -> bool {
    '0' <= c && c <= '9'
}

/// True when every char of `s` is an ASCII decimal digit.
pub open spec fn all_digits(s: Seq<char>) -> bool {
    forall|i: int| 0 <= i < s.len() ==> is_ascii_digit(#[trigger] s[i])
}

/// The number spelled by a digit sequence, in base ten.
pub open spec fn digits_val(s: Seq<char>) -> int
    decreases s.len(),
{
    if s.len() == 0 {
        0
    } else {
        digits_val(s.drop_last()) * 10 + (s.last() as int - '0' as int)
    }
}

proof fn lemma_digits_val_nonneg(s: Seq<char>)
    requires
        all_digits(s),
    ensures
        digits_val(s) >= 0,
    decreases s.len(),
{
    if s.len() > 0 {
        assert(all_digits(s.drop_last()));
        lemma_digits_val_nonneg(s.drop_last());
        assert(is_ascii_digit(s[s.len() - 1]));
    }
}

proof fn lemma_digits_val_prefix_le(s: Seq<char>, i: int)
    requires
        all_digits(s),
        0 <= i <= s.len(),
    ensures
        digits_val(s.subrange(0, i)) <= digits_val(s),
    decreases s.len(),
{
    if i == s.len() {
        assert(s.subrange(0, i) =~= s);
    } else {
        let t = s.drop_last();
        assert(all_digits(t));
        assert(s.subrange(0, i) =~= t.subrange(0, i));
        lemma_digits_val_prefix_le(t, i);
        lemma_digits_val_nonneg(t);
        assert(digits_val(t) * 10 >= digits_val(t));
        assert(is_ascii_digit(s[s.len() - 1]));
        assert(s.last() as int >= '0' as int);
    }
}

/// The retry value a record sets: `Some` exactly when the field value is a
/// non-empty string of ASCII digits whose value fits in a `u64`; anything
/// else is ignored.
pub open spec fn parse_retry(s: Seq<char>) -> Option<u64> {
    if s.len() > 0 && all_digits(s) && digits_val(s) <= u64::MAX {
        Some(digits_val(s) as u64)
    } else {
        None
    }
}

/// Parses a `retry` field value: base-ten digits only, rejecting empty
/// values, other characters and overflow.
pub fn parse_u64_digits(v: &Vec<char>) -> (r: Option<u64>)
    ensures
        r == parse_retry(v@),
{
    let n = v.len();
    if n == 0 {
        return None;
    }
    let mut acc: u64 = 0;
    let mut i: usize = 0;
    while i < n
        invariant
            i <= n,
            n == v@.len(),
            all_digits(v@.subrange(0, i as int)),
            acc == digits_val(v@.subrange(0, i as int)),
        decreases n - i,
    {
        let c = v[i];
        if c < '0' || c > '9' {
            return None;
        }
        let d: u64 = (c as u32 - '0' as u32) as u64;
        proof {
            assert(v@.subrange(0, i + 1).drop_last() =~= v@.subrange(0, i as int));
            assert(v@.subrange(0, i + 1).last() == v@[i as int]);
        }
        if acc > 1844674407370955161u64 {
            proof {
                assert(digits_val(v@.subrange(0, i + 1)) > u64::MAX);
                if all_digits(v@) {
                    lemma_digits_val_prefix_le(v@, i + 1);
                }
            }
            return None;
        }
        let shifted: u64 = acc * 10;
        if d > u64::MAX - shifted {
            proof {
                assert(digits_val(v@.subrange(0, i + 1)) > u64::MAX);
                if all_digits(v@) {
                    lemma_digits_val_prefix_le(v@, i + 1);
                }
            }
            return None;
        }
        acc = shifted + d;
        i = i + 1;
    }
    proof {
        assert(v@.subrange(0, n as int) =~= v@);
    }
    Some(acc)
}

/// Mathematical image of an [`EventBuilder`]: the four accumulation buffers
/// and whether a blank line has completed the record.
pub struct BuilderModel {
    pub event: Seq<char>,
    pub data: Seq<char>,
    pub id: Seq<char>,
    pub retry: Option<u64>,
    pub complete: bool,
}

/// How one classified line changes the record builder: `event` replaces the
/// type buffer, `data` appends the value and a LF, `id` replaces the id
/// buffer unless the value holds a NUL, `retry` sets the delay when the
/// value is numeric, unknown fields and comments are ignored, and a blank
/// line marks the record complete.
pub open spec fn spec_builder_add(b: BuilderModel, l: LineModel) -> BuilderModel {
    match l {
        LineModel::Empty => BuilderModel { complete: true, ..b },
        LineModel::Comment => b,
        LineModel::Field(name, value) => {
            if name == "event"@ {
                BuilderModel { event: value, ..b }
            } else if name == "data"@ {
                BuilderModel { data: b.data + value + seq!['\n'], ..b }
            } else if name == "id"@ {
                if !value.contains('\u{0000}') {
                    BuilderModel { id: value, ..b }
                } else {
                    b
                }
            } else if name == "retry"@ {
                match parse_retry(value) {
                    Some(ms) => BuilderModel { retry: Some(ms), ..b },
                    None => b,
                }
            } else {
                b
            }
        },
    }
}

/// Drops the one trailing LF that the last `data` field appended.
pub open spec fn strip_trailing_lf(data: Seq<char>) -> Seq<char> {
    if data.len() > 0 && data.last() == '\n' {
        data.drop_last()
    } else {
        data
    }
}

/// What dispatching a completed record yields: the builder is reset (the id
/// buffer persists), and an event is produced unless the data, after the
/// trailing LF is stripped, is empty.  An absent event type defaults to
/// `"message"`.
pub open spec fn spec_builder_dispatch(b: BuilderModel) -> (BuilderModel, Option<
    MessageEventModel,
>) {
    let reset = BuilderModel {
        event: Seq::empty(),
        data: Seq::empty(),
        id: b.id,
        retry: None,
        complete: false,
    };
    let stripped = strip_trailing_lf(b.data);
    if stripped.len() == 0 {
        (reset, None)
    } else {
        let ev = if b.event.len() == 0 {
            "message"@
        } else {
            b.event
        };
        (
            reset,
            Some(MessageEventModel { event: ev, data: stripped, id: b.id, retry: b.retry }),
        )
    }
}

/// Accumulates the fields of one SSE record until a blank line completes it.
#[derive(Debug)]
pub struct EventBuilder {
    event: Vec<char>,
    data: Vec<char>,
    id: Vec<char>,
    retry: Option<u64>,
    is_complete: bool,
}

impl View for EventBuilder {
    type V = BuilderModel;

    closed spec fn view(&self) -> BuilderModel {
        BuilderModel {
            event: self.event@,
            data: self.data@,
            id: self.id@,
            retry: self.retry,
            complete: self.is_complete,
        }
    }
}

impl EventBuilder {
    /// A builder with every buffer empty.
    pub fn new() -> (b: EventBuilder)
        ensures
            b@ == (BuilderModel {
                event: Seq::<char>::empty(),
                data: Seq::<char>::empty(),
                id: Seq::<char>::empty(),
                retry: None::<u64>,
                complete: false,
            }),
    {
        let b = EventBuilder {
            event: Vec::new(),
            data: Vec::new(),
            id: Vec::new(),
            retry: None,
            is_complete: false,
        };
        proof {
            assert(b@.event =~= Seq::<char>::empty());
            assert(b@.data =~= Seq::<char>::empty());
            assert(b@.id =~= Seq::<char>::empty());
        }
        b
    }

    /// True when a blank line has completed the record under construction.
    pub fn is_complete(&self) -> (r: bool)
        ensures
            r == self@.complete,
    {
        self.is_complete
    }

    /// Applies one classified line to the record under construction.
    pub fn add(&mut self, line: RawEventLine)
        ensures
            final(self)@ == spec_builder_add(old(self)@, line@),
    {
        match line {
            RawEventLine::Field(name, value_opt) => {
                let value: Vec<char> = match value_opt {
                    Some(v) => v,
                    None => Vec::new(),
                };
                proof {
                    assert(value@ =~= (match line@ {
                        LineModel::Field(_, v) => v,
                        _ => Seq::<char>::empty(),
                    }));
                }
                if chars_eq_str(&name, "event") {
                    self.event = value;
                } else if chars_eq_str(&name, "data") {
                    let mut data = value;
                    let ghost vdata = data@;
                    let mut i: usize = 0;
                    let n = data.len();
                    // append the value to the data buffer, then a LF
                    while i < n
                        invariant
                            i <= n,
                            n == vdata.len(),
                            data@ == vdata,
                            self.data@ == old(self)@.data + vdata.subrange(0, i as int),
                            self.event@ == old(self)@.event,
                            self.id@ == old(self)@.id,
                            self.retry == old(self)@.retry,
                            self.is_complete == old(self)@.complete,
                        decreases n - i,
                    {
                        let c = data[i];
                        self.data.push(c);
                        i = i + 1;
                        proof {
                            assert(self.data@ =~= old(self)@.data + vdata.subrange(0, i as int));
                        }
                    }
                    self.data.push('\n');
                    proof {
                        assert(vdata.subrange(0, n as int) =~= vdata);
                        assert(self.data@ =~= old(self)@.data + vdata + seq!['\n']);
                    }
                } else if chars_eq_str(&name, "id") {
                    if !contains_char(&value, '\u{0000}') {
                        self.id = value;
                    }
                } else if chars_eq_str(&name, "retry") {
                    match parse_u64_digits(&value) {
                        Some(ms) => {
                            self.retry = Some(ms);
                        },
                        None => {},
                    }
                }
            },
            RawEventLine::Comment(_) => {},
            RawEventLine::Empty => {
                self.is_complete = true;
            },
        }
    }

    /// Dispatches the completed record: resets the builder (the id buffer
    /// persists) and returns the event, unless the data, after its trailing
    /// LF is stripped, is empty.
    pub fn dispatch(&mut self) -> (r: Option<MessageEvent>)
        ensures
            ({
                let (b2, evo) = spec_builder_dispatch(old(self)@);
                &&& final(self)@ == b2
                &&& match (r, evo) {
                    (Some(e), Some(em)) => e@ == em,
                    (None, None) => true,
                    _ => false,
                }
            }),
    {
        let mut data: Vec<char> = Vec::new();
        core::mem::swap(&mut data, &mut self.data);
        let mut event: Vec<char> = Vec::new();
        core::mem::swap(&mut event, &mut self.event);
        let retry = self.retry;
        self.retry = None;
        self.is_complete = false;
        proof {
            assert(self@.event =~= Seq::<char>::empty());
            assert(self@.data =~= Seq::<char>::empty());
        }

        if data.len() > 0 && data[data.len() - 1] == '\n' {
            data.pop();
            proof {
                assert(data@ =~= strip_trailing_lf(old(self)@.data));
            }
        }
        if data.len() == 0 {
            return None;
        }
        let event_name: String = if event.len() == 0 {
            String::from_str("message")
        } else {
            chars_to_string(&event)
        };
        let r = MessageEvent {
            event: event_name,
            data: chars_to_string(&data),
            id: chars_to_string(&self.id),
            retry,
        };
        Some(r)
    }
}

/// Where an event stream stands: before its first chunk, running, or done.
#[derive(Debug, Clone, Copy, PartialEq, Eq)]
pub enum EventStreamState {
    NotStarted,
    Started,
    Terminated,
}

impl EventStreamState {
    /// True once the underlying transport has ended.
    pub fn is_terminated(self) -> (r: bool)
        ensures
            r == (self is Terminated),
    {
        match self {
            EventStreamState::Terminated => true,
            _ => false,
        }
    }

    /// True once the first chunk of text has been seen.
    pub fn is_started(self) -> (r: bool)
        ensures
            r == (self is Started),
    {
        match self {
            EventStreamState::Started => true,
            _ => false,
        }
    }
}

/// Mathematical image of an [`EventStream`]: the framing state, every event
/// dispatched so far, and how many of them have been handed out.
pub struct FramerModel {
    /// Whether the first char has been seen (a byte-order mark there is dropped).
    pub started: bool,
    /// Whether the transport has ended.
    pub terminated: bool,
    /// Chars of the current, still unterminated line.
    pub cur: Seq<char>,
    /// Whether the previous char was a CR, so that a following LF is swallowed.
    pub prev_cr: bool,
    /// The record under construction.
    pub builder: BuilderModel,
    /// Every event dispatched so far, oldest first.
    pub emitted: Seq<MessageEventModel>,
    /// How many of `emitted` have been handed out by `next_event`.
    pub taken: nat,
    /// The id of the most recently dispatched event (or the configured start value).
    pub last_event_id: Seq<char>,
}

/// A completed line is applied to the record builder; if the line completed
/// the record, the record is dispatched and the produced event (if any) is
/// appended to the output.
pub open spec fn spec_end_line(st: FramerModel) -> FramerModel {
    let l = spec_classify_line(st.cur);
    let b1 = spec_builder_add(st.builder, l);
    let st1 = FramerModel { cur: Seq::empty(), builder: b1, ..st };
    if b1.complete {
        let (b2, evo) = spec_builder_dispatch(b1);
        match evo {
            Some(em) => FramerModel { builder: b2, emitted: st1.emitted.push(em), ..st1 },
            None => FramerModel { builder: b2, ..st1 },
        }
    } else {
        st1
    }
}

/// One char of input, after byte-order-mark handling: LF or CR terminates
/// the current line (an LF right after a CR is swallowed), anything else
/// extends it.
pub open spec fn spec_feed_char_inner(st: FramerModel, c: char) -> FramerModel {
    if c == '\n' && st.prev_cr {
        FramerModel { prev_cr: false, ..st }
    } else if c == '\n' || c == '\r' {
        spec_end_line(FramerModel { prev_cr: c == '\r', ..st })
    } else {
        FramerModel { cur: st.cur.push(c), prev_cr: false, ..st }
    }
}

/// One char of input.  The very first char of the stream may be a
/// byte-order mark, which is dropped.
pub open spec fn spec_feed_char(st: FramerModel, c: char) -> FramerModel {
    if !st.started {
        let st1 = FramerModel { started: true, ..st };
        if c == '\u{feff}' {
            st1
        } else {
            spec_feed_char_inner(st1, c)
        }
    } else {
        spec_feed_char_inner(st, c)
    }
}

/// A chunk of input, one char at a time.
pub open spec fn spec_feed(st: FramerModel, s: Seq<char>) -> FramerModel
    decreases s.len(),
{
    if s.len() == 0 {
        st
    } else {
        spec_feed(spec_feed_char(st, s[0]), s.drop_first())
    }
}

/// Feeding a concatenation equals feeding the two pieces in turn: the
/// framer's outcome does not depend on how the input is cut into chunks.
pub proof fn lemma_feed_chunks(st: FramerModel, a: Seq<char>, b: Seq<char>)
    ensures
        spec_feed(st, a + b) == spec_feed(spec_feed(st, a), b),
    decreases a.len(),
{
    if a.len() == 0 {
        assert(a + b =~= b);
    } else {
        assert((a + b)[0] == a[0]);
        assert((a + b).drop_first() =~= a.drop_first() + b);
        lemma_feed_chunks(spec_feed_char(st, a[0]), a.drop_first(), b);
    }
}

proof fn lemma_feed_snoc(st: FramerModel, s: Seq<char>, c: char)
    ensures
        spec_feed(st, s.push(c)) == spec_feed_char(spec_feed(st, s), c),
{
    lemma_feed_chunks(st, s, seq![c]);
    assert(s.push(c) =~= s + seq![c]);
    let x = spec_feed(st, s);
    assert(seq![c][0] == c);
    assert(seq![c].drop_first() =~= Seq::<char>::empty());
    assert(spec_feed(x, seq![c]) == spec_feed(spec_feed_char(x, c), seq![c].drop_first()));
    assert(spec_feed(spec_feed_char(x, c), seq![c].drop_first()) == spec_feed_char(x, c));
}

/// Feeding text never touches the hand-out cursor or the termination flag,
/// and only appends to the dispatched events.
pub proof fn lemma_feed_taken(st: FramerModel, s: Seq<char>)
    ensures
        spec_feed(st, s).taken == st.taken,
        spec_feed(st, s).emitted.len() >= st.emitted.len(),
        spec_feed(st, s).terminated == st.terminated,
    decreases s.len(),
{
    if s.len() > 0 {
        lemma_feed_taken(spec_feed_char(st, s[0]), s.drop_first());
    }
}

/// The state a fresh framer starts from, with an empty last-event-id.
pub open spec fn initial_framer() -> FramerModel {
    FramerModel {
        started: false,
        terminated: false,
        cur: Seq::empty(),
        prev_cr: false,
        builder: BuilderModel {
            event: Seq::empty(),
            data: Seq::empty(),
            id: Seq::empty(),
            retry: None,
            complete: false,
        },
        emitted: Seq::empty(),
        taken: 0,
        last_event_id: Seq::empty(),
    }
}

/// An incremental SSE framer over text chunks.
///
/// Text is pushed in with [`feed_str`](EventStream::feed_str) and completed
/// records are taken out with [`next_event`](EventStream::next_event); how
/// the text was cut into chunks never changes the events produced.
#[derive(Debug)]
pub struct EventStream {
    started: bool,
    terminated: bool,
    cur: Vec<char>,
    prev_cr: bool,
    builder: EventBuilder,
    out: Vec<MessageEvent>,
    taken: usize,
    last_event_id: String,
}

impl View for EventStream {
    type V = FramerModel;

    closed spec fn view(&self) -> FramerModel {
        FramerModel {
            started: self.started,
            terminated: self.terminated,
            cur: self.cur@,
            prev_cr: self.prev_cr,
            builder: self.builder@,
            emitted: self.out@.map_values(|e: MessageEvent| e@),
            taken: self.taken as nat,
            last_event_id: self.last_event_id@,
        }
    }
}

impl EventStream {
    /// A fresh framer with nothing buffered.
    pub fn new() -> (s: EventStream)
        ensures
            s@ == initial_framer(),
    {
        let s = EventStream {
            started: false,
            terminated: false,
            cur: Vec::new(),
            prev_cr: false,
            builder: EventBuilder::new(),
            out: Vec::new(),
            taken: 0,
            last_event_id: String::new(),
        };
        proof {
            assert(s@.cur =~= initial_framer().cur);
            assert(s@.emitted =~= initial_framer().emitted);
            assert(s@.last_event_id =~= initial_framer().last_event_id);
        }
        s
    }

    /// Where the stream stands: not started, started, or terminated.
    pub fn state(&self) -> (r: EventStreamState)
        ensures
            r is Terminated <==> self@.terminated,
            !self@.terminated ==> (r is Started <==> self@.started),
    {
        if self.terminated {
            EventStreamState::Terminated
        } else if self.started {
            EventStreamState::Started
        } else {
            EventStreamState::NotStarted
        }
    }

    /// The id of the most recently dispatched event.
    pub fn last_event_id(&self) -> (r: &str)
        ensures
            r@ == self@.last_event_id,
    {
        self.last_event_id.as_str()
    }

    /// Seeds the last-event-id, as when resuming from a prior connection.
    pub fn set_last_event_id(&mut self, id: String)
        ensures
            final(self)@ == (FramerModel { last_event_id: id@, ..old(self)@ }),
    {
        self.last_event_id = id;
    }

    /// Marks the transport as ended: no more chunks will be fed.
    pub fn terminate(&mut self)
        ensures
            final(self)@ == (FramerModel { terminated: true, ..old(self)@ }),
    {
        self.terminated = true;
    }

    fn end_line(&mut self)
        ensures
            final(self)@ == spec_end_line(old(self)@),
    {
        let mut line: Vec<char> = Vec::new();
        core::mem::swap(&mut line, &mut self.cur);
        let raw = classify_line(&line);
        self.builder.add(raw);
        if self.builder.is_complete() {
            let dispatched = self.builder.dispatch();
            match dispatched {
                Some(ev) => {
                    let ghost prev = self.out@.map_values(|e: MessageEvent| e@);
                    let ghost evm = ev@;
                    self.out.push(ev);
                    proof {
                        assert(self.out@.map_values(|e: MessageEvent| e@) =~= prev.push(evm));
                    }
                },
                None => {},
            }
        }
    }

    fn feed_char(&mut self, c: char)
        requires
            old(self)@.started,
        ensures
            final(self)@ == spec_feed_char(old(self)@, c),
    {
        if c == '\n' && self.prev_cr {
            self.prev_cr = false;
        } else if c == '\n' || c == '\r' {
            self.prev_cr = c == '\r';
            self.end_line();
        } else {
            self.cur.push(c);
            self.prev_cr = false;
        }
    }

    /// Feeds one chunk of text into the framer.
    pub fn feed_str(&mut self, s: &str)
        ensures
            final(self)@ == spec_feed(old(self)@, s@),
    {
        let n = s.unicode_len();
        let mut i: usize = 0;
        while i < n
            invariant
                i <= n,
                n == s@.len(),
                self@ == spec_feed(old(self)@, s@.subrange(0, i as int)),
            decreases n - i,
        {
            let c = s.get_char(i);
            proof {
                assert(s@.subrange(0, i + 1).drop_last() =~= s@.subrange(0, i as int));
                assert(s@.subrange(0, i + 1) =~= s@.subrange(0, i as int).push(s@[i as int]));
                lemma_feed_snoc(old(self)@, s@.subrange(0, i as int), s@[i as int]);
            }
            if !self.started {
                self.started = true;
                if c != '\u{feff}' {
                    self.feed_char(c);
                }
            } else {
                self.feed_char(c);
            }
            i = i + 1;
        }
        proof {
            assert(s@.subrange(0, n as int) =~= s@);
        }
    }

    /// Hands out the next dispatched event, oldest first; the last-event-id
    /// follows the event handed out, so that a reconnect can resume from
    /// exactly what the caller has seen.
    pub fn next_event(&mut self) -> (r: Option<MessageEvent>)
        requires
            old(self)@.taken <= old(self)@.emitted.len(),
        ensures
            ({
                let st = old(self)@;
                if st.taken < st.emitted.len() {
                    match r {
                        Some(e) => e@ == st.emitted[st.taken as int] && final(self)@
                            == (FramerModel {
                            taken: st.taken + 1,
                            last_event_id: st.emitted[st.taken as int].id,
                            ..st
                        }),
                        None => false,
                    }
                } else {
                    r is None && final(self)@ == st
                }
            }),
    {
        if self.taken < self.out.len() {
            let e = self.out[self.taken].duplicate();
            self.last_event_id = e.id.clone();
            self.taken = self.taken + 1;
            Some(e)
        } else {
            None
        }
    }
}

/// A record holding one blank `data:` field and nothing else dispatches no
/// event: the blank value contributes only the separator line feed, which
/// the dispatch strips away, leaving empty data.
pub proof fn lemma_blank_data_record_dispatches_nothing(b: BuilderModel)
    requires
        b.data.len() == 0,
    ensures
        ({
            let b1 = spec_builder_add(b, LineModel::Field("data"@, Seq::empty()));
            let b2 = spec_builder_add(b1, LineModel::Empty);
            spec_builder_dispatch(b2).1 is None
        }),
{
    reveal_strlit("data");
    reveal_strlit("event");
    let b1 = spec_builder_add(b, LineModel::Field("data"@, Seq::empty()));
    assert("data"@ != "event"@) by {
        assert("data"@.len() == 4);
        assert("event"@.len() == 5);
    }
    assert(b1.data =~= b.data + Seq::<char>::empty() + seq!['\n']);
    assert(b1.data.len() == 1 && b1.data.last() == '\n');
    assert(strip_trailing_lf(b1.data) =~= Seq::<char>::empty());
}

/// A record whose final `data` field carries a non-blank value is dispatched
/// with data that does not end in a line feed: the one line feed appended
/// after that value is stripped again on dispatch.  (When the final `data`
/// field of a record with several of them is blank, the separator line feed
/// before it survives, as the SSE grammar asks.)
pub proof fn lemma_dispatch_no_trailing_lf(b: BuilderModel, v: Seq<char>)
    requires
        !v.contains('\n'),
        v.len() > 0,
    ensures
        ({
            let b1 = spec_builder_add(b, LineModel::Field("data"@, v));
            let b2 = spec_builder_add(b1, LineModel::Empty);
            match spec_builder_dispatch(b2).1 {
                Some(em) => em.data.len() > 0 && em.data.last() != '\n',
                None => false,
            }
        }),
{
    reveal_strlit("data");
    reveal_strlit("event");
    assert("data"@ != "event"@) by {
        assert("data"@.len() == 4);
        assert("event"@.len() == 5);
    }
    let b1 = spec_builder_add(b, LineModel::Field("data"@, v));
    assert(b1.data =~= b.data + v + seq!['\n']);
    assert(b1.data.last() == '\n');
    let stripped = strip_trailing_lf(b1.data);
    assert(stripped =~= b.data + v);
    assert(stripped.last() == v.last());
    assert(v.contains(v.last())) by {
        assert(v[v.len() - 1] == v.last());
    }
}

} // verus!
