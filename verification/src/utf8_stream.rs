//! Incremental UTF-8 framing.
//!
//! Bytes arrive in arbitrary chunks; each poll decodes the longest prefix of
//! the buffered bytes that is valid UTF-8 and keeps the remainder (an
//! incomplete or invalid tail) for the next poll.  When the transport
//! closes, the leftover bytes are flushed as a final string, or reported as
//! an error when they are not valid UTF-8.

use vstd::prelude::*;
use vstd::utf8::*;

use crate::types::Poll;

verus! {

/// What one read of the underlying transport produced: a chunk of bytes,
/// a clean close, or a transport failure described by a message.
#[derive(Clone, Debug, PartialEq, Eq)]
pub enum ReadResult {
    Data(Vec<u8>),
    Closed,
    Failed(String),
}

/// Why the UTF-8 framer failed: leftover bytes that are not valid UTF-8 at
/// stream end, or an error of the underlying transport.
#[derive(Debug, PartialEq, Eq)]
pub enum Utf8StreamError<E> {
    /// The stream ended with these bytes buffered, and they are not valid UTF-8.
    Utf8(Vec<u8>),
    /// The underlying transport failed.
    Transport(E),
}

/// How far the greedy scalar-by-scalar scan gets from the front of `b`:
/// the length of the longest prefix of `b` made of whole, well-formed
/// UTF-8 scalar encodings.
pub open spec fn utf8_scan(b: Seq<u8>) -> int
    decreases b.len(),
{
    if valid_first_scalar(b) && pop_first_scalar(b).len() < b.len() {
        length_of_first_scalar(b) + utf8_scan(pop_first_scalar(b))
    } else {
        0
    }
}

proof fn lemma_first_scalar_len(b: Seq<u8>)
    requires
        valid_first_scalar(b),
    ensures
        1 <= length_of_first_scalar(b) <= b.len(),
        length_of_first_scalar(b) <= 4,
        pop_first_scalar(b).len() == b.len() - length_of_first_scalar(b),
{
}

proof fn lemma_first_scalar_agree(a: Seq<u8>, b: Seq<u8>)
    requires
        valid_first_scalar(a),
        b.len() >= length_of_first_scalar(a),
        forall|i: int| 0 <= i < length_of_first_scalar(a) ==> a[i] == b[i],
    ensures
        valid_first_scalar(b),
        length_of_first_scalar(b) == length_of_first_scalar(a),
        decode_first_scalar(b) == decode_first_scalar(a),
{
    lemma_first_scalar_len(a);
    assert(a[0] == b[0]);
}

proof fn lemma_take_first_scalar_valid(b: Seq<u8>)
    requires
        valid_first_scalar(b),
    ensures
        valid_utf8(take_first_scalar(b)),
        decode_utf8(take_first_scalar(b)) =~= seq![decode_first_scalar(b) as char],
{
    lemma_first_scalar_len(b);
    let w = length_of_first_scalar(b);
    let t = take_first_scalar(b);
    lemma_first_scalar_agree(b, t);
    assert(pop_first_scalar(t) =~= Seq::<u8>::empty());
    assert(valid_utf8(pop_first_scalar(t)));
    assert(valid_utf8(t));
    assert(decode_utf8(pop_first_scalar(t)) =~= Seq::<char>::empty());
}

/// The scan lands between 0 and `b.len()`; the prefix it accepts is valid
/// UTF-8; it stops only where no whole scalar encoding begins; and it
/// reaches the end exactly when the whole sequence is valid UTF-8.
pub proof fn lemma_scan_properties(b: Seq<u8>)
    ensures
        0 <= utf8_scan(b) <= b.len(),
        valid_utf8(b.subrange(0, utf8_scan(b))),
        utf8_scan(b) < b.len() ==> !valid_first_scalar(b.subrange(utf8_scan(b), b.len() as int)),
        valid_utf8(b) <==> utf8_scan(b) == b.len(),
    decreases b.len(),
{
    if valid_first_scalar(b) {
        lemma_first_scalar_len(b);
        let w = length_of_first_scalar(b);
        let p = pop_first_scalar(b);
        lemma_scan_properties(p);
        let s = utf8_scan(b);
        assert(s == w + utf8_scan(p));
        assert(p.subrange(0, utf8_scan(p)) =~= b.subrange(w, s));
        lemma_take_first_scalar_valid(b);
        valid_utf8_concat(take_first_scalar(b), b.subrange(w, s));
        assert(take_first_scalar(b) + b.subrange(w, s) =~= b.subrange(0, s));
        if s < b.len() {
            assert(p.subrange(utf8_scan(p), p.len() as int) =~= b.subrange(s, b.len() as int));
        }
        assert(valid_utf8(b) <==> valid_utf8(p));
    } else {
        assert(b.subrange(0, 0) =~= Seq::<u8>::empty());
        if b.len() > 0 {
            assert(b.subrange(0, b.len() as int) =~= b);
        }
    }
}

/// Scanning a valid sequence followed by anything passes cleanly through
/// the valid part.
pub proof fn lemma_scan_concat(v: Seq<u8>, t: Seq<u8>)
    requires
        valid_utf8(v),
    ensures
        utf8_scan(v + t) == v.len() + utf8_scan(t),
    decreases v.len(),
{
    if v.len() == 0 {
        assert(v + t =~= t);
    } else {
        lemma_first_scalar_len(v);
        let w = length_of_first_scalar(v);
        assert(forall|i: int| 0 <= i < w ==> v[i] == (v + t)[i]);
        lemma_first_scalar_agree(v, v + t);
        assert(pop_first_scalar(v + t) =~= pop_first_scalar(v) + t);
        lemma_first_scalar_len(v + t);
        lemma_scan_concat(pop_first_scalar(v), t);
    }
}

/// Decoding distributes over concatenation of valid UTF-8 sequences.
pub proof fn lemma_decode_concat(v: Seq<u8>, t: Seq<u8>)
    requires
        valid_utf8(v),
        valid_utf8(t),
    ensures
        valid_utf8(v + t),
        decode_utf8(v + t) == decode_utf8(v) + decode_utf8(t),
    decreases v.len(),
{
    valid_utf8_concat(v, t);
    if v.len() == 0 {
        assert(v + t =~= t);
        assert(decode_utf8(v) =~= Seq::<char>::empty());
        assert(decode_utf8(v) + decode_utf8(t) =~= decode_utf8(t));
    } else {
        lemma_first_scalar_len(v);
        let w = length_of_first_scalar(v);
        assert(forall|i: int| 0 <= i < w ==> v[i] == (v + t)[i]);
        lemma_first_scalar_agree(v, v + t);
        assert(pop_first_scalar(v + t) =~= pop_first_scalar(v) + t);
        lemma_decode_concat(pop_first_scalar(v), t);
        assert(decode_utf8(v + t) == seq![decode_first_scalar(v + t) as char] + decode_utf8(
            pop_first_scalar(v + t),
        ));
        assert(decode_utf8(v) + decode_utf8(t) =~= seq![decode_first_scalar(v) as char] + (
        decode_utf8(pop_first_scalar(v)) + decode_utf8(t)));
    }
}

/// What one poll of the framer does to `buf` when the chunk `c` arrives:
/// the new leftover bytes and the decoded text handed out.
pub open spec fn spec_chunk_step(buf: Seq<u8>, c: Seq<u8>) -> (Seq<u8>, Seq<char>) {
    let all = buf + c;
    let p = utf8_scan(all);
    (all.subrange(p, all.len() as int), decode_utf8(all.subrange(0, p)))
}

/// Split-invariance: feeding two chunks one after the other hands out the
/// same text, and leaves the same bytes buffered, as feeding their
/// concatenation at once.
pub proof fn lemma_split_invariance(buf: Seq<u8>, c1: Seq<u8>, c2: Seq<u8>)
    ensures
        ({
            let (r1, e1) = spec_chunk_step(buf, c1);
            let (r2, e2) = spec_chunk_step(r1, c2);
            let (r, e) = spec_chunk_step(buf, c1 + c2);
            r == r2 && e == e1 + e2
        }),
{
    let all1 = buf + c1;
    let p1 = utf8_scan(all1);
    lemma_scan_properties(all1);
    let head1 = all1.subrange(0, p1);
    let rest1 = all1.subrange(p1, all1.len() as int);
    let all2 = rest1 + c2;
    let p2 = utf8_scan(all2);
    lemma_scan_properties(all2);
    let all = buf + (c1 + c2);
    assert(all =~= head1 + all2);
    lemma_scan_concat(head1, all2);
    assert(utf8_scan(all) == p1 + p2);
    assert(all.subrange(p1 + p2, all.len() as int) =~= all2.subrange(p2, all2.len() as int));
    assert(all.subrange(0, p1 + p2) =~= head1 + all2.subrange(0, p2));
    lemma_decode_concat(head1, all2.subrange(0, p2));
}

/// Checks whether a whole, well-formed UTF-8 scalar encoding begins at
/// offset `i` of `b`, and if so how many bytes it spans.
fn check_scalar_at(b: &Vec<u8>, i: usize) -> (r: Option<usize>)
    requires
        i < b@.len(),
    ensures
        ({
            let tail = b@.subrange(i as int, b@.len() as int);
            match r {
                Some(w) => valid_first_scalar(tail) && w == length_of_first_scalar(tail) && i + w
                    <= b@.len(),
                None => !valid_first_scalar(tail),
            }
        }),
{
    let ghost tail = b@.subrange(i as int, b@.len() as int);
    let n = b.len();
    let b0 = b[i];
    proof {
        assert(tail[0] == b0);
        assert(tail.len() == n - i);
    }
    if b0 <= 0x7f {
        proof {
            assert(is_leading_byte_width_1(b0));
            assert(decode_first_codepoint(tail) == codepoint_width_1(b0));
            assert((b0 & 0x7f) == b0 && (b0 & 0x7f) <= 0x7f) by (bit_vector)
                requires
                    b0 <= 0x7f,
            ;
            assert(not_surrogate(codepoint_width_1(b0)));
        }
        Some(1)
    } else if 0xc2 <= b0 && b0 <= 0xdf {
        if i + 1 < n && 0x80 <= b[i + 1] && b[i + 1] <= 0xbf {
            let b1 = b[i + 1];
            proof {
                assert(tail[1] == b1);
                assert(is_leading_byte_width_2(b0) && is_continuation_byte(b1));
                assert(length_of_first_codepoint(tail) == 2);
                let cp = ((b0 & 0x1f) as u32) << 6 | ((b1 & 0x3f) as u32);
                assert(codepoint_width_2(b0, b1) == cp);
                assert(0x80 <= cp && cp <= 0x7ff) by (bit_vector)
                    requires
                        0xc2 <= b0 && b0 <= 0xdf && 0x80 <= b1 && b1 <= 0xbf && cp == ((b0
                            & 0x1f) as u32) << 6 | ((b1 & 0x3f) as u32),
                ;
            }
            Some(2)
        } else {
            proof {
                if tail.len() >= 2 && is_continuation_byte(tail[1]) {
                    assert(tail[1] == b@[i + 1]);
                }
            }
            None
        }
    } else if 0xe0 <= b0 && b0 <= 0xef {
        if n - i > 2 && 0x80 <= b[i + 1] && b[i + 1] <= 0xbf && 0x80 <= b[i + 2] && b[i + 2]
            <= 0xbf && !(b0 == 0xe0 && b[i + 1] < 0xa0) && !(b0 == 0xed && b[i + 1] > 0x9f) {
            let b1 = b[i + 1];
            let b2 = b[i + 2];
            proof {
                assert(tail[1] == b1 && tail[2] == b2);
                assert(is_leading_byte_width_3(b0));
                assert(!is_leading_byte_width_1(b0) && !is_leading_byte_width_2(b0));
                assert(length_of_first_codepoint(tail) == 3);
                let cp = ((b0 & 0x0f) as u32) << 12 | ((b1 & 0x3f) as u32) << 6 | ((b2
                    & 0x3f) as u32);
                assert(codepoint_width_3(b0, b1, b2) == cp);
                assert(0x800 <= cp && !(0xd800 <= cp && cp <= 0xdfff)) by (bit_vector)
                    requires
                        0xe0 <= b0 && b0 <= 0xef && 0x80 <= b1 && b1 <= 0xbf && 0x80 <= b2 && b2
                            <= 0xbf && !(b0 == 0xe0 && b1 < 0xa0) && !(b0 == 0xed && b1 > 0x9f)
                            && cp == ((b0 & 0x0f) as u32) << 12 | ((b1 & 0x3f) as u32) << 6 | ((b2
                            & 0x3f) as u32),
                ;
            }
            Some(3)
        } else {
            proof {
                if tail.len() >= 3 && is_continuation_byte(tail[1]) && is_continuation_byte(
                    tail[2],
                ) {
                    let b1 = b@[i + 1];
                    let b2 = b@[i + 2];
                    assert(tail[1] == b1 && tail[2] == b2);
                    let cp = ((b0 & 0x0f) as u32) << 12 | ((b1 & 0x3f) as u32) << 6 | ((b2
                        & 0x3f) as u32);
                    assert(codepoint_width_3(b0, b1, b2) == cp);
                    if b0 == 0xe0 && b1 < 0xa0 {
                        assert(cp < 0x800) by (bit_vector)
                            requires
                                b0 == 0xe0 && 0x80 <= b1 && b1 < 0xa0 && 0x80 <= b2 && b2 <= 0xbf
                                    && cp == ((b0 & 0x0f) as u32) << 12 | ((b1
                                    & 0x3f) as u32) << 6 | ((b2 & 0x3f) as u32),
                        ;
                    } else if b0 == 0xed && b1 > 0x9f {
                        assert(0xd800 <= cp && cp <= 0xdfff) by (bit_vector)
                            requires
                                b0 == 0xed && 0x9f < b1 && b1 <= 0xbf && 0x80 <= b2 && b2 <= 0xbf
                                    && cp == ((b0 & 0x0f) as u32) << 12 | ((b1
                                    & 0x3f) as u32) << 6 | ((b2 & 0x3f) as u32),
                        ;
                    }
                }
            }
            None
        }
    } else if 0xf0 <= b0 && b0 <= 0xf4 {
        if n - i > 3 && 0x80 <= b[i + 1] && b[i + 1] <= 0xbf && 0x80 <= b[i + 2] && b[i + 2]
            <= 0xbf && 0x80 <= b[i + 3] && b[i + 3] <= 0xbf && !(b0 == 0xf0 && b[i + 1] < 0x90)
            && !(b0 == 0xf4 && b[i + 1] > 0x8f) {
            let b1 = b[i + 1];
            let b2 = b[i + 2];
            let b3 = b[i + 3];
            proof {
                assert(tail[1] == b1 && tail[2] == b2 && tail[3] == b3);
                assert(is_leading_byte_width_4(b0));
                assert(!is_leading_byte_width_1(b0) && !is_leading_byte_width_2(b0)
                    && !is_leading_byte_width_3(b0));
                assert(length_of_first_codepoint(tail) == 4);
                let cp = ((b0 & 0x07) as u32) << 18 | ((b1 & 0x3f) as u32) << 12 | ((b2
                    & 0x3f) as u32) << 6 | ((b3 & 0x3f) as u32);
                assert(codepoint_width_4(b0, b1, b2, b3) == cp);
                assert(0x10000 <= cp && cp <= 0x10ffff) by (bit_vector)
                    requires
                        0xf0 <= b0 && b0 <= 0xf4 && 0x80 <= b1 && b1 <= 0xbf && 0x80 <= b2 && b2
                            <= 0xbf && 0x80 <= b3 && b3 <= 0xbf && !(b0 == 0xf0 && b1 < 0x90) && !(
                        b0 == 0xf4 && b1 > 0x8f) && cp == ((b0 & 0x07) as u32) << 18 | ((b1
                            & 0x3f) as u32) << 12 | ((b2 & 0x3f) as u32) << 6 | ((b3
                            & 0x3f) as u32),
                ;
            }
            Some(4)
        } else {
            proof {
                if tail.len() >= 4 && is_continuation_byte(tail[1]) && is_continuation_byte(
                    tail[2],
                ) && is_continuation_byte(tail[3]) {
                    let b1 = b@[i + 1];
                    let b2 = b@[i + 2];
                    let b3 = b@[i + 3];
                    assert(tail[1] == b1 && tail[2] == b2 && tail[3] == b3);
                    let cp = ((b0 & 0x07) as u32) << 18 | ((b1 & 0x3f) as u32) << 12 | ((b2
                        & 0x3f) as u32) << 6 | ((b3 & 0x3f) as u32);
                    assert(codepoint_width_4(b0, b1, b2, b3) == cp);
                    if b0 == 0xf0 && b1 < 0x90 {
                        assert(cp < 0x10000) by (bit_vector)
                            requires
                                b0 == 0xf0 && 0x80 <= b1 && b1 < 0x90 && cp == ((b0
                                    & 0x07) as u32) << 18 | ((b1 & 0x3f) as u32) << 12 | ((b2
                                    & 0x3f) as u32) << 6 | ((b3 & 0x3f) as u32),
                        ;
                    } else if b0 == 0xf4 && b1 > 0x8f {
                        assert(cp > 0x10ffff) by (bit_vector)
                            requires
                                b0 == 0xf4 && 0x8f < b1 && b1 <= 0xbf && cp == ((b0
                                    & 0x07) as u32) << 18 | ((b1 & 0x3f) as u32) << 12 | ((b2
                                    & 0x3f) as u32) << 6 | ((b3 & 0x3f) as u32),
                        ;
                    }
                }
            }
            None
        }
    } else {
        // continuation bytes (0x80..0xbf), overlong leads (0xc0, 0xc1),
        // out-of-range leads (0xf5..0xff)
        proof {
            if 0xc0 <= b0 && b0 <= 0xc1 {
                if tail.len() >= 2 && is_continuation_byte(tail[1]) {
                    let b1 = b@[i + 1];
                    assert(tail[1] == b1);
                    let cp = ((b0 & 0x1f) as u32) << 6 | ((b1 & 0x3f) as u32);
                    assert(codepoint_width_2(b0, b1) == cp);
                    assert(cp < 0x80) by (bit_vector)
                        requires
                            0xc0 <= b0 && b0 <= 0xc1 && 0x80 <= b1 && b1 <= 0xbf && cp == ((b0
                                & 0x1f) as u32) << 6 | ((b1 & 0x3f) as u32),
                    ;
                }
            } else if 0xf5 <= b0 && b0 <= 0xf7 {
                if tail.len() >= 4 && is_continuation_byte(tail[1]) && is_continuation_byte(
                    tail[2],
                ) && is_continuation_byte(tail[3]) {
                    let b1 = b@[i + 1];
                    let b2 = b@[i + 2];
                    let b3 = b@[i + 3];
                    assert(tail[1] == b1 && tail[2] == b2 && tail[3] == b3);
                    let cp = ((b0 & 0x07) as u32) << 18 | ((b1 & 0x3f) as u32) << 12 | ((b2
                        & 0x3f) as u32) << 6 | ((b3 & 0x3f) as u32);
                    assert(codepoint_width_4(b0, b1, b2, b3) == cp);
                    assert(cp > 0x10ffff) by (bit_vector)
                        requires
                            0xf5 <= b0 && b0 <= 0xf7 && cp == ((b0 & 0x07) as u32) << 18 | ((b1
                                & 0x3f) as u32) << 12 | ((b2 & 0x3f) as u32) << 6 | ((b3
                                & 0x3f) as u32),
                    ;
                }
            }
        }
        None
    }
}

/// Length of the longest prefix of `b` made of whole, well-formed UTF-8
/// scalar encodings.
pub fn find_valid_prefix(b: &Vec<u8>) -> (p: usize)
    ensures
        p as int == utf8_scan(b@),
        valid_utf8(b@.subrange(0, p as int)),
        p as int <= b@.len(),
{
    let n = b.len();
    let mut i: usize = 0;
    proof {
        lemma_scan_properties(b@);
        assert(b@.subrange(0, n as int) =~= b@);
    }
    while i < n
        invariant
            i <= n,
            n == b@.len(),
            utf8_scan(b@) == i + utf8_scan(b@.subrange(i as int, n as int)),
            valid_utf8(b@.subrange(0, utf8_scan(b@))),
            0 <= utf8_scan(b@) <= n,
        decreases n - i,
    {
        let ghost tail = b@.subrange(i as int, n as int);
        match check_scalar_at(b, i) {
            Some(w) => {
                proof {
                    lemma_first_scalar_len(tail);
                    assert(pop_first_scalar(tail) =~= b@.subrange(i + w, n as int));
                    assert(utf8_scan(tail) == w + utf8_scan(b@.subrange(i + w, n as int)));
                    lemma_scan_properties(b@.subrange(i + w, n as int));
                }
                i = i + w;
            },
            None => {
                proof {
                    assert(utf8_scan(tail) == 0);
                    assert(utf8_scan(b@) == i as int);
                }
                return i;
            },
        }
    }
    proof {
        assert(b@.subrange(i as int, n as int) =~= Seq::<u8>::empty());
        assert(utf8_scan(b@) == i as int);
    }
    i
}

/// Relies on `String::from_utf8`: for valid UTF-8 input it returns `Ok`
/// with the string whose byte encoding is exactly the input.
#[verifier::external_body]
fn utf8_to_string(v: Vec<u8>) -> (s: String)
    requires
        valid_utf8(v@),
    ensures
        encode_utf8(s@) == v@,
        s@ == decode_utf8(v@),
{
    String::from_utf8(v).unwrap()
}

/// Mathematical image of a [`Utf8Stream`]: the bytes held back and whether
/// the transport has closed.
pub struct Utf8StreamModel {
    pub buffer: Seq<u8>,
    pub terminated: bool,
}

/// Incremental UTF-8 framer over one byte transport.
///
/// Each poll is handed what the transport produced (or `None` when it was
/// not ready) and yields the longest decodable prefix of the buffered
/// bytes, holding the rest back until more bytes arrive.
#[derive(Debug)]
pub struct Utf8Stream {
    buffer: Vec<u8>,
    terminated: bool,
}

impl View for Utf8Stream {
    type V = Utf8StreamModel;

    closed spec fn view(&self) -> Utf8StreamModel {
        Utf8StreamModel { buffer: self.buffer@, terminated: self.terminated }
    }
}

impl Utf8Stream {
    /// A fresh framer with nothing buffered.
    pub fn new() -> (s: Utf8Stream)
        ensures
            s@.buffer.len() == 0,
            !s@.terminated,
    {
        Utf8Stream { buffer: Vec::new(), terminated: false }
    }

    /// One non-blocking poll.  A `Data` chunk is appended to the buffer and
    /// the longest valid UTF-8 prefix of the whole buffer is returned, the
    /// incomplete or invalid tail staying buffered.  A `Closed` read flushes
    /// the leftover bytes as a final string, or fails when they are not
    /// valid UTF-8.  A `Failed` read surfaces the transport error and the
    /// stream stays usable.  Without a read, or after the close, the poll
    /// is `Pending`.
    pub fn poll_next(&mut self, read: Option<ReadResult>) -> (r: Poll<
        Option<Result<String, Utf8StreamError<String>>>,
    >)
        ensures
            ({
                let st = old(self)@;
                let stf = final(self)@;
                match read {
                    None => r == Poll::<
                        Option<Result<String, Utf8StreamError<String>>>,
                    >::Pending && stf == st,
                    Some(rr) => {
                        if st.terminated {
                            r == Poll::<
                                Option<Result<String, Utf8StreamError<String>>>,
                            >::Pending && stf == st
                        } else {
                            match rr {
                                ReadResult::Data(bytes) => {
                                    let (rest, text) = spec_chunk_step(st.buffer, bytes@);
                                    &&& stf.buffer == rest
                                    &&& stf.terminated == false
                                    &&& match r {
                                        Poll::Ready(Some(Ok(s))) => s@ == text,
                                        _ => false,
                                    }
                                },
                                ReadResult::Closed => {
                                    &&& stf.terminated
                                    &&& if st.buffer.len() == 0 {
                                        stf.buffer.len() == 0 && r matches Poll::Ready(None)
                                    } else if valid_utf8(st.buffer) {
                                        stf.buffer.len() == 0 && match r {
                                            Poll::Ready(Some(Ok(s))) => s@ == decode_utf8(
                                                st.buffer,
                                            ),
                                            _ => false,
                                        }
                                    } else {
                                        stf.buffer.len() == 0 && match r {
                                            Poll::Ready(
                                                Some(Err(Utf8StreamError::Utf8(bad))),
                                            ) => bad@ == st.buffer,
                                            _ => false,
                                        }
                                    }
                                },
                                ReadResult::Failed(m) => stf == st && match r {
                                    Poll::Ready(
                                        Some(Err(Utf8StreamError::Transport(m2))),
                                    ) => m2@ == m@,
                                    _ => false,
                                },
                            }
                        }
                    },
                }
            }),
    {
        match read {
            None => Poll::Pending,
            Some(rr) => {
                if self.terminated {
                    return Poll::Pending;
                }
                match rr {
                    ReadResult::Data(bytes) => {
                        let ghost all = old(self)@.buffer + bytes@;
                        let m = bytes.len();
                        let mut k: usize = 0;
                        while k < m
                            invariant
                                k <= m,
                                m == bytes@.len(),
                                self.buffer@ == old(self)@.buffer + bytes@.subrange(0, k as int),
                                self.terminated == old(self)@.terminated,
                            decreases m - k,
                        {
                            let byte = bytes[k];
                            self.buffer.push(byte);
                            k = k + 1;
                            proof {
                                assert(self.buffer@ =~= old(self)@.buffer + bytes@.subrange(
                                    0,
                                    k as int,
                                ));
                            }
                        }
                        proof {
                            assert(self.buffer@ =~= all);
                        }
                        let p = find_valid_prefix(&self.buffer);
                        let mut head = self.buffer.split_off(p);
                        core::mem::swap(&mut head, &mut self.buffer);
                        let s = utf8_to_string(head);
                        Poll::Ready(Some(Ok(s)))
                    },
                    ReadResult::Closed => {
                        self.terminated = true;
                        if self.buffer.len() == 0 {
                            Poll::Ready(None)
                        } else {
                            let p = find_valid_prefix(&self.buffer);
                            let mut flushed: Vec<u8> = Vec::new();
                            core::mem::swap(&mut flushed, &mut self.buffer);
                            if p == flushed.len() {
                                proof {
                                    assert(flushed@.subrange(0, p as int) =~= flushed@);
                                }
                                Poll::Ready(Some(Ok(utf8_to_string(flushed))))
                            } else {
                                proof {
                                    lemma_scan_properties(flushed@);
                                }
                                Poll::Ready(Some(Err(Utf8StreamError::Utf8(flushed))))
                            }
                        }
                    },
                    ReadResult::Failed(m) => Poll::Ready(
                        Some(Err(Utf8StreamError::Transport(m))),
                    ),
                }
            },
        }
    }
}

} // verus!

