//! The library's JSON model and the trusted parse into it.
//!
//! A payload's parse result is a function of its text alone, so it is
//! named: `json_of` stands for what the parser yields, and the one trusted
//! wrapper returns exactly that value, converted variant by variant into
//! the plain [`Json`] model.  Everything read out of a value — member
//! lookup, classification, serialization back to text — is verified
//! library logic over the model.

use vstd::prelude::*;

use vstd::string::{StrSliceExecFns, StringExecFns};

use crate::strutil::{chars_to_string, dec_digits, hex_digit, str_eq_str, u64_to_string};

verus! {

/// A JSON value, as plain data.
#[derive(Debug, PartialEq, Eq)]
pub enum Json {
    Null,
    Bool(bool),
    /// A number representable as a `u64`.
    Unsigned(u64),
    /// A number representable as an `i64` but not as a `u64` (so negative).
    Signed(i64),
    /// Any other number, carried as the text the parser spells it as.
    OtherNumber(String),
    Str(String),
    Array(Vec<Json>),
    /// Members in the parser's order (sorted by key, keys unique).
    Object(Vec<(String, Json)>),
}

#[verifier::external_type_specification]
#[verifier::external_body]
pub struct ExValue(serde_json::Value);

/// What parsing a text as JSON yields: the parsed value, or nothing when
/// the text is not well-formed JSON.  A function of the text alone.
pub uninterp spec fn json_of(s: Seq<char>) -> Option<Json>;

/// Relies on `serde_json::from_str::<Value>`: parses the text as one JSON
/// value — `json_of` names the result — or reports the parse error as
/// text.  The parser builds objects as maps sorted by key, so the result
/// depends on the text alone.
#[verifier::external_body]
pub fn parse_json(s: &str) -> (r: Result<Json, String>)
    ensures
        match r {
            Ok(j) => json_of(s@) == Some(j),
            Err(_) => json_of(s@) is None,
        },
{
    match serde_json::from_str::<serde_json::Value>(s) {
        Ok(v) => Ok(from_value(v)),
        Err(e) => Err(e.to_string()),
    }
}

/// Relies on `serde_json::Value`'s shape: converts it variant by variant,
/// one arm each, moving the fields.  A number keeps its `u64` or `i64`
/// value when it has one, else the text serde_json spells it as.
#[verifier::external_body]
fn from_value(v: serde_json::Value) -> Json {
    match v {
        serde_json::Value::Null => Json::Null,
        serde_json::Value::Bool(b) => Json::Bool(b),
        serde_json::Value::Number(n) => match (n.as_u64(), n.as_i64()) {
            (Some(u), _) => Json::Unsigned(u),
            (None, Some(i)) => Json::Signed(i),
            _ => Json::OtherNumber(n.to_string()),
        },
        serde_json::Value::String(s) => Json::Str(s),
        serde_json::Value::Array(a) => Json::Array(a.into_iter().map(from_value).collect()),
        serde_json::Value::Object(m) => Json::Object(
            m.into_iter().map(|(k, x)| (k, from_value(x))).collect(),
        ),
    }
}

/// The member under `key` in a list of object members: the first pair
/// whose key spells `key`.
pub open spec fn spec_pairs_get(pairs: Seq<(String, Json)>, key: Seq<char>) -> Option<Json>
    decreases pairs,
{
    if pairs.len() == 0 {
        None
    } else if pairs[0].0@ == key {
        Some(pairs[0].1)
    } else {
        spec_pairs_get(pairs.drop_first(), key)
    }
}

/// The member of a JSON object under `key`, or `None` when the value is no
/// object or has no such member.
pub open spec fn spec_obj_get(j: Json, key: Seq<char>) -> Option<Json> {
    match j {
        Json::Object(pairs) => spec_pairs_get(pairs@, key),
        _ => None,
    }
}

proof fn lemma_pairs_get_at(pairs: Seq<(String, Json)>, key: Seq<char>, i: int)
    requires
        0 <= i < pairs.len(),
        pairs[i].0@ == key,
        forall|k: int| 0 <= k < i ==> (#[trigger] pairs[k]).0@ != key,
    ensures
        spec_pairs_get(pairs, key) == Some(pairs[i].1),
    decreases i,
{
    if i > 0 {
        lemma_pairs_get_at(pairs.drop_first(), key, i - 1);
    }
}

proof fn lemma_pairs_get_none(pairs: Seq<(String, Json)>, key: Seq<char>)
    requires
        forall|k: int| 0 <= k < pairs.len() ==> (#[trigger] pairs[k]).0@ != key,
    ensures
        spec_pairs_get(pairs, key) is None,
    decreases pairs.len(),
{
    if pairs.len() > 0 {
        lemma_pairs_get_none(pairs.drop_first(), key);
    }
}

/// Looks up a member of a JSON object by key.
pub fn obj_get<'a>(j: &'a Json, key: &str) -> (r: Option<&'a Json>)
    ensures
        match r {
            Some(x) => spec_obj_get(*j, key@) == Some(*x),
            None => spec_obj_get(*j, key@) is None,
        },
{
    match j {
        Json::Object(pairs) => {
            let n = pairs.len();
            let mut i: usize = 0;
            while i < n
                invariant
                    i <= n,
                    n == pairs@.len(),
                    *j == Json::Object(*pairs),
                    forall|k: int| 0 <= k < i ==> (#[trigger] pairs@[k]).0@ != key@,
                decreases n - i,
            {
                if str_eq_str(pairs[i].0.as_str(), key) {
                    proof {
                        lemma_pairs_get_at(pairs@, key@, i as int);
                        assert(j->Object_0@ == pairs@);
                        assert(spec_obj_get(*j, key@) == spec_pairs_get(pairs@, key@));
                    }
                    return Some(&pairs[i].1);
                }
                i = i + 1;
            }
            proof {
                lemma_pairs_get_none(pairs@, key@);
            }
            None
        },
        _ => None,
    }
}

/// The string under an optional JSON value, when it is one.
pub open spec fn spec_as_str(o: Option<Json>) -> Option<String> {
    match o {
        Some(Json::Str(s)) => Some(s),
        _ => None,
    }
}

/// The number under an optional JSON value, when it is unsigned.
pub open spec fn spec_as_u64(o: Option<Json>) -> Option<u64> {
    match o {
        Some(Json::Unsigned(u)) => Some(u),
        _ => None,
    }
}

/// The elements under an optional JSON value, when it is an array;
/// anything else has none.
pub open spec fn spec_as_array(o: Option<Json>) -> Seq<Json> {
    match o {
        Some(Json::Array(v)) => v@,
        _ => Seq::empty(),
    }
}

/// The string member of a JSON object under `key`, when there is one.
pub fn get_str(j: &Json, key: &str) -> (r: Option<String>)
    ensures
        r == spec_as_str(spec_obj_get(*j, key@)),
{
    match obj_get(j, key) {
        Some(x) => match x {
            Json::Str(s) => Some(s.clone()),
            _ => None,
        },
        None => None,
    }
}

/// The unsigned number member of a JSON object under `key`, when there is
/// one.
pub fn get_u64(j: &Json, key: &str) -> (r: Option<u64>)
    ensures
        r == spec_as_u64(spec_obj_get(*j, key@)),
{
    match obj_get(j, key) {
        Some(x) => match x {
            Json::Unsigned(u) => Some(*u),
            _ => None,
        },
        None => None,
    }
}

/// How one char is spelled inside a JSON string: quote and backslash are
/// escaped, the named control chars take their short forms, any other
/// control char its `\u00..` form, and everything else stands as itself.
pub open spec fn esc_char(c: char) -> Seq<char> {
    if c == '"' {
        seq!['\\', '"']
    } else if c == '\\' {
        seq!['\\', '\\']
    } else if c == '\u{8}' {
        seq!['\\', 'b']
    } else if c == '\u{c}' {
        seq!['\\', 'f']
    } else if c == '\n' {
        seq!['\\', 'n']
    } else if c == '\r' {
        seq!['\\', 'r']
    } else if c == '\t' {
        seq!['\\', 't']
    } else if (c as u32) < 0x20 {
        seq!['\\', 'u', '0', '0', hex_digit((c as u32 / 16) as u8), hex_digit((c as u32 % 16) as u8)]
    } else {
        seq![c]
    }
}

/// A whole string escaped for JSON, char by char.
pub open spec fn spec_escaped(s: Seq<char>) -> Seq<char>
    decreases s.len(),
{
    if s.len() == 0 {
        Seq::empty()
    } else {
        spec_escaped(s.drop_last()) + esc_char(s.last())
    }
}

/// The text a JSON value spells as, in the compact form: no blanks,
/// members and elements joined by commas, strings escaped as
/// [`esc_char`] says, numbers in decimal.
pub open spec fn spec_json_text(j: Json) -> Seq<char>
    decreases j,
{
    match j {
        Json::Null => "null"@,
        Json::Bool(b) => if b {
            "true"@
        } else {
            "false"@
        },
        Json::Unsigned(u) => dec_digits(u as int),
        Json::Signed(i) => if i >= 0 {
            dec_digits(i as int)
        } else {
            seq!['-'] + dec_digits(-(i as int))
        },
        Json::OtherNumber(t) => t@,
        Json::Str(s) => seq!['"'] + spec_escaped(s@) + seq!['"'],
        Json::Array(items) => seq!['['] + spec_items_prefix(items@, items@.len() as int)
            + seq![']'],
        Json::Object(pairs) => seq!['{'] + spec_pairs_prefix(pairs@, pairs@.len() as int)
            + seq!['}'],
    }
}

/// The first `k` elements of an array, comma-joined.
pub open spec fn spec_items_prefix(items: Seq<Json>, k: int) -> Seq<char>
    decreases items, k,
{
    if k <= 0 || k > items.len() {
        Seq::empty()
    } else if k == 1 {
        spec_json_text(items[0])
    } else {
        spec_items_prefix(items, k - 1) + seq![','] + spec_json_text(items[k - 1])
    }
}

/// The first `k` members of an object, comma-joined, each as an escaped
/// key, a colon and the member's text.
pub open spec fn spec_pair_text(p: (String, Json)) -> Seq<char>
    decreases p,
{
    seq!['"'] + spec_escaped(p.0@) + seq!['"', ':'] + spec_json_text(p.1)
}

pub open spec fn spec_pairs_prefix(pairs: Seq<(String, Json)>, k: int) -> Seq<char>
    decreases pairs, k,
{
    if k <= 0 || k > pairs.len() {
        Seq::empty()
    } else if k == 1 {
        spec_pair_text(pairs[0])
    } else {
        spec_pairs_prefix(pairs, k - 1) + seq![','] + spec_pair_text(pairs[k - 1])
    }
}

/// Escapes a string for JSON.
fn escaped_chars(s: &str) -> (r: Vec<char>)
    ensures
        r@ == spec_escaped(s@),
{
    let n = s.unicode_len();
    let mut out: Vec<char> = Vec::new();
    let mut i: usize = 0;
    while i < n
        invariant
            i <= n,
            n == s@.len(),
            out@ == spec_escaped(s@.subrange(0, i as int)),
        decreases n - i,
    {
        let c = s.get_char(i);
        if c == '"' {
            out.push('\\');
            out.push('"');
        } else if c == '\\' {
            out.push('\\');
            out.push('\\');
        } else if c == '\u{8}' {
            out.push('\\');
            out.push('b');
        } else if c == '\u{c}' {
            out.push('\\');
            out.push('f');
        } else if c == '\n' {
            out.push('\\');
            out.push('n');
        } else if c == '\r' {
            out.push('\\');
            out.push('r');
        } else if c == '\t' {
            out.push('\\');
            out.push('t');
        } else if (c as u32) < 0x20 {
            out.push('\\');
            out.push('u');
            out.push('0');
            out.push('0');
            out.push(((if (c as u32) / 16 < 10 {
                48 + (c as u32) / 16
            } else {
                87 + (c as u32) / 16
            }) as u8) as char);
            out.push(((if (c as u32) % 16 < 10 {
                48 + (c as u32) % 16
            } else {
                87 + (c as u32) % 16
            }) as u8) as char);
        } else {
            out.push(c);
        }
        i = i + 1;
        proof {
            assert(s@.subrange(0, i as int).drop_last() =~= s@.subrange(0, i - 1));
            assert(s@.subrange(0, i as int).last() == s@[i - 1]);
            assert(out@ =~= spec_escaped(s@.subrange(0, i as int)));
        }
    }
    proof {
        assert(s@.subrange(0, n as int) =~= s@);
    }
    out
}

/// Spells a JSON value as text, exactly as [`spec_json_text`] says.
pub fn json_to_text(j: &Json) -> (r: String)
    ensures
        r@ == spec_json_text(*j),
    decreases *j,
{
    match j {
        Json::Null => String::from_str("null"),
        Json::Bool(b) => if *b {
            String::from_str("true")
        } else {
            String::from_str("false")
        },
        Json::Unsigned(u) => u64_to_string(*u),
        Json::Signed(i) => {
            if *i >= 0 {
                u64_to_string(*i as u64)
            } else {
                let m: u64 = if *i == i64::MIN {
                    9223372036854775808u64
                } else {
                    (-*i) as u64
                };
                proof {
                    assert(m as int == -(*i as int));
                }
                let digits = u64_to_string(m);
                let r = String::from_str("-").concat(digits.as_str());
                proof {
                    reveal_strlit("-");
                    assert(r@ =~= seq!['-'] + dec_digits(-(*i as int)));
                }
                r
            }
        },
        Json::OtherNumber(t) => t.clone(),
        Json::Str(s) => {
            let body = chars_to_string(&escaped_chars(s.as_str()));
            let r = String::from_str("\"").concat(body.as_str()).concat("\"");
            proof {
                reveal_strlit("\"");
                assert(r@ =~= seq!['"'] + spec_escaped(s@) + seq!['"']);
            }
            r
        },
        Json::Array(items) => {
            let n = items.len();
            let mut acc = String::from_str("[");
            proof {
                reveal_strlit("[");
                assert(acc@ =~= seq!['['] + spec_items_prefix(items@, 0));
            }
            let mut k: usize = 0;
            while k < n
                invariant
                    k <= n,
                    n == items@.len(),
                    *j == Json::Array(*items),
                    acc@ == seq!['['] + spec_items_prefix(items@, k as int),
                decreases n - k,
            {
                if k > 0 {
                    acc = acc.concat(",");
                }
                proof {
                    assert(j->Array_0@ == items@);
                    assert(decreases_to!(*j => j->Array_0));
                    assert(decreases_to!(j->Array_0 => j->Array_0@));
                    assert(decreases_to!(j->Array_0@ => j->Array_0@[k as int]));
                    assert(decreases_to!(*j => items@[k as int]));
                }
                let piece = json_to_text(&items[k]);
                acc = acc.concat(piece.as_str());
                k = k + 1;
                proof {
                    reveal_strlit(",");
                    assert(acc@ =~= seq!['['] + spec_items_prefix(items@, k as int));
                }
            }
            let r = acc.concat("]");
            proof {
                reveal_strlit("]");
                assert(r@ =~= seq!['['] + spec_items_prefix(items@, items@.len() as int)
                    + seq![']']);
            }
            r
        },
        Json::Object(pairs) => {
            let n = pairs.len();
            let mut acc = String::from_str("{");
            proof {
                reveal_strlit("{");
                assert(acc@ =~= seq!['{'] + spec_pairs_prefix(pairs@, 0));
            }
            let mut k: usize = 0;
            while k < n
                invariant
                    k <= n,
                    n == pairs@.len(),
                    *j == Json::Object(*pairs),
                    acc@ == seq!['{'] + spec_pairs_prefix(pairs@, k as int),
                decreases n - k,
            {
                if k > 0 {
                    acc = acc.concat(",");
                }
                let key_body = chars_to_string(&escaped_chars(pairs[k].0.as_str()));
                proof {
                    assert(j->Object_0@ == pairs@);
                    assert(decreases_to!(*j => j->Object_0));
                    assert(decreases_to!(j->Object_0 => j->Object_0@));
                    assert(decreases_to!(j->Object_0@ => j->Object_0@[k as int]));
                    assert(decreases_to!(j->Object_0@[k as int] => j->Object_0@[k as int].1));
                    assert(decreases_to!(*j => pairs@[k as int].1));
                }
                let piece = json_to_text(&pairs[k].1);
                acc = acc.concat("\"").concat(key_body.as_str()).concat("\":").concat(
                    piece.as_str(),
                );
                k = k + 1;
                proof {
                    reveal_strlit(",");
                    reveal_strlit("\"");
                    reveal_strlit("\":");
                    assert(seq!['"', ':'] =~= "\":"@);
                    assert(key_body@ == spec_escaped(pairs@[(k - 1) as int].0@));
                    assert(piece@ == spec_json_text(pairs@[(k - 1) as int].1));
                    assert(spec_pair_text(pairs@[(k - 1) as int]) =~= seq!['"'] + key_body@
                        + seq!['"', ':'] + piece@);
                    assert(acc@ =~= seq!['{'] + spec_pairs_prefix(pairs@, k as int));
                }
            }
            let r = acc.concat("}");
            proof {
                reveal_strlit("}");
                assert(r@ =~= seq!['{'] + spec_pairs_prefix(pairs@, pairs@.len() as int)
                    + seq!['}']);
            }
            r
        },
    }
}

} // verus!
