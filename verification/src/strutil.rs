//! Small helpers for moving between `Vec<char>` buffers (on which the
//! framing layers do their verified work) and `String`/`&str` values (which
//! the public API exposes).

use vstd::prelude::*;

verus! {

/// Relies on `String: FromIterator<char>`: collecting an iterator of chars
/// yields a string holding exactly those chars in order.
#[verifier::external_body]
pub fn chars_to_string(v: &Vec<char>) -> (s: String)
    ensures
        s@ == v@,
{
    v.iter().collect()
}

/// Appends every char of `s` to `buf`.
pub fn push_str_chars(buf: &mut Vec<char>, s: &str)
    ensures
        final(buf)@ == old(buf)@ + s@,
{
    let n = s.unicode_len();
    let mut i: usize = 0;
    while i < n
        invariant
            i <= n,
            n == s@.len(),
            buf@ == old(buf)@ + s@.subrange(0, i as int),
        decreases n - i,
    {
        let c = s.get_char(i);
        buf.push(c);
        i = i + 1;
        proof {
            assert(buf@ =~= old(buf)@ + s@.subrange(0, i as int));
        }
    }
    proof {
        assert(buf@ =~= old(buf)@ + s@);
    }
}

/// The chars of `s`, as a fresh vector.
pub fn str_to_chars(s: &str) -> (v: Vec<char>)
    ensures
        v@ == s@,
{
    let mut v: Vec<char> = Vec::new();
    push_str_chars(&mut v, s);
    proof {
        assert(v@ =~= s@);
    }
    v
}

/// True exactly when some element of `v` is `k`.
pub fn contains_u64(v: &Vec<u64>, k: u64) -> (r: bool)
    ensures
        r == v@.contains(k),
{
    let n = v.len();
    let mut i: usize = 0;
    while i < n
        invariant
            i <= n,
            n == v@.len(),
            forall|j: int| 0 <= j < i ==> v@[j] != k,
        decreases n - i,
    {
        if v[i] == k {
            return true;
        }
        i = i + 1;
    }
    false
}

/// True exactly when some char of `v` is `c`.
pub fn contains_char(v: &Vec<char>, c: char) -> (r: bool)
    ensures
        r == v@.contains(c),
{
    let n = v.len();
    let mut i: usize = 0;
    while i < n
        invariant
            i <= n,
            n == v@.len(),
            forall|j: int| 0 <= j < i ==> v@[j] != c,
        decreases n - i,
    {
        if v[i] == c {
            return true;
        }
        i = i + 1;
    }
    false
}

/// True when `e` starts with the prefix `p`.
pub open spec fn has_prefix(e: Seq<char>, p: Seq<char>) -> bool {
    e.len() >= p.len() && e.subrange(0, p.len() as int) == p
}

/// The lowercase hex digit of a value below 16.
pub open spec fn hex_digit(n: u8) -> char
    recommends
        n < 16,
{
    if n < 10 {
        ((48 + n) as u8) as char
    } else {
        ((87 + n) as u8) as char
    }
}

/// The decimal digit char of a value below ten.
pub open spec fn digit_char(n: int) -> char
    recommends
        0 <= n < 10,
{
    ((48 + n) as u8) as char
}

/// The decimal spelling of a non-negative number, most significant digit
/// first, without leading zeros (zero itself spells `0`).
pub open spec fn dec_digits(n: int) -> Seq<char>
    recommends
        n >= 0,
    decreases n,
{
    if n < 10 {
        seq![digit_char(n)]
    } else {
        dec_digits(n / 10) + seq![digit_char(n % 10)]
    }
}

/// Spells a number in decimal.
pub fn u64_to_string(n: u64) -> (r: String)
    ensures
        r@ == dec_digits(n as int),
{
    if n == 0 {
        let mut v: Vec<char> = Vec::new();
        v.push('0');
        proof {
            assert(digit_char(0) == '0');
            assert(v@ =~= dec_digits(0));
        }
        return chars_to_string(&v);
    }
    let mut rev: Vec<char> = Vec::new();
    let mut x: u64 = n;
    while x > 0
        invariant
            x > 0 ==> dec_digits(n as int) == dec_digits(x as int) + rev@.reverse(),
            x == 0 ==> dec_digits(n as int) == rev@.reverse(),
        decreases x,
    {
        let d: u64 = x % 10;
        let c: char = ((48 + d) as u8) as char;
        proof {
            assert(c == digit_char(d as int));
        }
        let ghost rev_old = rev@;
        rev.push(c);
        x = x / 10;
        proof {
            assert(rev@.reverse() =~= seq![c] + rev_old.reverse());
            if x > 0 {
                assert(dec_digits((x * 10 + d) as int) == dec_digits(x as int) + seq![
                    digit_char(d as int),
                ]);
                assert(dec_digits(x as int) + seq![digit_char(d as int)] + rev_old.reverse()
                    =~= dec_digits(x as int) + (seq![c] + rev_old.reverse()));
            } else {
                assert(dec_digits(d as int) == seq![digit_char(d as int)]);
                assert(seq![digit_char(d as int)] + rev_old.reverse() =~= seq![c]
                    + rev_old.reverse());
            }
        }
    }
    let m = rev.len();
    let mut out: Vec<char> = Vec::new();
    let mut i: usize = 0;
    while i < m
        invariant
            i <= m,
            m == rev@.len(),
            out@.len() == i,
            forall|j: int| 0 <= j < i ==> out@[j] == rev@[m - 1 - j],
        decreases m - i,
    {
        out.push(rev[m - 1 - i]);
        i = i + 1;
    }
    proof {
        assert(out@ =~= rev@.reverse());
    }
    chars_to_string(&out)
}

/// True exactly when the two strings spell the same char sequence.
pub fn str_eq_str(a: &str, b: &str) -> (r: bool)
    ensures
        r == (a@ == b@),
{
    let na = a.unicode_len();
    let nb = b.unicode_len();
    if na != nb {
        proof {
            assert(a@.len() != b@.len());
        }
        return false;
    }
    let mut i: usize = 0;
    while i < na
        invariant
            i <= na,
            na == a@.len(),
            na == b@.len(),
            forall|j: int| 0 <= j < i ==> a@[j] == b@[j],
        decreases na - i,
    {
        if a.get_char(i) != b.get_char(i) {
            return false;
        }
        i = i + 1;
    }
    proof {
        assert(a@ =~= b@);
    }
    true
}

/// True exactly when the chars of `v` spell the same sequence as `s`.
pub fn chars_eq_str(v: &Vec<char>, s: &str) -> (r: bool)
    ensures
        r == (v@ == s@),
{
    let n = s.unicode_len();
    if v.len() != n {
        proof {
            assert(v@.len() != s@.len());
        }
        return false;
    }
    let mut i: usize = 0;
    while i < n
        invariant
            i <= n,
            n == s@.len(),
            v@.len() == n,
            forall|j: int| 0 <= j < i ==> v@[j] == s@[j],
        decreases n - i,
    {
        if v[i] != s.get_char(i) {
            return false;
        }
        i = i + 1;
    }
    proof {
        assert(v@ =~= s@);
    }
    true
}

} // verus!
