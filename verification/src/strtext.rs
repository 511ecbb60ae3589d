//! Text helpers over `&str`: trimming, splitting on a separator, equality,
//! and prefix tests, each specified over sequences of characters.

use vstd::prelude::*;
use vstd::string::StrSliceExecFns;
use vstd::string::StringExecFns;
use crate::numtext::find_index;

verus! {

/// ASCII whitespace characters stripped by `trim`.
pub open spec fn is_ascii_ws(c: char) -> bool {
    c == ' ' || c == '\t' || c == '\n' || c == '\r' || c == '\u{0B}' || c == '\u{0C}'
}

/// `s` without leading ASCII whitespace.
pub open spec fn ltrim_seq(s: Seq<char>) -> Seq<char>
    decreases s.len(),
{
    if s.len() > 0 && is_ascii_ws(s[0]) {
        ltrim_seq(s.drop_first())
    } else {
        s
    }
}

/// `s` without trailing ASCII whitespace.
pub open spec fn rtrim_seq(s: Seq<char>) -> Seq<char>
    decreases s.len(),
{
    if s.len() > 0 && is_ascii_ws(s.last()) {
        rtrim_seq(s.drop_last())
    } else {
        s
    }
}

/// `s` without leading and trailing ASCII whitespace.
pub open spec fn trim_seq(s: Seq<char>) -> Seq<char> {
    rtrim_seq(ltrim_seq(s))
}

/// Left trimming keeps the part from the first non-whitespace character on.
proof fn lemma_ltrim_at(s: Seq<char>, lo: int)
    requires
        0 <= lo <= s.len(),
        forall|j: int| 0 <= j < lo ==> is_ascii_ws(#[trigger] s[j]),
        lo < s.len() ==> !is_ascii_ws(s[lo]),
    ensures
        ltrim_seq(s) =~= s.subrange(lo, s.len() as int),
    decreases s.len(),
{
    if s.len() > 0 && is_ascii_ws(s[0]) {
        let t = s.drop_first();
        assert(forall|j: int| 0 <= j < s.len() - 1 ==> t[j] == s[j + 1]);
        lemma_ltrim_at(t, lo - 1);
        assert(t.subrange(lo - 1, t.len() as int) =~= s.subrange(lo, s.len() as int));
    } else {
        assert(s.subrange(lo, s.len() as int) =~= s);
    }
}

/// Right trimming keeps the part up to the last non-whitespace character.
proof fn lemma_rtrim_at(s: Seq<char>, hi: int)
    requires
        0 <= hi <= s.len(),
        forall|j: int| hi <= j < s.len() ==> is_ascii_ws(#[trigger] s[j]),
        hi > 0 ==> !is_ascii_ws(s[hi - 1]),
    ensures
        rtrim_seq(s) =~= s.subrange(0, hi),
    decreases s.len(),
{
    if s.len() > 0 && is_ascii_ws(s.last()) {
        let t = s.drop_last();
        assert(forall|j: int| 0 <= j < s.len() - 1 ==> t[j] == s[j]);
        lemma_rtrim_at(t, hi);
        assert(t.subrange(0, hi) =~= s.subrange(0, hi));
    } else {
        assert(s.subrange(0, hi) =~= s);
    }
}

/// Whether a character is in the ASCII whitespace set of `trim`.
fn is_ws_char(c: char) -> (r: bool)
    ensures
        r == is_ascii_ws(c),
{
    c == ' ' || c == '\t' || c == '\n' || c == '\r' || c == '\u{0B}' || c == '\u{0C}'
}

/// Index of the first non-whitespace character, or the length of `s`.
fn first_non_ws(s: &str) -> (lo: usize)
    ensures
        0 <= lo <= s@.len(),
        forall|j: int| 0 <= j < lo ==> is_ascii_ws(#[trigger] s@[j]),
        lo < s@.len() ==> !is_ascii_ws(s@[lo as int]),
{
    let n = s.unicode_len();
    let mut lo: usize = 0;
    while lo < n
        invariant
            0 <= lo <= n,
            n == s@.len(),
            forall|j: int| 0 <= j < lo ==> is_ascii_ws(#[trigger] s@[j]),
        decreases n - lo,
    {
        if !is_ws_char(s.get_char(lo)) {
            return lo;
        }
        lo = lo + 1;
    }
    lo
}

/// One past the last non-whitespace character at or after `lo`, or `lo`.
fn last_non_ws(s: &str, lo: usize) -> (hi: usize)
    requires
        lo <= s@.len(),
    ensures
        lo <= hi <= s@.len(),
        forall|j: int| hi <= j < s@.len() ==> is_ascii_ws(#[trigger] s@[j]),
        hi > lo ==> !is_ascii_ws(s@[hi - 1]),
{
    let n = s.unicode_len();
    let mut hi: usize = n;
    while hi > lo
        invariant
            lo <= hi <= n,
            n == s@.len(),
            forall|j: int| hi <= j < n ==> is_ascii_ws(#[trigger] s@[j]),
        decreases hi,
    {
        if !is_ws_char(s.get_char(hi - 1)) {
            return hi;
        }
        hi = hi - 1;
    }
    hi
}

/// Remove leading and trailing ASCII whitespace.
pub fn trim(s: &str) -> (r: &str)
    ensures
        r@ == trim_seq(s@),
{
    let n = s.unicode_len();
    let lo = first_non_ws(s);
    if lo >= n {
        proof {
            lemma_ltrim_at(s@, n as int);
            assert(ltrim_seq(s@) =~= s@.subrange(n as int, n as int));
            lemma_rtrim_at(ltrim_seq(s@), 0);
        }
        return s.substring_char(n, n);
    }
    let hi = last_non_ws(s, lo);
    proof {
        lemma_ltrim_at(s@, lo as int);
        let t = s@.subrange(lo as int, n as int);
        assert(forall|j: int| 0 <= j < t.len() ==> t[j] == s@[lo + j]);
        lemma_rtrim_at(t, hi - lo);
        assert(t.subrange(0, hi - lo) =~= s@.subrange(lo as int, hi as int));
    }
    s.substring_char(lo, hi)
}

/// The fields of `s` cut at every occurrence of `sep`, in order; an empty
/// string has one empty field.
pub open spec fn split_seq(s: Seq<char>, sep: char) -> Seq<Seq<char>>
    decreases s.len(),
{
    let i = find_index(s, sep);
    if 0 <= i < s.len() {
        seq![s.take(i)] + split_seq(s.skip(i + 1), sep)
    } else {
        seq![s]
    }
}

/// Cut `s` into fields at every occurrence of `sep`.
pub fn split_char(s: &str, sep: char) -> (r: Vec<String>)
    ensures
        r@.map_values(|t: String| t@) == split_seq(s@, sep),
{
    let n = s.unicode_len();
    let mut out: Vec<String> = Vec::new();
    let mut start: usize = 0;
    let mut i: usize = 0;
    proof {
        assert(s@.skip(0) =~= s@);
        assert(out@.map_values(|t: String| t@) + split_seq(s@.skip(0), sep) =~= split_seq(
            s@,
            sep,
        ));
    }
    while i < n
        invariant
            0 <= start <= i <= n,
            n == s@.len(),
            forall|j: int| start <= j < i ==> s@[j] != sep,
            out@.map_values(|t: String| t@) + split_seq(s@.skip(start as int), sep) =~= split_seq(
                s@,
                sep,
            ),
        decreases n - i,
    {
        if s.get_char(i) == sep {
            let field = s.substring_char(start, i).to_owned();
            proof {
                let t = s@.skip(start as int);
                assert(forall|j: int| 0 <= j < t.len() ==> t[j] == s@[start + j]);
                crate::numtext::lemma_find_index_front(t, sep, i - start);
                assert(t.take(i - start) =~= s@.subrange(start as int, i as int));
                assert(t.skip(i - start + 1) =~= s@.skip(i + 1));
                assert(out@.push(field).map_values(|x: String| x@) =~= out@.map_values(
                    |x: String| x@,
                ).push(field@));
            }
            out.push(field);
            start = i + 1;
        }
        i = i + 1;
    }
    let field = s.substring_char(start, n).to_owned();
    proof {
        let t = s@.skip(start as int);
        assert(forall|j: int| 0 <= j < t.len() ==> t[j] == s@[start + j]);
        crate::numtext::lemma_find_index_front(t, sep, t.len() as int);
        assert(t =~= s@.subrange(start as int, n as int));
        assert(out@.push(field).map_values(|x: String| x@) =~= out@.map_values(
            |x: String| x@,
        ).push(field@));
        assert(split_seq(t, sep) =~= seq![t]);
    }
    out.push(field);
    proof {
        assert(out@.map_values(|t: String| t@) =~= split_seq(s@, sep));
    }
    out
}

/// Character-wise equality of two string slices.
pub fn str_eq(a: &str, b: &str) -> (r: bool)
    ensures
        r == (a@ == b@),
{
    let n = a.unicode_len();
    let m = b.unicode_len();
    if n != m {
        return false;
    }
    let mut i: usize = 0;
    while i < n
        invariant
            0 <= i <= n,
            n == a@.len(),
            n == b@.len(),
            forall|j: int| 0 <= j < i ==> a@[j] == b@[j],
        decreases n - i,
    {
        if a.get_char(i) != b.get_char(i) {
            return false;
        }
        i = i + 1;
    }
    proof {
        assert(a@ =~= b@);
    }
    true
}

/// Whether `s` begins with `prefix`, character for character.
pub fn starts_with(s: &str, prefix: &str) -> (r: bool)
    ensures
        r == (s@.len() >= prefix@.len() && s@.take(prefix@.len() as int) == prefix@),
{
    let n = s.unicode_len();
    let m = prefix.unicode_len();
    if n < m {
        return false;
    }
    let mut i: usize = 0;
    while i < m
        invariant
            0 <= i <= m <= n,
            n == s@.len(),
            m == prefix@.len(),
            forall|j: int| 0 <= j < i ==> s@[j] == prefix@[j],
        decreases m - i,
    {
        if s.get_char(i) != prefix.get_char(i) {
            proof {
                if s@.take(m as int) == prefix@ {
                    assert(s@.take(m as int)[i as int] == s@[i as int]);
                }
            }
            return false;
        }
        i = i + 1;
    }
    proof {
        assert(s@.take(m as int) =~= prefix@);
    }
    true
}

} // verus!
