//! JSON text building: string escaping and quoted strings, specified over
//! character sequences. The export payload and the wire protocol both
//! build their messages from these pieces.

use vstd::prelude::*;
use vstd::string::StrSliceExecFns;
use vstd::string::StringExecFns;
use crate::numtext::digit_char;

verus! {

/// Hexadecimal digit character for a value below sixteen.
pub open spec fn hex_digit_char(d: int) -> char {
    if d < 10 {
        digit_char(d)
    } else if d == 10 {
        'a'
    } else if d == 11 {
        'b'
    } else if d == 12 {
        'c'
    } else if d == 13 {
        'd'
    } else if d == 14 {
        'e'
    } else {
        'f'
    }
}

/// The four JSON whitespace characters.
pub open spec fn is_json_ws(c: char) -> bool {
    c == ' ' || c == '\t' || c == '\n' || c == '\r'
}

/// `s` with every JSON whitespace character removed.
pub open spec fn non_ws_of(s: Seq<char>) -> Seq<char>
    decreases s.len(),
{
    if s.len() == 0 {
        Seq::<char>::empty()
    } else if is_json_ws(s[0]) {
        non_ws_of(s.drop_first())
    } else {
        seq![s[0]] + non_ws_of(s.drop_first())
    }
}

/// Whitespace removal distributes over concatenation.
pub proof fn lemma_non_ws_concat(a: Seq<char>, b: Seq<char>)
    ensures
        non_ws_of(a + b) == non_ws_of(a) + non_ws_of(b),
    decreases a.len(),
{
    if a.len() == 0 {
        assert(a + b =~= b);
        assert(non_ws_of(a) + non_ws_of(b) =~= non_ws_of(b));
    } else {
        assert((a + b)[0] == a[0]);
        assert((a + b).drop_first() =~= a.drop_first() + b);
        lemma_non_ws_concat(a.drop_first(), b);
        if !is_json_ws(a[0]) {
            assert(seq![a[0]] + (non_ws_of(a.drop_first()) + non_ws_of(b)) =~= (seq![a[0]]
                + non_ws_of(a.drop_first())) + non_ws_of(b));
        }
    }
}

/// A sequence without JSON whitespace is its own whitespace removal.
pub proof fn lemma_non_ws_id(s: Seq<char>)
    requires
        forall|i: int| 0 <= i < s.len() ==> !is_json_ws(#[trigger] s[i]),
    ensures
        non_ws_of(s) == s,
    decreases s.len(),
{
    if s.len() > 0 {
        let t = s.drop_first();
        assert(forall|i: int| 0 <= i < t.len() ==> t[i] == s[i + 1]);
        lemma_non_ws_id(t);
        assert(seq![s[0]] + t =~= s);
    }
}

/// Value of a lowercase hexadecimal digit character; sixteen for any
/// other character.
pub open spec fn hex_val(c: char) -> int {
    let u = c as u32;
    if 48 <= u <= 57 {
        u - 48
    } else if 97 <= u <= 102 {
        u - 87
    } else {
        16
    }
}

/// The hexadecimal digit characters carry their values, and only they do.
pub proof fn lemma_hex_digit_round_trip(d: int)
    requires
        0 <= d < 16,
    ensures
        hex_val(hex_digit_char(d)) == d,
        forall|c: char| hex_val(c) == d ==> c == hex_digit_char(d),
{
    assert forall|c: char| hex_val(c) == d implies c == hex_digit_char(d) by {
        let u = c as u32;
        if 48 <= u && u <= 57 {
            assert(u == 48 + d);
        } else {
            assert(u == 87 + d);
        }
        assert(c as u32 == hex_digit_char(d) as u32);
        vstd::utf8::char_u32_cast(c, c as u32);
        vstd::utf8::char_u32_cast(hex_digit_char(d), c as u32);
    }
}

/// JSON text of one character inside a quoted string: quotes and
/// backslashes are escaped, common control characters get their short
/// escapes, other control characters a `\u00XX` escape.
pub open spec fn json_escape_char(c: char) -> Seq<char> {
    if c == '"' {
        seq!['\\', '"']
    } else if c == '\\' {
        seq!['\\', '\\']
    } else if c == '\n' {
        seq!['\\', 'n']
    } else if c == '\r' {
        seq!['\\', 'r']
    } else if c == '\t' {
        seq!['\\', 't']
    } else if (c as u32) < 0x20 {
        seq!['\\', 'u', '0', '0', hex_digit_char((c as u32) as int / 16), hex_digit_char(
            (c as u32) as int % 16,
        )]
    } else {
        seq![c]
    }
}

/// JSON text of a whole string body, character by character.
pub open spec fn json_escape_seq(s: Seq<char>) -> Seq<char>
    decreases s.len(),
{
    if s.len() == 0 {
        Seq::<char>::empty()
    } else {
        json_escape_char(s[0]) + json_escape_seq(s.drop_first())
    }
}

/// A whole JSON string: quote, escaped body, quote.
pub open spec fn json_string_seq(s: Seq<char>) -> Seq<char> {
    seq!['"'] + json_escape_seq(s) + seq!['"']
}

/// Escaping distributes over appending one character.
pub proof fn lemma_json_escape_push(t: Seq<char>, c: char)
    ensures
        json_escape_seq(t.push(c)) == json_escape_seq(t) + json_escape_char(c),
    decreases t.len(),
{
    if t.len() == 0 {
        assert(t.push(c)[0] == c);
        assert(t.push(c).drop_first() =~= Seq::<char>::empty());
        assert(json_escape_seq(t.push(c).drop_first()) =~= Seq::<char>::empty());
        assert(json_escape_seq(t.push(c)) =~= json_escape_seq(t) + json_escape_char(c));
    } else {
        assert(t.push(c)[0] == t[0]);
        assert(t.push(c).drop_first() =~= t.drop_first().push(c));
        lemma_json_escape_push(t.drop_first(), c);
        assert(json_escape_seq(t.push(c)) =~= json_escape_seq(t) + json_escape_char(c));
    }
}

/// Append one hexadecimal digit.
fn append_hex_digit(out: &mut String, d: u32)
    requires
        d < 16,
    ensures
        final(out)@ == old(out)@.push(hex_digit_char(d as int)),
{
    proof {
        reveal_strlit("0");
        reveal_strlit("1");
        reveal_strlit("2");
        reveal_strlit("3");
        reveal_strlit("4");
        reveal_strlit("5");
        reveal_strlit("6");
        reveal_strlit("7");
        reveal_strlit("8");
        reveal_strlit("9");
        reveal_strlit("a");
        reveal_strlit("b");
        reveal_strlit("c");
        reveal_strlit("d");
        reveal_strlit("e");
        reveal_strlit("f");
    }
    let ghost pre = out@;
    if d == 0 {
        out.append("0");
    } else if d == 1 {
        out.append("1");
    } else if d == 2 {
        out.append("2");
    } else if d == 3 {
        out.append("3");
    } else if d == 4 {
        out.append("4");
    } else if d == 5 {
        out.append("5");
    } else if d == 6 {
        out.append("6");
    } else if d == 7 {
        out.append("7");
    } else if d == 8 {
        out.append("8");
    } else if d == 9 {
        out.append("9");
    } else if d == 10 {
        out.append("a");
    } else if d == 11 {
        out.append("b");
    } else if d == 12 {
        out.append("c");
    } else if d == 13 {
        out.append("d");
    } else if d == 14 {
        out.append("e");
    } else {
        out.append("f");
    }
    proof {
        assert(out@ =~= pre.push(hex_digit_char(d as int)));
    }
}

/// Append a string as a quoted, escaped JSON string.
pub fn append_json_quoted(out: &mut String, s: &str)
    ensures
        final(out)@ == old(out)@ + json_string_seq(s@),
{
    proof {
        reveal_strlit("\"");
        reveal_strlit("\\\"");
        reveal_strlit("\\\\");
        reveal_strlit("\\n");
        reveal_strlit("\\r");
        reveal_strlit("\\t");
        reveal_strlit("\\u00");
    }
    let ghost pre = out@;
    out.append("\"");
    let n = s.unicode_len();
    let mut i: usize = 0;
    proof {
        assert(s@.take(0) =~= Seq::<char>::empty());
        assert(out@ =~= pre + seq!['"'] + json_escape_seq(s@.take(0)));
    }
    while i < n
        invariant
            0 <= i <= n,
            n == s@.len(),
            out@ == pre + seq!['"'] + json_escape_seq(s@.take(i as int)),
        decreases n - i,
    {
        proof {
            reveal_strlit("\"");
            reveal_strlit("\\\"");
            reveal_strlit("\\\\");
            reveal_strlit("\\n");
            reveal_strlit("\\r");
            reveal_strlit("\\t");
            reveal_strlit("\\u00");
        }
        let ghost done = out@;
        let c = s.get_char(i);
        let u = c as u32;
        if c == '"' {
            out.append("\\\"");
        } else if c == '\\' {
            out.append("\\\\");
        } else if c == '\n' {
            out.append("\\n");
        } else if c == '\r' {
            out.append("\\r");
        } else if c == '\t' {
            out.append("\\t");
        } else if u < 0x20 {
            out.append("\\u00");
            append_hex_digit(out, u / 16);
            append_hex_digit(out, u % 16);
        } else {
            let piece = s.substring_char(i, i + 1);
            proof {
                assert(piece@ =~= seq![c]);
            }
            out.append(piece);
        }
        proof {
            assert(out@ =~= done + json_escape_char(c));
            assert(s@.take(i as int).push(c) =~= s@.take(i as int + 1));
            lemma_json_escape_push(s@.take(i as int), c);
            assert(out@ =~= pre + seq!['"'] + json_escape_seq(s@.take(i as int + 1)));
        }
        i = i + 1;
    }
    proof {
        assert(s@.take(n as int) =~= s@);
    }
    out.append("\"");
    proof {
        assert(out@ =~= pre + json_string_seq(s@));
    }
}

} // verus!
