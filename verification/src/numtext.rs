//! Decimal text: formatting integers into strings and parsing them back,
//! specified over sequences of characters.

use vstd::prelude::*;
use vstd::string::StringExecFns;
use vstd::string::StrSliceExecFns;

verus! {

/// Character for a single decimal digit value (values 9 and above give '9').
pub open spec fn digit_char(d: int) -> char {
    if d == 0 {
        '0'
    } else if d == 1 {
        '1'
    } else if d == 2 {
        '2'
    } else if d == 3 {
        '3'
    } else if d == 4 {
        '4'
    } else if d == 5 {
        '5'
    } else if d == 6 {
        '6'
    } else if d == 7 {
        '7'
    } else if d == 8 {
        '8'
    } else {
        '9'
    }
}

/// Decimal text of a nonnegative integer, most significant digit first.
pub open spec fn dec_seq(n: int) -> Seq<char>
    decreases n,
{
    if n < 10 {
        seq![digit_char(n)]
    } else {
        dec_seq(n / 10).push(digit_char(n % 10))
    }
}

/// Decimal text padded with a leading zero to at least two digits.
pub open spec fn two_digit_seq(n: int) -> Seq<char> {
    if n < 10 {
        seq!['0', digit_char(n)]
    } else {
        dec_seq(n)
    }
}

/// Decimal text of an integer, with a leading minus sign when negative.
pub open spec fn int_dec_seq(i: int) -> Seq<char> {
    if i < 0 {
        seq!['-'] + dec_seq(-i)
    } else {
        dec_seq(i)
    }
}

fn push_digit(s: &mut String, d: u64)
    requires
        d < 10,
    ensures
        final(s)@ == old(s)@.push(digit_char(d as int)),
{
    proof {
        reveal_strlit("0");
        reveal_strlit("1");
        reveal_strlit("2");
        reveal_strlit("3");
        reveal_strlit("4");
        reveal_strlit("5");
        reveal_strlit("6");
        reveal_strlit("7");
        reveal_strlit("8");
        reveal_strlit("9");
    }
    let ghost pre = s@;
    if d == 0 {
        s.append("0");
    } else if d == 1 {
        s.append("1");
    } else if d == 2 {
        s.append("2");
    } else if d == 3 {
        s.append("3");
    } else if d == 4 {
        s.append("4");
    } else if d == 5 {
        s.append("5");
    } else if d == 6 {
        s.append("6");
    } else if d == 7 {
        s.append("7");
    } else if d == 8 {
        s.append("8");
    } else {
        s.append("9");
    }
    proof {
        assert(s@ =~= pre.push(digit_char(d as int)));
    }
}

/// Append the decimal text of `n` to `s`.
pub fn append_dec_u64(s: &mut String, n: u64)
    ensures
        final(s)@ == old(s)@ + dec_seq(n as int),
    decreases n,
{
    let ghost pre = s@;
    if n < 10 {
        push_digit(s, n);
        proof {
            assert(s@ =~= pre + dec_seq(n as int));
        }
    } else {
        append_dec_u64(s, n / 10);
        push_digit(s, n % 10);
        proof {
            assert(s@ =~= pre + dec_seq(n as int));
        }
    }
}

/// Append the decimal text of `n`, zero padded to at least two digits.
pub fn append_two_digit(s: &mut String, n: u64)
    ensures
        final(s)@ == old(s)@ + two_digit_seq(n as int),
{
    let ghost pre = s@;
    if n < 10 {
        proof {
            reveal_strlit("0");
        }
        s.append("0");
        push_digit(s, n);
        proof {
            assert(s@ =~= pre + two_digit_seq(n as int));
        }
    } else {
        append_dec_u64(s, n);
    }
}

/// Append the decimal text of `n`, with a minus sign when negative.
pub fn append_dec_i64(s: &mut String, n: i64)
    ensures
        final(s)@ == old(s)@ + int_dec_seq(n as int),
{
    let ghost pre = s@;
    if n < 0 {
        proof {
            reveal_strlit("-");
        }
        s.append("-");
        let m: u64 = (-(n as i128)) as u64;
        append_dec_u64(s, m);
        proof {
            assert(s@ =~= pre + int_dec_seq(n as int));
        }
    } else {
        append_dec_u64(s, n as u64);
    }
}

/// True for the ten ASCII decimal digit characters.
pub open spec fn is_digit_char(c: char) -> bool {
    48 <= (c as u32) <= 57
}

/// Numeric value of a decimal digit character.
pub open spec fn digit_val(c: char) -> int {
    (c as u32) - 48
}

/// True when every character of `s` is a decimal digit.
pub open spec fn all_digits(s: Seq<char>) -> bool {
    forall|i: int| 0 <= i < s.len() ==> is_digit_char(#[trigger] s[i])
}

/// Value of a sequence of decimal digit characters, most significant first.
pub open spec fn dec_val(s: Seq<char>) -> int
    decreases s.len(),
{
    if s.len() == 0 {
        0
    } else {
        dec_val(s.drop_last()) * 10 + digit_val(s.last())
    }
}

/// The value of a digit sequence only grows as digits are appended.
pub proof fn lemma_dec_val_prefix(s: Seq<char>, n: int)
    requires
        all_digits(s),
        0 <= n <= s.len(),
    ensures
        0 <= dec_val(s.take(n)) <= dec_val(s),
    decreases s.len() - n,
{
    if n == s.len() {
        assert(s.take(n) =~= s);
        lemma_dec_val_nonneg(s);
    } else {
        lemma_dec_val_prefix(s, n + 1);
        let t = s.take(n + 1);
        assert(t.drop_last() =~= s.take(n));
        assert(dec_val(t) == dec_val(s.take(n)) * 10 + digit_val(s[n]));
        lemma_dec_val_nonneg(s.take(n));
    }
}

/// A digit sequence never has a negative value.
pub proof fn lemma_dec_val_nonneg(s: Seq<char>)
    requires
        all_digits(s),
    ensures
        dec_val(s) >= 0,
    decreases s.len(),
{
    if s.len() > 0 {
        assert(all_digits(s.drop_last())) by {
            assert(forall|i: int|
                0 <= i < s.len() - 1 ==> is_digit_char(#[trigger] s.drop_last()[i]) == is_digit_char(
                    s[i],
                ));
        }
        lemma_dec_val_nonneg(s.drop_last());
    }
}

/// Meaning of a string under `u32` decimal parsing: an optional leading
/// plus sign, then one or more digits, and a value that fits.
pub open spec fn parse_u32_spec(s: Seq<char>) -> Option<u32> {
    let t = if s.len() > 0 && s[0] == '+' {
        s.drop_first()
    } else {
        s
    };
    if t.len() > 0 && all_digits(t) && dec_val(t) <= u32::MAX {
        Some(dec_val(t) as u32)
    } else {
        None
    }
}

/// Parse a `u32` from decimal text: an optional leading `+`, then digits.
pub fn parse_u32(s: &str) -> (r: Option<u32>)
    ensures
        r == parse_u32_spec(s@),
{
    let n = s.unicode_len();
    let mut start: usize = 0;
    if n > 0 && s.get_char(0) == '+' {
        start = 1;
    }
    let ghost t = if s@.len() > 0 && s@[0] == '+' {
        s@.drop_first()
    } else {
        s@
    };
    if start >= n {
        return None;
    }
    let mut acc: u32 = 0;
    let mut i: usize = start;
    while i < n
        invariant
            start <= i <= n,
            start == 0 || start == 1,
            n == s@.len(),
            start == 1 ==> s@.len() > 0 && s@[0] == '+',
            start == 0 ==> !(s@.len() > 0 && s@[0] == '+'),
            t =~= s@.subrange(start as int, n as int),
            all_digits(s@.subrange(start as int, i as int)),
            acc == dec_val(s@.subrange(start as int, i as int)),
        decreases n - i,
    {
        let c = s.get_char(i);
        let u = c as u32;
        if u < 48 || u > 57 {
            proof {
                let tt = if s@.len() > 0 && s@[0] == '+' {
                    s@.drop_first()
                } else {
                    s@
                };
                assert(tt =~= t);
                assert(t.len() == n - start);
                assert(t[i - start] == s@[i as int]);
                assert(!is_digit_char(t[i - start]));
                assert(!all_digits(t));
            }
            return None;
        }
        let d = u - 48;
        let ghost pre = s@.subrange(start as int, i as int);
        let ghost cur = s@.subrange(start as int, i as int + 1);
        proof {
            assert(cur.drop_last() =~= pre);
            assert(cur.last() == c);
            assert(forall|k: int| 0 <= k < cur.len() ==> is_digit_char(#[trigger] cur[k]));
        }
        if acc > u32::MAX / 10 || (acc == u32::MAX / 10 && d > u32::MAX % 10) {
            proof {
                let tt = if s@.len() > 0 && s@[0] == '+' {
                    s@.drop_first()
                } else {
                    s@
                };
                assert(tt =~= t);
                assert(dec_val(cur) > u32::MAX);
                if all_digits(t) {
                    assert(t.take(i - start + 1) =~= cur);
                    lemma_dec_val_take_from(t, i - start + 1);
                }
            }
            return None;
        }
        acc = acc * 10 + d;
        i = i + 1;
    }
    proof {
        let tt = if s@.len() > 0 && s@[0] == '+' {
            s@.drop_first()
        } else {
            s@
        };
        assert(tt =~= t);
        assert(s@.subrange(start as int, i as int) =~= t);
    }
    Some(acc)
}

/// Helper: for an all-digit sequence, any front part has a value no larger
/// than the whole.
proof fn lemma_dec_val_take_from(s: Seq<char>, n: int)
    requires
        all_digits(s),
        0 <= n <= s.len(),
    ensures
        dec_val(s.take(n)) <= dec_val(s),
{
    lemma_dec_val_prefix(s, n);
}

/// Parse a tile byte: decimal, at most 255.
pub open spec fn parse_u8_spec(s: Seq<char>) -> Option<u8> {
    match parse_u32_spec(s) {
        Some(v) => if v <= 255 {
            Some(v as u8)
        } else {
            None
        },
        None => None,
    }
}

/// Parse a `u8` from decimal text.
pub fn parse_u8(s: &str) -> (r: Option<u8>)
    ensures
        r == parse_u8_spec(s@),
{
    match parse_u32(s) {
        Some(v) => {
            if v <= 255 {
                Some(v as u8)
            } else {
                None
            }
        },
        None => None,
    }
}

/// Parse a run of digits as a value, refusing an empty run, a non-digit,
/// or a value above `bound`.
pub open spec fn parse_digits_spec(s: Seq<char>, bound: int) -> Option<u64> {
    if s.len() > 0 && all_digits(s) && dec_val(s) <= bound {
        Some(dec_val(s) as u64)
    } else {
        None
    }
}

/// Parse the characters of `s` between `from` and `to` as an unsigned
/// decimal number no larger than `bound`.
pub fn parse_digits(s: &str, from: usize, to: usize, bound: u64) -> (r: Option<u64>)
    requires
        from <= to <= s@.len(),
    ensures
        r == parse_digits_spec(s@.subrange(from as int, to as int), bound as int),
        r matches Some(v) ==> v <= bound && v == dec_val(
            s@.subrange(from as int, to as int),
        ),
{
    let ghost t = s@.subrange(from as int, to as int);
    if from >= to {
        return None;
    }
    let mut acc: u64 = 0;
    let mut i: usize = from;
    while i < to
        invariant
            from <= i <= to <= s@.len(),
            t =~= s@.subrange(from as int, to as int),
            all_digits(s@.subrange(from as int, i as int)),
            acc == dec_val(s@.subrange(from as int, i as int)),
            acc <= bound,
        decreases to - i,
    {
        let c = s.get_char(i);
        let u = c as u32;
        if u < 48 || u > 57 {
            proof {
                assert(t[i - from] == s@[i as int]);
                assert(!is_digit_char(t[i - from]));
            }
            return None;
        }
        let d = (u - 48) as u64;
        let ghost pre = s@.subrange(from as int, i as int);
        let ghost cur = s@.subrange(from as int, i as int + 1);
        proof {
            assert(cur.drop_last() =~= pre);
            assert(cur.last() == s@[i as int]);
            assert(forall|k: int| 0 <= k < cur.len() ==> is_digit_char(#[trigger] cur[k]));
        }
        if acc > bound / 10 || (acc == bound / 10 && d > bound % 10) {
            proof {
                assert(dec_val(cur) > bound);
                if all_digits(t) {
                    assert(t.take(i - from + 1) =~= cur);
                    lemma_dec_val_take_from(t, i - from + 1);
                }
            }
            return None;
        }
        acc = acc * 10 + d;
        i = i + 1;
    }
    proof {
        assert(s@.subrange(from as int, i as int) =~= t);
    }
    Some(acc)
}

/// Bound accepted for the whole-unit part of a fixed-point number, so that
/// the thousandths value always fits an `i64`.
pub const MILLI_UNIT_BOUND: u64 = 9000000000000000;

/// Thousandths contributed by a fraction-digit run: only the first three
/// digits matter.
pub open spec fn frac_milli(f: Seq<char>) -> int {
    if f.len() >= 3 {
        dec_val(f.take(3))
    } else if f.len() == 2 {
        dec_val(f) * 10
    } else if f.len() == 1 {
        dec_val(f) * 100
    } else {
        0
    }
}

/// Meaning of a string as a fixed-point number in thousandths: an optional
/// sign, whole-unit digits, and an optional fraction after a single dot.
/// Digits of the fraction past the third are ignored; a whole-unit part
/// larger than `MILLI_UNIT_BOUND` is refused.
pub open spec fn parse_milli_spec(s: Seq<char>) -> Option<i64> {
    let negative = s.len() > 0 && s[0] == '-';
    let u = if s.len() > 0 && (s[0] == '-' || s[0] == '+') {
        s.drop_first()
    } else {
        s
    };
    let dot = find_index(u, '.');
    let ip = if dot >= 0 {
        u.take(dot)
    } else {
        u
    };
    let fp = if dot >= 0 {
        u.skip(dot + 1)
    } else {
        Seq::<char>::empty()
    };
    if ip.len() > 0 && all_digits(ip) && dec_val(ip) <= MILLI_UNIT_BOUND && (dot < 0 || (fp.len()
        > 0 && all_digits(fp))) {
        let v = dec_val(ip) * 1000 + frac_milli(fp);
        if negative {
            Some((-v) as i64)
        } else {
            Some(v as i64)
        }
    } else {
        None
    }
}

/// Index of the first occurrence of `c` in `s`, or -1 when absent.
pub open spec fn find_index(s: Seq<char>, c: char) -> int
    decreases s.len(),
{
    if s.len() == 0 {
        -1
    } else if s[0] == c {
        0
    } else {
        let r = find_index(s.drop_first(), c);
        if r < 0 {
            -1
        } else {
            r + 1
        }
    }
}

/// Find the first occurrence of `c` at or after `from`.
fn find_char_from(s: &str, c: char, from: usize) -> (r: Option<usize>)
    requires
        from <= s@.len(),
    ensures
        match r {
            Some(i) => from <= i < s@.len() && s@[i as int] == c && forall|j: int|
                from <= j < i ==> s@[j] != c,
            None => forall|j: int| from <= j < s@.len() ==> s@[j] != c,
        },
{
    let n = s.unicode_len();
    let mut i: usize = from;
    while i < n
        invariant
            from <= i <= n,
            n == s@.len(),
            forall|j: int| from <= j < i ==> s@[j] != c,
        decreases n - i,
    {
        if s.get_char(i) == c {
            return Some(i);
        }
        i = i + 1;
    }
    None
}

/// Relates a least-occurrence search over a tail of `s` to `find_index`.
pub proof fn lemma_find_index_front(s: Seq<char>, c: char, pos: int)
    requires
        0 <= pos <= s.len(),
        forall|j: int| 0 <= j < pos ==> s[j] != c,
        pos < s.len() ==> s[pos] == c,
        pos == s.len() ==> forall|j: int| 0 <= j < s.len() ==> s[j] != c,
    ensures
        pos < s.len() ==> find_index(s, c) == pos,
        pos == s.len() ==> find_index(s, c) < 0,
    decreases s.len(),
{
    if s.len() > 0 && s[0] != c {
        let t = s.drop_first();
        assert(forall|j: int| 0 <= j < s.len() - 1 ==> t[j] == s[j + 1]);
        lemma_find_index_front(t, c, pos - 1);
    }
}

/// Parse fixed-point decimal text into thousandths.
pub fn parse_milli(s: &str) -> (r: Option<i64>)
    ensures
        r == parse_milli_spec(s@),
{
    let n = s.unicode_len();
    let mut start: usize = 0;
    let mut negative = false;
    if n > 0 {
        let c0 = s.get_char(0);
        if c0 == '-' {
            negative = true;
            start = 1;
        } else if c0 == '+' {
            start = 1;
        }
    }
    let ghost u = if s@.len() > 0 && (s@[0] == '-' || s@[0] == '+') {
        s@.drop_first()
    } else {
        s@
    };
    proof {
        assert(u =~= s@.subrange(start as int, n as int));
    }
    let dot = find_char_from(s, '.', start);
    proof {
        match dot {
            Some(i) => {
                lemma_find_index_front(u, '.', i - start);
            },
            None => {
                lemma_find_index_front(u, '.', n - start);
            },
        }
    }
    let ip_end = match dot {
        Some(i) => i,
        None => n,
    };
    let ghost ip = if find_index(u, '.') >= 0 {
        u.take(find_index(u, '.'))
    } else {
        u
    };
    proof {
        assert(ip =~= s@.subrange(start as int, ip_end as int));
    }
    let ipv = match parse_digits(s, start, ip_end, MILLI_UNIT_BOUND) {
        Some(v) => v,
        None => {
            return None;
        },
    };
    let fmilli: u64 = match dot {
        Some(i) => {
            let ghost fp = u.skip(find_index(u, '.') + 1);
            proof {
                assert(fp =~= s@.subrange(i as int + 1, n as int));
            }
            if i + 1 >= n {
                return None;
            }
            if !all_digits_in(s, i + 1, n) {
                return None;
            }
            let f_end = if n - (i + 1) >= 3 {
                i + 4
            } else {
                n
            };
            let ghost sub = s@.subrange(i as int + 1, f_end as int);
            let fv = match parse_digits(s, i + 1, f_end, 999) {
                Some(v) => v,
                None => {
                    proof {
                        assert(forall|k: int| 0 <= k < sub.len() ==> sub[k] == fp[k]);
                        assert(all_digits(sub));
                        lemma_dec_val_len_bound(sub);
                        assert(false);
                    }
                    return None;
                },
            };
            proof {
                assert(sub =~= fp.take(f_end - (i + 1)));
                lemma_dec_val_len_bound(sub);
                if fp.len() >= 3 {
                    assert(sub =~= fp.take(3));
                } else {
                    assert(sub =~= fp);
                }
            }
            if n - (i + 1) >= 3 {
                fv
            } else if n - (i + 1) == 2 {
                fv * 10
            } else {
                fv * 100
            }
        },
        None => 0,
    };
    let magnitude: u64 = ipv * 1000 + fmilli;
    if negative {
        Some(-(magnitude as i64))
    } else {
        Some(magnitude as i64)
    }
}

/// Whether every character of `s` between `from` and `to` is a digit.
fn all_digits_in(s: &str, from: usize, to: usize) -> (r: bool)
    requires
        from <= to <= s@.len(),
    ensures
        r == all_digits(s@.subrange(from as int, to as int)),
{
    let ghost t = s@.subrange(from as int, to as int);
    let mut i: usize = from;
    while i < to
        invariant
            from <= i <= to <= s@.len(),
            t =~= s@.subrange(from as int, to as int),
            all_digits(s@.subrange(from as int, i as int)),
        decreases to - i,
    {
        let c = s.get_char(i);
        let code = c as u32;
        if code < 48 || code > 57 {
            proof {
                assert(t[i - from] == s@[i as int]);
                assert(!is_digit_char(t[i - from]));
            }
            return false;
        }
        proof {
            let cur = s@.subrange(from as int, i as int + 1);
            assert(forall|k: int|
                0 <= k < cur.len() ==> cur[k] == s@.subrange(from as int, i as int).push(
                    s@[i as int],
                )[k]);
            assert(cur =~= s@.subrange(from as int, i as int).push(s@[i as int]));
            assert(all_digits(cur));
        }
        i = i + 1;
    }
    proof {
        assert(s@.subrange(from as int, i as int) =~= t);
    }
    true
}

/// Value bound by digit count, stated up to length three.
proof fn lemma_dec_val_len_bound(s: Seq<char>)
    requires
        all_digits(s),
        s.len() <= 3,
    ensures
        s.len() == 0 ==> dec_val(s) == 0,
        s.len() == 1 ==> dec_val(s) <= 9,
        s.len() == 2 ==> dec_val(s) <= 99,
        s.len() == 3 ==> dec_val(s) <= 999,
    decreases s.len(),
{
    if s.len() > 0 {
        let t = s.drop_last();
        assert(all_digits(t)) by {
            assert(forall|i: int| 0 <= i < s.len() - 1 ==> t[i] == s[i]);
        }
        lemma_dec_val_len_bound(t);
    }
}

/// Fixed-point thousandths as text: sign, whole units, a dot, and one to
/// three fraction digits with trailing zeros removed.
pub open spec fn milli_seq(v: int) -> Seq<char> {
    let sign: Seq<char> = if v < 0 {
        seq!['-']
    } else {
        Seq::<char>::empty()
    };
    let m = if v < 0 {
        -v
    } else {
        v
    };
    sign + dec_seq(m / 1000) + seq!['.'] + frac_digits_seq(m % 1000)
}

/// Fraction digits of a thousandths remainder, trailing zeros removed, and
/// a single zero when the remainder is zero.
pub open spec fn frac_digits_seq(f: int) -> Seq<char> {
    if f == 0 {
        seq!['0']
    } else if f % 10 != 0 {
        seq![digit_char(f / 100), digit_char(f / 10 % 10), digit_char(f % 10)]
    } else if f % 100 != 0 {
        seq![digit_char(f / 100), digit_char(f / 10 % 10)]
    } else {
        seq![digit_char(f / 100)]
    }
}

/// Append nonnegative fixed-point thousandths as decimal text.
pub fn append_milli_u64(s: &mut String, v: u64)
    ensures
        final(s)@ == old(s)@ + milli_seq(v as int),
{
    let ghost pre = s@;
    append_dec_u64(s, v / 1000);
    proof {
        reveal_strlit(".");
    }
    s.append(".");
    let f = v % 1000;
    if f == 0 {
        push_digit(s, 0);
    } else if f % 10 != 0 {
        push_digit(s, f / 100);
        push_digit(s, f / 10 % 10);
        push_digit(s, f % 10);
    } else if f % 100 != 0 {
        push_digit(s, f / 100);
        push_digit(s, f / 10 % 10);
    } else {
        push_digit(s, f / 100);
    }
    proof {
        assert(s@ =~= pre + milli_seq(v as int));
    }
}

/// Append fixed-point thousandths as decimal text.
pub fn append_milli(s: &mut String, v: i64)
    ensures
        final(s)@ == old(s)@ + milli_seq(v as int),
{
    let ghost pre = s@;
    if v < 0 {
        proof {
            reveal_strlit("-");
        }
        s.append("-");
    }
    let m: u64 = if v < 0 {
        (-(v as i128)) as u64
    } else {
        v as u64
    };
    append_dec_u64(s, m / 1000);
    proof {
        reveal_strlit(".");
    }
    s.append(".");
    let f = m % 1000;
    if f == 0 {
        push_digit(s, 0);
    } else if f % 10 != 0 {
        push_digit(s, f / 100);
        push_digit(s, f / 10 % 10);
        push_digit(s, f % 10);
    } else if f % 100 != 0 {
        push_digit(s, f / 100);
        push_digit(s, f / 10 % 10);
    } else {
        push_digit(s, f / 100);
    }
    proof {
        assert(s@ =~= pre + milli_seq(v as int));
    }
}

} // verus!
