//! Trusted calls into outside crates and into parts of std that vstd gives
//! no specification. Each wrapper's contract states only what the callee's
//! source or documentation plainly shows.

use vstd::prelude::*;

verus! {

/// The Unicode lowercase mapping of a character sequence, as
/// `str::to_lowercase` computes it. The full mapping takes pages to state;
/// this name stands for it.
pub uninterp spec fn lower_of(s: Seq<char>) -> Seq<char>;

/// The lowercase image of one ASCII character: letters map into `a`..`z`,
/// everything else stays put.
pub open spec fn ascii_lower_char(c: char) -> char {
    if 65 <= (c as u32) <= 90 {
        ((c as u32) + 32) as char
    } else {
        c
    }
}

/// Whether every character of `s` is ASCII.
pub open spec fn seq_is_ascii(s: Seq<char>) -> bool {
    forall|i: int| 0 <= i < s.len() ==> ((#[trigger] s[i]) as u32) < 128
}

/// Relies on `str::to_lowercase`: the result depends on the characters
/// alone; an empty string stays empty; an all-ASCII string lowercases
/// pointwise, as its documentation plainly says.
#[verifier::external_body]
pub fn lowercase(s: &str) -> (r: String)
    ensures
        r@ == lower_of(s@),
        s@.len() == 0 ==> r@.len() == 0,
        seq_is_ascii(s@) ==> r@ == s@.map_values(|c: char| ascii_lower_char(c)),
{
    s.to_lowercase()
}

/// The scheme of a parseable URL, lowercased, or nothing for text that is
/// no URL; a function of the text alone.
pub uninterp spec fn scheme_of(s: Seq<char>) -> Option<Seq<char>>;

/// Relies on `url::Url::parse` and `url::Url::scheme`: whether the text
/// parses, and its scheme, depend on the text alone.
#[verifier::external_body]
pub fn url_scheme(s: &str) -> (r: Option<String>)
    ensures
        match r {
            Some(sch) => scheme_of(s@) == Some(sch@),
            None => scheme_of(s@) is None,
        },
{
    match url::Url::parse(s) {
        Ok(u) => Some(u.scheme().to_string()),
        Err(_) => None,
    }
}

} // verus!
