//! The Mac's model identifier (such as `Mac16,1`), shown in status output.
//! The registry lookup that yields its raw bytes stays with the caller;
//! this module turns those bytes into the identifier.

use vstd::prelude::*;
use vstd::utf8::{decode_utf8, valid_utf8};

verus! {

/// Why the model property did not give an identifier.
#[derive(Debug, Clone, Copy, PartialEq, Eq, Structural)]
pub enum ModelError {
    /// The property's bytes are not valid UTF-8.
    NotUtf8,
    /// Nothing is left once NUL characters are trimmed from both ends.
    Empty,
}

/// `s` without its leading NUL characters.
pub open spec fn trim_nul_start(s: Seq<char>) -> Seq<char>
    decreases s.len(),
{
    if s.len() > 0 && s[0] == '\0' {
        trim_nul_start(s.drop_first())
    } else {
        s
    }
}

/// `s` without its trailing NUL characters.
pub open spec fn trim_nul_end(s: Seq<char>) -> Seq<char>
    decreases s.len(),
{
    if s.len() > 0 && s.last() == '\0' {
        trim_nul_end(s.drop_last())
    } else {
        s
    }
}

/// `s` without NUL characters at either end.
pub open spec fn trim_nul(s: Seq<char>) -> Seq<char> {
    trim_nul_end(trim_nul_start(s))
}

/// The identifier that the model property's `bytes` give: their UTF-8
/// text with NUL characters trimmed from both ends, unless that is empty.
pub open spec fn model_identifier_from(bytes: Seq<u8>) -> Result<Seq<char>, ModelError> {
    if !valid_utf8(bytes) {
        Err(ModelError::NotUtf8)
    } else if trim_nul(decode_utf8(bytes)).len() == 0 {
        Err(ModelError::Empty)
    } else {
        Ok(trim_nul(decode_utf8(bytes)))
    }
}

/// std's `String::from_utf8`: the text that `bytes` encode when they are
/// valid UTF-8, else nothing (the error value is dropped).
#[verifier::external_body]
fn string_from_utf8(bytes: Vec<u8>) -> (text: Option<String>)
    ensures
        text is Some <==> valid_utf8(bytes@),
        text matches Some(t) ==> t@ == decode_utf8(bytes@),
{
    String::from_utf8(bytes).ok()
}

/// Turns the raw bytes of the `model` registry property into the model
/// identifier.
pub fn model_identifier_from_bytes(bytes: Vec<u8>) -> (model: Result<String, ModelError>)
    ensures
        match model {
            Ok(m) => model_identifier_from(bytes@) == Ok::<Seq<char>, ModelError>(m@),
            Err(e) => model_identifier_from(bytes@) == Err::<Seq<char>, ModelError>(e),
        },
{
    let text = match string_from_utf8(bytes) {
        Some(t) => t,
        None => return Err(ModelError::NotUtf8),
    };
    let trimmed = trim_nul_chars(text.as_str());
    if trimmed.unicode_len() == 0 {
        Err(ModelError::Empty)
    } else {
        Ok(trimmed)
    }
}

/// `s` with NUL characters trimmed from both ends.
fn trim_nul_chars(s: &str) -> (trimmed: String)
    ensures
        trimmed@ == trim_nul(s@),
{
    let mut chars: Vec<char> = Vec::new();
    for c in it: s.chars()
        invariant
            it.seq() == s@,
            chars@ == s@.take(it.index() as int),
    {
        proof {
            assert(s@.take(it.index() as int + 1) == s@.take(it.index() as int).push(c));
        }
        chars.push(c);
    }
    proof {
        assert(s@.take(s@.len() as int) == s@);
    }
    let ghost v = chars@;
    let n = chars.len();
    let mut start: usize = 0;
    while start < n && chars[start] == '\0'
        invariant
            chars@ == v,
            v == s@,
            n == v.len(),
            start <= n,
            trim_nul_start(v) == trim_nul_start(v.skip(start as int)),
        decreases n - start,
    {
        proof {
            assert(v.skip(start as int).drop_first() == v.skip(start as int + 1));
        }
        start = start + 1;
    }
    assert(trim_nul_start(v) == v.skip(start as int));
    let mut end: usize = n;
    while end > start && chars[end - 1] == '\0'
        invariant
            chars@ == v,
            n == v.len(),
            start <= end <= n,
            trim_nul(v) == trim_nul_end(v.subrange(start as int, end as int)),
        decreases end,
    {
        proof {
            assert(v.subrange(start as int, end as int).drop_last() == v.subrange(start as int, end as int - 1));
        }
        end = end - 1;
    }
    assert(trim_nul(v) == v.subrange(start as int, end as int));
    let mut trimmed = String::new();
    let mut k: usize = start;
    while k < end
        invariant
            chars@ == v,
            n == v.len(),
            start <= k <= end <= n,
            trimmed@ == v.subrange(start as int, k as int),
        decreases end - k,
    {
        trimmed.push(chars[k]);
        k = k + 1;
    }
    trimmed
}

} // verus!
