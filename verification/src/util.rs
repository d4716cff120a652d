//! Wide-character string utilities.
//!
//! The native subsystem speaks in null-terminated UTF-16 strings. This
//! module encodes library strings into code units, measures the
//! length-implicit strings the engine hands back, and decodes them,
//! surfacing a decode error for malformed text.

use vstd::prelude::*;

use crate::error::WfpError;
use vstd::slice::slice_index_get;

verus! {

/// The UTF-16 code units of a string, a function of its characters alone.
pub uninterp spec fn utf16_of(s: Seq<char>) -> Seq<u16>;

/// Relies on `str::encode_utf16`: the code units it yields depend on the
/// characters of the string alone.
#[verifier::external_body]
fn encode_utf16_units(s: &str) -> (r: Vec<u16>)
    ensures
        r@ == utf16_of(s@),
{
    s.encode_utf16().collect()
}

/// Converts `s` to a null-terminated UTF-16 string.
pub fn string_to_null_terminated_utf16(s: &str) -> (r: Vec<u16>)
    ensures
        r@ == utf16_of(s@).push(0u16),
{
    let mut units = encode_utf16_units(s);
    units.push(0u16);
    units
}

/// The number of code units before the first 0, or the whole length when no
/// 0 occurs: how far a length-implicit native string reaches.
pub open spec fn zterm_prefix_len(s: Seq<u16>) -> int
    decreases s.len(),
{
    if s.len() == 0 {
        0
    } else if s[0] == 0 {
        0
    } else {
        1 + zterm_prefix_len(s.subrange(1, s.len() as int))
    }
}

/// The prefix of `s` a length-implicit native string denotes.
pub open spec fn zterm_prefix(s: Seq<u16>) -> Seq<u16> {
    s.subrange(0, zterm_prefix_len(s))
}

/// `zterm_prefix_len` is exactly the index of the first 0, or the length
/// when there is none.
pub proof fn lemma_zterm_prefix_len(s: Seq<u16>)
    ensures
        0 <= zterm_prefix_len(s) <= s.len(),
        forall|j: int| 0 <= j < zterm_prefix_len(s) ==> s[j] != 0,
        zterm_prefix_len(s) < s.len() ==> s[zterm_prefix_len(s)] == 0,
    decreases s.len(),
{
    if s.len() != 0 && s[0] != 0 {
        let t = s.subrange(1, s.len() as int);
        lemma_zterm_prefix_len(t);
        assert forall|j: int| 0 <= j < zterm_prefix_len(s) implies s[j] != 0 by {
            if j > 0 {
                assert(s[j] == t[j - 1]);
            }
        }
    }
}

/// Retrieves the length of the length-implicit string held in `s`: the
/// number of code units before the first 0, or all of them when no 0
/// occurs.
pub fn wcslen(s: &[u16]) -> (n: usize)
    ensures
        n == zterm_prefix_len(s@),
{
    let len = s.len();
    let mut i: usize = 0;
    while i < len && *slice_index_get(s, i) != 0
        invariant
            0 <= i <= len,
            len == s@.len(),
            forall|j: int| 0 <= j < i ==> s@[j] != 0,
        decreases len - i,
    {
        i = i + 1;
    }
    proof {
        lemma_zterm_prefix_len(s@);
        if i < len {
            assert(s@[i as int] == 0);
        }
    }
    i
}

/// Duplicates a vector of code units.
pub(crate) fn clone_units(v: &Vec<u16>) -> (r: Vec<u16>)
    ensures
        r@ == v@,
{
    let mut r: Vec<u16> = Vec::new();
    let len = v.len();
    let mut i: usize = 0;
    while i < len
        invariant
            0 <= i <= len,
            len == v@.len(),
            r@ == v@.subrange(0, i as int),
        decreases len - i,
    {
        r.push(v[i]);
        i = i + 1;
    }
    proof {
        assert(r@ =~= v@);
    }
    r
}

/// Whether UTF-16 code units decode, and to what: a function of the units
/// alone.
pub uninterp spec fn utf16_decoded(s: Seq<u16>) -> Option<Seq<char>>;

/// Relies on `String::from_utf16`: whether code units are well-formed
/// UTF-16, and the text they decode to, depend on the units alone.
#[verifier::external_body]
fn utf16_to_string(s: &[u16]) -> (r: Option<String>)
    ensures
        r is Some <==> utf16_decoded(s@) is Some,
        r is Some ==> r.unwrap()@ == utf16_decoded(s@).unwrap(),
{
    String::from_utf16(s).ok()
}

/// Decodes UTF-16 code units, surfacing [`WfpError::Decode`] when they are
/// not well-formed.
pub fn wide_to_string(s: &[u16]) -> (r: Result<String, WfpError>)
    ensures
        r is Ok <==> utf16_decoded(s@) is Some,
        r is Ok ==> r.unwrap()@ == utf16_decoded(s@).unwrap(),
        r is Err ==> r.unwrap_err() is Decode,
{
    match utf16_to_string(s) {
        Some(text) => Ok(text),
        None => Err(WfpError::Decode),
    }
}

} // verus!
