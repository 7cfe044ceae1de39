//! Decoding of the fixed-width, zero-padded text fields that drivers embed in
//! their reply records.

use vstd::prelude::*;

use vstd::utf8::{decode_utf8, valid_utf8};

use crate::error::StreamError;

verus! {

/// The characters whose code points are the given bytes, one character per
/// byte.
pub open spec fn byte_chars(s: Seq<u8>) -> Seq<char> {
    s.map(|i: int, b: u8| b as char)
}

/// True when the sequence holds a zero byte.
pub open spec fn contains_nul(s: Seq<u8>) -> bool {
    exists|i: int| 0 <= i < s.len() && s[i] == 0
}

/// True when `p` is the position of the first zero byte of `s`.
pub open spec fn is_first_nul(s: Seq<u8>, p: int) -> bool {
    &&& 0 <= p < s.len()
    &&& s[p] == 0
    &&& forall|j: int| 0 <= j < p ==> s[j] != 0
}

/// The position of the first zero byte of `s`.
pub open spec fn first_nul(s: Seq<u8>) -> int {
    choose|p: int| is_first_nul(s, p)
}

/// The first zero byte has exactly one position.
pub proof fn lemma_first_nul_unique(s: Seq<u8>, p: int)
    requires
        is_first_nul(s, p),
    ensures
        first_nul(s) == p,
{
    let q = first_nul(s);
    assert(is_first_nul(s, q));
    if q < p {
        assert(s[q] != 0);
    }
    if p < q {
        assert(s[p] != 0);
    }
}

/// The text a zero-padded field decodes to: the characters encoded by the
/// bytes before its first zero byte.
pub open spec fn spec_field_text(field: Seq<u8>) -> Seq<char> {
    decode_utf8(field.subrange(0, first_nul(field)))
}

/// True when a zero-padded text field decodes cleanly: it has a terminator
/// and the bytes before it are valid UTF-8.
pub open spec fn field_decodes(field: Seq<u8>) -> bool {
    contains_nul(field) && valid_utf8(field.subrange(0, first_nul(field)))
}

/// Relies on core::str::from_utf8 and str::to_owned: a string comes back
/// exactly when the bytes are valid UTF-8, and then spells the characters
/// they encode.
#[verifier::external_body]
pub(crate) fn bytes_to_string(b: &[u8]) -> (r: Option<String>)
    ensures
        r is Some <==> valid_utf8(b@),
        r matches Some(s) ==> s@ == decode_utf8(b@),
{
    match core::str::from_utf8(b) {
        Ok(s) => Some(s.to_owned()),
        Err(_) => None,
    }
}

/// Turns a zero-padded byte array containing UTF-8 text into an owned
/// string, truncated at the first zero byte.
///
/// A missing terminator means the record's layout does not match the running
/// driver, and is reported as `MalformedResponse`, as is text that is not
/// valid UTF-8.
pub fn byte_array_to_str(bytes: &[u8]) -> (r: Result<String, StreamError>)
    ensures
        r is Ok <==> field_decodes(bytes@),
        r matches Ok(s) ==> s@ == spec_field_text(bytes@),
        r matches Err(e) ==> e == StreamError::MalformedResponse,
{
    let n = bytes.len();
    let mut i: usize = 0;
    while i < n
        invariant
            n == bytes@.len(),
            0 <= i <= n,
            forall|j: int| 0 <= j < i ==> bytes@[j] != 0,
        decreases n - i,
    {
        if *vstd::slice::slice_index_get(bytes, i) == 0 {
            proof {
                lemma_first_nul_unique(bytes@, i as int);
            }
            let prefix = vstd::slice::slice_subrange(bytes, 0, i);
            match bytes_to_string(prefix) {
                Some(s) => {
                    return Ok(s);
                },
                None => {
                    return Err(StreamError::MalformedResponse);
                },
            }
        }
        i = i + 1;
    }
    Err(StreamError::MalformedResponse)
}

} // verus!
