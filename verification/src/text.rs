//! Decoding of the bytes that a child process writes.

use vstd::prelude::*;
use vstd::utf8::{decode_utf8, valid_utf8};

verus! {

/// The characters that lossy UTF-8 decoding gives for a run of bytes: the
/// characters that the bytes encode, with U+FFFD in place of each part that is
/// no valid encoding.
pub uninterp spec fn lossy_utf8(bytes: Seq<u8>) -> Seq<char>;

/// Calls `String::from_utf8_lossy`.
///
/// Believed of it: the result depends on the bytes alone, and bytes that are
/// valid UTF-8 give the text that they encode.
#[verifier::external_body]
fn from_utf8_lossy(data: &[u8]) -> (text: String)
    ensures
        text@ == lossy_utf8(data@),
        valid_utf8(data@) ==> text@ == decode_utf8(data@),
{
    String::from_utf8_lossy(data).into_owned()
}

/// No bytes are valid UTF-8, and encode no character.
pub proof fn lemma_decode_empty(bytes: Seq<u8>)
    requires
        bytes.len() == 0,
    ensures
        valid_utf8(bytes),
        decode_utf8(bytes).len() == 0,
{
}

/// Decodes bytes as UTF-8 into characters, replacing what is not valid.
pub fn decode_lossy(data: &[u8]) -> (text: Vec<char>)
    ensures
        text@ == lossy_utf8(data@),
        valid_utf8(data@) ==> text@ == decode_utf8(data@),
{
    let decoded = from_utf8_lossy(data);
    let mut text: Vec<char> = Vec::new();
    for c in it: decoded.as_str().chars()
        invariant
            it.seq() == decoded@,
            text@ == it.seq().take(it.index() as int),
    {
        text.push(c);
    }
    assert(text@ =~= decoded@);
    text
}

} // verus!
