//! Base64 decoding of the many base64-framed fields of the vault format.
//!
//! Decoding is done by the `base64` crate; its result is a pure function of
//! the input text, named here by an uninterpreted spec function so callers
//! can state exactly which bytes they work on.

use vstd::prelude::*;

use base64::Engine;

verus! {

/// What standard base64 decoding yields on a byte string: the decoded bytes,
/// or nothing when the text is not valid base64.
pub uninterp spec fn base64_decode_of(text: Seq<u8>) -> Option<Seq<u8>>;

/// Relies on base64::engine::general_purpose::STANDARD.decode: standard
/// alphabet with canonical padding; the result depends on the input alone.
#[verifier::external_body]
pub fn base64_decode(text: &[u8]) -> (r: Option<Vec<u8>>)
    ensures
        r matches Some(v) ==> base64_decode_of(text@) == Some(v@),
        r is None ==> base64_decode_of(text@) is None,
{
    match base64::engine::general_purpose::STANDARD.decode(text) {
        Ok(v) => Some(v),
        Err(_) => None,
    }
}

} // verus!
