//! Interpretation of secret bytes as UTF-8 text.
//!
//! The text-convenience operations fetch opaque bytes first and interpret
//! them afterwards; a decoding failure becomes the taxonomy's own
//! [`PythonLinuxKeyutilsError::UTF8Error`] category, never a kernel one and
//! never a crash.

use vstd::prelude::*;

use crate::errors::PythonLinuxKeyutilsError;

verus! {

broadcast use vstd::utf8::group_utf8_lib;

/// Relies on `String::from_utf8`: it succeeds exactly when the bytes are
/// valid UTF-8, and then returns the string whose UTF-8 encoding is those
/// bytes.
#[verifier::external_body]
fn string_from_utf8(bytes: Vec<u8>) -> (r: Result<String, ()>)
    ensures
        r is Ok <==> vstd::utf8::valid_utf8(bytes@),
        r is Ok ==> vstd::utf8::encode_utf8(r->Ok_0@) == bytes@,
{
    match String::from_utf8(bytes) {
        Ok(s) => Ok(s),
        Err(_) => Err(()),
    }
}

/// Law: a text secret survives the encoding pair unchanged.  The bytes that
/// the text-store operation submits — the text's UTF-8 encoding — are always
/// valid UTF-8, and decoding them yields exactly the original characters; so
/// a byte-exact fetch of what was stored decodes back to the stored text.
pub proof fn lemma_text_round_trip(text: Seq<char>)
    ensures
        vstd::utf8::valid_utf8(vstd::utf8::encode_utf8(text)),
        vstd::utf8::decode_utf8(vstd::utf8::encode_utf8(text)) == text,
{
    vstd::utf8::encode_utf8_valid_utf8(text);
    vstd::utf8::encode_utf8_decode_utf8(text);
}

/// Interpret fetched secret bytes as UTF-8 text.  Decoding succeeds exactly
/// on valid UTF-8 and returns the bytes' decoding; a failure is always the
/// text-decoding category, distinct from every kernel-originated one.
pub fn decode_secret_text(bytes: Vec<u8>) -> (r: Result<String, PythonLinuxKeyutilsError>)
    ensures
        r is Ok <==> vstd::utf8::valid_utf8(bytes@),
        r is Ok ==> r->Ok_0@ == vstd::utf8::decode_utf8(bytes@),
        r is Err ==> r->Err_0 == PythonLinuxKeyutilsError::UTF8Error,
{
    match string_from_utf8(bytes) {
        Ok(text) => Ok(text),
        Err(()) => Err(PythonLinuxKeyutilsError::UTF8Error),
    }
}

} // verus!
