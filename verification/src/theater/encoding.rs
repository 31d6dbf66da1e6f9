//! Base64, as the server's tools carry binary data in text.
//!
//! The alphabet and the padding are those of the `base64` crate's standard
//! engine. This module names what that engine returns and keeps calls to it
//! away from the one input on which it does not return.

use vstd::prelude::*;
use base64::Engine;

verus! {

/// A decoding error of `base64`.
#[verifier::external_type_specification]
#[verifier::external_body]
pub struct ExDecodeError(base64::DecodeError);

/// The text that the standard engine's `encode` returns for `data`.
pub uninterp spec fn base64_text(data: Seq<u8>) -> Seq<char>;

/// The bytes that the standard engine's `decode` returns for `text`, where
/// it accepts the text.
pub uninterp spec fn base64_data(text: Seq<char>) -> Option<Seq<u8>>;

/// Whether the encoded form of `len` bytes, four characters for every three
/// bytes or part of them, has a length that fits a `usize`.
pub open spec fn encodable(len: nat) -> bool {
    len / 3 * 4 + (if len % 3 > 0 {
        4int
    } else {
        0int
    }) <= usize::MAX
}

/// `Engine::encode` on the standard engine: the padded base64 text of the
/// data. The call panics where the text's length overflows; such data is
/// kept out.
#[verifier::external_body]
fn standard_encode(data: &[u8]) -> (text: String)
    requires
        encodable(data@.len()),
    ensures
        text@ == base64_text(data@),
{
    base64::engine::general_purpose::STANDARD.encode(data)
}

/// `Engine::decode` on the standard engine: the decoded bytes, or the error
/// for a text that is not padded base64.
#[verifier::external_body]
fn standard_decode(text: &str) -> (r: Result<Vec<u8>, base64::DecodeError>)
    ensures
        match r {
            Ok(data) => base64_data(text@) == Some(data@),
            Err(_) => base64_data(text@) is None,
        },
{
    base64::engine::general_purpose::STANDARD.decode(text)
}

/// `to_string` on a `base64::DecodeError`: the error's report.
#[verifier::external_body]
fn decode_error_report(error: &base64::DecodeError) -> (report: String) {
    error.to_string()
}

/// Whether data of this length can be encoded.
pub fn can_encode(len: usize) -> (b: bool)
    ensures
        b == encodable(len as nat),
{
    let chunks: usize = len / 3;
    let tail: usize = if len % 3 > 0 {
        4
    } else {
        0
    };
    match chunks.checked_mul(4) {
        Some(whole) => whole.checked_add(tail).is_some(),
        None => {
            assert(chunks * 4 > usize::MAX);
            false
        },
    }
}

/// The base64 text of `data`, unless the text would be too long to hold.
pub fn encode(data: &[u8]) -> (text: Option<String>)
    ensures
        match text {
            Some(t) => encodable(data@.len()) && t@ == base64_text(data@),
            None => !encodable(data@.len()),
        },
{
    if can_encode(data.len()) {
        Some(standard_encode(data))
    } else {
        None
    }
}

/// The bytes that a base64 text stands for, or the decoder's report for a
/// text that is not padded base64.
pub fn decode(text: &str) -> (r: Result<Vec<u8>, String>)
    ensures
        match r {
            Ok(data) => base64_data(text@) == Some(data@),
            Err(_) => base64_data(text@) is None,
        },
{
    match standard_decode(text) {
        Ok(data) => Ok(data),
        Err(error) => Err(decode_error_report(&error)),
    }
}

} // verus!
