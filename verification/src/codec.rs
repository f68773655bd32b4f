//! The binary-to-text codec used by the key-value backend.
//!
//! The browser's local storage holds text, so the key-value backend
//! stores bytes in their standard base64 rendering and decodes them on
//! the way back.  Encoding and decoding are done by the `base64` crate;
//! the contracts here state that decoding inverts encoding, which is
//! what the backend's round trip rests on.

use crate::error::StoreError;
use vstd::prelude::*;

verus! {

/// The standard base64 rendering of a byte sequence, as produced by
/// `base64::encode`.  The alphabet and padding rules stay with the
/// outside crate; only the name is used here.
pub uninterp spec fn b64_of(bytes: Seq<u8>) -> Seq<char>;

/// Relies on `base64::encode`: the standard alphabet with padding.  The
/// result depends on the bytes alone, and an empty input encodes to the
/// empty string.
#[verifier::external_body]
fn b64_encode(data: &[u8]) -> (r: String)
    ensures
        r@ == b64_of(data@),
        data@.len() == 0 ==> r@.len() == 0,
{
    base64::encode(data)
}

#[verifier::external_type_specification]
#[verifier::external_body]
pub struct ExDecodeError(base64::DecodeError);

/// Relies on `base64::decode`: decoding inverts `base64::encode`, so
/// the exact encoding of a byte sequence decodes back to that sequence.
#[verifier::external_body]
fn b64_decode(text: &str) -> (r: Result<Vec<u8>, base64::DecodeError>)
    ensures
        (exists|d: Seq<u8>| text@ == b64_of(d)) ==> r is Ok,
        r matches Ok(out) ==> forall|d: Seq<u8>| text@ == b64_of(d) ==> out@ == d,
{
    base64::decode(text)
}

/// Encodes bytes into the text-safe value the key-value backend stores.
pub fn encode_value(data: &[u8]) -> (r: String)
    ensures
        r@ == b64_of(data@),
        data@.len() == 0 ==> r@.len() == 0,
{
    b64_encode(data)
}

/// Decodes a stored text value back into bytes.  Whatever byte sequence
/// [`encode_value`] was given, decoding the encoded value returns that
/// sequence exactly; a value that is not text-encoded binary yields a
/// `Decode` error.
pub fn decode_value(text: &str) -> (r: Result<Vec<u8>, StoreError>)
    ensures
        (exists|d: Seq<u8>| text@ == b64_of(d)) ==> r is Ok,
        r matches Ok(out) ==> forall|d: Seq<u8>| text@ == b64_of(d) ==> out@ == d,
        r matches Err(e) ==> e is Decode,
{
    match b64_decode(text) {
        Ok(v) => Ok(v),
        Err(_) => Err(StoreError::Decode),
    }
}

/// The codec round trip of the key-value backend: writing stores
/// `encode_value(data)` and reading decodes it, so reading back what
/// was written yields `data` exactly — for empty and non-empty byte
/// sequences alike.  The contract states the law; the body is the
/// round trip itself, and the proof shows that decoding an encoded
/// value can neither fail nor change the bytes.
pub fn round_trip(data: &[u8]) -> (r: Vec<u8>)
    ensures
        r@ == data@,
{
    let stored = encode_value(data);
    match decode_value(stored.as_str()) {
        Ok(out) => out,
        Err(_) => {
            proof {
                assert(false);
            }
            Vec::new()
        },
    }
}

} // verus!
