//! Text on its way to the driver and back.
//!
//! The driver reads a string up to the first terminator byte, so text that
//! holds one cannot be handed over whole. What the driver returns is bytes,
//! and becomes text only if it is UTF-8.

use crate::error::{Error, ErrorView};
use vstd::prelude::*;
use vstd::string::*;
use vstd::utf8::*;

verus! {

/// The byte at which the driver stops reading a string.
pub const TERMINATOR: u8 = 0;

/// Whether the driver would read `bytes` to their end.
pub open spec fn terminator_free(bytes: Seq<u8>) -> bool {
    forall|i: int| 0 <= i < bytes.len() ==> bytes[i] != TERMINATOR
}

/// The bytes of `text`, if the driver can take them: `text` is refused as
/// soon as one of its bytes is the terminator.
pub fn driver_bytes(text: &str) -> (r: Result<Vec<u8>, Error>)
    ensures
        r is Ok <==> terminator_free(text.spec_bytes()),
        r matches Ok(bytes) ==> bytes@ == text.spec_bytes(),
        r matches Err(e) ==> e@ == ErrorView::Encoding,
{
    let bytes = text.as_bytes();
    let mut out: Vec<u8> = Vec::new();
    let mut i: usize = 0;
    while i < bytes.len()
        invariant
            i <= bytes.len(),
            bytes@ == text.spec_bytes(),
            out@ == bytes@.subrange(0, i as int),
            terminator_free(out@),
        decreases bytes.len() - i,
    {
        let b: u8 = bytes[i];
        if b == TERMINATOR {
            return Err(Error::Encoding);
        }
        out.push(b);
        i += 1;
        assert(out@ == bytes@.subrange(0, i as int));
    }
    assert(out@ == bytes@);
    Ok(out)
}

/// `std::str::from_utf8`: the bytes as a string slice exactly when they are
/// well-formed UTF-8, and then the slice holds the characters that the bytes
/// encode.
#[verifier::external_body]
fn str_from_utf8(bytes: &[u8]) -> (r: Option<&str>)
    ensures
        r is Some <==> valid_utf8(bytes@),
        r matches Some(text) ==> text@ == decode_utf8(bytes@),
{
    match std::str::from_utf8(bytes) {
        Ok(text) => Some(text),
        Err(_) => None,
    }
}

/// The text that `bytes` encode. All of `bytes` is decoded, a terminator
/// among them included; bytes that are not UTF-8 are an encoding error.
pub fn decode(bytes: &[u8]) -> (r: Result<String, Error>)
    ensures
        r is Ok <==> valid_utf8(bytes@),
        r matches Ok(text) ==> text@ == decode_utf8(bytes@),
        r matches Err(e) ==> e@ == ErrorView::Encoding,
{
    match str_from_utf8(bytes) {
        Some(text) => Ok(text.to_owned()),
        None => Err(Error::Encoding),
    }
}

} // verus!
