//! Base64, the form in which keys and ciphertexts travel.

use vstd::prelude::*;

verus! {

/// The base64 text of the bytes, as `base64::encode` writes it.
pub uninterp spec fn base64_text(bytes: Seq<u8>) -> Seq<char>;

/// The bytes that `base64::decode` reads from the text, or `None` where it
/// rejects the text.
pub uninterp spec fn base64_bytes(text: Seq<char>) -> Option<Seq<u8>>;

/// Whether the base64 text of `len` bytes has a length that a buffer can
/// have: four characters for every three bytes, the last group padded.
pub open spec fn fits_base64(len: nat) -> bool {
    (len / 3) * 4 + (if len % 3 > 0 {
        4int
    } else {
        0int
    }) <= isize::MAX
}

/// Whether the base64 text of `len` bytes has a length that a buffer can
/// have.
pub fn fits(len: usize) -> (r: bool)
    ensures
        r == fits_base64(len as nat),
{
    let groups: usize = len / 3;
    let limit: usize = isize::MAX as usize;
    if len % 3 > 0 {
        groups <= (limit - 4) / 4
    } else {
        groups <= limit / 4
    }
}

/// The error of `base64::decode`, carried as it is.
#[verifier::external_type_specification]
#[verifier::external_body]
pub struct ExDecodeError(::base64::DecodeError);

/// Calls `base64::encode` (the standard alphabet, with padding). The text
/// depends on the bytes alone, and `base64::decode` reads the bytes back
/// from it.
#[verifier::external_body]
pub(crate) fn base64_encode(bytes: &[u8]) -> (r: String)
    requires
        fits_base64(bytes@.len()),
    ensures
        r@ == base64_text(bytes@),
        base64_bytes(r@) == Some(bytes@),
{
    ::base64::encode(bytes)
}

/// Calls `base64::decode` (the standard alphabet, with padding). Whether
/// the text is accepted, and the bytes read, depend on the text alone.
#[verifier::external_body]
pub(crate) fn base64_decode(text: &str) -> (r: Result<Vec<u8>, ::base64::DecodeError>)
    ensures
        match r {
            Ok(v) => base64_bytes(text@) == Some(v@),
            Err(_) => base64_bytes(text@).is_none(),
        },
{
    ::base64::decode(text)
}

} // verus!
