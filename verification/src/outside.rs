//! What the library takes from code that is not verified with it. The
//! contracts in this file are believed, not proved.

use vstd::prelude::*;
use vstd::utf8::valid_utf8;
use base64::Engine;

verus! {

/// The error of the base64 crate's decoder.
#[verifier::external_type_specification]
#[verifier::external_body]
pub struct ExDecodeError(base64::DecodeError);

/// What the base64 crate's `STANDARD` engine decodes `input` to: the bytes,
/// or nothing where it reports an error. The decoder reads nothing but its
/// input; what it returns is not described here.
pub uninterp spec fn base64_standard_decode(input: Seq<u8>) -> Option<Seq<u8>>;

/// `Engine::decode` of the base64 crate, on its `STANDARD` engine. The
/// contract gives the call's outcome its name and claims nothing else of it.
#[verifier::external_body]
pub(crate) fn decode_base64(input: &[u8]) -> (r: Result<Vec<u8>, base64::DecodeError>)
    ensures
        match r {
            Ok(bytes) => base64_standard_decode(input@) == Some(bytes@),
            Err(_) => base64_standard_decode(input@).is_none(),
        },
{
    base64::engine::general_purpose::STANDARD.decode(input)
}

/// `core::str::from_utf8`, asked only whether it succeeds: it does exactly
/// on the byte strings that are UTF-8.
#[verifier::external_body]
pub(crate) fn is_utf8(bytes: &[u8]) -> (r: bool)
    ensures
        r == valid_utf8(bytes@),
{
    core::str::from_utf8(bytes).is_ok()
}

} // verus!
