//! Base64 in the URL-safe alphabet with padding, as the wire format writes
//! bytes. The coding is done by the `base64` crate.

use vstd::prelude::*;
use base64::Engine;

verus! {

#[verifier::external_type_specification]
#[verifier::external_body]
pub struct ExDecodeError(base64::DecodeError);

/// The text that `BASE64_URL_SAFE.encode` of the `base64` crate gives for
/// `data`.
pub uninterp spec fn encoded(data: Seq<u8>) -> Seq<char>;

/// The bytes that `BASE64_URL_SAFE.decode` of the `base64` crate gives for
/// `text`, or nothing where it rejects the text.
pub uninterp spec fn decoded(text: Seq<char>) -> Option<Seq<u8>>;

/// The longest input whose encoding still has a length that fits in `usize`.
pub const MAX_ENCODABLE: usize = usize::MAX / 4 * 3;

/// `Engine::encode` on `BASE64_URL_SAFE`. Claimed: the result is what
/// [`encoded`] names. The length is bounded because `encode` panics where the
/// encoded length overflows.
#[verifier::external_body]
pub(crate) fn encode(data: &[u8]) -> (text: String)
    requires
        data@.len() <= MAX_ENCODABLE,
    ensures
        text@ == encoded(data@),
{
    base64::prelude::BASE64_URL_SAFE.encode(data)
}

/// `Engine::decode` on `BASE64_URL_SAFE`. Claimed: the result is what
/// [`decoded`] names.
#[verifier::external_body]
pub(crate) fn decode(text: &str) -> (r: Result<Vec<u8>, base64::DecodeError>)
    ensures
        match r {
            Ok(data) => decoded(text@) == Some(data@),
            Err(_) => decoded(text@) is None,
        },
{
    base64::prelude::BASE64_URL_SAFE.decode(text)
}

} // verus!
