use vstd::prelude::*;
use crate::error::ZinharoError;

verus! {

/// The standard, padded base64 text of `bytes`.
pub uninterp spec fn base64_text(bytes: Seq<u8>) -> Seq<char>;

/// The bytes that a standard base64 text decodes to, if it is valid.
pub uninterp spec fn base64_bytes(text: Seq<char>) -> Option<Seq<u8>>;

/// Relies on `base64::encode`, which writes `b` in the standard alphabet with
/// padding. Its length arithmetic panics only past `isize::MAX / 4 * 3`
/// input bytes, which no vector holds.
#[verifier::external_body]
fn base64_encode(b: &[u8]) -> (r: String)
    requires
        b@.len() <= isize::MAX,
    ensures
        r@ == base64_text(b@),
{
    base64::encode(b)
}

/// Relies on `base64::decode`, the inverse of `base64::encode`: it rejects
/// text that is not standard base64, and gives back the bytes of any text
/// that `base64::encode` wrote. Its length arithmetic panics only for a text
/// of nearly `usize::MAX` bytes, which no `str` holds.
#[verifier::external_body]
fn base64_decode(text: &str) -> (r: Option<Vec<u8>>)
    ensures
        r is Some <==> base64_bytes(text@) is Some,
        r is Some ==> r->0@ == base64_bytes(text@)->0,
        forall|b: Seq<u8>| text@ == #[trigger] base64_text(b) ==> r is Some && r->0@ == b,
{
    match base64::decode(text) {
        Ok(v) => Some(v),
        Err(_) => None,
    }
}

/// The base64 text in which a capture travels to the coordinator.
pub fn encode_cap(cap: &Vec<u8>) -> (r: String)
    requires
        cap@.len() <= isize::MAX,
    ensures
        r@ == base64_text(cap@),
{
    base64_encode(cap.as_slice())
}

/// Decodes a capture that travelled as base64 text; `InvalidResponse` when
/// the text is not valid base64. Decoding what `encode_cap` wrote gives the
/// original bytes back.
pub fn decode_cap(text: &str) -> (r: Result<Vec<u8>, ZinharoError>)
    ensures
        r is Ok <==> base64_bytes(text@) is Some,
        r is Ok ==> r->Ok_0@ == base64_bytes(text@)->0,
        r is Err ==> r matches Err(ZinharoError::InvalidResponse),
        forall|b: Seq<u8>| text@ == #[trigger] base64_text(b) ==> r is Ok && r->Ok_0@ == b,
{
    match base64_decode(text) {
        Some(v) => Ok(v),
        None => Err(ZinharoError::InvalidResponse),
    }
}

} // verus!
