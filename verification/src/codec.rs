//! The restricted-alphabet codec for addresses and secret keys.
//!
//! Encoding and decoding are done by the `bs58` crate with its default
//! (Bitcoin) alphabet, which is exactly the 58-symbol alphabet of
//! [`crate::alphabet`]. The codec is trusted at this boundary: the two
//! uninterpreted functions below name its results, and the wrappers state the
//! round-trip behaviour that the crate documents.

use vstd::prelude::*;

verus! {

use crate::alphabet::base58_char;

/// The text that `bs58::encode` produces for the given bytes.
pub uninterp spec fn base58_of(bytes: Seq<u8>) -> Seq<char>;

/// The bytes that `bs58::decode` recovers from the given text, or `None` where
/// it reports an error.
pub uninterp spec fn base58_decode_of(text: Seq<char>) -> Option<Seq<u8>>;

/// Relies on `bs58::encode(..).into_string()` with the default alphabet: the
/// result is drawn from the 58-symbol alphabet, it is non-empty for non-empty
/// input, and `bs58::decode` inverts it exactly.
#[verifier::external_body]
pub(crate) fn base58_encode(bytes: &[u8]) -> (r: String)
    ensures
        r@ == base58_of(bytes@),
        base58_decode_of(r@) == Some(bytes@),
        forall|i: int| 0 <= i < r@.len() ==> base58_char(r@[i]),
        bytes@.len() > 0 ==> r@.len() > 0,
{
    bs58::encode(bytes).into_string()
}

/// Relies on `bs58::decode(..).into_vec()` with the default alphabet: it
/// returns bytes for well-formed base58 text and an error otherwise.
#[verifier::external_body]
pub(crate) fn base58_decode(text: &str) -> (r: Option<Vec<u8>>)
    ensures
        r is Some <==> base58_decode_of(text@) is Some,
        r matches Some(v) ==> base58_decode_of(text@) == Some(v@),
{
    match bs58::decode(text).into_vec() {
        Ok(v) => Some(v),
        Err(_) => None,
    }
}

} // verus!
