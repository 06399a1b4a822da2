//! The signing keypair, held as its 64-byte serialization.
//!
//! The first 32 bytes are the ed25519 secret seed, the last 32 the public key
//! derived from it; that layout is how the signing library serializes a
//! keypair. Signing and verification are trusted at this boundary: the
//! uninterpreted functions below name the library's results, and every
//! well-formed keypair signs messages that verify against its own public key.

use vstd::prelude::*;

verus! {

use crate::codec::base58_of;
use crate::codec::base58_decode_of;
use crate::codec::base58_encode;
use crate::alphabet::base58_char;

/// The ed25519 public key derived from a 32-byte secret seed.
pub uninterp spec fn ed25519_public_of(seed: Seq<u8>) -> Seq<u8>;

/// The (deterministic) ed25519 signature of a message under a secret seed.
pub uninterp spec fn ed25519_sign_of(seed: Seq<u8>, msg: Seq<u8>) -> Seq<u8>;

/// Whether a signature verifies against a message and a public key.
pub uninterp spec fn ed25519_verify_of(sig: Seq<u8>, msg: Seq<u8>, pubkey: Seq<u8>) -> bool;

/// An ed25519 keypair: 64 bytes, secret seed followed by public key.
pub struct Keypair {
    pub bytes: Vec<u8>,
}

impl Keypair {
    /// The 32-byte secret seed.
    pub open spec fn seed_view(self) -> Seq<u8> {
        self.bytes@.subrange(0, 32)
    }

    /// The 32-byte public key.
    pub open spec fn public_view(self) -> Seq<u8> {
        self.bytes@.subrange(32, 64)
    }

    /// Well-formed: 64 bytes whose public half is derived from the secret
    /// half. Every constructor of this crate establishes this.
    pub open spec fn wf(self) -> bool {
        &&& self.bytes@.len() == 64
        &&& self.public_view() == ed25519_public_of(self.seed_view())
    }

    /// Builds the keypair determined by a 32-byte secret seed.
    pub fn from_seed(seed: &[u8]) -> (r: Keypair)
        requires
            seed@.len() == 32,
        ensures
            r.wf(),
            r.seed_view() == seed@,
    {
        Keypair { bytes: keypair_bytes_from_seed(seed) }
    }

    /// The 64-byte serialization, secret seed followed by public key.
    pub fn to_bytes(&self) -> (r: Vec<u8>)
        ensures
            r@ == self.bytes@,
    {
        vstd::slice::slice_to_vec(self.bytes.as_slice())
    }

    /// The 32-byte public key.
    pub fn pubkey_bytes(&self) -> (r: Vec<u8>)
        requires
            self.bytes@.len() == 64,
        ensures
            r@ == self.public_view(),
    {
        let mut r: Vec<u8> = Vec::new();
        let mut i: usize = 32;
        while i < 64
            invariant
                self.bytes@.len() == 64,
                32 <= i <= 64,
                r@ == self.bytes@.subrange(32, i as int),
            decreases 64 - i,
        {
            r.push(self.bytes[i]);
            proof {
                assert(r@ =~= self.bytes@.subrange(32, i + 1));
            }
            i += 1;
        }
        proof {
            assert(r@ =~= self.public_view());
        }
        r
    }

    /// The base58 rendering of the public key: the address.
    pub fn address(&self) -> (r: String)
        requires
            self.bytes@.len() == 64,
        ensures
            r@ == base58_of(self.public_view()),
            base58_decode_of(r@) == Some(self.public_view()),
            forall|i: int| 0 <= i < r@.len() ==> base58_char(r@[i]),
            r@.len() > 0,
    {
        let pk = self.pubkey_bytes();
        base58_encode(pk.as_slice())
    }

    /// The base58 rendering of the full 64-byte secret serialization.
    pub fn secret_base58(&self) -> (r: String)
        ensures
            r@ == base58_of(self.bytes@),
            base58_decode_of(r@) == Some(self.bytes@),
    {
        base58_encode(self.bytes.as_slice())
    }

    /// Signs a message. Succeeds exactly on well-formed keypairs, and the
    /// signature then verifies against this keypair's public key.
    pub fn sign_message(&self, msg: &[u8]) -> (r: Option<Vec<u8>>)
        requires
            self.bytes@.len() == 64,
        ensures
            r is Some <==> self.wf(),
            r matches Some(sig) ==> {
                &&& sig@ == ed25519_sign_of(self.seed_view(), msg@)
                &&& sig@.len() == 64
                &&& ed25519_verify_of(sig@, msg@, self.public_view())
            },
    {
        sign_message_raw(&self.bytes, msg)
    }
}

/// Relies on `solana_sdk`'s `keypair_from_seed` (a 32-byte seed never fails)
/// and `Keypair::to_bytes`: the serialization is the seed followed by the
/// ed25519 public key derived from it.
#[verifier::external_body]
fn keypair_bytes_from_seed(seed: &[u8]) -> (r: Vec<u8>)
    requires
        seed@.len() == 32,
    ensures
        r@.len() == 64,
        r@.subrange(0, 32) == seed@,
        r@.subrange(32, 64) == ed25519_public_of(seed@),
{
    let kp = solana_sdk::signer::keypair::keypair_from_seed(seed).unwrap();
    kp.to_bytes().to_vec()
}

/// Relies on `solana_sdk`'s `Keypair::new` and `Keypair::to_bytes`: a fresh
/// random keypair, serialized as the secret seed followed by the public key
/// derived from it.
#[verifier::external_body]
pub(crate) fn keypair_bytes_new() -> (r: Vec<u8>)
    ensures
        r@.len() == 64,
        r@.subrange(32, 64) == ed25519_public_of(r@.subrange(0, 32)),
{
    solana_sdk::signature::Keypair::new().to_bytes().to_vec()
}

/// Relies on `solana_sdk`'s `Keypair::from_bytes`, which succeeds exactly when
/// the public half matches the secret half, and `Signer::sign_message`, whose
/// ed25519 signature is a deterministic function of seed and message and
/// verifies against the keypair's public key (`Signature::verify`).
#[verifier::external_body]
fn sign_message_raw(keypair_bytes: &Vec<u8>, msg: &[u8]) -> (r: Option<Vec<u8>>)
    requires
        keypair_bytes@.len() == 64,
    ensures
        r is Some <==> keypair_bytes@.subrange(32, 64) == ed25519_public_of(
            keypair_bytes@.subrange(0, 32),
        ),
        r matches Some(sig) ==> {
            &&& sig@ == ed25519_sign_of(keypair_bytes@.subrange(0, 32), msg@)
            &&& sig@.len() == 64
            &&& ed25519_verify_of(sig@, msg@, keypair_bytes@.subrange(32, 64))
        },
{
    match solana_sdk::signature::Keypair::from_bytes(keypair_bytes.as_slice()) {
        Ok(kp) => Some(solana_sdk::signature::Signer::sign_message(&kp, msg).as_ref().to_vec()),
        Err(_) => None,
    }
}

/// Relies on `solana_sdk`'s `Signature::try_from` (64 bytes never fail) and
/// `Signature::verify`, whose result is a deterministic function of signature,
/// message and public-key bytes.
#[verifier::external_body]
pub(crate) fn verify_signature(sig: &[u8], msg: &[u8], pubkey: &[u8]) -> (r: bool)
    requires
        sig@.len() == 64,
    ensures
        r == ed25519_verify_of(sig@, msg@, pubkey@),
{
    let s: solana_sdk::signature::Signature = core::convert::TryFrom::try_from(sig).unwrap();
    s.verify(pubkey, msg)
}

/// A signature produced by a well-formed keypair verifies against that
/// keypair's own public key; checked here end to end through the library.
pub fn signature_self_check(kp: &Keypair, msg: &[u8]) -> (r: Option<bool>)
    requires
        kp.bytes@.len() == 64,
    ensures
        r is Some <==> kp.wf(),
        r matches Some(ok) ==> ok,
{
    match kp.sign_message(msg) {
        Some(sig) => {
            let pk = kp.pubkey_bytes();
            Some(verify_signature(sig.as_slice(), msg, pk.as_slice()))
        },
        None => None,
    }
}

} // verus!
