//! Candidate key generation.
//!
//! Two modes, chosen once per search. Fast mode draws a 32-byte seed straight
//! from the entropy source. Mnemonic mode draws 16 bytes of entropy, renders
//! them as a 12-word phrase, stretches the phrase (with an empty passphrase)
//! into a 64-byte seed, and derives the 32-byte signing seed under the fixed
//! hierarchical path `m/44'/501'/0'/0'`. Everything after the entropy draw is
//! a deterministic function of the draw, which the contracts here pin down.

use vstd::prelude::*;

verus! {

use crate::keypair::Keypair;
use crate::keypair::ed25519_public_of;
use crate::keypair::keypair_bytes_new;
use crate::codec::base58_of;
use crate::codec::base58_decode_of;

/// The 12-word phrase that the mnemonic codec builds from 16 bytes of entropy.
pub uninterp spec fn bip39_phrase_of(entropy: Seq<u8>) -> Seq<char>;

/// The 64-byte seed that key stretching with an empty passphrase produces
/// from a mnemonic phrase.
pub uninterp spec fn bip39_seed_of(phrase: Seq<char>) -> Seq<u8>;

/// The 32-byte key that hierarchical derivation produces from a seed under
/// the fixed path `m/44'/501'/0'/0'`.
pub uninterp spec fn slip10_solana_key(seed: Seq<u8>) -> Seq<u8>;

/// Relies on `rand`'s `OsRng::fill_bytes`: fills the buffer from the
/// operating system's entropy source; nothing can be promised of the values.
#[verifier::external_body]
fn fill_random_bytes(buf: &mut Vec<u8>)
    ensures
        final(buf)@.len() == old(buf)@.len(),
{
    rand::RngCore::fill_bytes(&mut rand::rngs::OsRng, buf.as_mut_slice())
}

/// Relies on `bip39`'s `Mnemonic::from_entropy_in` (16 bytes of entropy are a
/// valid 128-bit count, so it never fails), its `Display` (the words joined by
/// single spaces), and `Mnemonic::to_seed("")` (2048 rounds of PBKDF2 over the
/// words and the empty passphrase). Phrase and seed are deterministic
/// functions of the entropy, and the seed is the one recovered by parsing the
/// phrase again.
#[verifier::external_body]
fn mnemonic_from_entropy(entropy: &Vec<u8>) -> (r: (String, Vec<u8>))
    requires
        entropy@.len() == 16,
    ensures
        r.0@ == bip39_phrase_of(entropy@),
        r.1@ == bip39_seed_of(bip39_phrase_of(entropy@)),
        r.1@.len() == 64,
{
    let m = bip39::Mnemonic::from_entropy_in(bip39::Language::English, entropy.as_slice()).unwrap();
    let seed = m.to_seed("");
    (m.to_string(), seed.to_vec())
}

/// Relies on `bip39`'s `Mnemonic::from_str` (it accepts every phrase that
/// `from_entropy_in` builds, and rejects text with unknown words or a bad
/// checksum) and `Mnemonic::to_seed("")`, a deterministic function of the
/// phrase.
#[verifier::external_body]
fn seed_from_phrase(phrase: &str) -> (r: Option<Vec<u8>>)
    ensures
        r matches Some(v) ==> v@ == bip39_seed_of(phrase@) && v@.len() == 64,
        (exists|e: Seq<u8>| e.len() == 16 && phrase@ == bip39_phrase_of(e)) ==> r is Some,
{
    match <bip39::Mnemonic as core::str::FromStr>::from_str(phrase) {
        Ok(m) => Some(m.to_seed("").to_vec()),
        Err(_) => None,
    }
}

/// Relies on `slip10`'s `BIP32Path::from_str` (the fixed path parses) and
/// `derive_key_from_path` for the Ed25519 curve: all four indices of
/// `m/44'/501'/0'/0'` are hardened, so derivation never fails, and the
/// 32-byte key is a deterministic function of the seed.
#[verifier::external_body]
pub fn derive_solana_seed(seed: &[u8]) -> (r: [u8; 32])
    ensures
        r@ == slip10_solana_key(seed@),
        r@.len() == 32,
{
    let path = <slip10::BIP32Path as core::str::FromStr>::from_str("m/44'/501'/0'/0'").unwrap();
    let derived = slip10::derive_key_from_path(seed, slip10::Curve::Ed25519, &path).unwrap();
    derived.key
}

/// Draws one fresh keypair. In mnemonic mode the phrase is returned and the
/// signing seed is exactly the hierarchical derivation of the phrase's
/// stretched seed; in fast mode the seed comes straight from the entropy
/// source and no phrase exists.
pub fn generate_keypair(with_mnemonic: bool) -> (r: (Option<String>, Keypair))
    ensures
        r.1.wf(),
        r.0 is Some <==> with_mnemonic,
        r.0 matches Some(phrase) ==> r.1.seed_view() == slip10_solana_key(
            bip39_seed_of(phrase@),
        ),
{
    if with_mnemonic {
        let mut entropy: Vec<u8> = make_zero_vec(16);
        fill_random_bytes(&mut entropy);
        let (phrase, seed64) = mnemonic_from_entropy(&entropy);
        let derived = derive_solana_seed(seed64.as_slice());
        let kp = Keypair::from_seed(derived.as_slice());
        (Some(phrase), kp)
    } else {
        let mut seed: Vec<u8> = make_zero_vec(32);
        fill_random_bytes(&mut seed);
        let kp = Keypair::from_seed(seed.as_slice());
        (None, kp)
    }
}

/// Recovers the keypair that a mnemonic phrase determines, through the same
/// stretching and derivation as mnemonic-mode generation; refuses text that
/// the mnemonic codec rejects.
pub fn keypair_from_phrase(phrase: &str) -> (r: Option<Keypair>)
    ensures
        r matches Some(kp) ==> {
            &&& kp.wf()
            &&& kp.seed_view() == slip10_solana_key(bip39_seed_of(phrase@))
        },
        (exists|e: Seq<u8>| e.len() == 16 && phrase@ == bip39_phrase_of(e)) ==> r is Some,
{
    match seed_from_phrase(phrase) {
        Some(seed64) => {
            let derived = derive_solana_seed(seed64.as_slice());
            Some(Keypair::from_seed(derived.as_slice()))
        },
        None => None,
    }
}

/// Law (deterministic derivation): two derivations from the same mnemonic
/// phrase under the fixed path yield byte-identical signing seeds, and
/// therefore identical public keys.
pub proof fn lemma_derivation_deterministic(phrase: Seq<char>, s1: Seq<u8>, s2: Seq<u8>)
    requires
        s1 == slip10_solana_key(bip39_seed_of(phrase)),
        s2 == slip10_solana_key(bip39_seed_of(phrase)),
    ensures
        s1 == s2,
        ed25519_public_of(s1) == ed25519_public_of(s2),
{
}

/// Draws one fresh keypair and returns its base58 address together with its
/// 64-byte serialization.
pub fn generate_solana_keypair() -> (r: (String, Vec<u8>))
    ensures
        r.1@.len() == 64,
        r.1@.subrange(32, 64) == ed25519_public_of(r.1@.subrange(0, 32)),
        r.0@ == base58_of(r.1@.subrange(32, 64)),
        base58_decode_of(r.0@) == Some(r.1@.subrange(32, 64)),
{
    let bytes = keypair_bytes_new();
    let kp = Keypair { bytes };
    let address = kp.address();
    (address, kp.bytes)
}

/// A vector of the given length, ready to be filled by the entropy source.
fn make_zero_vec(n: usize) -> (r: Vec<u8>)
    ensures
        r@.len() == n,
{
    let mut r: Vec<u8> = Vec::new();
    let mut i: usize = 0;
    while i < n
        invariant
            i <= n,
            r@.len() == i,
        decreases n - i,
    {
        r.push(0);
        i += 1;
    }
    r
}

} // verus!
