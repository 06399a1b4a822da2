//! One generated attempt: a keypair, its rendered address, and in mnemonic
//! mode the phrase it was derived from.

use vstd::prelude::*;

verus! {

use crate::alphabet::base58_char;
use crate::alphabet::starts_with_prefix;
use crate::codec::base58_of;
use crate::codec::base58_decode_of;
use crate::codec::base58_decode;
use crate::keypair::Keypair;
use crate::keygen::bip39_seed_of;
use crate::keygen::slip10_solana_key;
use crate::keygen::generate_keypair;

/// One candidate: an optional mnemonic phrase, the keypair, and the base58
/// address of its public key.
pub struct Candidate {
    pub mnemonic: Option<String>,
    pub keypair: Keypair,
    pub address: String,
}

impl Candidate {
    /// Well-formed: the keypair is well-formed, the address is exactly the
    /// base58 rendering of its public key (and decodes back to it), and a
    /// mnemonic, where present, determines the signing seed through
    /// stretching and hierarchical derivation.
    pub open spec fn wf(self) -> bool {
        &&& self.keypair.wf()
        &&& self.address@ == base58_of(self.keypair.public_view())
        &&& base58_decode_of(self.address@) == Some(self.keypair.public_view())
        &&& forall|i: int| 0 <= i < self.address@.len() ==> base58_char(self.address@[i])
        &&& self.address@.len() > 0
        &&& (self.mnemonic matches Some(phrase) ==> self.keypair.seed_view()
            == slip10_solana_key(bip39_seed_of(phrase@)))
    }

    /// Whether this candidate's address starts with the requested prefix.
    pub fn matches_prefix(&self, prefix: &str) -> (r: bool)
        ensures
            r == prefix@.is_prefix_of(self.address@),
    {
        starts_with_prefix(self.address.as_str(), prefix)
    }

    /// Decodes the address back to public-key bytes.
    pub fn decode_address(&self) -> (r: Option<Vec<u8>>)
        ensures
            r is Some <==> base58_decode_of(self.address@) is Some,
            r matches Some(v) ==> base58_decode_of(self.address@) == Some(v@),
            self.wf() ==> (r matches Some(v) && v@ == self.keypair.public_view()),
    {
        base58_decode(self.address.as_str())
    }
}

/// Draws one fresh candidate in the given mode.
pub fn generate_candidate(with_mnemonic: bool) -> (c: Candidate)
    ensures
        c.wf(),
        c.mnemonic is Some <==> with_mnemonic,
{
    let (mnemonic, keypair) = generate_keypair(with_mnemonic);
    let address = keypair.address();
    Candidate { mnemonic, keypair, address }
}

/// Law (round trip): decoding the encoded address of a well-formed candidate
/// yields exactly the candidate's 32-byte public key.
pub proof fn lemma_address_round_trip(c: Candidate)
    requires
        c.wf(),
    ensures
        base58_decode_of(c.address@) == Some(c.keypair.public_view()),
        c.keypair.public_view().len() == 32,
{
    assert(c.keypair.public_view() =~= c.keypair.bytes@.subrange(32, 64));
}

} // verus!
