//! Searches for an ed25519 keypair whose base58-encoded public address starts
//! with a chosen prefix, and proves the coordination rules of that search:
//! prefix validation, difficulty estimation, candidate generation through the
//! mnemonic and derivation libraries, and the single-winner hand-off protocol.

pub mod alphabet;
pub mod candidate;
pub mod codec;
pub mod difficulty;
pub mod jsonfmt;
pub mod keygen;
pub mod keypair;
pub mod search;
