use std::collections::HashSet;
use std::str::FromStr;

use solana_vanity::keygen::derive_solana_seed;
use solana_vanity::keygen::generate_keypair;
use solana_vanity::keygen::generate_solana_keypair;
use solana_vanity::keygen::keypair_from_phrase;
use solana_vanity::keypair::Keypair;

/// Checks a signature through the signing crate itself.
fn sdk_verify(sig: &[u8], msg: &[u8], pubkey: &[u8]) -> bool {
    let s = solana_sdk::signature::Signature::try_from(sig).unwrap();
    s.verify(pubkey, msg)
}

#[test]
fn test_solana_keypair_generation() {
    let (pubkey, keypair_bytes) = generate_solana_keypair();

    // Test that public key is valid Base58
    assert!(bs58::decode(&pubkey).into_vec().is_ok());

    // Test that keypair bytes are correct length (64 bytes)
    assert_eq!(keypair_bytes.len(), 64);

    // Test that public key is not empty
    assert!(!pubkey.is_empty());

    // Test that public key is reasonable length (typically 32-44 characters)
    assert!(pubkey.len() >= 32 && pubkey.len() <= 44);
}

#[test]
fn test_keypair_consistency() {
    // Generate multiple keypairs and ensure they're different
    let (pubkey1, _) = generate_solana_keypair();
    let (pubkey2, _) = generate_solana_keypair();

    assert_ne!(pubkey1, pubkey2);
}

#[test]
fn test_fast_mode_generates_valid_keypairs() {
    // Test that fast mode generates valid keypairs
    let (mnemonic, keypair) = generate_keypair(false);

    // Should not have mnemonic
    assert!(mnemonic.is_none());

    // Should have valid public key
    let pubkey = keypair.pubkey_bytes();
    assert_eq!(pubkey.len(), 32);

    // Should be able to sign and verify
    let message = b"test message";
    let signature = keypair.sign_message(message).unwrap();
    assert!(sdk_verify(&signature, message, &pubkey));

    // Public key should be valid Base58
    let pubkey_str = bs58::encode(&pubkey).into_string();
    assert!(pubkey_str.len() >= 32); // Base58 encoding should be reasonable length

    // Secret key should be 64 bytes
    let secret_bytes = keypair.to_bytes();
    assert_eq!(secret_bytes.len(), 64);
}

#[test]
fn test_mnemonic_mode_generates_valid_keypairs() {
    // Test that mnemonic mode generates valid keypairs
    let (mnemonic, keypair) = generate_keypair(true);

    // Should have mnemonic
    assert!(mnemonic.is_some());
    let mnemonic_str = mnemonic.unwrap();

    // Mnemonic should be 12 words
    let words: Vec<&str> = mnemonic_str.split_whitespace().collect();
    assert_eq!(words.len(), 12);

    // Should have valid public key
    let pubkey = keypair.pubkey_bytes();
    assert_eq!(pubkey.len(), 32);

    // Should be able to sign and verify
    let message = b"test message";
    let signature = keypair.sign_message(message).unwrap();
    assert!(sdk_verify(&signature, message, &pubkey));

    // Public key should be valid Base58
    let pubkey_str = bs58::encode(&pubkey).into_string();
    assert!(pubkey_str.len() >= 32);

    // Secret key should be 64 bytes
    let secret_bytes = keypair.to_bytes();
    assert_eq!(secret_bytes.len(), 64);
}

#[test]
fn test_mnemonic_deterministic_derivation() {
    // Test that the same mnemonic produces the same keypair
    let mnemonic_str = "abandon abandon abandon abandon abandon abandon abandon abandon abandon abandon abandon about";

    // Generate keypair twice from same mnemonic
    let keypair1 = keypair_from_phrase(mnemonic_str).unwrap();
    let keypair2 = keypair_from_phrase(mnemonic_str).unwrap();

    // Should be identical
    assert_eq!(keypair1.pubkey_bytes(), keypair2.pubkey_bytes());
    assert_eq!(keypair1.to_bytes(), keypair2.to_bytes());
}

#[test]
fn test_mnemonic_produces_different_keypairs() {
    // Test that different mnemonics produce different keypairs
    let mut keypairs = HashSet::new();

    for _ in 0..10 {
        let (mnemonic, keypair) = generate_keypair(true);
        assert!(mnemonic.is_some());

        let pubkey = keypair.pubkey_bytes();
        // Should be unique
        assert!(keypairs.insert(pubkey));
    }
}

#[test]
fn test_fast_mode_produces_different_keypairs() {
    // Test that fast mode produces different keypairs
    let mut keypairs = HashSet::new();

    for _ in 0..10 {
        let (mnemonic, keypair) = generate_keypair(false);
        assert!(mnemonic.is_none());

        let pubkey = keypair.pubkey_bytes();
        // Should be unique
        assert!(keypairs.insert(pubkey));
    }
}

#[test]
fn test_bip44_derivation_path() {
    // Test that we're using the correct Solana BIP44 path
    let mnemonic_str = "abandon abandon abandon abandon abandon abandon abandon abandon abandon abandon abandon about";
    let mnemonic = bip39::Mnemonic::from_str(mnemonic_str).unwrap();
    let seed = mnemonic.to_seed("");

    // Derive using our function
    let derived_seed = derive_solana_seed(&seed);
    let keypair = Keypair::from_seed(&derived_seed);

    // This should produce a specific, known public key for this test mnemonic
    let pubkey_str = bs58::encode(keypair.pubkey_bytes()).into_string();

    // The actual value depends on the SLIP10 implementation, but it should be deterministic
    assert!(!pubkey_str.is_empty());
    assert!(pubkey_str.len() >= 32);

    // Test that derivation is repeatable
    let derived_seed2 = derive_solana_seed(&seed);
    let keypair2 = Keypair::from_seed(&derived_seed2);
    assert_eq!(keypair.pubkey_bytes(), keypair2.pubkey_bytes());
}

#[test]
fn test_keypair_serialization() {
    // Test both modes for proper serialization
    for with_mnemonic in [false, true] {
        let (mnemonic_opt, keypair) = generate_keypair(with_mnemonic);

        // Test public key serialization
        let pubkey_bytes = keypair.pubkey_bytes();
        let pubkey_str = bs58::encode(&pubkey_bytes).into_string();
        assert!(!pubkey_str.is_empty());

        // Test secret key serialization
        let secret_bytes = keypair.to_bytes();
        let secret_str = bs58::encode(&secret_bytes).into_string();
        assert!(!secret_str.is_empty());

        // Test that we can reconstruct the keypair
        let reconstructed = solana_sdk::signature::Keypair::from_bytes(&secret_bytes).unwrap();
        let reconstructed_pubkey =
            solana_sdk::signature::Signer::pubkey(&reconstructed).to_bytes();
        assert_eq!(pubkey_bytes.as_slice(), reconstructed_pubkey.as_slice());

        // Test mnemonic consistency
        if with_mnemonic {
            assert!(mnemonic_opt.is_some());
            let mnemonic_str = mnemonic_opt.unwrap();
            assert_eq!(mnemonic_str.split_whitespace().count(), 12);
        } else {
            assert!(mnemonic_opt.is_none());
        }
    }
}

#[test]
fn test_signature_verification() {
    // Test that signatures work properly in both modes
    let test_message = b"Hello, Solana!";

    for with_mnemonic in [false, true] {
        let (_, keypair) = generate_keypair(with_mnemonic);

        // Sign the message
        let signature = keypair.sign_message(test_message).unwrap();
        let pubkey = keypair.pubkey_bytes();

        // Verify the signature
        assert!(sdk_verify(&signature, test_message, &pubkey));

        // Verify that wrong message fails
        let wrong_message = b"Wrong message";
        assert!(!sdk_verify(&signature, wrong_message, &pubkey));
    }
}

#[test]
fn test_base58_encoding_validity() {
    // Test that all generated addresses are valid Base58
    for with_mnemonic in [false, true] {
        let (_, keypair) = generate_keypair(with_mnemonic);

        let pubkey_str = bs58::encode(keypair.pubkey_bytes()).into_string();
        let secret_str = bs58::encode(keypair.to_bytes()).into_string();

        // Should be able to decode back
        let decoded_pubkey = bs58::decode(&pubkey_str).into_vec().unwrap();
        let decoded_secret = bs58::decode(&secret_str).into_vec().unwrap();

        assert_eq!(decoded_pubkey.len(), 32);
        assert_eq!(decoded_secret.len(), 64);

        // Should match original
        assert_eq!(decoded_pubkey, keypair.pubkey_bytes());
        assert_eq!(decoded_secret, keypair.to_bytes());
    }
}

#[test]
fn test_known_mnemonic_compatibility() {
    // Test with a known mnemonic to ensure wallet compatibility
    // This is the same test vector used in many wallet implementations
    let known_mnemonic = "abandon abandon abandon abandon abandon abandon abandon abandon abandon abandon abandon about";
    let keypair = keypair_from_phrase(known_mnemonic).unwrap();

    // The keypair should be valid
    assert_eq!(keypair.pubkey_bytes().len(), 32);
    assert_eq!(keypair.to_bytes().len(), 64);

    // Should be able to sign and verify
    let message = b"test";
    let signature = keypair.sign_message(message).unwrap();
    assert!(sdk_verify(&signature, message, &keypair.pubkey_bytes()));

    // The public key should be deterministic for this mnemonic
    let pubkey_str = bs58::encode(keypair.pubkey_bytes()).into_string();

    // Generate again to ensure determinism
    let keypair2 = keypair_from_phrase(known_mnemonic).unwrap();
    let pubkey_str2 = bs58::encode(keypair2.pubkey_bytes()).into_string();

    assert_eq!(pubkey_str, pubkey_str2);

    // Log the deterministic address for reference
    println!("Known mnemonic generates deterministic address: {pubkey_str}");
}

#[test]
fn test_vanity_prefix_matching() {
    // Test that the generate_keypair function can produce addresses with specific prefixes
    let mut found_count = 0;
    let target_prefix = "1";

    // Try up to 1000 iterations to find a keypair with the desired prefix
    for _ in 0..1000 {
        let (_, keypair) = generate_keypair(false);
        let pubkey_str = bs58::encode(keypair.pubkey_bytes()).into_string();

        if pubkey_str.starts_with(target_prefix) {
            found_count += 1;
            // Verify the keypair is still valid
            let message = b"test";
            let signature = keypair.sign_message(message).unwrap();
            assert!(sdk_verify(&signature, message, &keypair.pubkey_bytes()));

            if found_count >= 3 {
                break; // Found enough examples
            }
        }
    }

    // Should have found at least one (statistically very likely)
    assert!(
        found_count > 0,
        "Should find at least one keypair with prefix '{target_prefix}' in 1000 iterations"
    );
}

#[test]
fn test_phrase_derivation_matches_manual_chain() {
    // The library's phrase-to-keypair path agrees with stretching and
    // deriving by hand through the mnemonic and derivation crates.
    let phrase = "abandon abandon abandon abandon abandon abandon abandon abandon abandon abandon abandon about";
    let from_library = keypair_from_phrase(phrase).unwrap();

    let mnemonic = bip39::Mnemonic::from_str(phrase).unwrap();
    let seed = mnemonic.to_seed("");
    let derived = derive_solana_seed(&seed);
    let manual = Keypair::from_seed(&derived);

    assert_eq!(from_library.pubkey_bytes(), manual.pubkey_bytes());
    assert_eq!(from_library.to_bytes(), manual.to_bytes());
}

#[test]
fn test_signature_self_check_both_modes() {
    // The library's own end-to-end check: sign, then verify against the
    // keypair's public key.
    for with_mnemonic in [false, true] {
        let (_, keypair) = generate_keypair(with_mnemonic);
        assert_eq!(
            solana_vanity::keypair::signature_self_check(&keypair, b"probe"),
            Some(true)
        );
    }
}

#[test]
fn test_invalid_phrase_rejected() {
    // Text that the mnemonic codec rejects yields no keypair
    assert!(keypair_from_phrase("definitely not a mnemonic phrase at all").is_none());
    assert!(keypair_from_phrase("").is_none());
}
