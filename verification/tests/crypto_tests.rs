use ghost_hand_client::crypto::{
    compute_challenge_response, extract_salt_from_hash, generate_challenge,
    hash_password_with_salt, verify_challenge_response, CryptoManager, EncryptedData,
    KeyExchange, KEY_SIZE,
};
use ghost_hand_client::error::{ErrorKind, GhostHandError, Result};

fn unhex(text: &str) -> Vec<u8> {
    let digits: Vec<u8> = text
        .chars()
        .map(|c| c.to_digit(16).expect("a hexadecimal digit") as u8)
        .collect();
    digits.chunks(2).map(|pair| pair[0] * 16 + pair[1]).collect()
}

#[test]
fn test_encryption_decryption() -> Result<()> {
    let crypto = CryptoManager::new();
    let key = crypto.generate_key()?;

    let plaintext = b"Hello, GhostHandDesk!";
    let encrypted = crypto.encrypt(&key, plaintext)?;
    let decrypted = crypto.decrypt(&key, &encrypted)?;

    assert_eq!(plaintext, decrypted.as_slice());

    Ok(())
}

#[test]
fn test_password_hashing() -> Result<()> {
    let crypto = CryptoManager::new();
    let password = "super_secret_password";

    let hash = crypto.hash_password(password)?;
    assert!(crypto.verify_password(password, &hash)?);
    assert!(!crypto.verify_password("wrong_password", &hash)?);

    Ok(())
}

#[test]
fn test_key_generation() -> Result<()> {
    let crypto = CryptoManager::new();

    let key1 = crypto.generate_key()?;
    let key2 = crypto.generate_key()?;

    assert_eq!(key1.len(), KEY_SIZE);
    assert_eq!(key2.len(), KEY_SIZE);
    assert_ne!(key1, key2);

    Ok(())
}

#[test]
fn test_key_exchange_ecdh() -> Result<()> {
    let kex = KeyExchange::new();

    let (alice_private, alice_public) = kex.generate_keypair()?;
    assert_eq!(alice_private.len(), 32);
    assert_eq!(alice_public.len(), 32);

    let (bob_private, bob_public) = kex.generate_keypair()?;
    assert_eq!(bob_private.len(), 32);
    assert_eq!(bob_public.len(), 32);

    let alice_shared = kex.derive_shared_secret(&alice_private, &bob_public)?;

    let bob_shared = kex.derive_shared_secret(&bob_private, &alice_public)?;

    assert_eq!(alice_shared, bob_shared);
    assert_eq!(alice_shared.len(), 32);

    Ok(())
}

#[test]
fn test_challenge_response() -> Result<()> {
    let crypto = CryptoManager::new();
    let password = "test_password_123";

    let stored_hash = crypto.hash_password(password)?;

    let challenge = generate_challenge()?;
    assert_eq!(challenge.len(), 32);

    let salt = extract_salt_from_hash(&stored_hash)?;

    let response = compute_challenge_response(password, &salt, &challenge);

    assert!(verify_challenge_response(&stored_hash, &challenge, &response)?);

    let wrong_response = compute_challenge_response("wrong_password", &salt, &challenge);
    assert!(!verify_challenge_response(&stored_hash, &challenge, &wrong_response)?);

    Ok(())
}

#[test]
fn test_e2e_encryption_with_key_exchange() -> Result<()> {
    let kex = KeyExchange::new();
    let crypto = CryptoManager::new();

    let (alice_private, _alice_public) = kex.generate_keypair()?;
    let (_bob_private, bob_public) = kex.generate_keypair()?;

    let shared_secret = kex.derive_shared_secret(&alice_private, &bob_public)?;

    let plaintext = b"Message secret d'Alice a Bob";
    let encrypted = crypto.encrypt(&shared_secret, plaintext)?;

    let decrypted = crypto.decrypt(&shared_secret, &encrypted)?;

    assert_eq!(plaintext.as_slice(), decrypted.as_slice());

    Ok(())
}

#[test]
fn test_crypto_encrypt_decrypt() -> Result<()> {
    let crypto = CryptoManager::new();

    let key = crypto.generate_key()?;

    let plaintext = b"Message secret de test";

    let ciphertext = crypto.encrypt(&key, plaintext)?;

    assert!(!ciphertext.ciphertext.is_empty());
    assert!(!ciphertext.nonce.is_empty());

    let decrypted = crypto.decrypt(&key, &ciphertext)?;
    assert_eq!(plaintext.as_slice(), &decrypted[..]);

    Ok(())
}

fn crypto_message(error: GhostHandError) -> String {
    match error {
        GhostHandError::Crypto(message) => message,
        other => panic!("expected a crypto error, got {:?}", other),
    }
}

#[test]
fn x25519_agrees_with_the_published_vectors() -> Result<()> {
    let alice_private = unhex("77076d0a7318a57d3c16c17251b26645df4c2f87ebc0992ab177fba51db92c2a");
    let alice_public = unhex("8520f0098930a754748b7ddcb43ef75a0dbf3a0d26381af4eba4a98eaa9b4e6a");
    let bob_private = unhex("5dab087e624a8a4b79e17f8b83800ee66f3bb1292618b6fd1c2f8b27ff88e0eb");
    let bob_public = unhex("de9edb7d7b7dc1b4d35b61c2ece435373f8343c85b78674dadfc7e146f882b4f");
    let shared = unhex("4a5d9d5ba4ce2de1728e3bf480350f25e07e21c947d19e3376f09b3c1e161742");

    let (private, public) = KeyExchange::keypair_from_private(alice_private.clone());
    assert_eq!(private, alice_private);
    assert_eq!(public, alice_public);
    let (_, public) = KeyExchange::keypair_from_private(bob_private.clone());
    assert_eq!(public, bob_public);

    let kex = KeyExchange::new();
    assert_eq!(kex.derive_shared_secret(&alice_private, &bob_public)?, shared);
    assert_eq!(kex.derive_shared_secret(&bob_private, &alice_public)?, shared);
    Ok(())
}

#[test]
fn key_exchange_refuses_keys_of_the_wrong_length() {
    let kex = KeyExchange::new();
    let good = vec![1u8; 32];
    let short_private = kex.derive_shared_secret(&[1u8; 31], &good).unwrap_err();
    assert_eq!(
        crypto_message(short_private),
        "Invalid private key length: expected 32, got 31"
    );
    let long_public = kex.derive_shared_secret(&good, &[1u8; 33]).unwrap_err();
    assert_eq!(crypto_message(long_public), "Invalid public key length: expected 32, got 33");
    // The private key is looked at first.
    let both = kex.derive_shared_secret(&[], &[]).unwrap_err();
    assert_eq!(crypto_message(both), "Invalid private key length: expected 32, got 0");
}

#[test]
fn aes_gcm_agrees_with_the_published_vectors() -> Result<()> {
    let key = vec![0u8; 32];
    let nonce = vec![0u8; 12];
    let sealed = CryptoManager::encrypt_with_nonce(&key, nonce.clone(), &[])?;
    assert_eq!(sealed.ciphertext, unhex("530f8afbc74536b9a963b4f1c4cb738b"));
    assert_eq!(sealed.nonce, nonce);

    let sealed = CryptoManager::encrypt_with_nonce(&key, nonce.clone(), &[0u8; 16])?;
    assert_eq!(
        sealed.ciphertext,
        unhex("cea7403d4d606b6e074ec5d3baf39d18d0d1c8a799996bf0265b98b5d48ab919")
    );
    let crypto = CryptoManager::new();
    assert_eq!(crypto.decrypt(&key, &sealed)?, vec![0u8; 16]);
    Ok(())
}

#[test]
fn decrypt_fails_for_wrong_key_truncation_and_mutation() -> Result<()> {
    let crypto = CryptoManager::new();
    let key = crypto.generate_key()?;
    let other_key = crypto.generate_key()?;
    let sealed = crypto.encrypt(&key, b"attack at dawn")?;
    assert_eq!(sealed.ciphertext.len(), 14 + 16);
    assert_eq!(sealed.nonce.len(), 12);

    let wrong_key = crypto.decrypt(&other_key, &sealed).unwrap_err();
    assert_eq!(crypto_message(wrong_key), "Failed to decrypt: Unspecified");

    let mut truncated = sealed.clone();
    truncated.ciphertext.truncate(10);
    assert!(crypto.decrypt(&key, &truncated).is_err());
    let mut cut_by_one = sealed.clone();
    cut_by_one.ciphertext.pop();
    assert!(crypto.decrypt(&key, &cut_by_one).is_err());

    let mut mutated = sealed.clone();
    let last = mutated.ciphertext.len() - 1;
    mutated.ciphertext[last] ^= 1;
    assert!(crypto.decrypt(&key, &mutated).is_err());

    let mut wrong_nonce = sealed.clone();
    wrong_nonce.nonce.push(0);
    assert!(crypto.decrypt(&key, &wrong_nonce).is_err());

    let short_key = crypto.decrypt(&key[..31], &sealed).unwrap_err();
    assert_eq!(crypto_message(short_key), "Invalid key size: expected 32, got 31");
    let short_key = crypto.encrypt(&key[..16], b"x").unwrap_err();
    assert_eq!(crypto_message(short_key), "Invalid key size: expected 32, got 16");

    let empty = EncryptedData { ciphertext: Vec::new(), nonce: vec![0u8; 12] };
    assert!(crypto.decrypt(&key, &empty).is_err());
    Ok(())
}

#[test]
fn password_hash_agrees_with_pbkdf2_and_base64() -> Result<()> {
    let salt: Vec<u8> = (0u8..12).collect();
    let stored = hash_password_with_salt("test_password_123", &salt);
    assert_eq!(stored, "AAECAwQFBgcICQoLz4hqjZoibeucb/qBKIsO5Qham87UciwrZ5GR4kmBv2k=");
    assert_eq!(extract_salt_from_hash(&stored)?, salt);

    let crypto = CryptoManager::new();
    assert!(crypto.verify_password("test_password_123", &stored)?);
    assert!(!crypto.verify_password("test_password_124", &stored)?);
    Ok(())
}

#[test]
fn challenge_response_agrees_with_hmac() -> Result<()> {
    let salt: Vec<u8> = (0u8..12).collect();
    let challenge = vec![7u8; 32];
    let response = compute_challenge_response("test_password_123", &salt, &challenge);
    assert_eq!(response, "yz+M6yqCHO3wq12EY9YLkrsnb45Zha0rzaVRL6S5NrU=");

    let stored = hash_password_with_salt("test_password_123", &salt);
    assert!(verify_challenge_response(&stored, &challenge, &response)?);
    // Another challenge is not answered by this response.
    let other_challenge = vec![8u8; 32];
    assert!(!verify_challenge_response(&stored, &other_challenge, &response)?);
    // Nor does the response to another password pass.
    let other = compute_challenge_response("test_password_124", &salt, &challenge);
    assert!(!verify_challenge_response(&stored, &challenge, &other)?);
    Ok(())
}

#[test]
fn malformed_credentials_are_errors_or_mismatches() -> Result<()> {
    let crypto = CryptoManager::new();
    let not_base64 = crypto.verify_password("p", "***").unwrap_err();
    assert_eq!(not_base64.kind(), ErrorKind::Crypto);
    assert!(crypto_message(not_base64).starts_with("Invalid hash format: "));
    // "AAAA" stands for three bytes: too short to hold a salt.
    assert!(!crypto.verify_password("p", "AAAA")?);
    // Twelve bytes: a salt and no hash.
    assert!(!crypto.verify_password("p", "AAECAwQFBgcICQoL")?);

    assert!(extract_salt_from_hash("***").is_err());
    let too_short = extract_salt_from_hash("AAAA").unwrap_err();
    assert_eq!(crypto_message(too_short), "Stored hash too short");

    let challenge = vec![1u8; 32];
    assert!(verify_challenge_response("***", &challenge, "AAAA").is_err());
    assert!(!verify_challenge_response("AAECAwQFBgcICQoL", &challenge, "AAAA")?);
    let stored = hash_password_with_salt("p", &vec![0u8; 12]);
    let bad_response = verify_challenge_response(&stored, &challenge, "***").unwrap_err();
    assert!(crypto_message(bad_response).starts_with("Invalid response format: "));
    Ok(())
}

#[test]
fn fresh_randomness_has_the_promised_sizes() -> Result<()> {
    let crypto = CryptoManager::new();
    assert_eq!(crypto.generate_nonce()?.len(), 12);
    assert_eq!(crypto.generate_key()?.len(), 32);
    assert_eq!(generate_challenge()?.len(), 32);
    assert_ne!(generate_challenge()?, generate_challenge()?);
    Ok(())
}
