//! Key agreement, authenticated encryption, password hashing and
//! challenge-response authentication.
use vstd::prelude::*;
use vstd::string::*;
use crate::error::{plain, ErrorKind, GhostHandError, Result};
use crate::primitives::{
    aead_open, aead_seal, aes_256_gcm_open, aes_256_gcm_seal, agrees_with_all, base64_bytes,
    base64_decode, base64_encode, base64_text, decode_error_text, hmac_sha256, hmac_sign,
    hmac_verify, pbkdf2_derive, pbkdf2_hmac_sha256, pbkdf2_verify, random_bytes, system_random,
    x25519_public, x25519_public_key, x25519_shared, x25519_shared_secret, MAX_INPUT_BYTES,
};
use crate::text::{concat, decimal, decimal_string};

verus! {

/// Bytes in a nonce, and in the salt of a stored password hash.
pub const NONCE_SIZE: usize = 12;

/// Bytes in a symmetric key, a derived hash, a challenge and an X25519 key.
pub const KEY_SIZE: usize = 32;

/// Rounds of PBKDF2 behind every password hash.
pub const PBKDF2_ITERATIONS: u32 = 100000;

/// A ciphertext, with its authentication tag at the end, and the nonce it
/// was sealed under.
#[derive(Debug, Clone)]
pub struct EncryptedData {
    pub ciphertext: Vec<u8>,
    pub nonce: Vec<u8>,
}

/// Encryption, decryption and password hashing, with the random number
/// generator they draw on.
pub struct CryptoManager {
    rng: ring::rand::SystemRandom,
}

/// X25519 key agreement, with the random number generator it draws on.
pub struct KeyExchange {
    rng: ring::rand::SystemRandom,
}

/// The message of a key of the wrong size.
pub open spec fn key_size_message(len: nat) -> Seq<char> {
    "Invalid key size: expected 32, got "@ + decimal(len)
}

/// What decryption recovers under `key` from a ciphertext and its nonce:
/// nothing unless the key holds 32 bytes and the nonce 12.
pub open spec fn decrypted(key: Seq<u8>, ciphertext: Seq<u8>, nonce: Seq<u8>) -> Option<Seq<u8>> {
    if key.len() == KEY_SIZE && nonce.len() == NONCE_SIZE {
        aes_256_gcm_open(key, nonce, ciphertext)
    } else {
        None
    }
}

/// The raw hash of a password under a salt: 32 bytes of PBKDF2-HMAC-SHA256
/// after 100,000 rounds.
pub open spec fn password_key(password: Seq<u8>, salt: Seq<u8>) -> Seq<u8> {
    pbkdf2_hmac_sha256(PBKDF2_ITERATIONS, salt, password, KEY_SIZE as nat)
}

/// `stored` is the stored credential of `password` under `salt`: the base64
/// text of the salt followed by the raw hash, which reads back as those
/// bytes.
pub open spec fn is_stored_hash(stored: Seq<char>, password: Seq<u8>, salt: Seq<u8>) -> bool {
    &&& salt.len() == NONCE_SIZE
    &&& password_key(password, salt).len() == KEY_SIZE
    &&& stored == base64_encode(salt + password_key(password, salt))
    &&& base64_decode(stored) == Some(salt + password_key(password, salt))
}

/// `stored` is a stored credential of `password`, under some salt.
pub open spec fn is_stored_hash_of(stored: Seq<char>, password: Seq<u8>) -> bool {
    exists|salt: Seq<u8>| #[trigger] is_stored_hash(stored, password, salt)
}

/// `response` answers `challenge` for `password` under `salt`: the base64
/// text of the HMAC-SHA256 of the challenge under the raw hash, which reads
/// back as that tag.
pub open spec fn is_challenge_response(
    response: Seq<char>,
    password: Seq<u8>,
    salt: Seq<u8>,
    challenge: Seq<u8>,
) -> bool {
    &&& response == base64_encode(hmac_sha256(password_key(password, salt), challenge))
    &&& base64_decode(response) == Some(hmac_sha256(password_key(password, salt), challenge))
}

/// Whether `password` matches the stored credential `stored`; `None` where
/// the credential is no base64 or the password too long to hash. What follows the salt must be the key of its
/// own length, at most 4 GiB, derived from the password.
pub open spec fn password_verdict(stored: Seq<char>, password: Seq<u8>) -> Option<bool> {
    match base64_decode(stored) {
        None => None,
        Some(combined) => if password.len() > MAX_INPUT_BYTES {
            None
        } else {
            Some(
            NONCE_SIZE < combined.len() <= NONCE_SIZE + u32::MAX && pbkdf2_hmac_sha256(
                PBKDF2_ITERATIONS,
                combined.subrange(0, NONCE_SIZE as int),
                password,
                (combined.len() - NONCE_SIZE) as nat,
            ) == combined.subrange(NONCE_SIZE as int, combined.len() as int),
            )
        },
    }
}

/// Whether `response` answers `challenge` for the stored credential
/// `stored`; `None` where the credential or the response is no base64, or
/// the challenge or the stored hash too long to hash. A credential too short
/// to hold a salt and a hash is answered by nothing.
pub open spec fn challenge_verdict(stored: Seq<char>, challenge: Seq<u8>, response: Seq<char>)
    -> Option<bool> {
    if challenge.len() > MAX_INPUT_BYTES {
        None
    } else {
        match base64_decode(stored) {
            None => None,
            Some(combined) => if combined.len() < NONCE_SIZE + KEY_SIZE {
                Some(false)
            } else {
                match base64_decode(response) {
                    None => None,
                    Some(tag) => if combined.len() - NONCE_SIZE > MAX_INPUT_BYTES {
                        None
                    } else {
                        Some(
                            hmac_sha256(
                                combined.subrange(NONCE_SIZE as int, combined.len() as int),
                                challenge,
                            ) == tag,
                        )
                    },
                }
            },
        }
    }
}

/// The salt of a stored credential: its first 12 bytes; `None` where it is
/// no base64 or holds fewer.
pub open spec fn stored_salt(stored: Seq<char>) -> Option<Seq<u8>> {
    match base64_decode(stored) {
        None => None,
        Some(combined) => if combined.len() < NONCE_SIZE {
            None
        } else {
            Some(combined.subrange(0, NONCE_SIZE as int))
        },
    }
}

/// `private` and `public` are the two halves of an X25519 key pair.
pub open spec fn is_keypair(private: Seq<u8>, public: Seq<u8>) -> bool {
    &&& private.len() == KEY_SIZE
    &&& public.len() == KEY_SIZE
    &&& public == x25519_public(private)
    &&& agrees_with_all(private, public)
}

/// The error of a key exchange fed a key of the wrong length; `None` where
/// both keys hold 32 bytes.
pub open spec fn key_length_problem(private_len: nat, public_len: nat) -> Option<Seq<char>> {
    if private_len != KEY_SIZE {
        Some("Invalid private key length: expected 32, got "@ + decimal(private_len))
    } else if public_len != KEY_SIZE {
        Some("Invalid public key length: expected 32, got "@ + decimal(public_len))
    } else {
        None
    }
}

fn crypto_error<T>(message: String) -> (r: Result<T>)
    ensures
        r matches Err(e) && e@ == plain(ErrorKind::Crypto, message@),
{
    Err(GhostHandError::Crypto(message))
}

/// A copy of the bytes of `data` from `from` up to `to`.
fn copy_range(data: &Vec<u8>, from: usize, to: usize) -> (part: Vec<u8>)
    requires
        from <= to <= data.len(),
    ensures
        part@ == data@.subrange(from as int, to as int),
{
    let mut part: Vec<u8> = Vec::new();
    let mut i: usize = from;
    while i < to
        invariant
            from <= i <= to <= data.len(),
            part@ == data@.subrange(from as int, i as int),
        decreases to - i,
    {
        part.push(data[i]);
        assert(part@ =~= data@.subrange(from as int, i + 1));
        i += 1;
    }
    part
}

fn too_long(len: usize) -> (r: bool)
    ensures
        r == (len > MAX_INPUT_BYTES),
{
    len as u64 > MAX_INPUT_BYTES
}

impl CryptoManager {
    /// Takes hold of the system's random number generator.
    pub fn new() -> Self {
        CryptoManager { rng: system_random() }
    }

    /// A fresh random key of 32 bytes, or a crypto error where the system
    /// gives no randomness.
    pub fn generate_key(&self) -> (r: Result<Vec<u8>>)
        ensures
            match r {
                Ok(key) => key.len() == KEY_SIZE,
                Err(e) => e@ == plain(
                    ErrorKind::Crypto,
                    "Failed to generate key: Unspecified"@,
                ),
            },
    {
        match random_bytes(&self.rng, KEY_SIZE) {
            Some(key) => Ok(key),
            None => crypto_error("Failed to generate key: Unspecified".to_string()),
        }
    }

    /// A fresh random nonce of 12 bytes, or a crypto error where the system
    /// gives no randomness.
    pub fn generate_nonce(&self) -> (r: Result<Vec<u8>>)
        ensures
            match r {
                Ok(nonce) => nonce.len() == NONCE_SIZE,
                Err(e) => e@ == plain(
                    ErrorKind::Crypto,
                    "Failed to generate nonce: Unspecified"@,
                ),
            },
    {
        match random_bytes(&self.rng, NONCE_SIZE) {
            Some(nonce) => Ok(nonce),
            None => crypto_error("Failed to generate nonce: Unspecified".to_string()),
        }
    }

    /// Seals `data` under `key` and a fresh random nonce. A key that does
    /// not hold 32 bytes is refused. What comes back decrypts to `data`
    /// under the same key.
    pub fn encrypt(&self, key: &[u8], data: &[u8]) -> (r: Result<EncryptedData>)
        ensures
            key.len() != KEY_SIZE ==> (r matches Err(e) && e@ == plain(
                ErrorKind::Crypto,
                key_size_message(key.len() as nat),
            )),
            match r {
                Ok(sealed) => key.len() == KEY_SIZE && sealed.nonce.len() == NONCE_SIZE
                    && aes_256_gcm_seal(key@, sealed.nonce@, data@) == Some(sealed.ciphertext@)
                    && decrypted(key@, sealed.ciphertext@, sealed.nonce@) == Some(data@),
                Err(e) => e@.kind == ErrorKind::Crypto,
            },
    {
        if key.len() != KEY_SIZE {
            return crypto_error(
                concat(
                    "Invalid key size: expected 32, got ",
                    decimal_string(key.len() as u64).as_str(),
                ),
            );
        }
        match self.generate_nonce() {
            Ok(nonce) => Self::encrypt_with_nonce(key, nonce, data),
            Err(error) => Err(error),
        }
    }

    /// Seals `data` under `key` and `nonce`: the ciphertext with its tag of
    /// 16 bytes, and the nonce. A key that does not hold 32 bytes, a nonce
    /// that does not hold 12 and a plaintext that the cipher refuses are
    /// errors.
    pub fn encrypt_with_nonce(key: &[u8], nonce: Vec<u8>, data: &[u8]) -> (r: Result<
        EncryptedData,
    >)
        ensures
            match r {
                Ok(sealed) => key.len() == KEY_SIZE && nonce.len() == NONCE_SIZE && sealed.nonce
                    == nonce && aes_256_gcm_seal(key@, nonce@, data@) == Some(sealed.ciphertext@)
                    && sealed.ciphertext.len() == data.len() + 16 && decrypted(
                    key@,
                    sealed.ciphertext@,
                    nonce@,
                ) == Some(data@),
                Err(e) => if key.len() != KEY_SIZE {
                    e@ == plain(ErrorKind::Crypto, key_size_message(key.len() as nat))
                } else {
                    (nonce.len() != NONCE_SIZE || aes_256_gcm_seal(key@, nonce@, data@) is None)
                        && e@ == plain(ErrorKind::Crypto, "Failed to encrypt: Unspecified"@)
                },
            },
    {
        if key.len() != KEY_SIZE {
            return crypto_error(
                concat(
                    "Invalid key size: expected 32, got ",
                    decimal_string(key.len() as u64).as_str(),
                ),
            );
        }
        if nonce.len() != NONCE_SIZE {
            return crypto_error("Failed to encrypt: Unspecified".to_string());
        }
        match aead_seal(key, nonce.as_slice(), data) {
            Some(ciphertext) => Ok(EncryptedData { ciphertext, nonce }),
            None => crypto_error("Failed to encrypt: Unspecified".to_string()),
        }
    }

    /// Opens what was sealed under `key`: the plaintext where the key holds
    /// 32 bytes, the nonce 12, and the tag at the end of the ciphertext is
    /// the right one; a crypto error otherwise. Whatever is shorter than a
    /// tag is refused.
    pub fn decrypt(&self, key: &[u8], encrypted: &EncryptedData) -> (r: Result<Vec<u8>>)
        ensures
            match decrypted(key@, encrypted.ciphertext@, encrypted.nonce@) {
                Some(plaintext) => r matches Ok(bytes) && bytes@ == plaintext,
                None => r matches Err(e) && e@ == plain(
                    ErrorKind::Crypto,
                    if key.len() != KEY_SIZE {
                        key_size_message(key.len() as nat)
                    } else {
                        "Failed to decrypt: Unspecified"@
                    },
                ),
            },
            encrypted.ciphertext.len() < 16 ==> r is Err,
    {
        if key.len() != KEY_SIZE {
            return crypto_error(
                concat(
                    "Invalid key size: expected 32, got ",
                    decimal_string(key.len() as u64).as_str(),
                ),
            );
        }
        if encrypted.nonce.len() != NONCE_SIZE {
            return crypto_error("Failed to decrypt: Unspecified".to_string());
        }
        match aead_open(key, encrypted.nonce.as_slice(), encrypted.ciphertext.as_slice()) {
            Some(plaintext) => Ok(plaintext),
            None => crypto_error("Failed to decrypt: Unspecified".to_string()),
        }
    }

    /// The stored credential of `password` under a fresh random salt. A
    /// password too long to hash is refused, always; any other fails only
    /// where the system gives no randomness. Both are crypto errors.
    pub fn hash_password(&self, password: &str) -> (r: Result<String>)
        ensures
            match r {
                Ok(stored) => password.spec_bytes().len() <= MAX_INPUT_BYTES && is_stored_hash_of(
                    stored@,
                    password.spec_bytes(),
                ),
                Err(e) => e@ == plain(
                    ErrorKind::Crypto,
                    if password.spec_bytes().len() > MAX_INPUT_BYTES {
                        "Password too long"@
                    } else {
                        "Failed to generate nonce: Unspecified"@
                    },
                ),
            },
    {
        if too_long(password.as_bytes().len()) {
            return crypto_error("Password too long".to_string());
        }
        match self.generate_nonce() {
            Ok(salt) => {
                let stored = hash_password_with_salt(password, &salt);
                assert(is_stored_hash(stored@, password.spec_bytes(), salt@));
                Ok(stored)
            },
            Err(error) => Err(error),
        }
    }

    /// Whether `password` is the one behind the stored credential `hash`:
    /// the salt is the first 12 bytes of the credential, and what follows it
    /// must be the raw hash of the password under that salt, compared in
    /// constant time. A credential that is no base64, and a password too
    /// long to hash, are errors; a credential too short to hold a salt
    /// matches nothing.
    pub fn verify_password(&self, password: &str, hash: &str) -> (r: Result<bool>)
        ensures
            match password_verdict(hash@, password.spec_bytes()) {
                Some(verdict) => r == Ok::<bool, GhostHandError>(verdict),
                None => r matches Err(e) && e@.kind == ErrorKind::Crypto,
            },
    {
        let combined = match base64_bytes(hash) {
            Ok(bytes) => bytes,
            Err(error) => {
                return crypto_error(
                    concat("Invalid hash format: ", decode_error_text(&error).as_str()),
                );
            },
        };
        if too_long(password.as_bytes().len()) {
            return crypto_error("Password too long".to_string());
        }
        if combined.len() < NONCE_SIZE {
            return Ok(false);
        }
        if combined.len() - NONCE_SIZE > u32::MAX as usize {
            return Ok(false);
        }
        let salt = copy_range(&combined, 0, NONCE_SIZE);
        let stored = copy_range(&combined, NONCE_SIZE, combined.len());
        Ok(
            pbkdf2_verify(
                PBKDF2_ITERATIONS,
                salt.as_slice(),
                password.as_bytes(),
                stored.as_slice(),
            ),
        )
    }
}

/// The stored credential of `password` under `salt`: the base64 text of the
/// salt followed by the raw hash of the password.
pub fn hash_password_with_salt(password: &str, salt: &Vec<u8>) -> (stored: String)
    requires
        password.spec_bytes().len() <= MAX_INPUT_BYTES,
        salt.len() == NONCE_SIZE,
    ensures
        is_stored_hash(stored@, password.spec_bytes(), salt@),
{
    let derived = pbkdf2_derive(
        PBKDF2_ITERATIONS,
        salt.as_slice(),
        password.as_bytes(),
        KEY_SIZE,
    );
    let mut combined: Vec<u8> = copy_range(salt, 0, salt.len());
    assert(combined@ =~= salt@);
    let mut rest = derived;
    combined.append(&mut rest);
    base64_text(combined.as_slice())
}

/// The answer to `challenge` of a party that knows `password`: the base64
/// text of the HMAC-SHA256 of the challenge under the raw hash of the
/// password with `salt`. The password itself never leaves.
pub fn compute_challenge_response(password: &str, salt: &[u8], challenge: &[u8]) -> (response:
    String)
    requires
        password.spec_bytes().len() <= MAX_INPUT_BYTES,
        salt.len() <= MAX_INPUT_BYTES,
        challenge.len() <= MAX_INPUT_BYTES,
    ensures
        is_challenge_response(response@, password.spec_bytes(), salt@, challenge@),
{
    let raw_hash = pbkdf2_derive(PBKDF2_ITERATIONS, salt, password.as_bytes(), KEY_SIZE);
    let tag = hmac_sign(raw_hash.as_slice(), challenge);
    base64_text(tag.as_slice())
}

/// Whether `response` answers `challenge` for the stored credential: the
/// verifier computes the HMAC-SHA256 of the challenge under the raw hash it
/// stored and compares in constant time. A credential or a response that is
/// no base64, and a challenge or a credential too long to hash, are errors;
/// a credential too short to hold a salt and a hash is answered by nothing.
pub fn verify_challenge_response(stored_password_hash: &str, challenge: &[u8], response: &str)
    -> (r: Result<bool>)
    ensures
        match challenge_verdict(stored_password_hash@, challenge@, response@) {
            Some(verdict) => r == Ok::<bool, GhostHandError>(verdict),
            None => r matches Err(e) && e@.kind == ErrorKind::Crypto,
        },
{
    if too_long(challenge.len()) {
        return crypto_error("Challenge too long".to_string());
    }
    let combined = match base64_bytes(stored_password_hash) {
        Ok(bytes) => bytes,
        Err(error) => {
            return crypto_error(
                concat("Invalid stored hash: ", decode_error_text(&error).as_str()),
            );
        },
    };
    if combined.len() < NONCE_SIZE + KEY_SIZE {
        return Ok(false);
    }
    let stored_raw_hash = copy_range(&combined, NONCE_SIZE, combined.len());
    let response_bytes = match base64_bytes(response) {
        Ok(bytes) => bytes,
        Err(error) => {
            return crypto_error(
                concat("Invalid response format: ", decode_error_text(&error).as_str()),
            );
        },
    };
    if too_long(stored_raw_hash.len()) {
        return crypto_error("Stored hash too long".to_string());
    }
    Ok(hmac_verify(stored_raw_hash.as_slice(), challenge, response_bytes.as_slice()))
}

/// The salt of a stored credential: the first 12 bytes of what its base64
/// text stands for. A credential that is no base64 or holds fewer bytes is
/// an error.
pub fn extract_salt_from_hash(stored_password_hash: &str) -> (r: Result<Vec<u8>>)
    ensures
        match stored_salt(stored_password_hash@) {
            Some(salt) => r matches Ok(bytes) && bytes@ == salt,
            None => r matches Err(e) && e@.kind == ErrorKind::Crypto,
        },
{
    let combined = match base64_bytes(stored_password_hash) {
        Ok(bytes) => bytes,
        Err(error) => {
            return crypto_error(
                concat("Invalid stored hash: ", decode_error_text(&error).as_str()),
            );
        },
    };
    if combined.len() < NONCE_SIZE {
        return crypto_error("Stored hash too short".to_string());
    }
    Ok(copy_range(&combined, 0, NONCE_SIZE))
}

/// A fresh random challenge of 32 bytes, or a crypto error where the system
/// gives no randomness.
pub fn generate_challenge() -> (r: Result<Vec<u8>>)
    ensures
        match r {
            Ok(challenge) => challenge.len() == KEY_SIZE,
            Err(e) => e@ == plain(ErrorKind::Crypto, "Failed to generate challenge: Unspecified"@),
        },
{
    let rng = system_random();
    match random_bytes(&rng, KEY_SIZE) {
        Some(challenge) => Ok(challenge),
        None => crypto_error("Failed to generate challenge: Unspecified".to_string()),
    }
}

impl KeyExchange {
    /// Takes hold of the system's random number generator.
    pub fn new() -> Self {
        KeyExchange { rng: system_random() }
    }

    /// A fresh key pair: a random private key of 32 bytes and its public
    /// key; or a crypto error where the system gives no randomness.
    pub fn generate_keypair(&self) -> (r: Result<(Vec<u8>, Vec<u8>)>)
        ensures
            match r {
                Ok((private, public)) => is_keypair(private@, public@),
                Err(e) => e@ == plain(
                    ErrorKind::Crypto,
                    "Failed to generate random bytes: Unspecified"@,
                ),
            },
    {
        match random_bytes(&self.rng, KEY_SIZE) {
            Some(private) => Ok(Self::keypair_from_private(private)),
            None => crypto_error("Failed to generate random bytes: Unspecified".to_string()),
        }
    }

    /// The key pair of the private key `private`.
    pub fn keypair_from_private(private: Vec<u8>) -> (pair: (Vec<u8>, Vec<u8>))
        requires
            private.len() == KEY_SIZE,
        ensures
            pair.0 == private,
            is_keypair(pair.0@, pair.1@),
    {
        let public = x25519_public_key(private.as_slice());
        (private, public)
    }

    /// The secret shared between the private key of one party and the public
    /// key of the other: 32 bytes. A key that does not hold 32 bytes is
    /// refused, the private one first.
    pub fn derive_shared_secret(&self, private_key: &[u8], peer_public_key: &[u8]) -> (r: Result<
        Vec<u8>,
    >)
        ensures
            match key_length_problem(private_key.len() as nat, peer_public_key.len() as nat) {
                None => r matches Ok(secret) && secret@ == x25519_shared(
                    private_key@,
                    peer_public_key@,
                ) && secret.len() == KEY_SIZE,
                Some(message) => r matches Err(e) && e@ == plain(ErrorKind::Crypto, message),
            },
    {
        if private_key.len() != KEY_SIZE {
            return crypto_error(
                concat(
                    "Invalid private key length: expected 32, got ",
                    decimal_string(private_key.len() as u64).as_str(),
                ),
            );
        }
        if peer_public_key.len() != KEY_SIZE {
            return crypto_error(
                concat(
                    "Invalid public key length: expected 32, got ",
                    decimal_string(peer_public_key.len() as u64).as_str(),
                ),
            );
        }
        Ok(x25519_shared_secret(private_key, peer_public_key))
    }
}

/// Two parties that each combine their own private key with the public key
/// of the other reach the same shared secret.
pub proof fn lemma_shared_secret_agrees(
    a_private: Seq<u8>,
    a_public: Seq<u8>,
    b_private: Seq<u8>,
    b_public: Seq<u8>,
)
    requires
        is_keypair(a_private, a_public),
        is_keypair(b_private, b_public),
    ensures
        x25519_shared(a_private, b_public) == x25519_shared(b_private, a_public),
{
    assert(x25519_shared(b_private, a_public) == x25519_shared(
        a_private,
        x25519_public(b_private),
    ));
}

/// The response computed from a password, the salt of its stored credential
/// and a challenge passes verification against that credential and that
/// challenge; and the salt is the one the credential gives out.
pub proof fn lemma_challenge_response_accepted(
    stored: Seq<char>,
    password: Seq<u8>,
    salt: Seq<u8>,
    challenge: Seq<u8>,
    response: Seq<char>,
)
    requires
        is_stored_hash(stored, password, salt),
        is_challenge_response(response, password, salt, challenge),
        challenge.len() <= MAX_INPUT_BYTES,
    ensures
        stored_salt(stored) == Some(salt),
        challenge_verdict(stored, challenge, response) == Some(true),
{
    let combined = salt + password_key(password, salt);
    assert(combined.subrange(0, NONCE_SIZE as int) =~= salt);
    assert(combined.subrange(NONCE_SIZE as int, combined.len() as int) =~= password_key(
        password,
        salt,
    ));
}

/// The password behind a stored credential verifies against it.
pub proof fn lemma_password_accepted(stored: Seq<char>, password: Seq<u8>, salt: Seq<u8>)
    requires
        is_stored_hash(stored, password, salt),
        password.len() <= MAX_INPUT_BYTES,
    ensures
        password_verdict(stored, password) == Some(true),
{
    let combined = salt + password_key(password, salt);
    assert(combined.subrange(0, NONCE_SIZE as int) =~= salt);
    assert(combined.subrange(NONCE_SIZE as int, combined.len() as int) =~= password_key(
        password,
        salt,
    ));
}

/// What encryption seals under a key of 32 bytes and a nonce of 12 bytes,
/// and opens again to the plaintext, decrypts to the plaintext.
pub proof fn lemma_decrypt_inverts_encrypt(
    key: Seq<u8>,
    nonce: Seq<u8>,
    plaintext: Seq<u8>,
    ciphertext: Seq<u8>,
)
    requires
        key.len() == KEY_SIZE,
        nonce.len() == NONCE_SIZE,
        aes_256_gcm_open(key, nonce, ciphertext) == Some(plaintext),
    ensures
        decrypted(key, ciphertext, nonce) == Some(plaintext),
{
}

} // verus!
