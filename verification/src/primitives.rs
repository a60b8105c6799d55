//! The cryptographic and encoding primitives that the library takes from
//! other crates. Each function here makes one such call; what its contract
//! says of the call is believed, not proved.
use vstd::prelude::*;

verus! {

/// No input of a primitive may be longer than this many bytes: beyond it the
/// hash functions refuse their input.
pub const MAX_INPUT_BYTES: u64 = 0x0FFF_FFFF_FFFF_FFFF;

/// The system's secure random number generator.
#[verifier::external_type_specification]
#[verifier::external_body]
pub struct ExSystemRandom(ring::rand::SystemRandom);

/// Why a text is no base64.
#[verifier::external_type_specification]
#[verifier::external_body]
pub struct ExDecodeError(base64::DecodeError);

/// The key that PBKDF2 with HMAC-SHA256 derives, `len` bytes long, as
/// `ring::pbkdf2::derive` computes it.
pub uninterp spec fn pbkdf2_hmac_sha256(
    iterations: u32,
    salt: Seq<u8>,
    secret: Seq<u8>,
    len: nat,
) -> Seq<u8>;

/// The HMAC-SHA256 tag of `data` under `key`, as `ring::hmac::sign` computes
/// it.
pub uninterp spec fn hmac_sha256(key: Seq<u8>, data: Seq<u8>) -> Seq<u8>;

/// The AES-256-GCM ciphertext of `plaintext` with its tag appended, without
/// associated data, as `ring::aead::LessSafeKey::seal_in_place_append_tag`
/// computes it; `None` where it refuses.
pub uninterp spec fn aes_256_gcm_seal(key: Seq<u8>, nonce: Seq<u8>, plaintext: Seq<u8>) -> Option<
    Seq<u8>,
>;

/// The plaintext that `ring::aead::LessSafeKey::open_in_place` recovers from
/// a ciphertext with its tag, without associated data; `None` where it
/// refuses.
pub uninterp spec fn aes_256_gcm_open(key: Seq<u8>, nonce: Seq<u8>, sealed: Seq<u8>) -> Option<
    Seq<u8>,
>;

/// The standard base64 text of `data`, with padding, as
/// `base64::Engine::encode` writes it.
pub uninterp spec fn base64_encode(data: Seq<u8>) -> Seq<char>;

/// The bytes that `base64::Engine::decode` reads from `text`; `None` where
/// it refuses.
pub uninterp spec fn base64_decode(text: Seq<char>) -> Option<Seq<u8>>;

/// The X25519 public key of a secret, as `x25519_dalek::PublicKey::from`
/// computes it.
pub uninterp spec fn x25519_public(secret: Seq<u8>) -> Seq<u8>;

/// The X25519 shared secret of a secret and a peer's public key, as
/// `x25519_dalek::StaticSecret::diffie_hellman` computes it.
pub uninterp spec fn x25519_shared(secret: Seq<u8>, peer_public: Seq<u8>) -> Seq<u8>;

/// The public key `public` of `secret` leads every other party to the
/// secret that `secret` reaches with that party's public key.
pub open spec fn agrees_with_all(secret: Seq<u8>, public: Seq<u8>) -> bool {
    forall|other: Seq<u8>|
        other.len() == 32 ==> #[trigger] x25519_shared(other, public) == x25519_shared(
            secret,
            x25519_public(other),
        )
}

/// `ring::rand::SystemRandom::new` gives a handle on the system's generator.
#[verifier::external_body]
pub(crate) fn system_random() -> ring::rand::SystemRandom {
    ring::rand::SystemRandom::new()
}

/// `ring::rand::SecureRandom::fill` fills a buffer of `len` bytes with
/// random bytes, or fails. Of the bytes only their number is known.
#[verifier::external_body]
pub(crate) fn random_bytes(rng: &ring::rand::SystemRandom, len: usize) -> (r: Option<Vec<u8>>)
    ensures
        r matches Some(bytes) ==> bytes.len() == len,
{
    let mut bytes = vec![0u8; len];
    match ring::rand::SecureRandom::fill(rng, &mut bytes) {
        Ok(()) => Some(bytes),
        Err(_) => None,
    }
}

/// `ring::pbkdf2::derive` with HMAC-SHA256 fills `len` bytes with the key
/// derived from the secret and the salt in `iterations` rounds. It needs at
/// least one round and inputs that are not too long.
#[verifier::external_body]
pub(crate) fn pbkdf2_derive(iterations: u32, salt: &[u8], secret: &[u8], len: usize) -> (key: Vec<
    u8,
>)
    requires
        iterations > 0,
        salt.len() <= MAX_INPUT_BYTES,
        secret.len() <= MAX_INPUT_BYTES,
        len <= u32::MAX,
    ensures
        key@ == pbkdf2_hmac_sha256(iterations, salt@, secret@, len as nat),
        key.len() == len,
{
    let mut key = vec![0u8; len];
    ring::pbkdf2::derive(
        ring::pbkdf2::PBKDF2_HMAC_SHA256,
        std::num::NonZeroU32::new(iterations).unwrap(),
        salt,
        secret,
        &mut key,
    );
    key
}

/// `ring::pbkdf2::verify` with HMAC-SHA256 tells, in constant time, whether
/// `derived` is the key of its length derived from the secret and the salt;
/// an empty `derived` never is.
#[verifier::external_body]
pub(crate) fn pbkdf2_verify(iterations: u32, salt: &[u8], secret: &[u8], derived: &[u8]) -> (ok:
    bool)
    requires
        iterations > 0,
        salt.len() <= MAX_INPUT_BYTES,
        secret.len() <= MAX_INPUT_BYTES,
        derived.len() <= u32::MAX,
    ensures
        ok == (derived.len() > 0 && pbkdf2_hmac_sha256(
            iterations,
            salt@,
            secret@,
            derived.len() as nat,
        ) == derived@),
{
    ring::pbkdf2::verify(
        ring::pbkdf2::PBKDF2_HMAC_SHA256,
        std::num::NonZeroU32::new(iterations).unwrap(),
        salt,
        secret,
        derived,
    ).is_ok()
}

/// `ring::hmac::sign` with an HMAC-SHA256 key made of `key` gives the tag of
/// `data`: 32 bytes.
#[verifier::external_body]
pub(crate) fn hmac_sign(key: &[u8], data: &[u8]) -> (tag: Vec<u8>)
    requires
        key.len() <= MAX_INPUT_BYTES,
        data.len() <= MAX_INPUT_BYTES,
    ensures
        tag@ == hmac_sha256(key@, data@),
        tag.len() == 32,
{
    let key = ring::hmac::Key::new(ring::hmac::HMAC_SHA256, key);
    ring::hmac::sign(&key, data).as_ref().to_vec()
}

/// `ring::hmac::verify` with an HMAC-SHA256 key made of `key` tells, in
/// constant time, whether `tag` is the tag of `data`.
#[verifier::external_body]
pub(crate) fn hmac_verify(key: &[u8], data: &[u8], tag: &[u8]) -> (ok: bool)
    requires
        key.len() <= MAX_INPUT_BYTES,
        data.len() <= MAX_INPUT_BYTES,
    ensures
        ok == (hmac_sha256(key@, data@) == tag@),
{
    let key = ring::hmac::Key::new(ring::hmac::HMAC_SHA256, key);
    ring::hmac::verify(&key, data, tag).is_ok()
}

/// `ring::aead::LessSafeKey::seal_in_place_append_tag` with an AES-256-GCM
/// key and no associated data encrypts the plaintext and appends the tag of
/// 16 bytes, or refuses. What it sealed, `open_in_place` opens again under
/// the same key and nonce.
#[verifier::external_body]
pub(crate) fn aead_seal(key: &[u8], nonce: &[u8], plaintext: &[u8]) -> (sealed: Option<Vec<u8>>)
    requires
        key.len() == 32,
        nonce.len() == 12,
    ensures
        match sealed {
            Some(bytes) => aes_256_gcm_seal(key@, nonce@, plaintext@) == Some(bytes@)
                && bytes.len() == plaintext.len() + 16 && aes_256_gcm_open(key@, nonce@, bytes@)
                == Some(plaintext@),
            None => aes_256_gcm_seal(key@, nonce@, plaintext@) is None,
        },
{
    let key = ring::aead::UnboundKey::new(&ring::aead::AES_256_GCM, key).ok()?;
    let nonce = ring::aead::Nonce::try_assume_unique_for_key(nonce).ok()?;
    let mut in_out = plaintext.to_vec();
    ring::aead::LessSafeKey::new(key).seal_in_place_append_tag(
        nonce,
        ring::aead::Aad::empty(),
        &mut in_out,
    ).ok()?;
    Some(in_out)
}

/// `ring::aead::LessSafeKey::open_in_place` with an AES-256-GCM key and no
/// associated data checks the tag at the end of `sealed` and decrypts what
/// stands before it, or refuses; it refuses whatever is shorter than a tag.
#[verifier::external_body]
pub(crate) fn aead_open(key: &[u8], nonce: &[u8], sealed: &[u8]) -> (opened: Option<Vec<u8>>)
    requires
        key.len() == 32,
        nonce.len() == 12,
    ensures
        match opened {
            Some(bytes) => aes_256_gcm_open(key@, nonce@, sealed@) == Some(bytes@) && bytes.len()
                + 16 == sealed.len(),
            None => aes_256_gcm_open(key@, nonce@, sealed@) is None,
        },
        sealed.len() < 16 ==> opened is None,
{
    let key = ring::aead::UnboundKey::new(&ring::aead::AES_256_GCM, key).ok()?;
    let nonce = ring::aead::Nonce::try_assume_unique_for_key(nonce).ok()?;
    let mut in_out = sealed.to_vec();
    let opened = ring::aead::LessSafeKey::new(key).open_in_place(
        nonce,
        ring::aead::Aad::empty(),
        &mut in_out,
    ).ok()?;
    Some(opened.to_vec())
}

/// `base64::Engine::encode` of the standard engine writes `data` as base64
/// text, which `decode` reads back as `data`.
#[verifier::external_body]
pub(crate) fn base64_text(data: &[u8]) -> (text: String)
    requires
        data.len() <= 0x3FFF_FFFF,
    ensures
        text@ == base64_encode(data@),
        base64_decode(text@) == Some(data@),
{
    base64::Engine::encode(&base64::prelude::BASE64_STANDARD, data)
}

/// `base64::Engine::decode` of the standard engine reads the bytes that a
/// base64 text stands for, or says why it is none.
#[verifier::external_body]
pub(crate) fn base64_bytes(text: &str) -> (r: std::result::Result<Vec<u8>, base64::DecodeError>)
    ensures
        match r {
            Ok(bytes) => base64_decode(text@) == Some(bytes@),
            Err(_) => base64_decode(text@) is None,
        },
{
    base64::Engine::decode(&base64::prelude::BASE64_STANDARD, text)
}

/// The words in which `base64::DecodeError` describes itself.
#[verifier::external_body]
pub(crate) fn decode_error_text(error: &base64::DecodeError) -> String {
    error.to_string()
}

/// `x25519_dalek::PublicKey::from` computes the public key of a secret of
/// 32 bytes: 32 bytes, with which every other party reaches the secret that
/// this one reaches with that party's public key.
#[verifier::external_body]
pub(crate) fn x25519_public_key(secret: &[u8]) -> (public: Vec<u8>)
    requires
        secret.len() == 32,
    ensures
        public@ == x25519_public(secret@),
        public.len() == 32,
        agrees_with_all(secret@, public@),
{
    let mut bytes = [0u8; 32];
    bytes.copy_from_slice(secret);
    let secret = x25519_dalek::StaticSecret::from(bytes);
    x25519_dalek::PublicKey::from(&secret).as_bytes().to_vec()
}

/// `x25519_dalek::StaticSecret::diffie_hellman` computes the secret shared
/// between a secret of 32 bytes and a peer's public key of 32 bytes: 32
/// bytes.
#[verifier::external_body]
pub(crate) fn x25519_shared_secret(secret: &[u8], peer_public: &[u8]) -> (shared: Vec<u8>)
    requires
        secret.len() == 32,
        peer_public.len() == 32,
    ensures
        shared@ == x25519_shared(secret@, peer_public@),
        shared.len() == 32,
{
    let mut bytes = [0u8; 32];
    bytes.copy_from_slice(secret);
    let mut peer = [0u8; 32];
    peer.copy_from_slice(peer_public);
    let secret = x25519_dalek::StaticSecret::from(bytes);
    secret.diffie_hellman(&x25519_dalek::PublicKey::from(peer)).as_bytes().to_vec()
}

} // verus!
