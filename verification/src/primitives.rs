//! The cryptographic primitives that the protocol code calls: HKDF-SHA256,
//! AES-256-GCM, X25519 and Ed25519 from their crates, and the operating
//! system's random number generator. Each call sits behind a small trusted
//! item whose contract says what the crate's source and documentation show;
//! the results that would take pages to state are given names.

use vstd::prelude::*;
use aes_gcm::aead::Aead;
use aes_gcm::KeyInit;
use ed25519_dalek::Signer;
use rand::RngCore;

verus! {

/// Largest plaintext that AES-GCM accepts, in bytes (`aes_gcm::P_MAX`).
pub open spec fn aes_gcm_max_plaintext() -> nat {
    0x10_0000_0000
}

/// Length of the authentication tag that AES-256-GCM appends.
pub open spec fn aes_gcm_tag_len() -> nat {
    16
}

/// HKDF-SHA256 (RFC 5869): the first 32 bytes of output keying material for
/// the given salt, input keying material and info.
pub uninterp spec fn hkdf_sha256_okm32(salt: Seq<u8>, ikm: Seq<u8>, info: Seq<u8>) -> Seq<u8>;

/// AES-256-GCM encryption with empty associated data: ciphertext followed by tag.
pub uninterp spec fn aes256gcm_seal(key: Seq<u8>, nonce: Seq<u8>, plaintext: Seq<u8>) -> Seq<u8>;

/// AES-256-GCM decryption with empty associated data: the plaintext when the
/// tag authenticates, `None` otherwise.
pub uninterp spec fn aes256gcm_open(key: Seq<u8>, nonce: Seq<u8>, ciphertext: Seq<u8>) -> Option<Seq<u8>>;

/// The X25519 public key of a 32-byte secret (the clamped scalar times the base point).
pub uninterp spec fn x25519_public(secret: Seq<u8>) -> Seq<u8>;

/// The X25519 shared secret of a 32-byte secret and a 32-byte public key.
pub uninterp spec fn x25519_dh(secret: Seq<u8>, public: Seq<u8>) -> Seq<u8>;

/// The Ed25519 verifying key of a 32-byte signing-key seed.
pub uninterp spec fn ed25519_public(seed: Seq<u8>) -> Seq<u8>;

/// The Ed25519 signature (RFC 8032, deterministic) of a message under a seed.
pub uninterp spec fn ed25519_signature(seed: Seq<u8>, message: Seq<u8>) -> Seq<u8>;

/// `hkdf::InvalidLength`, the error of `Hkdf::expand`.
#[verifier::external_type_specification]
#[verifier::external_body]
pub struct ExHkdfInvalidLength(hkdf::InvalidLength);

/// `aes_gcm::Error` (that is `aead::Error`), the opaque error of AES-GCM.
#[verifier::external_type_specification]
#[verifier::external_body]
pub struct ExAeadError(aes_gcm::Error);

/// Calls `Hkdf::<Sha256>::new(Some(salt), ikm)` and then `expand(info, ..)`
/// into a 32-byte buffer. Claimed: the output is the HKDF-SHA256 result
/// named above, and `expand` succeeds, since it fails only for outputs
/// longer than 255 hash blocks (8160 bytes).
#[verifier::external_body]
pub(crate) fn hkdf_sha256_expand32(salt: &[u8], ikm: &[u8], info: &[u8]) -> (res: Result<
    [u8; 32],
    hkdf::InvalidLength,
>)
    ensures
        res is Ok,
        res matches Ok(okm) ==> okm@ == hkdf_sha256_okm32(salt@, ikm@, info@),
{
    let hk = hkdf::Hkdf::<sha2::Sha256>::new(Some(salt), ikm);
    let mut okm = [0u8; 32];
    hk.expand(info, &mut okm).map(|_| okm)
}

/// Calls `Aes256Gcm::new(key).encrypt(nonce, plaintext)`. Claimed: it fails
/// exactly when the plaintext is longer than `P_MAX` (2^36 bytes), and
/// otherwise returns the named AES-256-GCM ciphertext, 16 bytes longer than
/// the plaintext.
#[verifier::external_body]
pub(crate) fn aes256gcm_encrypt(key: &[u8; 32], nonce: &[u8; 12], plaintext: &[u8]) -> (res: Result<
    Vec<u8>,
    aes_gcm::Error,
>)
    ensures
        res is Ok <==> plaintext@.len() <= aes_gcm_max_plaintext(),
        res matches Ok(c) ==> c@ == aes256gcm_seal(key@, nonce@, plaintext@) && c@.len()
            == plaintext@.len() + aes_gcm_tag_len(),
{
    let cipher = aes_gcm::Aes256Gcm::new(key.into());
    cipher.encrypt(aes_gcm::Nonce::from_slice(nonce), plaintext)
}

/// Calls `Aes256Gcm::new(key).decrypt(nonce, ciphertext)`. Claimed: the
/// result is the named decryption; input shorter than the 16-byte tag is
/// refused; and, as for any AEAD, a ciphertext that this key and nonce
/// produced from a plaintext decrypts to that plaintext.
#[verifier::external_body]
pub(crate) fn aes256gcm_decrypt(key: &[u8; 32], nonce: &[u8; 12], ciphertext: &[u8]) -> (res: Result<
    Vec<u8>,
    aes_gcm::Error,
>)
    ensures
        res matches Ok(p) ==> aes256gcm_open(key@, nonce@, ciphertext@) == Some(p@),
        res is Err ==> aes256gcm_open(key@, nonce@, ciphertext@) is None,
        ciphertext@.len() < aes_gcm_tag_len() ==> res is Err,
        forall|p: Seq<u8>|
            p.len() <= aes_gcm_max_plaintext() && ciphertext@ == #[trigger] aes256gcm_seal(key@, nonce@, p)
                ==> (res is Ok && res->Ok_0@ == p),
{
    let cipher = aes_gcm::Aes256Gcm::new(key.into());
    cipher.decrypt(aes_gcm::Nonce::from_slice(nonce), ciphertext)
}

/// Calls `PublicKey::from(&StaticSecret::from(secret))`. Claimed: the result
/// is the named X25519 public key, and Diffie-Hellman agreement: any other
/// secret combined with this public key gives what this secret gives
/// combined with the other secret's public key.
#[verifier::external_body]
pub(crate) fn x25519_public_key(secret: &[u8; 32]) -> (res: [u8; 32])
    ensures
        res@ == x25519_public(secret@),
        forall|other: Seq<u8>|
            #![trigger x25519_dh(other, res@)]
            other.len() == 32 ==> x25519_dh(other, res@) == x25519_dh(secret@, x25519_public(other)),
{
    x25519_dalek::PublicKey::from(&x25519_dalek::StaticSecret::from(*secret)).to_bytes()
}

/// Calls `StaticSecret::from(secret).diffie_hellman(&PublicKey::from(public))`.
/// Claimed: the result is the named X25519 shared secret.
#[verifier::external_body]
pub(crate) fn x25519_shared_secret(secret: &[u8; 32], public: &[u8; 32]) -> (res: [u8; 32])
    ensures
        res@ == x25519_dh(secret@, public@),
{
    x25519_dalek::StaticSecret::from(*secret).diffie_hellman(
        &x25519_dalek::PublicKey::from(*public),
    ).to_bytes()
}

/// Calls `StaticSecret::random_from_rng(OsRng)` and returns its bytes.
/// Nothing is claimed of the bytes: they come from the operating system.
#[verifier::external_body]
pub(crate) fn random_x25519_secret() -> [u8; 32] {
    x25519_dalek::StaticSecret::random_from_rng(rand::rngs::OsRng).to_bytes()
}

/// Calls `OsRng.fill_bytes` on a 12-byte buffer. Nothing is claimed of the
/// bytes: they come from the operating system.
#[verifier::external_body]
pub(crate) fn random_nonce() -> [u8; 12] {
    let mut nonce = [0u8; 12];
    rand::rngs::OsRng.fill_bytes(&mut nonce);
    nonce
}

/// Calls `rand::random::<[u8; 32]>()`. Nothing is claimed of the bytes:
/// they come from the thread-local generator.
#[verifier::external_body]
pub(crate) fn random_bytes32() -> [u8; 32] {
    rand::random::<[u8; 32]>()
}

/// Calls `SigningKey::from_bytes(seed).verifying_key().to_bytes()`. Claimed:
/// the result is the named Ed25519 verifying key of the seed.
#[verifier::external_body]
pub(crate) fn ed25519_verifying_key(seed: &[u8; 32]) -> (res: [u8; 32])
    ensures
        res@ == ed25519_public(seed@),
{
    ed25519_dalek::SigningKey::from_bytes(seed).verifying_key().to_bytes()
}

/// Calls `SigningKey::from_bytes(seed).sign(message).to_bytes()`. Claimed:
/// the result is the named (deterministic) Ed25519 signature.
#[verifier::external_body]
pub(crate) fn ed25519_sign(seed: &[u8; 32], message: &[u8]) -> (res: [u8; 64])
    ensures
        res@ == ed25519_signature(seed@, message@),
{
    ed25519_dalek::SigningKey::from_bytes(seed).sign(message).to_bytes()
}

} // verus!
