//! Message encryption with AES-256-GCM and a simplified X3DH key agreement
//! over X25519 prekeys.

use vstd::prelude::*;
use vstd::string::StringSliceAdditionalSpecFns;
use crate::error::MePassaError;
use crate::prekeys::PreKeyBundle;
use crate::primitives::{
    aes256gcm_decrypt, aes256gcm_encrypt, aes256gcm_open, aes256gcm_seal, aes_gcm_max_plaintext,
    aes_gcm_tag_len, hkdf_sha256_expand32, hkdf_sha256_okm32, random_nonce, random_x25519_secret,
    x25519_dh, x25519_public, x25519_public_key, x25519_shared_secret,
};
use crate::text::string_of;

verus! {

/// Encrypted message envelope: the random 12-byte AES-GCM nonce and the
/// ciphertext with its tag.
#[derive(Debug, Clone)]
pub struct EncryptedMessage {
    pub nonce: [u8; 12],
    pub ciphertext: Vec<u8>,
}

/// Whether `msg` is the encryption of `plaintext` under `key` with its own nonce.
pub open spec fn seals(key: Seq<u8>, msg: EncryptedMessage, plaintext: Seq<u8>) -> bool {
    &&& plaintext.len() <= aes_gcm_max_plaintext()
    &&& msg.ciphertext@ == aes256gcm_seal(key, msg.nonce@, plaintext)
}

/// Whether an error is the crypto error with the given text.
pub open spec fn is_crypto_error(e: MePassaError, text: Seq<char>) -> bool {
    e matches MePassaError::Crypto(s) && s@ == text
}

/// Encrypts `plaintext` under a 32-byte key with AES-256-GCM and a fresh
/// random nonce. Fails exactly when the plaintext exceeds the AES-GCM limit.
pub fn encrypt_message(plaintext: &[u8], key: &[u8; 32]) -> (res: Result<EncryptedMessage, MePassaError>)
    ensures
        res is Ok <==> plaintext@.len() <= aes_gcm_max_plaintext(),
        res matches Ok(m) ==> seals(key@, m, plaintext@),
        res matches Err(e) ==> is_crypto_error(e, "Encryption failed: aead::Error"@),
{
    let nonce = random_nonce();
    match aes256gcm_encrypt(key, &nonce, plaintext) {
        Ok(ciphertext) => Ok(EncryptedMessage { nonce, ciphertext }),
        Err(_) => Err(MePassaError::Crypto(string_of("Encryption failed: aead::Error"))),
    }
}

/// Decrypts an envelope with a 32-byte key. The result is the AES-256-GCM
/// decryption; in particular a message that `key` sealed from a plaintext
/// gives that plaintext back, and a ciphertext shorter than the tag is refused.
pub fn decrypt_message(encrypted: &EncryptedMessage, key: &[u8; 32]) -> (res: Result<Vec<u8>, MePassaError>)
    ensures
        res matches Ok(p) ==> aes256gcm_open(key@, encrypted.nonce@, encrypted.ciphertext@) == Some(p@),
        res is Err ==> aes256gcm_open(key@, encrypted.nonce@, encrypted.ciphertext@) is None,
        res matches Err(e) ==> is_crypto_error(e, "Decryption failed: aead::Error"@),
        encrypted.ciphertext@.len() < aes_gcm_tag_len() ==> res is Err,
        forall|p: Seq<u8>| #[trigger] seals(key@, *encrypted, p) ==> res == Ok::<Vec<u8>, MePassaError>(
            res->Ok_0) && res->Ok_0@ == p,
{
    match aes256gcm_decrypt(key, &encrypted.nonce, encrypted.ciphertext.as_slice()) {
        Ok(p) => Ok(p),
        Err(_) => Err(MePassaError::Crypto(string_of("Decryption failed: aead::Error"))),
    }
}

/// Salt of the X3DH key derivation.
pub open spec fn x3dh_salt() -> Seq<u8> {
    "mepassa-x3dh-v1".spec_bytes()
}

/// Info of the X3DH key derivation.
pub open spec fn x3dh_info() -> Seq<u8> {
    "shared-secret".spec_bytes()
}

/// Shared secret derived from concatenated Diffie-Hellman outputs.
pub open spec fn x3dh_kdf(dh_output: Seq<u8>) -> Seq<u8> {
    hkdf_sha256_okm32(x3dh_salt(), dh_output, x3dh_info())
}

/// The secret that the responder derives from its signed prekey secret,
/// its optional one-time prekey secret and the initiator's ephemeral key.
pub open spec fn x3dh_responder_secret(
    signed_prekey_secret: Seq<u8>,
    one_time_prekey_secret: Option<Seq<u8>>,
    ephemeral_public: Seq<u8>,
) -> Seq<u8> {
    let dh1 = x25519_dh(signed_prekey_secret, ephemeral_public);
    match one_time_prekey_secret {
        Some(o) => x3dh_kdf(dh1 + x25519_dh(o, ephemeral_public)),
        None => x3dh_kdf(dh1),
    }
}

/// The secret that the initiator derives from its ephemeral secret and a bundle.
pub open spec fn x3dh_initiator_secret(ephemeral_secret: Seq<u8>, bundle: PreKeyBundle) -> Seq<u8> {
    let dh1 = x25519_dh(ephemeral_secret, bundle.signed_prekey@);
    match bundle.one_time_prekey {
        Some(k) => x3dh_kdf(dh1 + x25519_dh(ephemeral_secret, k.public_key@)),
        None => x3dh_kdf(dh1),
    }
}

/// Whether secrets match the public keys of a bundle: the signed prekey
/// secret gives the signed prekey, and a one-time prekey secret is given
/// exactly when the bundle carries a one-time prekey, whose public key it gives.
pub open spec fn secrets_match_bundle(
    bundle: PreKeyBundle,
    signed_prekey_secret: Seq<u8>,
    one_time_prekey_secret: Option<Seq<u8>>,
) -> bool {
    &&& signed_prekey_secret.len() == 32
    &&& x25519_public(signed_prekey_secret) == bundle.signed_prekey@
    &&& match (bundle.one_time_prekey, one_time_prekey_secret) {
        (None, None) => true,
        (Some(k), Some(o)) => o.len() == 32 && x25519_public(o) == k.public_key@,
        _ => false,
    }
}

/// Simplified X3DH key agreement over X25519 prekeys.
pub struct X3DH;

impl X3DH {
    /// Initiates X3DH against a prekey bundle with a fresh ephemeral key.
    /// Returns the shared secret and the ephemeral public key. The shared
    /// secret is the one that the holder of the bundle's secrets derives
    /// from the ephemeral public key with `respond`.
    pub fn initiate(bob_bundle: &PreKeyBundle) -> (res: Result<([u8; 32], [u8; 32]), MePassaError>)
        ensures
            res is Ok,
            res matches Ok(r) ==> exists|e: Seq<u8>|
                e.len() == 32 && r.1@ == x25519_public(e) && r.0@ == x3dh_initiator_secret(e, *bob_bundle),
            res matches Ok(r) ==> forall|s: Seq<u8>, o: Option<Seq<u8>>|
                #[trigger] secrets_match_bundle(*bob_bundle, s, o)
                    ==> r.0@ == x3dh_responder_secret(s, o, r.1@),
    {
        let ephemeral_secret = random_x25519_secret();
        let ephemeral_public = x25519_public_key(&ephemeral_secret);
        let dh1 = x25519_shared_secret(&ephemeral_secret, &bob_bundle.signed_prekey);
        let mut dh_output: Vec<u8> = Vec::new();
        dh_output.extend_from_slice(&dh1);
        match &bob_bundle.one_time_prekey {
            Some(otpk) => {
                let dh2 = x25519_shared_secret(&ephemeral_secret, &otpk.public_key);
                dh_output.extend_from_slice(&dh2);
                assert(dh_output@ =~= dh1@ + dh2@);
            },
            None => {
                assert(dh_output@ =~= dh1@);
            },
        }
        assert(x3dh_kdf(dh_output@) == x3dh_initiator_secret(ephemeral_secret@, *bob_bundle));
        let shared_secret = Self::derive_shared_secret(dh_output.as_slice())?;
        proof {
            assert forall|s: Seq<u8>, o: Option<Seq<u8>>|
                #[trigger] secrets_match_bundle(*bob_bundle, s, o)
                implies shared_secret@ == x3dh_responder_secret(s, o, ephemeral_public@) by {
                assert(x25519_dh(s, ephemeral_public@) == x25519_dh(ephemeral_secret@, x25519_public(s)));
                match (bob_bundle.one_time_prekey, o) {
                    (Some(k), Some(ok)) => {
                        assert(x25519_dh(ok, ephemeral_public@) == x25519_dh(ephemeral_secret@, x25519_public(ok)));
                    },
                    _ => {},
                }
            }
            assert(ephemeral_secret@.len() == 32);
        }
        Ok((shared_secret, ephemeral_public))
    }

    /// Responds to X3DH with the signed prekey secret, the optional one-time
    /// prekey secret and the initiator's ephemeral public key.
    pub fn respond(
        bob_signed_prekey_secret: &[u8; 32],
        bob_one_time_prekey_secret: Option<&[u8; 32]>,
        alice_ephemeral_public: &[u8; 32],
    ) -> (res: Result<[u8; 32], MePassaError>)
        ensures
            res is Ok,
            res matches Ok(k) ==> k@ == x3dh_responder_secret(
                bob_signed_prekey_secret@,
                match bob_one_time_prekey_secret {
                    Some(o) => Some(o@),
                    None => None,
                },
                alice_ephemeral_public@,
            ),
    {
        let dh1 = x25519_shared_secret(bob_signed_prekey_secret, alice_ephemeral_public);
        let mut dh_output: Vec<u8> = Vec::new();
        dh_output.extend_from_slice(&dh1);
        match bob_one_time_prekey_secret {
            Some(otpk_secret) => {
                let dh2 = x25519_shared_secret(otpk_secret, alice_ephemeral_public);
                dh_output.extend_from_slice(&dh2);
                assert(dh_output@ =~= dh1@ + dh2@);
            },
            None => {
                assert(dh_output@ =~= dh1@);
            },
        }
        Self::derive_shared_secret(dh_output.as_slice())
    }

    /// Derives the shared secret from concatenated DH outputs with HKDF.
    fn derive_shared_secret(dh_output: &[u8]) -> (res: Result<[u8; 32], MePassaError>)
        ensures
            res is Ok,
            res matches Ok(k) ==> k@ == x3dh_kdf(dh_output@),
    {
        match hkdf_sha256_expand32("mepassa-x3dh-v1".as_bytes(), dh_output, "shared-secret".as_bytes()) {
            Ok(k) => Ok(k),
            Err(_) => Err(MePassaError::Crypto(string_of("HKDF expand failed"))),
        }
    }
}

} // verus!
