//! Encryption of message content for storage at rest: an AES-256-GCM
//! envelope framed as the nonce, the ciphertext length as a little-endian
//! `u64`, and the ciphertext (the fixed-width binary layout of a
//! `{ nonce: [u8; 12], ciphertext: Vec<u8> }` record).

use vstd::prelude::*;
use crate::error::MePassaError;
use crate::primitives::{aes256gcm_open, aes_gcm_max_plaintext};
use crate::signal::{decrypt_message, encrypt_message, is_crypto_error, seals, EncryptedMessage};
use crate::text::string_of;

verus! {

/// Little-endian bytes of a `u64`.
pub open spec fn u64_le_bytes(n: u64) -> Seq<u8> {
    seq![
        n as u8,
        (n >> 8u64) as u8,
        (n >> 16u64) as u8,
        (n >> 24u64) as u8,
        (n >> 32u64) as u8,
        (n >> 40u64) as u8,
        (n >> 48u64) as u8,
        (n >> 56u64) as u8,
    ]
}

/// The `u64` whose little-endian bytes are `b[0..8]`.
pub open spec fn u64_from_le(b: Seq<u8>) -> u64 {
    (b[0] as u64) | ((b[1] as u64) << 8u64) | ((b[2] as u64) << 16u64) | ((b[3] as u64) << 24u64)
        | ((b[4] as u64) << 32u64) | ((b[5] as u64) << 40u64) | ((b[6] as u64) << 48u64) | ((
    b[7] as u64) << 56u64)
}

/// Reading back the bytes of a `u64` gives the `u64`.
pub proof fn lemma_u64_le_roundtrip(n: u64)
    ensures
        u64_from_le(u64_le_bytes(n)) == n,
        u64_le_bytes(n).len() == 8,
{
    let b = u64_le_bytes(n);
    let (b0, b1, b2, b3, b4, b5, b6, b7) = (b[0], b[1], b[2], b[3], b[4], b[5], b[6], b[7]);
    assert(b0 == n as u8 && b1 == (n >> 8u64) as u8 && b2 == (n >> 16u64) as u8 && b3 == (n
        >> 24u64) as u8 && b4 == (n >> 32u64) as u8 && b5 == (n >> 40u64) as u8 && b6 == (n
        >> 48u64) as u8 && b7 == (n >> 56u64) as u8);
    assert((b0 as u64) | ((b1 as u64) << 8u64) | ((b2 as u64) << 16u64) | ((b3 as u64) << 24u64)
        | ((b4 as u64) << 32u64) | ((b5 as u64) << 40u64) | ((b6 as u64) << 48u64) | ((b7 as u64)
        << 56u64) == n) by (bit_vector)
        requires
            b0 == n as u8,
            b1 == (n >> 8u64) as u8,
            b2 == (n >> 16u64) as u8,
            b3 == (n >> 24u64) as u8,
            b4 == (n >> 32u64) as u8,
            b5 == (n >> 40u64) as u8,
            b6 == (n >> 48u64) as u8,
            b7 == (n >> 56u64) as u8,
    ;
}

/// Length of the envelope header: nonce and length field.
pub open spec fn envelope_header_len() -> nat {
    20
}

/// The stored form of an encrypted message.
pub open spec fn envelope_bytes(nonce: Seq<u8>, ciphertext: Seq<u8>) -> Seq<u8> {
    nonce + u64_le_bytes(ciphertext.len() as u64) + ciphertext
}

/// Reading a stored blob: the nonce and ciphertext, or `None` when the blob
/// ends before the header or before the announced ciphertext. Bytes after
/// the ciphertext are ignored.
pub open spec fn parse_envelope(blob: Seq<u8>) -> Option<(Seq<u8>, Seq<u8>)> {
    if blob.len() < envelope_header_len() {
        None
    } else {
        let len = u64_from_le(blob.subrange(12, 20));
        if blob.len() - envelope_header_len() < len {
            None
        } else {
            Some((blob.subrange(0, 12), blob.subrange(20, 20 + len)))
        }
    }
}

/// Reading a framed envelope gives back its nonce and ciphertext.
pub proof fn lemma_envelope_roundtrip(nonce: Seq<u8>, ciphertext: Seq<u8>)
    requires
        nonce.len() == 12,
        ciphertext.len() <= u64::MAX,
    ensures
        parse_envelope(envelope_bytes(nonce, ciphertext)) == Some((nonce, ciphertext)),
{
    let blob = envelope_bytes(nonce, ciphertext);
    lemma_u64_le_roundtrip(ciphertext.len() as u64);
    assert(blob.subrange(12, 20) =~= u64_le_bytes(ciphertext.len() as u64));
    assert(blob.subrange(0, 12) =~= nonce);
    assert(blob.subrange(20, 20 + ciphertext.len() as int) =~= ciphertext);
}

/// Text of the error for a blob that cannot be read.
pub open spec fn truncated_blob_message() -> Seq<char> {
    "Storage decrypt deserialize failed: io error: unexpected end of file"@
}

/// Encrypts content for storage under a 32-byte key and frames the envelope.
/// Fails exactly when the plaintext exceeds the AES-GCM limit.
pub fn encrypt_for_storage(key: &[u8; 32], plaintext: &[u8]) -> (res: Result<Vec<u8>, MePassaError>)
    ensures
        res is Ok <==> plaintext@.len() <= aes_gcm_max_plaintext(),
        res matches Ok(blob) ==> exists|m: EncryptedMessage|
            #[trigger] seals(key@, m, plaintext@) && blob@ == envelope_bytes(m.nonce@, m.ciphertext@),
        res matches Err(e) ==> is_crypto_error(e, "Encryption failed: aead::Error"@),
{
    let encrypted = encrypt_message(plaintext, key)?;
    let mut blob: Vec<u8> = Vec::new();
    blob.extend_from_slice(&encrypted.nonce);
    let len: u64 = encrypted.ciphertext.len() as u64;
    blob.push(len as u8);
    blob.push((len >> 8u64) as u8);
    blob.push((len >> 16u64) as u8);
    blob.push((len >> 24u64) as u8);
    blob.push((len >> 32u64) as u8);
    blob.push((len >> 40u64) as u8);
    blob.push((len >> 48u64) as u8);
    blob.push((len >> 56u64) as u8);
    blob.extend_from_slice(encrypted.ciphertext.as_slice());
    assert(blob@ =~= envelope_bytes(encrypted.nonce@, encrypted.ciphertext@));
    Ok(blob)
}

/// Reads an envelope and decrypts it under a 32-byte key. A blob that
/// `encrypt_for_storage` produced with this key gives the plaintext back.
pub fn decrypt_for_storage(key: &[u8; 32], blob: &[u8]) -> (res: Result<Vec<u8>, MePassaError>)
    ensures
        parse_envelope(blob@) is None ==> (res matches Err(e) && is_crypto_error(e, truncated_blob_message())),
        parse_envelope(blob@) matches Some((n, c)) ==> match res {
            Ok(p) => aes256gcm_open(key@, n, c) == Some(p@),
            Err(e) => aes256gcm_open(key@, n, c) is None && is_crypto_error(
                e,
                "Decryption failed: aead::Error"@,
            ),
        },
        forall|m: EncryptedMessage, p: Seq<u8>|
            #[trigger] seals(key@, m, p) && blob@ == envelope_bytes(m.nonce@, m.ciphertext@)
                ==> res is Ok && res->Ok_0@ == p,
{
    if blob.len() < 20 {
        return Err(MePassaError::Crypto(string_of(
            "Storage decrypt deserialize failed: io error: unexpected end of file",
        )));
    }
    let len: u64 = (blob[12] as u64) | ((blob[13] as u64) << 8u64) | ((blob[14] as u64) << 16u64)
        | ((blob[15] as u64) << 24u64) | ((blob[16] as u64) << 32u64) | ((blob[17] as u64) << 40u64)
        | ((blob[18] as u64) << 48u64) | ((blob[19] as u64) << 56u64);
    assert(len == u64_from_le(blob@.subrange(12, 20)));
    if ((blob.len() - 20) as u64) < len {
        proof {
            assert forall|m: EncryptedMessage, p: Seq<u8>|
                #[trigger] seals(key@, m, p) && blob@ == envelope_bytes(m.nonce@, m.ciphertext@)
                implies false by {
                lemma_envelope_roundtrip(m.nonce@, m.ciphertext@);
            }
        }
        return Err(MePassaError::Crypto(string_of(
            "Storage decrypt deserialize failed: io error: unexpected end of file",
        )));
    }
    let end: usize = 20 + len as usize;
    let mut nonce = [0u8; 12];
    let mut i: usize = 0;
    while i < 12
        invariant
            0 <= i <= 12,
            blob@.len() >= 20,
            forall|j: int| 0 <= j < i ==> nonce@[j] == blob@[j],
        decreases 12 - i,
    {
        nonce[i] = blob[i];
        i = i + 1;
    }
    let mut ciphertext: Vec<u8> = Vec::new();
    let mut k: usize = 20;
    while k < end
        invariant
            20 <= k <= end,
            end <= blob@.len(),
            ciphertext@ =~= blob@.subrange(20, k as int),
        decreases end - k,
    {
        ciphertext.push(blob[k]);
        k = k + 1;
    }
    assert(nonce@ =~= blob@.subrange(0, 12));
    let encrypted = EncryptedMessage { nonce, ciphertext };
    proof {
        assert forall|m: EncryptedMessage, p: Seq<u8>|
            #[trigger] seals(key@, m, p) && blob@ == envelope_bytes(m.nonce@, m.ciphertext@)
            implies seals(key@, encrypted, p) by {
            lemma_envelope_roundtrip(m.nonce@, m.ciphertext@);
            assert(m.nonce@ =~= encrypted.nonce@);
        }
    }
    decrypt_message(&encrypted, key)
}

} // verus!
