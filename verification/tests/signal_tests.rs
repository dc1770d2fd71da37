use mepassa::prekeys::PreKeyPool;
use mepassa::signal::{decrypt_message, encrypt_message, X3DH};

#[test]
fn test_x3dh_key_agreement() {
    let mut bob_pool = PreKeyPool::new([9u8; 32], 10);
    let bob_signed_prekey_secret = bob_pool.signed_prekey().secret_bytes();

    // Bob keeps the secrets of his one-time prekeys (IDs start at 2) before
    // publishing a bundle, and picks the one the bundle names.
    let mut kept: Vec<(u32, [u8; 32])> = Vec::new();
    for id in 2..12u32 {
        if let Some(pk) = bob_pool.get_prekey(id) {
            kept.push((id, pk.secret_bytes()));
        }
    }
    assert_eq!(kept.len(), 10);

    let bob_bundle = bob_pool.get_bundle();
    let used = bob_bundle.one_time_prekey.as_ref().unwrap().id;
    let bob_one_time_prekey_secret: Option<[u8; 32]> =
        kept.iter().find(|(id, _)| *id == used).map(|(_, s)| *s);
    assert!(bob_one_time_prekey_secret.is_some());

    let (alice_shared_secret, alice_ephemeral_pub) = X3DH::initiate(&bob_bundle).unwrap();
    let bob_shared_secret = X3DH::respond(
        &bob_signed_prekey_secret,
        bob_one_time_prekey_secret.as_ref(),
        &alice_ephemeral_pub,
    )
    .unwrap();

    assert_eq!(alice_shared_secret, bob_shared_secret);
}

#[test]
fn signal_test_encrypt_decrypt() {
    let key = [42u8; 32];
    let plaintext = b"Hello, MePassa!";

    let encrypted = encrypt_message(plaintext, &key).unwrap();
    let decrypted = decrypt_message(&encrypted, &key).unwrap();

    assert_eq!(plaintext, decrypted.as_slice());
}

#[test]
fn test_encrypt_decrypt_different_key_fails() {
    let key1 = [42u8; 32];
    let key2 = [99u8; 32];
    let plaintext = b"Secret message";

    let encrypted = encrypt_message(plaintext, &key1).unwrap();
    let result = decrypt_message(&encrypted, &key2);

    assert!(result.is_err());
}

#[test]
fn test_nonce_randomness() {
    let key = [42u8; 32];
    let plaintext = b"Test message";

    let encrypted1 = encrypt_message(plaintext, &key).unwrap();
    let encrypted2 = encrypt_message(plaintext, &key).unwrap();

    assert_ne!(encrypted1.nonce, encrypted2.nonce);
    assert_eq!(decrypt_message(&encrypted1, &key).unwrap(), plaintext);
    assert_eq!(decrypt_message(&encrypted2, &key).unwrap(), plaintext);
}

#[test]
fn test_e2e_alice_to_bob() {
    let mut bob_pool = PreKeyPool::new([3u8; 32], 0);
    let bob_signed_prekey_secret = bob_pool.signed_prekey().secret_bytes();
    let bob_bundle = bob_pool.get_bundle();

    let alice_message = b"Secret message from Alice to Bob!";

    let (shared_secret, alice_ephemeral_pub) = X3DH::initiate(&bob_bundle).unwrap();
    let encrypted = encrypt_message(alice_message, &shared_secret).unwrap();

    let bob_shared_secret =
        X3DH::respond(&bob_signed_prekey_secret, None, &alice_ephemeral_pub).unwrap();

    let decrypted = decrypt_message(&encrypted, &bob_shared_secret).unwrap();
    assert_eq!(alice_message, decrypted.as_slice());
}

#[test]
fn encrypted_message_is_sixteen_bytes_longer() {
    let key = [1u8; 32];
    let enc = encrypt_message(b"abc", &key).unwrap();
    assert_eq!(enc.ciphertext.len(), 3 + 16);
    assert_ne!(&enc.ciphertext[..3], b"abc");
}

#[test]
fn decrypt_rejects_short_ciphertext() {
    let key = [1u8; 32];
    let mut enc = encrypt_message(b"abc", &key).unwrap();
    enc.ciphertext.truncate(10);
    assert!(decrypt_message(&enc, &key).is_err());
}

#[test]
fn x3dh_without_one_time_prekey_differs_from_with() {
    let mut pool = PreKeyPool::new([4u8; 32], 1);
    let spk = pool.signed_prekey().secret_bytes();
    let otpk = pool.get_prekey(2).unwrap().secret_bytes();
    let bundle = pool.get_bundle();
    assert_eq!(bundle.one_time_prekey.as_ref().unwrap().id, 2);
    let (alice, eph) = X3DH::initiate(&bundle).unwrap();
    assert_eq!(X3DH::respond(&spk, Some(&otpk), &eph).unwrap(), alice);
    assert_ne!(X3DH::respond(&spk, None, &eph).unwrap(), alice);
}
