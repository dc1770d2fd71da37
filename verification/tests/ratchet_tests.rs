use mepassa::prekeys::PreKeyPool;
use mepassa::ratchet::RatchetState;
use mepassa::signal::{decrypt_message, X3DH};

#[test]
fn test_ratchet_state_creation() {
    let root_key = [42u8; 32];
    let ratchet = RatchetState::new(root_key, true).unwrap();

    assert_eq!(ratchet.root_key, root_key);
    assert_eq!(ratchet.sending_counter, 0);
    assert_eq!(ratchet.receiving_counter, 0);
    assert_ne!(ratchet.sending_chain_key, root_key);
    assert_ne!(ratchet.receiving_chain_key, root_key);
    assert_ne!(ratchet.sending_chain_key, ratchet.receiving_chain_key);
}

#[test]
fn test_ratchet_encrypt_decrypt() {
    let root_key = [42u8; 32];
    let mut alice_ratchet = RatchetState::new(root_key, true).unwrap();
    let mut bob_ratchet = RatchetState::new(root_key, false).unwrap();

    let plaintext = b"Hello with forward secrecy!";

    let encrypted = alice_ratchet.encrypt(plaintext).unwrap();
    assert_eq!(alice_ratchet.sending_counter, 1);

    let decrypted = bob_ratchet.decrypt(&encrypted).unwrap();
    assert_eq!(bob_ratchet.receiving_counter, 1);

    assert_eq!(plaintext, decrypted.as_slice());
}

#[test]
fn test_ratchet_multiple_messages() {
    let root_key = [42u8; 32];
    let mut alice_ratchet = RatchetState::new(root_key, true).unwrap();
    let mut bob_ratchet = RatchetState::new(root_key, false).unwrap();

    for i in 0..10 {
        let msg = format!("Message {}", i);
        let encrypted = alice_ratchet.encrypt(msg.as_bytes()).unwrap();
        let decrypted = bob_ratchet.decrypt(&encrypted).unwrap();
        assert_eq!(msg.as_bytes(), decrypted.as_slice());
    }

    assert_eq!(alice_ratchet.sending_counter, 10);
    assert_eq!(bob_ratchet.receiving_counter, 10);
}

#[test]
fn test_ratchet_forward_secrecy() {
    let root_key = [42u8; 32];
    let mut alice_ratchet = RatchetState::new(root_key, true).unwrap();
    let mut bob_ratchet = RatchetState::new(root_key, false).unwrap();

    let msg1 = b"First message";
    let encrypted1 = alice_ratchet.encrypt(msg1).unwrap();
    let decrypted1 = bob_ratchet.decrypt(&encrypted1).unwrap();
    assert_eq!(msg1, decrypted1.as_slice());

    let alice_chain_key_before = alice_ratchet.sending_chain_key;
    let bob_chain_key_before = bob_ratchet.receiving_chain_key;

    let msg2 = b"Second message";
    let encrypted2 = alice_ratchet.encrypt(msg2).unwrap();
    let decrypted2 = bob_ratchet.decrypt(&encrypted2).unwrap();
    assert_eq!(msg2, decrypted2.as_slice());

    assert_ne!(alice_ratchet.sending_chain_key, alice_chain_key_before);
    assert_ne!(bob_ratchet.receiving_chain_key, bob_chain_key_before);

    let msg3 = b"Third message";
    let encrypted3 = alice_ratchet.encrypt(msg3).unwrap();

    let old_message_key = RatchetState::derive_message_key(&bob_chain_key_before, 2).unwrap();
    let result = decrypt_message(&encrypted3, &old_message_key);
    assert!(result.is_err());
}

#[test]
fn test_ratchet_different_root_keys() {
    let root_key1 = [42u8; 32];
    let root_key2 = [99u8; 32];

    let mut alice_ratchet = RatchetState::new(root_key1, true).unwrap();
    let mut bob_ratchet = RatchetState::new(root_key2, false).unwrap();

    let plaintext = b"This should fail";
    let encrypted = alice_ratchet.encrypt(plaintext).unwrap();

    let result = bob_ratchet.decrypt(&encrypted);
    assert!(result.is_err());
}

#[test]
fn test_e2e_with_x3dh_and_ratchet() {
    // Bob's identity: a signing-key seed and a pool without one-time prekeys.
    let mut bob_pool = PreKeyPool::new([7u8; 32], 0);
    let bob_signed_prekey_secret = bob_pool.signed_prekey().secret_bytes();
    let bob_bundle = bob_pool.get_bundle();

    let (alice_shared_secret, alice_ephemeral_pub) = X3DH::initiate(&bob_bundle).unwrap();
    let bob_shared_secret =
        X3DH::respond(&bob_signed_prekey_secret, None, &alice_ephemeral_pub).unwrap();
    assert_eq!(alice_shared_secret, bob_shared_secret);

    let mut alice_ratchet = RatchetState::new(alice_shared_secret, true).unwrap();
    let mut bob_ratchet = RatchetState::new(bob_shared_secret, false).unwrap();

    let alice_message = b"Secret with X3DH + Double Ratchet!";
    let encrypted = alice_ratchet.encrypt(alice_message).unwrap();
    let decrypted = bob_ratchet.decrypt(&encrypted).unwrap();
    assert_eq!(alice_message, decrypted.as_slice());

    for i in 0..5 {
        let msg = format!("Message {}", i);
        let enc = alice_ratchet.encrypt(msg.as_bytes()).unwrap();
        let dec = bob_ratchet.decrypt(&enc).unwrap();
        assert_eq!(msg.as_bytes(), dec.as_slice());
    }

    assert_eq!(alice_ratchet.sending_counter, 6);
    assert_eq!(bob_ratchet.receiving_counter, 6);
}

#[test]
fn test_counters() {
    let root_key = [42u8; 32];
    let mut alice_ratchet = RatchetState::new(root_key, true).unwrap();
    let mut bob_ratchet = RatchetState::new(root_key, false).unwrap();

    assert_eq!(alice_ratchet.counters(), (0, 0));
    assert_eq!(bob_ratchet.counters(), (0, 0));

    let mut encrypted_messages = Vec::new();
    for _ in 0..5 {
        encrypted_messages.push(alice_ratchet.encrypt(b"test").unwrap());
    }

    assert_eq!(alice_ratchet.counters(), (5, 0));

    for i in 0..3 {
        bob_ratchet.decrypt(&encrypted_messages[i]).unwrap();
    }

    assert_eq!(alice_ratchet.counters(), (5, 0));
    assert_eq!(bob_ratchet.counters(), (0, 3));
}

#[test]
fn ratchet_failed_decrypt_leaves_state_unchanged() {
    let mut alice = RatchetState::new([1u8; 32], true).unwrap();
    let mut bob = RatchetState::new([2u8; 32], false).unwrap();
    let enc = alice.encrypt(b"x").unwrap();
    let before = bob.receiving_chain_key;
    assert!(bob.decrypt(&enc).is_err());
    assert_eq!(bob.receiving_chain_key, before);
    assert_eq!(bob.counters(), (0, 0));
}

#[test]
fn ratchet_responder_to_initiator() {
    // Law: the responder's sending chain is the initiator's receiving chain.
    let root = [5u8; 32];
    let mut alice = RatchetState::new(root, true).unwrap();
    let mut bob = RatchetState::new(root, false).unwrap();
    assert_eq!(alice.sending_chain_key, bob.receiving_chain_key);
    assert_eq!(alice.receiving_chain_key, bob.sending_chain_key);
    let enc = bob.encrypt(b"reply").unwrap();
    assert_eq!(alice.decrypt(&enc).unwrap(), b"reply".to_vec());
}
