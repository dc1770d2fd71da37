use mepassa::sender_keys::{SenderKey, SenderKeyStore};

#[test]
fn test_generate_sender_key() {
    let key = SenderKey::generate("group-1".to_string(), "peer-1".to_string()).unwrap();

    assert_eq!(key.group_id, "group-1");
    assert_eq!(key.sender_peer_id, "peer-1");
    assert_eq!(key.iteration, 0);
    assert_eq!(key.chain_key.len(), 32);
}

#[test]
fn sender_keys_test_encrypt_decrypt() {
    let mut key = SenderKey::generate("group-1".to_string(), "peer-1".to_string()).unwrap();

    let plaintext = b"Hello, group!";
    let ciphertext = key.encrypt(plaintext).unwrap();
    assert_eq!(ciphertext, plaintext);

    let decrypted = key.decrypt(&ciphertext, key.iteration).unwrap();
    assert_eq!(decrypted, plaintext);
}

#[test]
fn test_sender_key_store() {
    let mut store = SenderKeyStore::new();

    let key1 = SenderKey::generate("group-1".to_string(), "peer-1".to_string()).unwrap();
    let key2 = SenderKey::generate("group-1".to_string(), "peer-2".to_string()).unwrap();

    store.store_key(key1);
    store.store_key(key2);

    assert!(store.get_key("group-1", "peer-1").is_some());
    assert!(store.get_key("group-1", "peer-2").is_some());
    assert!(store.get_key("group-2", "peer-1").is_none());

    store.remove_group("group-1");
    assert!(store.get_key("group-1", "peer-1").is_none());
}

#[test]
fn receiver_follows_sender() {
    let sender = SenderKey::generate("g".to_string(), "s".to_string()).unwrap();
    let mut receiver = sender.clone();
    let mut sender = sender;
    let msg = sender.encrypt(b"hi").unwrap();
    receiver.decrypt(&msg, sender.iteration).unwrap();
    assert_eq!(receiver.iteration, 1);
    assert_eq!(receiver.chain_key, sender.chain_key);
    // A replayed message changes nothing.
    receiver.decrypt(&msg, sender.iteration).unwrap();
    assert_eq!(receiver.chain_key, sender.chain_key);
}

#[test]
fn ratchet_step_mixes_iteration_and_position() {
    let mut key = SenderKey::generate("g".to_string(), "s".to_string()).unwrap();
    key.chain_key = vec![0u8; 32];
    key.encrypt(b"").unwrap();
    let expected: Vec<u8> = (0..32u8).map(|i| 1u8.wrapping_add(i)).collect();
    assert_eq!(key.chain_key, expected);
}

#[test]
fn store_replaces_and_keeps_other_groups() {
    let mut store = SenderKeyStore::default();
    let mut k1 = SenderKey::generate("a".to_string(), "p".to_string()).unwrap();
    store.store_key(k1.clone());
    k1.iteration = 7;
    store.store_key(k1);
    assert_eq!(store.get_key("a", "p").unwrap().iteration, 7);
    store.store_key(SenderKey::generate("b".to_string(), "p".to_string()).unwrap());
    store.remove_group("a");
    assert!(store.get_key("a", "p").is_none());
    assert!(store.get_key("b", "p").is_some());
    if let Some(k) = store.get_key_mut("b", "p") {
        k.iteration = 3;
    }
    assert_eq!(store.get_key("b", "p").unwrap().iteration, 3);
}
