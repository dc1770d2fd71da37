use ed25519_dalek::Verifier;
use mepassa::prekeys::{PreKey, PreKeyPool};

fn identity_seed() -> [u8; 32] {
    rand::random::<[u8; 32]>()
}

fn identity_public_key(seed: &[u8; 32]) -> [u8; 32] {
    ed25519_dalek::SigningKey::from_bytes(seed).verifying_key().to_bytes()
}

#[test]
fn test_prekey_generation() {
    let prekey = PreKey::generate(1);
    assert_eq!(prekey.id, 1);
    assert_eq!(prekey.public_bytes().len(), 32);
}

#[test]
fn test_prekey_from_bytes() {
    let prekey1 = PreKey::generate(1);
    let bytes = prekey1.secret_bytes();

    let prekey2 = PreKey::from_bytes(1, &bytes).unwrap();

    assert_eq!(prekey1.public_bytes(), prekey2.public_bytes());
}

#[test]
fn prekey_from_bytes_rejects_wrong_length() {
    let err = PreKey::from_bytes(1, &[0u8; 31]).err().unwrap();
    assert_eq!(err.to_string(), "Identity error: Invalid prekey length: expected 32 bytes, got 31");
}

#[test]
fn test_diffie_hellman() {
    let alice_prekey = PreKey::generate(1);
    let bob_prekey = PreKey::generate(2);

    let alice_shared = alice_prekey.diffie_hellman(&bob_prekey.public_bytes());
    let bob_shared = bob_prekey.diffie_hellman(&alice_prekey.public_bytes());

    assert_eq!(alice_shared, bob_shared);
}

#[test]
fn test_prekey_pool_creation() {
    let pool = PreKeyPool::new(identity_seed(), 100);

    assert_eq!(pool.prekey_count(), 100);
    assert_eq!(pool.signed_prekey().id, 1);
}

#[test]
fn test_prekey_bundle() {
    let seed = identity_seed();
    let mut pool = PreKeyPool::new(seed, 10);

    let bundle = pool.get_bundle();

    assert_eq!(bundle.identity_key, identity_public_key(&seed));
    assert!(bundle.one_time_prekey.is_some());
    assert_eq!(pool.prekey_count(), 9);
}

#[test]
fn test_prekey_consumption() {
    let mut pool = PreKeyPool::new(identity_seed(), 5);

    assert_eq!(pool.prekey_count(), 5);

    let _bundle1 = pool.get_bundle();
    assert_eq!(pool.prekey_count(), 4);

    let _bundle2 = pool.get_bundle();
    assert_eq!(pool.prekey_count(), 3);
}

#[test]
fn test_prekey_replenishment() {
    let mut pool = PreKeyPool::new(identity_seed(), 10);

    for _ in 0..10 {
        let _ = pool.get_bundle();
    }

    assert_eq!(pool.prekey_count(), 0);

    pool.replenish_prekeys(100);
    assert_eq!(pool.prekey_count(), 100);
}

#[test]
fn test_needs_replenishment() {
    let mut pool = PreKeyPool::new(identity_seed(), 100);

    assert!(!pool.needs_replenishment());

    for _ in 0..85 {
        let _ = pool.get_bundle();
    }

    assert!(pool.needs_replenishment());
}

#[test]
fn test_rotate_signed_prekey() {
    let mut pool = PreKeyPool::new(identity_seed(), 10);

    let old_id = pool.signed_prekey().id;
    let old_public = pool.signed_prekey().public_bytes();

    pool.rotate_signed_prekey();

    let new_id = pool.signed_prekey().id;
    let new_public = pool.signed_prekey().public_bytes();

    assert_ne!(old_id, new_id);
    assert_ne!(old_public, new_public);
}

#[test]
fn consumed_prekey_is_gone_and_ids_are_fresh() {
    let mut pool = PreKeyPool::new([1u8; 32], 3);
    let bundle = pool.get_bundle();
    let used = bundle.one_time_prekey.unwrap().id;
    assert!(pool.get_prekey(used).is_none());
    pool.replenish_prekeys(5);
    assert_eq!(pool.prekey_count(), 5);
    // New prekeys continue the numbering after the initial ones (2..=4).
    assert!(pool.get_prekey(5).is_some());
    assert!(pool.get_prekey(6).is_some());
    assert!(pool.get_prekey(7).is_some());
    assert!(pool.get_prekey(used).is_none());
    assert_eq!(pool.remove_prekey(5).unwrap().id, 5);
    assert!(pool.remove_prekey(5).is_none());
}

#[test]
fn empty_pool_bundle_has_no_one_time_prekey() {
    let mut pool = PreKeyPool::new([2u8; 32], 0);
    let bundle = pool.get_bundle();
    assert!(bundle.one_time_prekey.is_none());
    assert_eq!(bundle.signed_prekey_id, 1);
    assert_eq!(bundle.signed_prekey, pool.signed_prekey().public_bytes());
    assert!(pool.needs_replenishment());
}

#[test]
fn signed_prekey_signature_verifies() {
    let seed = [8u8; 32];
    let pool = PreKeyPool::new(seed, 0);
    let sig = ed25519_dalek::Signature::from_bytes(&pool.signed_prekey_signature());
    let key = ed25519_dalek::VerifyingKey::from_bytes(&identity_public_key(&seed)).unwrap();
    assert!(key.verify(&pool.signed_prekey().public_bytes(), &sig).is_ok());
}

#[test]
fn public_key_is_the_x25519_image_of_the_secret() {
    let pk = PreKey::from_bytes(7, &[5u8; 32]).unwrap();
    let expected =
        x25519_dalek::PublicKey::from(&x25519_dalek::StaticSecret::from([5u8; 32])).to_bytes();
    assert_eq!(pk.public_bytes(), expected);
    assert_ne!(pk.public_bytes(), pk.secret_bytes());
    assert_eq!(pk.id, 7);
}

#[test]
fn prekey_id_getter_and_agreement() {
    let a = PreKey::generate(11);
    let b = PreKey::from_bytes(12, &[9u8; 32]).unwrap();
    assert_eq!(a.id(), 11);
    assert_eq!(b.id(), 12);
    assert_eq!(a.diffie_hellman(&b.public_bytes()), b.diffie_hellman(&a.public_bytes()));
}
