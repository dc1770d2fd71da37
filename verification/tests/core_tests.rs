use mepassa::error::{MePassaError, MePassaFfiError, NetworkError, StorageError};
use mepassa::ffi_types::FfiVideoCodec;
use mepassa::identity_storage::FileIdentityStorage;
use mepassa::migrations::{migration_failed, migration_plan, migration_versions, needs_migration};
use mepassa::protocol::{direct_conversation_id, validate_message_fields};
use mepassa::storage_crypto::{decrypt_for_storage, encrypt_for_storage};
use mepassa::video::VideoCodec;
use mepassa::VERSION;
use std::path::PathBuf;

#[test]
fn test_version() {
    assert!(!VERSION.is_empty());
    assert_eq!(VERSION, "0.1.0");
}

#[test]
fn error_messages() {
    assert_eq!(
        MePassaError::Crypto("bad".to_string()).to_string(),
        "Crypto error: bad"
    );
    let e: MePassaError = NetworkError::PeerNotFound("p".to_string()).into();
    assert_eq!(e.to_string(), "Network error: Peer not found: p");
    let s: MePassaError = StorageError::NotFound("x".to_string()).into();
    assert_eq!(s.to_string(), "Storage error: Not found: x");
    let io = MePassaError::Io(std::io::Error::new(std::io::ErrorKind::Other, "disk"));
    assert_eq!(io.to_string(), "IO error: disk");
}

#[test]
fn ffi_error_conversion() {
    match MePassaFfiError::from(MePassaError::NotFound("m".to_string())) {
        MePassaFfiError::Other { message } => assert_eq!(message, "Not found: m"),
        other => panic!("unexpected {:?}", other),
    }
    match MePassaFfiError::from(MePassaError::Crypto("c".to_string())) {
        MePassaFfiError::Crypto { message } => assert_eq!(message, "c"),
        other => panic!("unexpected {:?}", other),
    }
    match MePassaFfiError::from(MePassaError::Permission("p".to_string())) {
        MePassaFfiError::Other { message } => assert_eq!(message, "Permission denied: p"),
        other => panic!("unexpected {:?}", other),
    }
}

#[test]
fn video_codec_ffi_round_trip() {
    for c in [VideoCodec::H264, VideoCodec::VP8, VideoCodec::VP9] {
        let f: FfiVideoCodec = c.into();
        let back: VideoCodec = f.into();
        assert_eq!(back, c);
    }
}

#[test]
fn message_validation() {
    assert!(validate_message_fields("me", "id1", "peer", "me").is_ok());
    match validate_message_fields("me", "", "peer", "me") {
        Err(MePassaError::Protocol(m)) => assert_eq!(m, "Empty message ID"),
        other => panic!("unexpected {:?}", other),
    }
    match validate_message_fields("me", "id", "", "me") {
        Err(MePassaError::Protocol(m)) => assert_eq!(m, "Empty sender peer ID"),
        other => panic!("unexpected {:?}", other),
    }
    match validate_message_fields("me", "id", "peer", "you") {
        Err(MePassaError::Protocol(m)) => {
            assert_eq!(m, "Message not addressed to us (expected: me, got: you)")
        }
        other => panic!("unexpected {:?}", other),
    }
    assert_eq!(direct_conversation_id("peer-9"), "1:1:peer-9");
}

#[test]
fn migration_decisions() {
    let available = migration_versions();
    assert_eq!(available, vec![1]);
    assert_eq!(migration_plan(0, 1, &available).unwrap(), vec![1]);
    assert!(migration_plan(1, 1, &available).unwrap().is_empty());
    match migration_plan(2, 1, &available) {
        Err(StorageError::MigrationFailed(m)) => assert_eq!(
            m,
            "Database version (2) is newer than schema version (1). Please update the app."
        ),
        other => panic!("unexpected {:?}", other),
    }
    assert_eq!(migration_plan(1, 3, &vec![1, 2, 3]).unwrap(), vec![2, 3]);
    assert!(needs_migration(0, 1));
    assert!(!needs_migration(1, 1));
    match migration_failed(1, "boom") {
        StorageError::MigrationFailed(m) => assert_eq!(m, "Migration 1 failed: boom"),
        other => panic!("unexpected {:?}", other),
    }
}

#[test]
fn storage_encryption_round_trip_and_layout() {
    let key = [3u8; 32];
    let blob = encrypt_for_storage(&key, b"secret row").unwrap();
    // 12-byte nonce, 8-byte little-endian length, ciphertext with tag.
    assert_eq!(blob.len(), 12 + 8 + 10 + 16);
    let len = u64::from_le_bytes(blob[12..20].try_into().unwrap());
    assert_eq!(len, 26);
    // The layout is bincode's for a (nonce, bytes) pair.
    let (nonce, ct): ([u8; 12], Vec<u8>) = bincode::deserialize(&blob).unwrap();
    assert_eq!(&nonce[..], &blob[..12]);
    assert_eq!(ct.len(), 26);
    assert_eq!(decrypt_for_storage(&key, &blob).unwrap(), b"secret row".to_vec());
    assert!(decrypt_for_storage(&[4u8; 32], &blob).is_err());
    match decrypt_for_storage(&key, &blob[..5]) {
        Err(MePassaError::Crypto(_)) => {}
        other => panic!("unexpected {:?}", other),
    }
}

#[test]
fn identity_file_location() {
    let s = FileIdentityStorage::new(PathBuf::from("/tmp/mepassa-data"));
    assert_eq!(s.identity_path(), PathBuf::from("/tmp/mepassa-data/identity.json"));
    assert_eq!(s.data_dir(), &PathBuf::from("/tmp/mepassa-data"));
}
