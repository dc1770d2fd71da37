use base64::Engine;
use ed25519_dalek::Signer;
use mepassa::registration::{
    decode_public_key, verify_signature, verify_signature_at, RegistrationError,
};
use mepassa::server::{
    client_id, rate_limit_key, starts_window, ApnsClient, Config, FcmClient, RateLimitAction,
    RateLimitConfig, RateLimitEvent,
};
use std::collections::HashMap;
use std::path::PathBuf;

#[test]
fn test_apns_info() {
    let team_id = "AB12CD34EF".to_string();
    let key_id = "XY98ZW76UV".to_string();
    let bundle_id = "com.mepassa.ios".to_string();

    assert_eq!(team_id.len(), 10);
    assert_eq!(key_id.len(), 10);
    assert!(bundle_id.starts_with("com."));
}

#[test]
fn apns_info_and_send() {
    let c = ApnsClient::with_credentials(
        "XY98ZW76UV".to_string(),
        "AB12CD34EF".to_string(),
        "com.mepassa.ios".to_string(),
        false,
    );
    assert_eq!(
        c.info(),
        "APNs client - team_id: AB12CD34EF, key_id: XY98ZW76UV, bundle_id: com.mepassa.ios, endpoint: Sandbox"
    );
    assert_eq!(c.endpoint(), "Sandbox");
    let err = c
        .send("0123456789abcdef0123", "t", "b", &HashMap::new(), Some(1))
        .unwrap_err();
    assert!(err.starts_with("APNs HTTP/2 client implementation pending"));
    let p = ApnsClient::with_credentials("k".to_string(), "t".to_string(), "b".to_string(), true);
    assert_eq!(p.endpoint(), "Production");
}

#[test]
fn test_fcm_client_creation() {
    let client = FcmClient::new("test_server_key".to_string());
    assert!(!client.api_key.is_empty());
    assert_eq!(client.api_key, "test_server_key");
}

#[test]
fn test_ttl_job_creation() {
    // The cleanup job itself needs a message database; nothing to run here.
}

#[test]
fn rate_limits_per_path() {
    let r = RateLimitConfig::for_path("/api/v1/register").unwrap();
    assert_eq!((r.max_requests, r.window_seconds), (5, 3600));
    let l = RateLimitConfig::for_path("/api/v1/lookup?username=a").unwrap();
    assert_eq!((l.max_requests, l.window_seconds), (100, 3600));
    let p = RateLimitConfig::for_path("/api/v1/prekeys").unwrap();
    assert_eq!((p.max_requests, p.window_seconds), (50, 3600));
    assert!(RateLimitConfig::for_path("/health").is_none());
    assert_eq!(RateLimitConfig::register().max_requests, 5);
    assert_eq!(RateLimitConfig::lookup().max_requests, 100);
    assert_eq!(RateLimitConfig::update_prekeys().max_requests, 50);
}

#[test]
fn rate_limit_admission_and_headers() {
    let r = RateLimitConfig::register();
    assert!(r.admits(None));
    assert!(r.admits(Some(4)));
    assert!(!r.admits(Some(5)));
    assert_eq!(r.remaining(1), 4);
    assert_eq!(r.remaining(9), 0);
    assert!(starts_window(1));
    assert!(!starts_window(2));
    assert_eq!(client_id(Some("10.0.0.1")), "10.0.0.1");
    assert_eq!(client_id(None), "unknown");
    assert_eq!(
        rate_limit_key("/api/v1/register", "10.0.0.1"),
        "ratelimit:/api/v1/register:10.0.0.1"
    );
}

#[test]
fn bootstrap_config_validation() {
    let mut c = Config {
        p2p_port: 4001,
        health_port: 8000,
        peer_id_seed: "bootstrap-1".to_string(),
        data_dir: PathBuf::from("/app/data"),
        log_level: "info".to_string(),
    };
    assert!(c.validate().is_ok());
    c.peer_id_seed = String::new();
    assert_eq!(c.validate().unwrap_err(), "PEER_ID_SEED cannot be empty");
}

fn b64(bytes: &[u8]) -> String {
    base64::engine::general_purpose::STANDARD.encode(bytes)
}

fn signed_request(seed: [u8; 32], username: &str, ts: i64) -> (Vec<u8>, String) {
    let key = ed25519_dalek::SigningKey::from_bytes(&seed);
    let msg = format!("register:{}:{}", username, ts);
    let sig = key.sign(msg.as_bytes()).to_bytes();
    (key.verifying_key().to_bytes().to_vec(), b64(&sig))
}

#[test]
fn registration_signature_accepted_when_fresh() {
    let (pk, sig) = signed_request([11u8; 32], "alice", 1_700_000_000);
    assert!(verify_signature_at(&pk, &sig, 1_700_000_000, "alice", 1_700_000_100).is_ok());
    assert!(verify_signature_at(&pk, &sig, 1_700_000_000, "alice", 1_699_999_700).is_ok());
}

#[test]
fn registration_refusals() {
    let ts = 1_700_000_000;
    let (pk, sig) = signed_request([11u8; 32], "alice", ts);
    match verify_signature_at(&pk, &sig, ts, "alice", ts + 301) {
        Err(RegistrationError::Internal(m)) => assert_eq!(m, "Timestamp too old or in future"),
        other => panic!("unexpected {:?}", other),
    }
    match verify_signature_at(&pk, &sig, ts, "bob", ts) {
        Err(RegistrationError::InvalidSignature) => {}
        other => panic!("unexpected {:?}", other),
    }
    match verify_signature_at(&pk, "!!!", ts, "alice", ts) {
        Err(RegistrationError::Internal(m)) => {
            assert!(m.starts_with("Invalid signature base64: "))
        }
        other => panic!("unexpected {:?}", other),
    }
    match verify_signature_at(&pk, &b64(&[0u8; 10]), ts, "alice", ts) {
        Err(RegistrationError::Internal(m)) => assert_eq!(m, "Invalid signature length"),
        other => panic!("unexpected {:?}", other),
    }
    match verify_signature_at(&pk[..31], &sig, ts, "alice", ts) {
        Err(RegistrationError::Internal(m)) => assert_eq!(m, "Invalid public key length"),
        other => panic!("unexpected {:?}", other),
    }
    // Negative timestamps are signed with their minus sign.
    let (pk2, sig2) = signed_request([12u8; 32], "carol", -5);
    assert!(verify_signature_at(&pk2, &sig2, -5, "carol", 0).is_ok());
}

#[test]
fn registration_against_clock() {
    let (pk, sig) = signed_request([13u8; 32], "dave", 0);
    // A timestamp from 1970 is stale today.
    match verify_signature(&pk, &sig, 0, "dave") {
        Err(RegistrationError::Internal(m)) => assert_eq!(m, "Timestamp too old or in future"),
        other => panic!("unexpected {:?}", other),
    }
}

#[test]
fn public_key_decoding() {
    assert_eq!(decode_public_key(&b64(&[1, 2, 3])).unwrap(), vec![1, 2, 3]);
    match decode_public_key("@@") {
        Err(RegistrationError::Internal(m)) => assert!(m.starts_with("Invalid base64: ")),
        other => panic!("unexpected {:?}", other),
    }
}

#[test]
fn rate_limit_steps() {
    let r = RateLimitConfig::register();
    assert_eq!(r.next_action(RateLimitEvent::CountRead(None)), RateLimitAction::Increment);
    assert_eq!(r.next_action(RateLimitEvent::CountRead(Some(5))), RateLimitAction::Reject);
    assert_eq!(r.next_action(RateLimitEvent::Incremented(1)), RateLimitAction::SetExpiry(3600));
    assert_eq!(
        r.next_action(RateLimitEvent::ExpirySet(1)),
        RateLimitAction::Allow { limit: 5, remaining: 4 }
    );
    assert_eq!(
        r.next_action(RateLimitEvent::Incremented(3)),
        RateLimitAction::Allow { limit: 5, remaining: 2 }
    );
    assert_eq!(r.next_action(RateLimitEvent::StoreFailed), RateLimitAction::Fail);
}
