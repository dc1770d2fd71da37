use mepassa::call_registry::CallRegistry;
use mepassa::call_signaling::{signal_command, CallCommand, CallEndReason, SignalingMessage};
use mepassa::client_setup::{keypair_source, require_data_dir, KeypairSource};
use mepassa::error::{MePassaError, VoipError};
use mepassa::ffi_types::{FfiCallEndReason, FfiCallState, MessageStatus};
use mepassa::message_handling::{
    accept_incoming, ack_for_outcome, create_ack, delivery_status, parent_message_id, AckStatus,
    PayloadKind,
};
use mepassa::turn::{CredentialResponse, TurnCredentialsClient};
use std::path::PathBuf;

#[test]
fn test_credentials_client_creation() {
    let client = TurnCredentialsClient::new("http://localhost:8082".to_string());
    assert_eq!(client.server_url, "http://localhost:8082");
}

#[test]
fn turn_reply_handling() {
    let client = TurnCredentialsClient::new("http://localhost:8082".to_string());
    assert_eq!(client.credentials_url(), "http://localhost:8082/api/turn/credentials");
    match TurnCredentialsClient::credentials_from_reply(false, "500 Internal Server Error", Err(String::new())) {
        Err(VoipError::NetworkError(m)) => {
            assert_eq!(m, "TURN credentials request failed: 500 Internal Server Error")
        }
        other => panic!("unexpected {:?}", other),
    }
    match TurnCredentialsClient::credentials_from_reply(true, "200 OK", Err("eof".to_string())) {
        Err(VoipError::NetworkError(m)) => assert_eq!(m, "Failed to parse credentials: eof"),
        other => panic!("unexpected {:?}", other),
    }
    let body = CredentialResponse {
        username: "u".to_string(),
        password: "p".to_string(),
        uris: vec!["turn:a".to_string()],
        ttl: 86400,
    };
    let c = TurnCredentialsClient::credentials_from_reply(true, "200 OK", Ok(body)).unwrap();
    assert_eq!((c.username.as_str(), c.password.as_str()), ("u", "p"));
    assert_eq!(c.uris, vec!["turn:a".to_string()]);
    match TurnCredentialsClient::request_failed("refused") {
        VoipError::NetworkError(m) => assert_eq!(m, "Failed to fetch TURN credentials: refused"),
        other => panic!("unexpected {:?}", other),
    }
}

#[test]
fn incoming_message_decisions() {
    assert_eq!(
        accept_incoming("me", "m1", "peer", "me", Some(PayloadKind::Text)).unwrap(),
        PayloadKind::Text
    );
    match accept_incoming("me", "m1", "peer", "me", None) {
        Err(MePassaError::Protocol(m)) => assert_eq!(m, "Message has no payload"),
        other => panic!("unexpected {:?}", other),
    }
    match accept_incoming("me", "m1", "peer", "other", Some(PayloadKind::Ack)) {
        Err(MePassaError::Protocol(m)) => assert!(m.starts_with("Message not addressed to us")),
        other => panic!("unexpected {:?}", other),
    }
}

#[test]
fn acknowledgments() {
    let ok = ack_for_outcome("m1", &Ok(()));
    assert_eq!(ok.message_id, "m1");
    assert_eq!(ok.status, AckStatus::Received);
    assert_eq!(ok.error, "");
    let err = ack_for_outcome("m2", &Err(MePassaError::Protocol("Message has no payload".to_string())));
    assert_eq!(err.status, AckStatus::Error);
    assert_eq!(err.error, "Protocol error: Message has no payload");
    let a = create_ack("m3", AckStatus::Unspecified, Some("x".to_string()));
    assert_eq!(a.error, "x");
    assert_eq!(delivery_status(AckStatus::Received), Some(MessageStatus::Delivered));
    assert_eq!(delivery_status(AckStatus::Error), Some(MessageStatus::Failed));
    assert_eq!(delivery_status(AckStatus::Unspecified), None);
    assert_eq!(parent_message_id(""), None);
    assert_eq!(parent_message_id("m0"), Some("m0".to_string()));
}

#[test]
fn client_setup_decisions() {
    assert_eq!(keypair_source(true, true), KeypairSource::Given);
    assert_eq!(keypair_source(false, true), KeypairSource::LoadFromFile);
    assert_eq!(keypair_source(false, false), KeypairSource::GenerateAndSave);
    assert_eq!(require_data_dir(Some(PathBuf::from("/d"))).unwrap(), PathBuf::from("/d"));
    match require_data_dir(None) {
        Err(MePassaError::Other(m)) => assert_eq!(m, "Data directory is required"),
        other => panic!("unexpected {:?}", other),
    }
}

#[test]
fn call_signal_dispatch() {
    match signal_command(
        "peer-a",
        SignalingMessage::CallOffer { call_id: "c1".to_string(), sdp: "v=0".to_string() },
    ) {
        CallCommand::HandleIncomingCall { call_id, remote_peer_id, sdp } => {
            assert_eq!((call_id.as_str(), remote_peer_id.as_str(), sdp.as_str()), ("c1", "peer-a", "v=0"))
        }
        other => panic!("unexpected {:?}", other),
    }
    match signal_command(
        "peer-a",
        SignalingMessage::CallAnswer { call_id: "c1".to_string(), sdp: "ans".to_string() },
    ) {
        CallCommand::HandleCallAnswer { call_id, sdp } => assert_eq!((call_id, sdp), ("c1".to_string(), "ans".to_string())),
        other => panic!("unexpected {:?}", other),
    }
    match signal_command(
        "peer-a",
        SignalingMessage::IceCandidate {
            call_id: "c1".to_string(),
            candidate: "cand".to_string(),
            sdp_mid: Some("0".to_string()),
            sdp_m_line_index: Some(0),
        },
    ) {
        CallCommand::HandleIceCandidate { call_id, candidate, sdp_mid, sdp_m_line_index } => {
            assert_eq!(call_id, "c1");
            assert_eq!(candidate, "cand");
            assert_eq!(sdp_mid, Some("0".to_string()));
            assert_eq!(sdp_m_line_index, Some(0));
        }
        other => panic!("unexpected {:?}", other),
    }
    match signal_command(
        "peer-a",
        SignalingMessage::CallReject { call_id: "c1".to_string(), reason: None },
    ) {
        CallCommand::EndCall { call_id, reason } => {
            assert_eq!(call_id, "c1");
            assert_eq!(reason, CallEndReason::Rejected);
        }
        other => panic!("unexpected {:?}", other),
    }
    match signal_command("peer-a", SignalingMessage::CallHangup { call_id: "c2".to_string() }) {
        CallCommand::EndCall { call_id, reason } => {
            assert_eq!(call_id, "c2");
            assert_eq!(reason, CallEndReason::RemoteHangup);
        }
        other => panic!("unexpected {:?}", other),
    }
    assert!(matches!(
        signal_command("peer-a", SignalingMessage::CallAccept { call_id: "c3".to_string() }),
        CallCommand::Nothing
    ));
    assert_eq!(FfiCallEndReason::from(CallEndReason::RemoteHangup), FfiCallEndReason::RemoteHangup);
}

#[test]
fn call_registry_bookkeeping() {
    let mut calls = CallRegistry::new();
    assert!(calls.get_active_calls().is_empty());
    calls.start_outgoing("c1");
    calls.insert("c2", FfiCallState::Ringing);
    assert_eq!(calls.get_call_state("c1"), Some(FfiCallState::Initiating));
    assert!(calls.mark_connecting("c2"));
    assert_eq!(calls.get_call_state("c2"), Some(FfiCallState::Connecting));
    assert!(!calls.mark_connecting("c9"));
    assert_eq!(calls.get_call_state("c9"), None);
    let mut active = calls.get_active_calls();
    active.sort();
    assert_eq!(active, vec!["c1".to_string(), "c2".to_string()]);
    calls.remove("c1");
    assert_eq!(calls.get_call_state("c1"), None);
    assert_eq!(calls.get_active_calls(), vec!["c2".to_string()]);
    calls.remove("c1");
    assert_eq!(calls.get_active_calls(), vec!["c2".to_string()]);
}
