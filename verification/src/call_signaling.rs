//! Dispatch of the call signals that arrive from a remote peer: each
//! signaling message becomes the call-manager operation it asks for. The
//! operation itself (WebRTC, audio) is the caller's part.

use vstd::prelude::*;
use crate::ffi_types::FfiCallEndReason;
use crate::text::string_of;

verus! {

/// Why a call ended.
#[derive(Debug, Clone, Copy, PartialEq, Eq, Structural)]
pub enum CallEndReason {
    Hangup,
    Rejected,
    LocalHangup,
    RemoteHangup,
    ConnectionFailed,
    Timeout,
    NetworkError,
}

/// The end reason as the apps see it: the same variant.
pub open spec fn ffi_end_reason(r: CallEndReason) -> FfiCallEndReason {
    match r {
        CallEndReason::Hangup => FfiCallEndReason::Hangup,
        CallEndReason::Rejected => FfiCallEndReason::Rejected,
        CallEndReason::LocalHangup => FfiCallEndReason::LocalHangup,
        CallEndReason::RemoteHangup => FfiCallEndReason::RemoteHangup,
        CallEndReason::ConnectionFailed => FfiCallEndReason::ConnectionFailed,
        CallEndReason::Timeout => FfiCallEndReason::Timeout,
        CallEndReason::NetworkError => FfiCallEndReason::NetworkError,
    }
}

impl From<CallEndReason> for FfiCallEndReason {
    fn from(reason: CallEndReason) -> (res: FfiCallEndReason)
        ensures
            res == ffi_end_reason(reason),
    {
        match reason {
            CallEndReason::Hangup => FfiCallEndReason::Hangup,
            CallEndReason::Rejected => FfiCallEndReason::Rejected,
            CallEndReason::LocalHangup => FfiCallEndReason::LocalHangup,
            CallEndReason::RemoteHangup => FfiCallEndReason::RemoteHangup,
            CallEndReason::ConnectionFailed => FfiCallEndReason::ConnectionFailed,
            CallEndReason::Timeout => FfiCallEndReason::Timeout,
            CallEndReason::NetworkError => FfiCallEndReason::NetworkError,
        }
    }
}

impl vstd::std_specs::convert::FromSpecImpl<CallEndReason> for FfiCallEndReason {
    open spec fn obeys_from_spec() -> bool {
        true
    }

    open spec fn from_spec(v: CallEndReason) -> FfiCallEndReason {
        ffi_end_reason(v)
    }
}

/// A call signal exchanged between peers.
#[derive(Debug, Clone)]
pub enum SignalingMessage {
    /// An offer to start a call, with the caller's SDP.
    CallOffer { call_id: String, sdp: String },
    /// The callee's answer, with its SDP.
    CallAnswer { call_id: String, sdp: String },
    /// An ICE candidate for a call.
    IceCandidate {
        call_id: String,
        candidate: String,
        sdp_mid: Option<String>,
        sdp_m_line_index: Option<u16>,
    },
    /// The callee rejected the call, with an optional reason.
    CallReject { call_id: String, reason: Option<String> },
    /// The other side hung up.
    CallHangup { call_id: String },
    /// The callee accepted the call (an acknowledgment).
    CallAccept { call_id: String },
}

/// The call-manager operation that a signal asks for.
#[derive(Debug, Clone)]
pub enum CallCommand {
    /// Create an incoming call from the sending peer with its offer.
    HandleIncomingCall { call_id: String, remote_peer_id: String, sdp: String },
    /// Apply the remote answer to an outgoing call.
    HandleCallAnswer { call_id: String, sdp: String },
    /// Add a remote ICE candidate to a call.
    HandleIceCandidate {
        call_id: String,
        candidate: String,
        sdp_mid: Option<String>,
        sdp_m_line_index: Option<u16>,
    },
    /// End a call for a reason.
    EndCall { call_id: String, reason: CallEndReason },
    /// Nothing to do.
    Nothing,
}

/// Whether `cmd` is the operation for a signal from `peer_id`: an offer
/// becomes an incoming call from that peer with the offer's SDP; an answer
/// and an ICE candidate are passed on as they are; a reject ends the call
/// as rejected, a hangup as hung up by the remote side; an accept needs
/// nothing.
pub open spec fn is_signal_command(peer_id: Seq<char>, signal: SignalingMessage, cmd: CallCommand) -> bool {
    match signal {
        SignalingMessage::CallOffer { call_id, sdp } => cmd matches CallCommand::HandleIncomingCall {
            call_id: c,
            remote_peer_id: p,
            sdp: s,
        } && c == call_id && p@ == peer_id && s == sdp,
        SignalingMessage::CallAnswer { call_id, sdp } => cmd == CallCommand::HandleCallAnswer {
            call_id,
            sdp,
        },
        SignalingMessage::IceCandidate { call_id, candidate, sdp_mid, sdp_m_line_index } => cmd
            == CallCommand::HandleIceCandidate { call_id, candidate, sdp_mid, sdp_m_line_index },
        SignalingMessage::CallReject { call_id, .. } => cmd == CallCommand::EndCall {
            call_id,
            reason: CallEndReason::Rejected,
        },
        SignalingMessage::CallHangup { call_id } => cmd == CallCommand::EndCall {
            call_id,
            reason: CallEndReason::RemoteHangup,
        },
        SignalingMessage::CallAccept { .. } => cmd == CallCommand::Nothing,
    }
}

/// The call-manager operation for a signal received from `peer_id`.
pub fn signal_command(peer_id: &str, signal: SignalingMessage) -> (res: CallCommand)
    ensures
        is_signal_command(peer_id@, signal, res),
{
    match signal {
        SignalingMessage::CallOffer { call_id, sdp } => CallCommand::HandleIncomingCall {
            call_id,
            remote_peer_id: string_of(peer_id),
            sdp,
        },
        SignalingMessage::CallAnswer { call_id, sdp } => CallCommand::HandleCallAnswer { call_id, sdp },
        SignalingMessage::IceCandidate { call_id, candidate, sdp_mid, sdp_m_line_index } =>
            CallCommand::HandleIceCandidate { call_id, candidate, sdp_mid, sdp_m_line_index },
        SignalingMessage::CallReject { call_id, reason: _ } => CallCommand::EndCall {
            call_id,
            reason: CallEndReason::Rejected,
        },
        SignalingMessage::CallHangup { call_id } => CallCommand::EndCall {
            call_id,
            reason: CallEndReason::RemoteHangup,
        },
        SignalingMessage::CallAccept { call_id: _ } => CallCommand::Nothing,
    }
}

/// The call a signal is about.
pub open spec fn signal_call_id(signal: SignalingMessage) -> String {
    match signal {
        SignalingMessage::CallOffer { call_id, .. } => call_id,
        SignalingMessage::CallAnswer { call_id, .. } => call_id,
        SignalingMessage::IceCandidate { call_id, .. } => call_id,
        SignalingMessage::CallReject { call_id, .. } => call_id,
        SignalingMessage::CallHangup { call_id } => call_id,
        SignalingMessage::CallAccept { call_id } => call_id,
    }
}

/// The call an operation is about; none for `Nothing`.
pub open spec fn command_call_id(cmd: CallCommand) -> Option<String> {
    match cmd {
        CallCommand::HandleIncomingCall { call_id, .. } => Some(call_id),
        CallCommand::HandleCallAnswer { call_id, .. } => Some(call_id),
        CallCommand::HandleIceCandidate { call_id, .. } => Some(call_id),
        CallCommand::EndCall { call_id, .. } => Some(call_id),
        CallCommand::Nothing => None,
    }
}

/// Law: every rejection ends the call it names as rejected, whatever
/// reason it carries, and every hangup ends it as hung up by the remote
/// side.
pub proof fn law_rejection_and_hangup_end_the_call(
    peer_id: Seq<char>,
    call_id: String,
    reason: Option<String>,
    reject_cmd: CallCommand,
    hangup_cmd: CallCommand,
)
    requires
        is_signal_command(peer_id, SignalingMessage::CallReject { call_id, reason }, reject_cmd),
        is_signal_command(peer_id, SignalingMessage::CallHangup { call_id }, hangup_cmd),
    ensures
        reject_cmd matches CallCommand::EndCall { call_id: c, reason: r } && c == call_id && r
            == CallEndReason::Rejected,
        hangup_cmd matches CallCommand::EndCall { call_id: c, reason: r } && c == call_id && r
            == CallEndReason::RemoteHangup,
{
}

/// Law: only an accept is left without an operation; every other signal
/// leads to an operation on the call it names, a call is ended only by a
/// rejection or a hangup, and an offer becomes an incoming call from the
/// peer that sent it.
pub proof fn law_signals_act_on_their_call(peer_id: Seq<char>, signal: SignalingMessage, cmd: CallCommand)
    requires
        is_signal_command(peer_id, signal, cmd),
    ensures
        cmd is Nothing <==> signal is CallAccept,
        !(signal is CallAccept) ==> command_call_id(cmd) == Some(signal_call_id(signal)),
        cmd is EndCall ==> signal is CallReject || signal is CallHangup,
        signal is CallOffer ==> (cmd matches CallCommand::HandleIncomingCall { remote_peer_id, .. }
            && remote_peer_id@ == peer_id),
{
}

} // verus!
