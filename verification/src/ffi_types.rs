//! Plain records and enums handed across the foreign-function boundary to
//! the mobile and desktop apps.

use vstd::prelude::*;
use crate::video::VideoCodec;

verus! {

/// Delivery status of a message.
#[derive(Debug, Clone, Copy, PartialEq, Eq, Structural)]
pub enum MessageStatus {
    Pending,
    Sent,
    Delivered,
    Read,
    Failed,
}

/// A message record.
#[derive(Debug, Clone)]
pub struct FfiMessage {
    pub message_id: String,
    pub conversation_id: String,
    pub sender_peer_id: String,
    pub recipient_peer_id: Option<String>,
    pub message_type: String,
    pub content_plaintext: Option<String>,
    pub created_at: i64,
    pub sent_at: Option<i64>,
    pub received_at: Option<i64>,
    pub read_at: Option<i64>,
    pub status: MessageStatus,
    pub is_deleted: bool,
}

/// A conversation record.
#[derive(Debug, Clone)]
pub struct FfiConversation {
    pub id: String,
    pub conversation_type: String,
    pub peer_id: Option<String>,
    pub display_name: Option<String>,
    pub last_message_id: Option<String>,
    pub last_message_at: Option<i64>,
    pub unread_count: i32,
    pub is_muted: bool,
    pub is_archived: bool,
    pub created_at: i64,
}

/// State of a call.
#[derive(Debug, Clone, Copy, PartialEq, Eq, Structural)]
pub enum FfiCallState {
    Initiating,
    Ringing,
    Connecting,
    Active,
    Ending,
    Ended,
}

/// Direction of a call.
#[derive(Debug, Clone, Copy, PartialEq, Eq, Structural)]
pub enum FfiCallDirection {
    Outgoing,
    Incoming,
}

/// Why a call ended.
#[derive(Debug, Clone, Copy, PartialEq, Eq, Structural)]
pub enum FfiCallEndReason {
    Hangup,
    Rejected,
    LocalHangup,
    RemoteHangup,
    ConnectionFailed,
    Timeout,
    NetworkError,
}

/// Video codec as seen by the apps.
#[derive(Debug, Clone, Copy, PartialEq, Eq, Structural)]
pub enum FfiVideoCodec {
    H264,
    VP8,
    VP9,
}

/// A call record.
#[derive(Debug, Clone)]
pub struct FfiCall {
    pub id: String,
    pub remote_peer_id: String,
    pub direction: FfiCallDirection,
    pub state: FfiCallState,
    pub started_at: i64,
    pub connected_at: Option<i64>,
    pub ended_at: Option<i64>,
    pub audio_muted: bool,
    pub speakerphone: bool,
    pub video_enabled: bool,
    pub video_codec: Option<FfiVideoCodec>,
}

/// Call statistics.
#[derive(Debug, Clone, Copy)]
pub struct FfiCallStats {
    pub avg_rtt_ms: u32,
    pub packets_sent: u64,
    pub packets_received: u64,
    pub packets_lost: u64,
    pub jitter_ms: u32,
    pub audio_bitrate_kbps: u32,
}

/// Video resolution as seen by the apps.
#[derive(Debug, Clone, Copy)]
pub struct FfiVideoResolution {
    pub width: u32,
    pub height: u32,
}

/// Camera position as seen by the apps.
#[derive(Debug, Clone, Copy, PartialEq, Eq, Structural)]
pub enum FfiCameraPosition {
    Front,
    Back,
    External,
}

/// Video statistics.
#[derive(Debug, Clone, Copy)]
pub struct FfiVideoStats {
    pub resolution: FfiVideoResolution,
    pub fps: u32,
    pub bitrate_kbps: u32,
    pub frames_sent: u64,
    pub frames_received: u64,
    pub frames_dropped: u64,
}

/// The app-side codec of a codec.
pub open spec fn ffi_codec_of(codec: VideoCodec) -> FfiVideoCodec {
    match codec {
        VideoCodec::H264 => FfiVideoCodec::H264,
        VideoCodec::VP8 => FfiVideoCodec::VP8,
        VideoCodec::VP9 => FfiVideoCodec::VP9,
    }
}

/// The codec of an app-side codec.
pub open spec fn codec_of_ffi(codec: FfiVideoCodec) -> VideoCodec {
    match codec {
        FfiVideoCodec::H264 => VideoCodec::H264,
        FfiVideoCodec::VP8 => VideoCodec::VP8,
        FfiVideoCodec::VP9 => VideoCodec::VP9,
    }
}

impl From<VideoCodec> for FfiVideoCodec {
    fn from(codec: VideoCodec) -> (res: FfiVideoCodec)
        ensures
            res == ffi_codec_of(codec),
    {
        match codec {
            VideoCodec::H264 => FfiVideoCodec::H264,
            VideoCodec::VP8 => FfiVideoCodec::VP8,
            VideoCodec::VP9 => FfiVideoCodec::VP9,
        }
    }
}

impl vstd::std_specs::convert::FromSpecImpl<VideoCodec> for FfiVideoCodec {
    open spec fn obeys_from_spec() -> bool {
        true
    }

    open spec fn from_spec(v: VideoCodec) -> FfiVideoCodec {
        ffi_codec_of(v)
    }
}

impl From<FfiVideoCodec> for VideoCodec {
    fn from(codec: FfiVideoCodec) -> (res: VideoCodec)
        ensures
            res == codec_of_ffi(codec),
    {
        match codec {
            FfiVideoCodec::H264 => VideoCodec::H264,
            FfiVideoCodec::VP8 => VideoCodec::VP8,
            FfiVideoCodec::VP9 => VideoCodec::VP9,
        }
    }
}

impl vstd::std_specs::convert::FromSpecImpl<FfiVideoCodec> for VideoCodec {
    open spec fn obeys_from_spec() -> bool {
        true
    }

    open spec fn from_spec(v: FfiVideoCodec) -> VideoCodec {
        codec_of_ffi(v)
    }
}

/// Converting a codec to the app side and back gives the codec, and the
/// other way round.
pub proof fn lemma_codec_conversion_roundtrip(codec: VideoCodec, ffi: FfiVideoCodec)
    ensures
        codec_of_ffi(ffi_codec_of(codec)) == codec,
        ffi_codec_of(codec_of_ffi(ffi)) == ffi,
{
}

} // verus!
