//! Video and audio call configuration: codecs, resolutions, presets, frames,
//! cameras, the audio format, TURN credentials, and the conversion between
//! capture timestamps and the 90 kHz RTP video clock.

use vstd::prelude::*;
use crate::error::VoipError;
use crate::text::{decimal_chars, push_char, push_decimal_str, string_of};

verus! {

/// Video codecs.
#[derive(Debug, Clone, Copy, PartialEq, Eq, Structural)]
pub enum VideoCodec {
    /// H.264 (AVC), the primary codec with hardware acceleration.
    H264,
    /// VP8, the software fallback that WebRTC makes mandatory.
    VP8,
    /// VP9, better compression.
    VP9,
}

impl VideoCodec {
    /// MIME type for SDP negotiation.
    pub fn mime_type(&self) -> (res: &'static str)
        ensures
            res@ == match *self {
                VideoCodec::H264 => "video/H264"@,
                VideoCodec::VP8 => "video/VP8"@,
                VideoCodec::VP9 => "video/VP9"@,
            },
    {
        match self {
            VideoCodec::H264 => "video/H264",
            VideoCodec::VP8 => "video/VP8",
            VideoCodec::VP9 => "video/VP9",
        }
    }

    /// SDP fmtp parameters: H.264 Baseline profile level 3.1 with
    /// packetization mode 1; none for VP8 and VP9.
    pub fn fmtp_line(&self) -> (res: String)
        ensures
            res@ == match *self {
                VideoCodec::H264 => "profile-level-id=42e01f;packetization-mode=1"@,
                _ => Seq::<char>::empty(),
            },
    {
        match self {
            VideoCodec::H264 => string_of("profile-level-id=42e01f;packetization-mode=1"),
            VideoCodec::VP8 | VideoCodec::VP9 => String::new(),
        }
    }

    /// RTP clock rate: 90 kHz for every video codec.
    pub fn clock_rate(&self) -> (res: u32)
        ensures
            res == 90000,
    {
        90000
    }
}

/// Video resolution in pixels.
#[derive(Debug, Clone, Copy, PartialEq, Eq, Structural)]
pub struct VideoResolution {
    pub width: u32,
    pub height: u32,
}

impl VideoResolution {
    /// VGA 640x480, the default for video calls.
    #[allow(non_snake_case)]
    pub fn VGA() -> (res: Self)
        ensures
            res.width == 640 && res.height == 480,
    {
        VideoResolution { width: 640, height: 480 }
    }

    /// HD 1280x720.
    #[allow(non_snake_case)]
    pub fn HD() -> (res: Self)
        ensures
            res.width == 1280 && res.height == 720,
    {
        VideoResolution { width: 1280, height: 720 }
    }

    /// Full HD 1920x1080.
    #[allow(non_snake_case)]
    pub fn FHD() -> (res: Self)
        ensures
            res.width == 1920 && res.height == 1080,
    {
        VideoResolution { width: 1920, height: 1080 }
    }

    /// QVGA 320x240, for low bandwidth.
    #[allow(non_snake_case)]
    pub fn QVGA() -> (res: Self)
        ensures
            res.width == 320 && res.height == 240,
    {
        VideoResolution { width: 320, height: 240 }
    }

    /// Text form `WIDTHxHEIGHT`.
    pub fn to_string(&self) -> (res: String)
        ensures
            res@ == decimal_chars(self.width as nat) + seq!['x'] + decimal_chars(self.height as nat),
    {
        let mut s = String::new();
        push_decimal_str(&mut s, self.width as u64);
        push_char(&mut s, 'x');
        push_decimal_str(&mut s, self.height as u64);
        s
    }
}

/// Video encoding configuration.
#[derive(Debug, Clone, Copy)]
pub struct VideoConfig {
    pub codec: VideoCodec,
    pub resolution: VideoResolution,
    /// Frame rate (fps).
    pub fps: u32,
    /// Target bitrate in kbps.
    pub bitrate_kbps: u32,
}

impl Default for VideoConfig {
    /// H.264 at VGA, 24 fps, 500 kbps.
    fn default() -> (res: Self)
        ensures
            res.codec == VideoCodec::H264,
            res.resolution == (VideoResolution { width: 640, height: 480 }),
            res.fps == 24,
            res.bitrate_kbps == 500,
    {
        Self { codec: VideoCodec::H264, resolution: VideoResolution::VGA(), fps: 24, bitrate_kbps: 500 }
    }
}

impl VideoConfig {
    /// Preset for low bandwidth (3G): H.264 at QVGA, 15 fps, 200 kbps.
    pub fn low_bandwidth() -> (res: Self)
        ensures
            res.codec == VideoCodec::H264,
            res.resolution == (VideoResolution { width: 320, height: 240 }),
            res.fps == 15,
            res.bitrate_kbps == 200,
    {
        Self {
            codec: VideoCodec::H264,
            resolution: VideoResolution::QVGA(),
            fps: 15,
            bitrate_kbps: 200,
        }
    }

    /// Preset for high quality (WiFi): H.264 at HD, 30 fps, 1500 kbps.
    pub fn high_quality() -> (res: Self)
        ensures
            res.codec == VideoCodec::H264,
            res.resolution == (VideoResolution { width: 1280, height: 720 }),
            res.fps == 30,
            res.bitrate_kbps == 1500,
    {
        Self {
            codec: VideoCodec::H264,
            resolution: VideoResolution::HD(),
            fps: 30,
            bitrate_kbps: 1500,
        }
    }
}

/// Pixel formats of video frames.
#[derive(Debug, Clone, Copy, PartialEq, Eq, Structural)]
pub enum PixelFormat {
    /// YUV 4:2:0 planar.
    YUV420,
    /// NV21 (Android camera format).
    NV21,
    /// RGB 24-bit.
    RGB24,
    /// RGBA 32-bit.
    RGBA,
}

impl PixelFormat {
    /// Bits per pixel: 12 for the 4:2:0 formats (1.5 bytes), 24 for RGB
    /// and 32 for RGBA. The byte count per pixel is this number over eight.
    pub fn bits_per_pixel(&self) -> (res: u32)
        ensures
            res == match *self {
                PixelFormat::YUV420 | PixelFormat::NV21 => 12u32,
                PixelFormat::RGB24 => 24u32,
                PixelFormat::RGBA => 32u32,
            },
    {
        match self {
            PixelFormat::YUV420 | PixelFormat::NV21 => 12,
            PixelFormat::RGB24 => 24,
            PixelFormat::RGBA => 32,
        }
    }
}

/// A video frame.
pub struct VideoFrame {
    /// Raw or encoded frame data.
    pub data: Vec<u8>,
    pub width: u32,
    pub height: u32,
    /// Capture time in microseconds.
    pub timestamp_us: i64,
    pub format: PixelFormat,
}

/// Camera position on mobile devices.
#[derive(Debug, Clone, Copy, PartialEq, Eq, Structural)]
pub enum CameraPosition {
    /// Front-facing camera.
    Front,
    /// Back-facing camera.
    Back,
    /// External camera (USB webcam and the like).
    External,
}

impl CameraPosition {
    /// Name of the position.
    pub fn to_string(&self) -> (res: String)
        ensures
            res@ == match *self {
                CameraPosition::Front => "Front"@,
                CameraPosition::Back => "Back"@,
                CameraPosition::External => "External"@,
            },
    {
        match self {
            CameraPosition::Front => string_of("Front"),
            CameraPosition::Back => string_of("Back"),
            CameraPosition::External => string_of("External"),
        }
    }
}

/// Information about a camera.
#[derive(Debug, Clone)]
pub struct CameraInfo {
    /// Platform-specific camera ID.
    pub id: String,
    /// Human-readable name.
    pub name: String,
    pub position: CameraPosition,
}

/// Camera capture, implemented by each platform's camera layer.
pub trait VideoCapture {
    /// Starts capturing with a configuration.
    fn start(&mut self, config: VideoConfig) -> Result<(), VoipError>;

    /// Stops capturing.
    fn stop(&mut self) -> Result<(), VoipError>;

    /// The next frame, blocking until one is available.
    fn next_frame(&mut self) -> Result<VideoFrame, VoipError>;

    /// Switches between front and back camera.
    fn switch_camera(&mut self) -> Result<(), VoipError>;

    /// The available cameras.
    fn list_cameras(&self) -> Result<Vec<CameraInfo>, VoipError>;

    /// Whether capture is running.
    fn is_running(&self) -> bool;
}

/// Audio capture and playback format.
#[derive(Debug, Clone, Copy)]
pub struct AudioConfig {
    pub sample_rate: u32,
    pub channels: u16,
    pub buffer_size: usize,
}

impl Default for AudioConfig {
    /// 48 kHz mono (the Opus rate for voice) with 20 ms buffers of 960 samples.
    fn default() -> (res: Self)
        ensures
            res.sample_rate == 48000,
            res.channels == 1,
            res.buffer_size == 960,
    {
        Self { sample_rate: 48000, channels: 1, buffer_size: 960 }
    }
}

/// TURN relay credentials from the credentials server.
#[derive(Debug, Clone)]
pub struct TurnCredentials {
    pub username: String,
    pub password: String,
    pub uris: Vec<String>,
}

/// Integer division rounded toward zero, for a positive divisor.
pub open spec fn div_toward_zero(a: int, b: int) -> int {
    if a >= 0 {
        a / b
    } else {
        -((-a) / b)
    }
}

/// RTP timestamp (90 kHz clock, wrapping at 2^32) of a capture time in microseconds.
pub open spec fn rtp_timestamp_spec(timestamp_us: int) -> u32 {
    (div_toward_zero(timestamp_us * 90, 1000) % 0x1_0000_0000) as u32
}

/// Converts a capture time in microseconds to an RTP timestamp on the
/// 90 kHz video clock, wrapping modulo 2^32 as RTP timestamps do.
pub fn rtp_timestamp(timestamp_us: i64) -> (res: u32)
    requires
        i64::MIN <= timestamp_us * 90 <= i64::MAX,
    ensures
        res == rtp_timestamp_spec(timestamp_us as int),
{
    let scaled: i64 = timestamp_us * 90;
    if scaled >= 0 {
        let q: u64 = (scaled / 1000) as u64;
        (q % 0x1_0000_0000) as u32
    } else {
        let m: u64 = (((-scaled) / 1000) as u64) % 0x1_0000_0000;
        if m == 0 {
            0
        } else {
            (0x1_0000_0000 - m) as u32
        }
    }
}

/// Law: the RTP clock advances 90 ticks for every millisecond of capture
/// time, wrapping at 2^32, however far the capture time is from its origin;
/// a capture time at or after the origin gives its tick count modulo 2^32.
pub proof fn law_rtp_clock_advances(t: int)
    ensures
        t >= 0 ==> rtp_timestamp_spec(t) as int == (t * 90 / 1000) % 0x1_0000_0000,
        t >= 0 ==> rtp_timestamp_spec(t + 1000) as int == (rtp_timestamp_spec(t) as int + 90)
            % 0x1_0000_0000,
        t + 1000 <= 0 ==> rtp_timestamp_spec(t + 1000) as int == (rtp_timestamp_spec(t) as int
            + 90) % 0x1_0000_0000,
{
    let m: int = 0x1_0000_0000;
    if t >= 0 {
        assert((t + 1000) * 90 == t * 90 + 90 * 1000);
        assert((t * 90 + 90 * 1000) / 1000 == t * 90 / 1000 + 90);
        let a = t * 90 / 1000;
        assert((a + 90) % m == ((a % m) + 90) % m);
    }
    if t + 1000 <= 0 {
        let u = -(t + 1000);
        assert(-(t * 90) == u * 90 + 90 * 1000);
        assert((u * 90 + 90 * 1000) / 1000 == u * 90 / 1000 + 90);
        let b = u * 90 / 1000;
        assert(div_toward_zero(t * 90, 1000) == -(b + 90));
        assert(div_toward_zero((t + 1000) * 90, 1000) == -b);
        assert(((-b) % m) == ((-(b + 90)) % m + 90) % m);
    }
}

/// Converts an RTP timestamp on the 90 kHz clock back to microseconds.
pub fn timestamp_us_from_rtp(rtp_timestamp: u32) -> (res: i64)
    ensures
        res == (rtp_timestamp as int * 1000) / 90,
{
    (rtp_timestamp as i64 * 1000) / 90
}


/// The frame that a completely reassembled packet payload becomes: the
/// configured resolution, the RTP time converted back to microseconds, and
/// the YUV 4:2:0 format that H.264 decoders produce.
pub fn decoded_frame(config: &VideoConfig, data: Vec<u8>, rtp_timestamp: u32) -> (res: VideoFrame)
    ensures
        res.data == data,
        res.width == config.resolution.width,
        res.height == config.resolution.height,
        res.timestamp_us == (rtp_timestamp as int * 1000) / 90,
        res.format == PixelFormat::YUV420,
{
    VideoFrame {
        data,
        width: config.resolution.width,
        height: config.resolution.height,
        timestamp_us: timestamp_us_from_rtp(rtp_timestamp),
        format: PixelFormat::YUV420,
    }
}

} // verus!
