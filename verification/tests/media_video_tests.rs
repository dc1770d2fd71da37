use mepassa::media::MediaType;
use mepassa::video::{
    rtp_timestamp, timestamp_us_from_rtp, AudioConfig, CameraPosition, PixelFormat, VideoCodec,
    VideoConfig, VideoResolution,
};

#[test]
fn test_media_type_from_mime() {
    assert_eq!(MediaType::from_mime_type("image/jpeg"), MediaType::Image);
    assert_eq!(MediaType::from_mime_type("video/mp4"), MediaType::Video);
    assert_eq!(MediaType::from_mime_type("audio/mpeg"), MediaType::Audio);
    assert_eq!(MediaType::from_mime_type("application/pdf"), MediaType::Document);
}

#[test]
fn media_type_names_round_trip() {
    for t in [
        MediaType::Image,
        MediaType::Video,
        MediaType::Audio,
        MediaType::Document,
        MediaType::VoiceMessage,
    ] {
        assert_eq!(MediaType::from_str(t.as_str()), t);
    }
    assert_eq!(MediaType::VoiceMessage.as_str(), "voice_message");
    assert_eq!(MediaType::from_str("unknown"), MediaType::Document);
}

#[test]
fn test_audio_config_default() {
    let config = AudioConfig::default();
    assert_eq!(config.sample_rate, 48000);
    assert_eq!(config.channels, 1);
    assert_eq!(config.buffer_size, 960);
}

#[test]
fn test_video_codec_mime_types() {
    assert_eq!(VideoCodec::H264.mime_type(), "video/H264");
    assert_eq!(VideoCodec::VP8.mime_type(), "video/VP8");
    assert_eq!(VideoCodec::VP9.mime_type(), "video/VP9");
}

#[test]
fn test_video_codec_clock_rate() {
    assert_eq!(VideoCodec::H264.clock_rate(), 90000);
    assert_eq!(VideoCodec::VP8.clock_rate(), 90000);
    assert_eq!(VideoCodec::VP9.clock_rate(), 90000);
}

#[test]
fn video_codec_fmtp_lines() {
    assert_eq!(
        VideoCodec::H264.fmtp_line(),
        "profile-level-id=42e01f;packetization-mode=1"
    );
    assert_eq!(VideoCodec::VP8.fmtp_line(), "");
    assert_eq!(VideoCodec::VP9.fmtp_line(), "");
}

#[test]
fn test_video_config_default() {
    let config = VideoConfig::default();
    assert_eq!(config.codec, VideoCodec::H264);
    assert_eq!(config.resolution.width, 640);
    assert_eq!(config.resolution.height, 480);
    assert_eq!(config.fps, 24);
    assert_eq!(config.bitrate_kbps, 500);
}

#[test]
fn test_video_config_presets() {
    let low = VideoConfig::low_bandwidth();
    assert_eq!(low.resolution.width, 320);
    assert_eq!(low.fps, 15);
    assert_eq!(low.bitrate_kbps, 200);

    let high = VideoConfig::high_quality();
    assert_eq!(high.resolution.width, 1280);
    assert_eq!(high.fps, 30);
    assert_eq!(high.bitrate_kbps, 1500);
}

#[test]
fn test_resolution_display() {
    assert_eq!(VideoResolution::VGA().to_string(), "640x480");
    assert_eq!(VideoResolution::HD().to_string(), "1280x720");
}

#[test]
fn resolution_presets() {
    assert_eq!(VideoResolution::FHD().to_string(), "1920x1080");
    assert_eq!(VideoResolution::QVGA().to_string(), "320x240");
}

#[test]
fn camera_position_names() {
    assert_eq!(CameraPosition::Front.to_string(), "Front");
    assert_eq!(CameraPosition::Back.to_string(), "Back");
    assert_eq!(CameraPosition::External.to_string(), "External");
}

#[test]
fn rtp_clock_conversions() {
    assert_eq!(rtp_timestamp(1_000_000), 90_000);
    assert_eq!(rtp_timestamp(0), 0);
    assert_eq!(rtp_timestamp(-1_000_000), (-90_000i64) as u32);
    assert_eq!(timestamp_us_from_rtp(90_000), 1_000_000);
    assert_eq!(timestamp_us_from_rtp(1), 11);
}

#[test]
fn test_pixel_format_bytes_per_pixel() {
    let bytes = |f: PixelFormat| f.bits_per_pixel() as f32 / 8.0;
    assert_eq!(bytes(PixelFormat::YUV420), 1.5);
    assert_eq!(bytes(PixelFormat::RGB24), 3.0);
    assert_eq!(bytes(PixelFormat::RGBA), 4.0);
    assert_eq!(PixelFormat::NV21.bits_per_pixel(), 12);
}

#[test]
fn decoded_frames_take_the_configured_resolution() {
    let config = VideoConfig::high_quality();
    let f = mepassa::video::decoded_frame(&config, vec![1, 2, 3], 90_000);
    assert_eq!((f.width, f.height), (1280, 720));
    assert_eq!(f.timestamp_us, 1_000_000);
    assert_eq!(f.format, PixelFormat::YUV420);
    assert_eq!(f.data, vec![1, 2, 3]);
}

#[test]
fn playback_queue_fills_in_order_then_silence() {
    let mut q: mepassa::playback::PlaybackBuffer<f32> = mepassa::playback::PlaybackBuffer::new();
    q.push_samples(&[0.1, 0.2, 0.3]);
    q.push_samples(&[0.4]);
    let mut out = vec![9.0f32; 3];
    assert_eq!(q.fill(&mut out, 0.0), 3);
    assert_eq!(out, vec![0.1, 0.2, 0.3]);
    assert_eq!(q.len(), 1);
    let mut out2 = vec![9.0f32; 3];
    assert_eq!(q.fill(&mut out2, 0.0), 1);
    assert_eq!(out2, vec![0.4, 0.0, 0.0]);
    let mut out3 = vec![9.0f32; 2];
    assert_eq!(q.fill(&mut out3, 0.0), 0);
    assert_eq!(out3, vec![0.0, 0.0]);
}
