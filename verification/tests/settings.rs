use hello_bevy::components::{
    AudioEncoder, AudioEncoderBitrate, FileNameFmt, OutputAudioSampleRate, OutputDestination,
    RecordContainer, RecordFolder, StreamKeyId, StreamMode, StreamProtocol, StreamServer,
    StreamService, VideoEncoder, VideoEncoderBitrate, VideoEncoderKeyFrameEvery,
    VideoEncoderProfile, VideoSink,
};
use hello_bevy::devmode::fps_overlay_name;
use hello_bevy::user_input::{KeyboardSettings, ShortcutKey};

#[test]
fn default_keyboard_settings() {
    let s = KeyboardSettings::default();
    assert_eq!(s.diag, ShortcutKey::F8);
    assert_eq!(s.dump_scene, ShortcutKey::F9);
}

#[test]
fn overlay_named_when_unnamed_with_children_and_z_index() {
    assert_eq!(fps_overlay_name(false, true, true), Some("FpsOverlay".to_string()));
}

#[test]
fn overlay_not_named_otherwise() {
    assert_eq!(fps_overlay_name(true, true, true), None);
    assert_eq!(fps_overlay_name(false, false, true), None);
    assert_eq!(fps_overlay_name(false, true, false), None);
    assert_eq!(fps_overlay_name(false, false, false), None);
}

#[test]
fn profile_components_hold_their_values() {
    let _sink = VideoSink;
    assert_eq!(OutputAudioSampleRate(48000).0, 48000);
    assert_eq!(AudioEncoderBitrate(160).0, 160);
    assert_eq!(VideoEncoderBitrate(6000).0, 6000);
    assert_eq!(VideoEncoderKeyFrameEvery(2).0, 2);
    assert_eq!(StreamKeyId(1).0, 1);
    assert_eq!(StreamServer("rtmp://live.twitch.tv/app".to_string()).0, "rtmp://live.twitch.tv/app");
    assert_eq!(RecordFolder("videos".to_string()).0, "videos");
    assert_eq!(FileNameFmt("%Y-%m-%d.mkv".to_string()).0, "%Y-%m-%d.mkv");
    assert_ne!(OutputDestination::Stream, OutputDestination::LocalRecord);
    assert_ne!(OutputDestination::Stream, OutputDestination::StreamAndLocalRecord);
    assert_eq!(AudioEncoder::AAC, AudioEncoder::AAC);
    assert_ne!(VideoEncoder::X264, VideoEncoder::NvEncH264);
    assert_eq!(VideoEncoderProfile::High, VideoEncoderProfile::High);
    assert_eq!(StreamProtocol::RTMP, StreamProtocol::RTMP);
    assert_eq!(StreamService::Twitch, StreamService::Twitch);
    assert_ne!(StreamMode::Diffusion, StreamMode::BandwidthTesting);
    assert_eq!(RecordContainer::Matroska, RecordContainer::Matroska);
}
