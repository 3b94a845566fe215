//! The output profile: what the application encodes and where it sends it.
//! Resolutions and the frame rate are floating-point values and are kept
//! by the application around this library.

use vstd::prelude::*;

verus! {

/// Marks the entity that carries an output profile.
#[derive(Clone, Copy, Debug, PartialEq, Eq, Structural)]
pub struct VideoSink;

/// Audio sample rate of the output, in hertz.
#[derive(Clone, Copy, Debug, PartialEq, Eq, Structural)]
pub struct OutputAudioSampleRate(pub i32);

/// Where the output goes.
#[derive(Clone, Copy, Debug, PartialEq, Eq, Structural)]
pub enum OutputDestination {
    Stream,
    LocalRecord,
    StreamAndLocalRecord,
}

/// Audio encoder of the output.
#[derive(Clone, Copy, Debug, PartialEq, Eq, Structural)]
pub enum AudioEncoder {
    AAC,
}

/// Audio encoder bitrate.
#[derive(Clone, Copy, Debug, PartialEq, Eq, Structural)]
pub struct AudioEncoderBitrate(pub i32);

/// Video encoder of the output.
#[derive(Clone, Copy, Debug, PartialEq, Eq, Structural)]
pub enum VideoEncoder {
    X264,
    NvEncH264,
}

/// Video encoder profile.
#[derive(Clone, Copy, Debug, PartialEq, Eq, Structural)]
pub enum VideoEncoderProfile {
    High,
}

/// Video encoder bitrate.
#[derive(Clone, Copy, Debug, PartialEq, Eq, Structural)]
pub struct VideoEncoderBitrate(pub i32);

/// Distance between two video key frames.
#[derive(Clone, Copy, Debug, PartialEq, Eq, Structural)]
pub struct VideoEncoderKeyFrameEvery(pub i32);

/// Protocol of a stream destination.
#[derive(Clone, Copy, Debug, PartialEq, Eq, Structural)]
pub enum StreamProtocol {
    RTMP,
}

/// Streaming service of a stream destination.
#[derive(Clone, Copy, Debug, PartialEq, Eq, Structural)]
pub enum StreamService {
    Twitch,
}

/// Server address of a stream destination.
#[derive(Clone, Debug, PartialEq, Eq)]
pub struct StreamServer(pub String);

/// Identifier of the stream key to use.
#[derive(Clone, Copy, Debug, PartialEq, Eq, Structural)]
pub struct StreamKeyId(pub i32);

/// Whether the stream is broadcast or only tests the bandwidth.
#[derive(Clone, Copy, Debug, PartialEq, Eq, Structural)]
pub enum StreamMode {
    Diffusion,
    BandwidthTesting,
}

/// Folder of a local record.
#[derive(Clone, Debug, PartialEq, Eq)]
pub struct RecordFolder(pub String);

/// Container format of a local record.
#[derive(Clone, Copy, Debug, PartialEq, Eq, Structural)]
pub enum RecordContainer {
    Matroska,
}

/// File name format of a local record.
#[derive(Clone, Debug, PartialEq, Eq)]
pub struct FileNameFmt(pub String);

} // verus!
