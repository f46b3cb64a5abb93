//! The operating parameters of one output stream, handed to a session when
//! it is created.

use vstd::prelude::*;

verus! {

/// Audio bitrate of a stream made with `StreamConfig::new`, in bits per second.
pub const DEFAULT_AUDIO_BITRATE: u32 = 96000;

/// Video bitrate of a stream made with `StreamConfig::new`, in kilobits per second.
pub const DEFAULT_VIDEO_BITRATE: u32 = 4000;

/// Picture width of a stream made with `StreamConfig::new`, in pixels.
pub const DEFAULT_WIDTH: u32 = 1280;

/// Picture height of a stream made with `StreamConfig::new`, in pixels.
pub const DEFAULT_HEIGHT: u32 = 720;

/// Frames from one keyframe to the next in a stream made with `StreamConfig::new`.
pub const DEFAULT_KEYFRAME_INTERVAL: u32 = 60;

/// Where a stream is published, and how it is encoded.
#[derive(Debug)]
pub struct StreamConfig {
    /// The address at which the stream is published.
    pub destination: String,
    /// Bits per second of encoded audio.
    pub audio_bitrate: u32,
    /// Kilobits per second of encoded video.
    pub video_bitrate: u32,
    /// Picture width in pixels.
    pub width: u32,
    /// Picture height in pixels.
    pub height: u32,
    /// Frames from one keyframe to the next.
    pub keyframe_interval: u32,
}

/// Whether everything but the destination is as `StreamConfig::new` sets it.
pub open spec fn has_usual_parameters(config: StreamConfig) -> bool {
    &&& config.audio_bitrate == DEFAULT_AUDIO_BITRATE
    &&& config.video_bitrate == DEFAULT_VIDEO_BITRATE
    &&& config.width == DEFAULT_WIDTH
    &&& config.height == DEFAULT_HEIGHT
    &&& config.keyframe_interval == DEFAULT_KEYFRAME_INTERVAL
}

impl StreamConfig {
    /// The usual parameters, publishing at `destination`.
    pub fn new(destination: &str) -> (config: StreamConfig)
        ensures
            config.destination@ == destination@,
            has_usual_parameters(config),
    {
        StreamConfig {
            destination: destination.to_owned(),
            audio_bitrate: DEFAULT_AUDIO_BITRATE,
            video_bitrate: DEFAULT_VIDEO_BITRATE,
            width: DEFAULT_WIDTH,
            height: DEFAULT_HEIGHT,
            keyframe_interval: DEFAULT_KEYFRAME_INTERVAL,
        }
    }
}

} // verus!
