//! Message-level protocol types: stream descriptors, media configuration,
//! signaling messages, and connection records.
//!
//! Instants are carried as milliseconds, identifiers as plain 128-bit
//! values, and remote addresses as text, so that every rule that reads
//! them is stated over plain values.

use vstd::prelude::*;

verus! {

/// A push (ingest) protocol variant.
#[derive(Debug, Clone, Copy, PartialEq, Eq, Structural)]
pub enum StreamProtocol {
    Rtmp,
    Srt,
    Custom,
}

/// A viewing (delivery) protocol variant.
#[derive(Debug, Clone, Copy, PartialEq, Eq, Structural)]
pub enum ViewProtocol {
    Rtmp,
    Hls,
    Dash,
    WebRtc,
}

/// A video codec selection.
#[derive(Debug, Clone, Copy, PartialEq, Eq, Structural)]
pub enum VideoCodec {
    H264,
    H265,
    Vp8,
    Vp9,
    Av1,
}

/// An audio codec selection.
#[derive(Debug, Clone, Copy, PartialEq, Eq, Structural)]
pub enum AudioCodec {
    Aac,
    Opus,
    Mp3,
    Pcm,
}

/// Video format parameters of a stream.
#[derive(Debug, Clone, Copy)]
pub struct VideoConfig {
    pub width: u32,
    pub height: u32,
    pub fps: u32,
    /// kbit/s
    pub bitrate: u32,
    pub codec: VideoCodec,
}

/// Audio format parameters of a stream.
#[derive(Debug, Clone, Copy)]
pub struct AudioConfig {
    pub sample_rate: u32,
    pub channels: u32,
    /// kbit/s
    pub bitrate: u32,
    pub codec: AudioCodec,
}

/// The descriptor of a live stream: identity, routing key, liveness and
/// format parameters.
#[derive(Debug, Clone)]
pub struct StreamInfo {
    pub stream_id: u128,
    pub stream_key: String,
    pub title: Option<String>,
    pub description: Option<String>,
    /// Milliseconds since the epoch.
    pub created_at: u64,
    pub is_live: bool,
    pub viewer_count: u32,
    pub video_config: VideoConfig,
    pub audio_config: AudioConfig,
}

/// A real-time signaling message, delivered over a request/response or a
/// duplex channel.
#[derive(Debug, Clone)]
pub enum WebRtcSignal {
    Offer { stream_key: String, sdp: String },
    Answer { sdp: String },
    IceCandidate { candidate: String, sdp_mid: Option<String>, sdp_mline_index: Option<u16> },
    Error { message: String },
}

/// The lifecycle state of a live stream.
///
/// `Starting -> Live -> Stopping -> Stopped`, with `Error` an absorbing
/// state reachable from anywhere.
#[derive(Debug, Clone)]
pub enum StreamStatus {
    Starting,
    Live,
    Stopping,
    Stopped,
    Error(String),
}

impl StreamStatus {
    /// True exactly for the `Live` state.
    pub fn is_live(&self) -> (r: bool)
        ensures
            r == self is Live,
    {
        match self {
            StreamStatus::Live => true,
            _ => false,
        }
    }
}

/// A publisher connection record.
#[derive(Debug, Clone)]
pub struct ClientConnection {
    pub id: u128,
    pub remote_addr: String,
    /// Milliseconds since the epoch.
    pub connected_at: u64,
    pub protocol: StreamProtocol,
}

/// A viewer session record, keyed by `id` within its stream.
#[derive(Debug, Clone)]
pub struct ViewerConnection {
    pub id: u128,
    pub remote_addr: String,
    /// Milliseconds since the epoch.
    pub connected_at: u64,
    pub protocol: ViewProtocol,
    pub stream_key: String,
}

} // verus!
