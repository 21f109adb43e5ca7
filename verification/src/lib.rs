//! A live game/screen streaming library: a client pipeline that captures,
//! encodes and pushes media, and a server core that registers live streams,
//! fans packets out to viewers, packages sliding-window segment playlists,
//! and manages real-time signaling sessions.

use vstd::prelude::*;

mod auth;
mod capture;
mod client;
mod codec;
mod config;
mod encoder;
mod error;
mod ext;
mod hls;
mod ingest;
mod protocol;
mod pusher;
mod server;
mod signaling;
mod stream;
mod strutil;

pub use auth::AuthManager;
pub use auth::spec_key_set;
pub use auth::spec_keys_distinct;
pub use capture::{
    spec_audio_frame, spec_video_frame, AudioCapturer, CaptureManager, CapturedFrame,
    CapturedFrameView, FrameType, VideoCapturer,
};
pub use client::StreamingClient;
pub use codec::{
    spec_keyframe_cadence, AacEncoder, AudioEncoderConfig, AudioFrame, AudioSampleFormat,
    EncodedPacket, EncodedPacketView, EncoderFactory, H264Encoder, PacketType, VideoEncoderConfig,
    VideoFrame, VideoPixelFormat,
};
pub use config::{
    AudioEncodingConfig, AuthConfig, CaptureConfig, ClientConfig, EncodingConfig,
    HttpServerConfig, IceServerConfig, NetworkConfig, RtmpServerConfig, ServerConfig,
    ServerEndpoint, StorageConfig, StreamConfig, VideoEncodingConfig, VideoSource,
};
pub use config::AudioSource;
pub use config::WebRtcServerConfig;
pub use encoder::{spec_encoded_audio_packet, spec_encoded_video_packet, EncoderManager};
pub use error::StreamError;
pub use error::StreamResult;
pub use hls::{
    lemma_playlist_window_bound, segment_name, spec_blob_at, spec_blob_distinct, spec_blob_has,
    spec_blob_idx, spec_extinf, spec_fresh_playlist, spec_m3u8, spec_pl_at, spec_pl_distinct,
    spec_pl_has, spec_pl_idx, spec_pl_or_fresh, spec_playlist_add, spec_playlist_wf,
    spec_processed_playlist, spec_segment_blob,
    spec_segment_due, spec_segment_lines, spec_segment_name, spec_window, HlsManager, HlsPlaylist,
    HlsPlaylistView, HlsSegment, HlsSegmentView, StoredSegment, StoredSegmentView,
    SEGMENT_BLOB_BYTES,
};
pub use ext::fresh_id;
pub use ext::now_millis;
pub use pusher::{
    create_pusher, spec_push_url, PusherManager, RtmpPusher, RtmpPusherView, SrtPusher,
    SrtPusherView, StreamPusherEnum, StreamPusherEnumView,
};
pub use server::hls_sweep;
pub use server::StreamingServer;
pub use signaling::{
    spec_answer_sdp, spec_session_expired, spec_session_ids, WebRtcPeerConnection,
    WebRtcPeerConnectionView, WebRtcSignalingHandler,
};
pub use ingest::{
    looks_like_keyframe, spec_looks_like_keyframe, spec_publish_info, IngestReply, IngestState,
    RtmpConnection, RtmpMessage,
};
pub use protocol::{
    AudioCodec, AudioConfig, ClientConnection, StreamInfo, StreamProtocol, StreamStatus,
    VideoCodec, VideoConfig, ViewProtocol, ViewerConnection, WebRtcSignal,
};
pub use stream::uptime_seconds;
pub use stream::{
    lemma_create_then_get, lemma_init_sequence_order, lemma_viewer_count_counts_distinct_ids,
    spec_buffer_add, spec_has_key, spec_idx_of, spec_info_with_count, spec_info_with_live,
    spec_init_packets, spec_live_flag, spec_reg_keys_distinct, spec_stream_at, spec_viewer_ids,
    LiveStream, MediaBuffer, MediaBufferView, MediaPacket, MediaPacketView, StreamManager,
};
pub use strutil::spec_uint_string;
pub use strutil::u32_to_string;
pub use strutil::u64_to_string;
