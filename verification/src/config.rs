//! Configuration of the client pipeline and of the server components.
//!
//! File loading and CLI overrides are glue around the library; the types
//! here are the values that the verified logic consumes.

use vstd::prelude::*;
use vstd::string::*;
use crate::protocol::{AudioCodec, StreamProtocol, VideoCodec};

verus! {

/// Where and how the client pushes its stream.
#[derive(Debug)]
pub struct ServerEndpoint {
    pub protocol: StreamProtocol,
    pub host: String,
    pub port: u16,
    pub stream_key: String,
    /// Application name used by the chunked ingest protocol.
    pub app_name: Option<String>,
}

/// The client's stream supervision policy.
#[derive(Debug)]
pub struct StreamConfig {
    pub title: Option<String>,
    pub description: Option<String>,
    pub auto_reconnect: bool,
    /// Seconds between pipeline restart attempts.
    pub reconnect_interval: u64,
    pub max_reconnect_attempts: u32,
}

/// What the client captures.
#[derive(Debug)]
pub struct CaptureConfig {
    pub video_source: VideoSource,
    pub audio_source: AudioSource,
    pub capture_cursor: bool,
}

/// A video capture source.
#[derive(Debug)]
pub enum VideoSource {
    Screen { display_index: u32 },
    Window { window_title: String },
    Region { x: u32, y: u32, width: u32, height: u32 },
}

/// An audio capture source.
#[derive(Debug)]
pub enum AudioSource {
    Default,
    Device { device_name: String },
    Disabled,
}

/// Encoder selection and parameters for both media kinds.
#[derive(Debug)]
pub struct EncodingConfig {
    pub video: VideoEncodingConfig,
    pub audio: AudioEncodingConfig,
    pub hardware_acceleration: bool,
}

/// Video encoder parameters.
#[derive(Debug)]
pub struct VideoEncodingConfig {
    pub codec: VideoCodec,
    pub width: u32,
    pub height: u32,
    pub fps: u32,
    /// kbit/s
    pub bitrate: u32,
    /// Seconds between keyframes.
    pub keyframe_interval: u32,
    pub preset: String,
}

/// Audio encoder parameters.
#[derive(Debug, Clone, Copy)]
pub struct AudioEncodingConfig {
    pub codec: AudioCodec,
    pub sample_rate: u32,
    pub channels: u32,
    /// kbit/s
    pub bitrate: u32,
}

/// Client network timeouts and buffering.
#[derive(Debug, Clone, Copy)]
pub struct NetworkConfig {
    /// Seconds.
    pub connection_timeout: u64,
    /// Seconds.
    pub read_timeout: u64,
    /// Seconds.
    pub write_timeout: u64,
    pub buffer_size: usize,
}

/// The whole client configuration.
#[derive(Debug)]
pub struct ClientConfig {
    pub server: ServerEndpoint,
    pub stream: StreamConfig,
    pub capture: CaptureConfig,
    pub encoding: EncodingConfig,
    pub network: NetworkConfig,
}

/// Ingest listener configuration.
#[derive(Debug)]
pub struct RtmpServerConfig {
    pub bind_addr: String,
    pub port: u16,
    pub chunk_size: u32,
    pub max_connections: u32,
}

/// An ICE server entry for real-time delivery.
#[derive(Debug, Clone)]
pub struct IceServerConfig {
    pub urls: Vec<String>,
    pub username: Option<String>,
    pub credential: Option<String>,
}

/// Real-time delivery configuration.
#[derive(Debug, Clone)]
pub struct WebRtcServerConfig {
    pub ice_servers: Vec<IceServerConfig>,
    pub dtls_cert_path: Option<String>,
    pub dtls_key_path: Option<String>,
}

/// HTTP front-end configuration.
#[derive(Debug, Clone)]
pub struct HttpServerConfig {
    pub bind_addr: String,
    pub port: u16,
    pub static_dir: String,
    pub cors_enabled: bool,
}

/// The publisher authentication policy: a toggle and an allow-list.
#[derive(Debug, Clone)]
pub struct AuthConfig {
    pub enabled: bool,
    pub valid_stream_keys: Vec<String>,
    pub jwt_secret: Option<String>,
}

/// Segment storage and playlist windowing.
#[derive(Debug)]
pub struct StorageConfig {
    pub hls_segment_dir: String,
    /// Seconds per segment.
    pub hls_segment_duration: u32,
    /// Maximum number of segments advertised.
    pub hls_playlist_length: u32,
    pub dash_segment_dir: String,
    /// Seconds per segment.
    pub dash_segment_duration: u32,
}

impl Clone for StorageConfig {
    /// An equal copy.
    fn clone(&self) -> (r: Self)
        ensures
            r == *self,
    {
        StorageConfig {
            hls_segment_dir: self.hls_segment_dir.clone(),
            hls_segment_duration: self.hls_segment_duration,
            hls_playlist_length: self.hls_playlist_length,
            dash_segment_dir: self.dash_segment_dir.clone(),
            dash_segment_duration: self.dash_segment_duration,
        }
    }
}

/// The whole server configuration.
#[derive(Debug, Clone)]
pub struct ServerConfig {
    pub rtmp: RtmpServerConfig,
    pub webrtc: WebRtcServerConfig,
    pub http: HttpServerConfig,
    pub auth: AuthConfig,
    pub storage: StorageConfig,
}


impl Clone for ServerEndpoint {
    /// An equal copy.
    fn clone(&self) -> (r: Self)
        ensures
            r == *self,
    {
        ServerEndpoint {
            protocol: self.protocol,
            host: self.host.clone(),
            port: self.port,
            stream_key: self.stream_key.clone(),
            app_name: clone_opt_string(&self.app_name),
        }
    }
}

impl Clone for StreamConfig {
    /// An equal copy.
    fn clone(&self) -> (r: Self)
        ensures
            r == *self,
    {
        StreamConfig {
            title: clone_opt_string(&self.title),
            description: clone_opt_string(&self.description),
            auto_reconnect: self.auto_reconnect,
            reconnect_interval: self.reconnect_interval,
            max_reconnect_attempts: self.max_reconnect_attempts,
        }
    }
}

impl Clone for VideoSource {
    /// An equal copy.
    fn clone(&self) -> (r: Self)
        ensures
            r == *self,
    {
        match self {
            VideoSource::Screen { display_index } => VideoSource::Screen {
                display_index: *display_index,
            },
            VideoSource::Window { window_title } => VideoSource::Window {
                window_title: window_title.clone(),
            },
            VideoSource::Region { x, y, width, height } => VideoSource::Region {
                x: *x,
                y: *y,
                width: *width,
                height: *height,
            },
        }
    }
}

impl Clone for AudioSource {
    /// An equal copy.
    fn clone(&self) -> (r: Self)
        ensures
            r == *self,
    {
        match self {
            AudioSource::Default => AudioSource::Default,
            AudioSource::Device { device_name } => AudioSource::Device {
                device_name: device_name.clone(),
            },
            AudioSource::Disabled => AudioSource::Disabled,
        }
    }
}

impl Clone for CaptureConfig {
    /// An equal copy.
    fn clone(&self) -> (r: Self)
        ensures
            r == *self,
    {
        CaptureConfig {
            video_source: self.video_source.clone(),
            audio_source: self.audio_source.clone(),
            capture_cursor: self.capture_cursor,
        }
    }
}

impl Clone for VideoEncodingConfig {
    /// An equal copy.
    fn clone(&self) -> (r: Self)
        ensures
            r == *self,
    {
        VideoEncodingConfig {
            codec: self.codec,
            width: self.width,
            height: self.height,
            fps: self.fps,
            bitrate: self.bitrate,
            keyframe_interval: self.keyframe_interval,
            preset: self.preset.clone(),
        }
    }
}

impl Clone for EncodingConfig {
    /// An equal copy.
    fn clone(&self) -> (r: Self)
        ensures
            r == *self,
    {
        EncodingConfig {
            video: self.video.clone(),
            audio: self.audio,
            hardware_acceleration: self.hardware_acceleration,
        }
    }
}

impl Clone for RtmpServerConfig {
    /// An equal copy.
    fn clone(&self) -> (r: Self)
        ensures
            r == *self,
    {
        RtmpServerConfig {
            bind_addr: self.bind_addr.clone(),
            port: self.port,
            chunk_size: self.chunk_size,
            max_connections: self.max_connections,
        }
    }
}

/// Copies an optional string.
fn clone_opt_string(o: &Option<String>) -> (r: Option<String>)
    ensures
        r == *o,
{
    match o {
        Some(s) => Some(s.clone()),
        None => None,
    }
}

impl Default for ClientConfig {
    /// The documented out-of-the-box client setup: chunked push to a local
    /// server, screen capture with default audio, H.264/AAC encoding.
    fn default() -> (c: ClientConfig)
        ensures
            c.server.protocol == StreamProtocol::Rtmp,
            c.server.host@ == "localhost"@,
            c.server.port == 1935,
            c.server.stream_key@ == "test_stream"@,
            c.server.app_name matches Some(a) && a@ == "live"@,
            c.stream.title is None,
            c.stream.description is None,
            c.stream.auto_reconnect,
            c.stream.reconnect_interval == 5,
            c.stream.max_reconnect_attempts == 10,
            c.capture.video_source matches VideoSource::Screen { display_index: 0u32 },
            c.capture.audio_source is Default,
            c.capture.capture_cursor,
            c.encoding.video.codec == VideoCodec::H264,
            c.encoding.video.width == 1920,
            c.encoding.video.height == 1080,
            c.encoding.video.fps == 30,
            c.encoding.video.bitrate == 2500,
            c.encoding.video.keyframe_interval == 2,
            c.encoding.video.preset@ == "fast"@,
            c.encoding.audio.codec == AudioCodec::Aac,
            c.encoding.audio.sample_rate == 44100,
            c.encoding.audio.channels == 2,
            c.encoding.audio.bitrate == 128,
            c.encoding.hardware_acceleration,
            c.network.connection_timeout == 10,
            c.network.read_timeout == 30,
            c.network.write_timeout == 30,
            c.network.buffer_size == 65536,
    {
        ClientConfig {
            server: ServerEndpoint {
                protocol: StreamProtocol::Rtmp,
                host: String::from_str("localhost"),
                port: 1935,
                stream_key: String::from_str("test_stream"),
                app_name: Some(String::from_str("live")),
            },
            stream: StreamConfig {
                title: None,
                description: None,
                auto_reconnect: true,
                reconnect_interval: 5,
                max_reconnect_attempts: 10,
            },
            capture: CaptureConfig {
                video_source: VideoSource::Screen { display_index: 0 },
                audio_source: AudioSource::Default,
                capture_cursor: true,
            },
            encoding: EncodingConfig {
                video: VideoEncodingConfig {
                    codec: VideoCodec::H264,
                    width: 1920,
                    height: 1080,
                    fps: 30,
                    bitrate: 2500,
                    keyframe_interval: 2,
                    preset: String::from_str("fast"),
                },
                audio: AudioEncodingConfig {
                    codec: AudioCodec::Aac,
                    sample_rate: 44100,
                    channels: 2,
                    bitrate: 128,
                },
                hardware_acceleration: true,
            },
            network: NetworkConfig {
                connection_timeout: 10,
                read_timeout: 30,
                write_timeout: 30,
                buffer_size: 65536,
            },
        }
    }
}

impl Default for ServerConfig {
    /// The documented out-of-the-box server setup: ingest on 1935, HTTP on
    /// 8080, auth disabled with one provisioned key, six-second segments in
    /// a ten-segment window.
    fn default() -> (c: ServerConfig)
        ensures
            c.rtmp.bind_addr@ == "0.0.0.0"@,
            c.rtmp.port == 1935,
            c.rtmp.chunk_size == 4096,
            c.rtmp.max_connections == 100,
            c.webrtc.ice_servers@.len() == 1,
            c.webrtc.ice_servers@[0].urls@.len() == 1,
            c.webrtc.ice_servers@[0].urls@[0]@ == "stun:stun.l.google.com:19302"@,
            c.webrtc.ice_servers@[0].username is None,
            c.webrtc.ice_servers@[0].credential is None,
            c.webrtc.dtls_cert_path is None,
            c.webrtc.dtls_key_path is None,
            c.http.bind_addr@ == "0.0.0.0"@,
            c.http.port == 8080,
            c.http.static_dir@ == "./web"@,
            c.http.cors_enabled,
            !c.auth.enabled,
            c.auth.valid_stream_keys@.len() == 1,
            c.auth.valid_stream_keys@[0]@ == "test_stream"@,
            c.auth.jwt_secret is None,
            c.storage.hls_segment_dir@ == "./hls"@,
            c.storage.hls_segment_duration == 6,
            c.storage.hls_playlist_length == 10,
            c.storage.dash_segment_dir@ == "./dash"@,
            c.storage.dash_segment_duration == 6,
    {
        let mut urls: Vec<String> = Vec::new();
        urls.push(String::from_str("stun:stun.l.google.com:19302"));
        let mut ice_servers: Vec<IceServerConfig> = Vec::new();
        ice_servers.push(IceServerConfig { urls, username: None, credential: None });
        let mut valid_stream_keys: Vec<String> = Vec::new();
        valid_stream_keys.push(String::from_str("test_stream"));
        ServerConfig {
            rtmp: RtmpServerConfig {
                bind_addr: String::from_str("0.0.0.0"),
                port: 1935,
                chunk_size: 4096,
                max_connections: 100,
            },
            webrtc: WebRtcServerConfig {
                ice_servers,
                dtls_cert_path: None,
                dtls_key_path: None,
            },
            http: HttpServerConfig {
                bind_addr: String::from_str("0.0.0.0"),
                port: 8080,
                static_dir: String::from_str("./web"),
                cors_enabled: true,
            },
            auth: AuthConfig {
                enabled: false,
                valid_stream_keys,
                jwt_secret: None,
            },
            storage: StorageConfig {
                hls_segment_dir: String::from_str("./hls"),
                hls_segment_duration: 6,
                hls_playlist_length: 10,
                dash_segment_dir: String::from_str("./dash"),
                dash_segment_duration: 6,
            },
        }
    }
}

} // verus!
