//! The ingest connection handler: a per-connection state machine that
//! authenticates a publisher and relays its media into the registry.
//! Reading protocol bytes off the wire is the transport's part; the
//! handler consumes message-level values.

use vstd::prelude::*;
use vstd::string::*;
use crate::auth::AuthManager;
use crate::error::{StreamError, StreamResult};
use crate::protocol::{
    AudioCodec, AudioConfig, StreamInfo, StreamStatus, VideoCodec, VideoConfig,
};
use crate::stream::{
    spec_buffer_add, spec_info_with_count, spec_info_with_live, MediaPacket,
    StreamManager,
};

verus! {

/// One message-level event on an ingest connection.
pub enum RtmpMessage {
    Connect { app_name: String },
    Publish { stream_key: String },
    VideoData { data: Vec<u8>, timestamp: u64 },
    AudioData { data: Vec<u8>, timestamp: u64 },
    Disconnect,
}

/// The connection's lifecycle:
/// `Handshake -> Connected(app) -> Publishing(key) -> Closed`.
pub enum IngestState {
    Handshake,
    Connected { app_name: String },
    Publishing { stream_key: String },
    Closed,
}

/// What the handler asks the transport to do after one message.
#[derive(Debug, Clone, Copy, PartialEq, Eq, Structural)]
pub enum IngestReply {
    ConnectResponse,
    PublishResponse,
    Accepted,
    Closed,
}

/// The deterministic keyframe heuristic applied to inbound video
/// payloads: payloads over a kilobyte are taken for keyframes.
pub open spec fn spec_looks_like_keyframe(data: Seq<u8>) -> bool {
    data.len() > 1000
}

/// Whether an inbound video payload is taken for a keyframe.
pub fn looks_like_keyframe(data: &Vec<u8>) -> (r: bool)
    ensures
        r == spec_looks_like_keyframe(data@),
{
    data.len() > 1000
}

/// The descriptor a publisher's stream starts with: untitled, not yet
/// live, and the platform's default media parameters.
pub open spec fn spec_publish_info(stream_key: Seq<char>, stream_id: u128, now_ms: u64, info: StreamInfo) -> bool {
    &&& info.stream_id == stream_id
    &&& info.stream_key@ == stream_key
    &&& info.title is None
    &&& info.description is None
    &&& info.created_at == now_ms
    &&& !info.is_live
    &&& info.viewer_count == 0
    &&& info.video_config == (VideoConfig {
        width: 1920,
        height: 1080,
        fps: 30,
        bitrate: 2500,
        codec: VideoCodec::H264,
    })
    &&& info.audio_config == (AudioConfig {
        sample_rate: 44100,
        channels: 2,
        bitrate: 128,
        codec: AudioCodec::Aac,
    })
}

/// One publisher connection.
pub struct RtmpConnection {
    id: u128,
    remote_addr: String,
    state: IngestState,
}

impl RtmpConnection {
    /// The connection's id.
    pub closed spec fn id(&self) -> u128 {
        self.id
    }

    /// The publisher's address text.
    pub closed spec fn remote_addr(&self) -> Seq<char> {
        self.remote_addr@
    }

    /// The connection's lifecycle state.
    pub closed spec fn state(&self) -> IngestState {
        self.state
    }

    /// A fresh connection awaiting its handshake.
    pub fn new(id: u128, remote_addr: String) -> (c: RtmpConnection)
        ensures
            c.id() == id,
            c.remote_addr() == remote_addr@,
            c.state() is Handshake,
    {
        RtmpConnection { id, remote_addr, state: IngestState::Handshake }
    }

    /// Runs the byte-level handshake (the transport's part) and leaves the
    /// connection ready for messages.
    pub fn perform_handshake(&mut self) -> (r: StreamResult<()>)
        ensures
            r is Ok,
            *final(self) == *old(self),
    {
        Ok(())
    }

    /// Consumes one inbound message at instant `now_ms`, `stream_id` being
    /// the id a new stream would take.
    ///
    /// `Connect` moves a fresh connection to `Connected`. `Publish`
    /// validates the key against the guard: an invalid key aborts the
    /// connection with an `Auth` error and performs no registry mutation;
    /// a valid one registers a fresh stream under the key (last writer
    /// wins), marks it live, and moves to `Publishing`. Media messages
    /// while publishing are tagged (video by the keyframe heuristic) and
    /// forwarded to the stream's cache; outside `Publishing` they are
    /// dropped. `Disconnect` finalizes: the stream is stopped and
    /// unregistered, and the connection closes.
    pub fn handle_message(
        &mut self,
        msg: RtmpMessage,
        registry: &mut StreamManager,
        auth: &AuthManager,
        now_ms: u64,
        stream_id: u128,
    ) -> (r: StreamResult<IngestReply>)
        requires
            old(registry).wf(),
        ensures
            final(registry).wf(),
            final(self).id() == old(self).id(),
            final(self).remote_addr() == old(self).remote_addr(),
            match msg {
                RtmpMessage::Connect { app_name } => {
                    &&& r matches Ok(reply) && reply == IngestReply::ConnectResponse
                    &&& final(registry).streams() == old(registry).streams()
                    &&& final(self).state() == (if old(self).state() is Handshake {
                        IngestState::Connected { app_name }
                    } else {
                        old(self).state()
                    })
                },
                RtmpMessage::Publish { stream_key } => {
                    if !auth.spec_enabled() || auth.key_set().contains(stream_key@) {
                        &&& r matches Ok(reply) && reply == IngestReply::PublishResponse
                        &&& final(self).state() == (IngestState::Publishing { stream_key })
                        &&& final(registry).has_stream(stream_key@)
                        &&& ({
                            let s = final(registry).stream_at(stream_key@);
                            &&& s.key() == stream_key@
                            &&& s.status() is Live
                            &&& s.viewers().len() == 0
                            &&& exists|info: StreamInfo|
                                spec_publish_info(stream_key@, stream_id, now_ms, info)
                                    && s.info() == spec_info_with_live(
                                    spec_info_with_count(info, 0),
                                    true,
                                )
                        })
                        &&& forall|k: Seq<char>|
                            k != stream_key@ ==> #[trigger] final(registry).has_stream(k)
                                == old(registry).has_stream(k)
                        &&& forall|k: Seq<char>|
                            k != stream_key@ && old(registry).has_stream(k)
                                ==> #[trigger] final(registry).stream_at(k)
                                == old(registry).stream_at(k)
                    } else {
                        &&& r matches Err(e) && e is Auth
                        &&& final(registry).streams() == old(registry).streams()
                        &&& final(self).state() is Closed
                    }
                },
                RtmpMessage::VideoData { data, timestamp } => {
                    &&& r matches Ok(reply) && reply == IngestReply::Accepted
                    &&& final(self).state() == old(self).state()
                    &&& (match old(self).state() {
                        IngestState::Publishing { stream_key } => {
                            if old(registry).has_stream(stream_key@) {
                                &&& final(registry).has_stream(stream_key@)
                                &&& ({
                                    let s0 = old(registry).stream_at(stream_key@);
                                    let s1 = final(registry).stream_at(stream_key@);
                                    &&& s1.cache() == spec_buffer_add(
                                        s0.cache(),
                                        crate::stream::MediaPacketView::Video {
                                            data: data@,
                                            timestamp,
                                            is_keyframe: spec_looks_like_keyframe(data@),
                                        },
                                    )
                                    &&& s1.status() == s0.status()
                                    &&& s1.info() == s0.info()
                                    &&& s1.viewers() == s0.viewers()
                                })
                                &&& forall|k: Seq<char>|
                                    k != stream_key@ ==> #[trigger] final(registry).has_stream(k)
                                        == old(registry).has_stream(k)
                                &&& forall|k: Seq<char>|
                                    k != stream_key@ && old(registry).has_stream(k)
                                        ==> #[trigger] final(registry).stream_at(k)
                                        == old(registry).stream_at(k)
                            } else {
                                final(registry).streams() == old(registry).streams()
                            }
                        },
                        _ => final(registry).streams() == old(registry).streams(),
                    })
                },
                RtmpMessage::AudioData { data, timestamp } => {
                    &&& r matches Ok(reply) && reply == IngestReply::Accepted
                    &&& final(self).state() == old(self).state()
                    &&& (match old(self).state() {
                        IngestState::Publishing { stream_key } => {
                            if old(registry).has_stream(stream_key@) {
                                &&& final(registry).has_stream(stream_key@)
                                &&& ({
                                    let s0 = old(registry).stream_at(stream_key@);
                                    let s1 = final(registry).stream_at(stream_key@);
                                    &&& s1.cache() == spec_buffer_add(
                                        s0.cache(),
                                        crate::stream::MediaPacketView::Audio {
                                            data: data@,
                                            timestamp,
                                        },
                                    )
                                    &&& s1.status() == s0.status()
                                    &&& s1.info() == s0.info()
                                    &&& s1.viewers() == s0.viewers()
                                })
                                &&& forall|k: Seq<char>|
                                    k != stream_key@ ==> #[trigger] final(registry).has_stream(k)
                                        == old(registry).has_stream(k)
                                &&& forall|k: Seq<char>|
                                    k != stream_key@ && old(registry).has_stream(k)
                                        ==> #[trigger] final(registry).stream_at(k)
                                        == old(registry).stream_at(k)
                            } else {
                                final(registry).streams() == old(registry).streams()
                            }
                        },
                        _ => final(registry).streams() == old(registry).streams(),
                    })
                },
                RtmpMessage::Disconnect => {
                    &&& r matches Ok(reply) && reply == IngestReply::Closed
                    &&& final(self).state() is Closed
                    &&& (match old(self).state() {
                        IngestState::Publishing { stream_key } => !final(registry).has_stream(
                            stream_key@,
                        ) && forall|k: Seq<char>|
                            k != stream_key@ ==> #[trigger] final(registry).has_stream(k)
                                == old(registry).has_stream(k),
                        _ => final(registry).streams() == old(registry).streams(),
                    })
                },
            },
    {
        match msg {
            RtmpMessage::Connect { app_name } => {
                match &self.state {
                    IngestState::Handshake => {
                        self.state = IngestState::Connected { app_name };
                    },
                    _ => {},
                }
                Ok(IngestReply::ConnectResponse)
            },
            RtmpMessage::Publish { stream_key } => {
                if !auth.validate_stream_key(stream_key.as_str()) {
                    self.state = IngestState::Closed;
                    return Err(StreamError::Auth(String::from_str("Invalid stream key")));
                }
                let info = StreamInfo {
                    stream_id,
                    stream_key: stream_key.clone(),
                    title: None,
                    description: None,
                    created_at: now_ms,
                    is_live: false,
                    viewer_count: 0,
                    video_config: VideoConfig {
                        width: 1920,
                        height: 1080,
                        fps: 30,
                        bitrate: 2500,
                        codec: VideoCodec::H264,
                    },
                    audio_config: AudioConfig {
                        sample_rate: 44100,
                        channels: 2,
                        bitrate: 128,
                        codec: AudioCodec::Aac,
                    },
                };
                let ghost info_g = info;
                let ghost key_view = stream_key@;
                let _ = registry.create_stream(stream_key.clone(), info);
                let ghost mid = *registry;
                let _ = registry.set_stream_status(stream_key.as_str(), StreamStatus::Live);
                self.state = IngestState::Publishing { stream_key };
                proof {
                    assert(spec_publish_info(key_view, stream_id, now_ms, info_g));
                    assert(mid.stream_at(key_view).info() == spec_info_with_count(info_g, 0));
                    assert(registry.stream_at(key_view).info() == spec_info_with_live(
                        spec_info_with_count(info_g, 0),
                        true,
                    ));
                }
                Ok(IngestReply::PublishResponse)
            },
            RtmpMessage::VideoData { data, timestamp } => {
                let key = match &self.state {
                    IngestState::Publishing { stream_key } => Some(stream_key.clone()),
                    _ => None,
                };
                if let Some(stream_key) = key {
                    let is_keyframe = looks_like_keyframe(&data);
                    let packet = MediaPacket::Video { data, timestamp, is_keyframe };
                    let _ = registry.send_media_packet(stream_key.as_str(), packet);
                }
                Ok(IngestReply::Accepted)
            },
            RtmpMessage::AudioData { data, timestamp } => {
                let key = match &self.state {
                    IngestState::Publishing { stream_key } => Some(stream_key.clone()),
                    _ => None,
                };
                if let Some(stream_key) = key {
                    let packet = MediaPacket::Audio { data, timestamp };
                    let _ = registry.send_media_packet(stream_key.as_str(), packet);
                }
                Ok(IngestReply::Accepted)
            },
            RtmpMessage::Disconnect => {
                self.finish(registry);
                Ok(IngestReply::Closed)
            },
        }
    }

    /// The finalization every exit path runs: a publishing connection's
    /// stream is stopped and unregistered, and the connection closes. The
    /// registry never retains an entry for a disconnected publisher.
    pub fn finish(&mut self, registry: &mut StreamManager)
        requires
            old(registry).wf(),
        ensures
            final(registry).wf(),
            final(self).id() == old(self).id(),
            final(self).remote_addr() == old(self).remote_addr(),
            final(self).state() is Closed,
            match old(self).state() {
                IngestState::Publishing { stream_key } => !final(registry).has_stream(stream_key@)
                    && forall|k: Seq<char>|
                    k != stream_key@ ==> #[trigger] final(registry).has_stream(k)
                        == old(registry).has_stream(k),
                _ => final(registry).streams() == old(registry).streams(),
            },
    {
        let key = match &self.state {
            IngestState::Publishing { stream_key } => Some(stream_key.clone()),
            _ => None,
        };
        if let Some(stream_key) = key {
            let _ = registry.set_stream_status(stream_key.as_str(), StreamStatus::Stopped);
            let _ = registry.remove_stream(stream_key.as_str());
        }
        self.state = IngestState::Closed;
    }
}

} // verus!
