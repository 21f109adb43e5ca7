//! The encoding stage: owns one video and one audio encoder and turns
//! captured frames into media packets.

use vstd::prelude::*;
use crate::capture::{CapturedFrame, FrameType};
use crate::codec::{
    spec_keyframe_cadence, AacEncoder, AudioEncoderConfig, AudioFrame, AudioSampleFormat,
    EncoderFactory, H264Encoder, VideoEncoderConfig, VideoFrame, VideoPixelFormat,
};
use crate::config::EncodingConfig;
use crate::error::{StreamError, StreamResult};
use crate::stream::{MediaPacket, MediaPacketView};

verus! {

/// The media packet produced for a captured video frame: the encoded
/// payload with the frame's timestamp, keyframe-tagged at the configured
/// cadence counted from the frame's position.
pub open spec fn spec_encoded_video_packet(
    f: crate::capture::CapturedFrameView,
    position: u64,
    cadence: int,
) -> MediaPacketView {
    MediaPacketView::Video {
        data: f.data,
        timestamp: f.timestamp,
        is_keyframe: position as int % cadence == 1,
    }
}

/// The media packet produced for a captured audio frame.
pub open spec fn spec_encoded_audio_packet(
    f: crate::capture::CapturedFrameView,
) -> MediaPacketView {
    MediaPacketView::Audio { data: f.data, timestamp: f.timestamp }
}

/// The encoding stage.
pub struct EncoderManager {
    config: EncodingConfig,
    video_encoder: Option<H264Encoder>,
    audio_encoder: Option<AacEncoder>,
}

impl EncoderManager {
    /// The stage's configuration.
    pub closed spec fn config(&self) -> EncodingConfig {
        self.config
    }

    /// The video encoder.
    pub closed spec fn video_encoder(&self) -> Option<H264Encoder> {
        self.video_encoder
    }

    /// The audio encoder.
    pub closed spec fn audio_encoder(&self) -> Option<AacEncoder> {
        self.audio_encoder
    }

    /// Internal shape: both encoders are present.
    pub open spec fn wf(&self) -> bool {
        &&& self.video_encoder() is Some
        &&& self.audio_encoder() is Some
    }

    /// Builds both encoders from the configuration; an unsupported codec
    /// selection fails here with a `Codec` error, never at encode time.
    pub fn new(config: &EncodingConfig) -> (r: StreamResult<EncoderManager>)
        ensures
            r is Ok <==> (config.video.codec is H264 && config.audio.codec is Aac),
            r matches Err(e) ==> e is Codec,
            r matches Ok(m) ==> ({
                &&& m.wf()
                &&& m.config() == *config
                &&& m.video_encoder() matches Some(v) && v.frame_count() == 0 && v.config()
                    == (VideoEncoderConfig {
                    codec: config.video.codec,
                    width: config.video.width,
                    height: config.video.height,
                    fps: config.video.fps,
                    bitrate: config.video.bitrate,
                    keyframe_interval: config.video.keyframe_interval,
                    preset: config.video.preset,
                })
                &&& m.audio_encoder() matches Some(a) && a.frame_count() == 0 && a.config()
                    == (AudioEncoderConfig {
                    codec: config.audio.codec,
                    sample_rate: config.audio.sample_rate,
                    channels: config.audio.channels,
                    bitrate: config.audio.bitrate,
                })
            }),
    {
        let video_encoder_config = VideoEncoderConfig {
            codec: config.video.codec,
            width: config.video.width,
            height: config.video.height,
            fps: config.video.fps,
            bitrate: config.video.bitrate,
            keyframe_interval: config.video.keyframe_interval,
            preset: config.video.preset.clone(),
        };
        let video_encoder = EncoderFactory::create_video_encoder(video_encoder_config)?;
        let audio_encoder_config = AudioEncoderConfig {
            codec: config.audio.codec,
            sample_rate: config.audio.sample_rate,
            channels: config.audio.channels,
            bitrate: config.audio.bitrate,
        };
        let audio_encoder = EncoderFactory::create_audio_encoder(audio_encoder_config)?;
        Ok(EncoderManager {
            config: config.clone(),
            video_encoder: Some(video_encoder),
            audio_encoder: Some(audio_encoder),
        })
    }

    /// Encodes one captured video frame into exactly one video packet
    /// (see `spec_encoded_video_packet`); missing frame dimensions default
    /// to 1920 by 1080.
    pub fn encode_video_frame(&mut self, frame: CapturedFrame) -> (r: StreamResult<
        Vec<MediaPacket>,
    >)
        requires
            old(self).wf(),
            old(self).video_encoder() matches Some(v) && v.frame_count() < u64::MAX
                && spec_keyframe_cadence(v.config()) > 0,
        ensures
            final(self).wf(),
            final(self).config() == old(self).config(),
            final(self).audio_encoder() == old(self).audio_encoder(),
            ({
                let v0 = old(self).video_encoder().unwrap();
                let v1 = final(self).video_encoder().unwrap();
                &&& v1.config() == v0.config()
                &&& v1.frame_count() == v0.frame_count() + 1
                &&& r matches Ok(ps) && ps@.len() == 1 && ps@[0]@ == spec_encoded_video_packet(
                    frame@,
                    (v0.frame_count() + 1) as u64,
                    spec_keyframe_cadence(v0.config()),
                )
            }),
    {
        let width = match frame.width {
            Some(w) => w,
            None => 1920,
        };
        let height = match frame.height {
            Some(h) => h,
            None => 1080,
        };
        let video_frame = VideoFrame {
            data: frame.data,
            width,
            height,
            format: VideoPixelFormat::Rgba32,
            timestamp: frame.timestamp,
        };
        match &mut self.video_encoder {
            Some(encoder) => {
                let encoded = encoder.encode_frame(&video_frame)?;
                let mut out: Vec<MediaPacket> = Vec::new();
                let mut encoded = encoded;
                let packet = encoded.remove(0);
                out.push(
                    MediaPacket::Video {
                        data: packet.data,
                        timestamp: packet.timestamp,
                        is_keyframe: packet.is_keyframe,
                    },
                );
                Ok(out)
            },
            None => Err(StreamError::Codec(String::new())),
        }
    }

    /// Encodes one captured audio frame into exactly one audio packet
    /// (see `spec_encoded_audio_packet`).
    pub fn encode_audio_frame(&mut self, frame: CapturedFrame) -> (r: StreamResult<
        Vec<MediaPacket>,
    >)
        requires
            old(self).wf(),
            old(self).audio_encoder() matches Some(a) && a.frame_count() < u64::MAX,
        ensures
            final(self).wf(),
            final(self).config() == old(self).config(),
            final(self).video_encoder() == old(self).video_encoder(),
            ({
                let a0 = old(self).audio_encoder().unwrap();
                let a1 = final(self).audio_encoder().unwrap();
                &&& a1.config() == a0.config()
                &&& a1.frame_count() == a0.frame_count() + 1
                &&& r matches Ok(ps) && ps@.len() == 1 && ps@[0]@ == spec_encoded_audio_packet(
                    frame@,
                )
            }),
    {
        let audio_frame = AudioFrame {
            data: frame.data,
            sample_rate: self.config.audio.sample_rate,
            channels: self.config.audio.channels,
            format: AudioSampleFormat::S16,
            timestamp: frame.timestamp,
        };
        match &mut self.audio_encoder {
            Some(encoder) => {
                let encoded = encoder.encode_frame(&audio_frame)?;
                let mut out: Vec<MediaPacket> = Vec::new();
                let mut encoded = encoded;
                let packet = encoded.remove(0);
                out.push(MediaPacket::Audio { data: packet.data, timestamp: packet.timestamp });
                Ok(out)
            },
            None => Err(StreamError::Codec(String::new())),
        }
    }

    /// Encodes one captured frame by its media kind.
    pub fn encode_frame(&mut self, frame: CapturedFrame) -> (r: StreamResult<Vec<MediaPacket>>)
        requires
            old(self).wf(),
            old(self).video_encoder() matches Some(v) && v.frame_count() < u64::MAX
                && spec_keyframe_cadence(v.config()) > 0,
            old(self).audio_encoder() matches Some(a) && a.frame_count() < u64::MAX,
        ensures
            final(self).wf(),
            final(self).config() == old(self).config(),
            ({
                let v0 = old(self).video_encoder().unwrap();
                let a0 = old(self).audio_encoder().unwrap();
                match frame.frame_type {
                    FrameType::Video => r matches Ok(ps) && ps@.len() == 1 && ps@[0]@
                        == spec_encoded_video_packet(
                        frame@,
                        (v0.frame_count() + 1) as u64,
                        spec_keyframe_cadence(v0.config()),
                    ) && final(self).audio_encoder() == old(self).audio_encoder(),
                    FrameType::Audio => r matches Ok(ps) && ps@.len() == 1 && ps@[0]@
                        == spec_encoded_audio_packet(frame@) && final(self).video_encoder() == old(
                        self,
                    ).video_encoder(),
                }
            }),
    {
        match frame.frame_type {
            FrameType::Video => self.encode_video_frame(frame),
            FrameType::Audio => self.encode_audio_frame(frame),
        }
    }
}

} // verus!
