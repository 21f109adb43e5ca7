//! The codec capability: per-stream encoders turning raw frames into
//! tagged packets, with a configured keyframe cadence.
//!
//! Actual codec bit-streams are an external concern; these encoders
//! implement the capability contract — packet counting, keyframe tagging,
//! timestamp preservation — and pass the raw payload through.

use vstd::prelude::*;
use vstd::string::*;
use crate::error::{StreamError, StreamResult};
use crate::protocol::{AudioCodec, VideoCodec};
use crate::strutil::clone_bytes;

verus! {

/// The kind of an encoded packet.
#[derive(Debug, Clone, Copy, PartialEq, Eq, Structural)]
pub enum PacketType {
    Video,
    Audio,
    Metadata,
}

/// The pixel layout of a raw video frame.
#[derive(Debug, Clone, Copy, PartialEq, Eq, Structural)]
pub enum VideoPixelFormat {
    Rgb24,
    Rgba32,
    Bgr24,
    Bgra32,
    Yuv420p,
    Nv12,
}

/// The sample layout of a raw audio frame.
#[derive(Debug, Clone, Copy, PartialEq, Eq, Structural)]
pub enum AudioSampleFormat {
    S16,
    S32,
    F32,
    F64,
}

/// A raw video frame handed to the video encoder.
pub struct VideoFrame {
    pub data: Vec<u8>,
    pub width: u32,
    pub height: u32,
    pub format: VideoPixelFormat,
    pub timestamp: u64,
}

/// A raw audio frame handed to the audio encoder.
pub struct AudioFrame {
    pub data: Vec<u8>,
    pub sample_rate: u32,
    pub channels: u32,
    pub format: AudioSampleFormat,
    pub timestamp: u64,
}

/// An encoded packet leaving an encoder.
pub struct EncodedPacket {
    pub data: Vec<u8>,
    pub timestamp: u64,
    pub is_keyframe: bool,
    pub packet_type: PacketType,
}

/// The mathematical value of an encoded packet.
pub struct EncodedPacketView {
    pub data: Seq<u8>,
    pub timestamp: u64,
    pub is_keyframe: bool,
    pub packet_type: PacketType,
}

impl View for EncodedPacket {
    type V = EncodedPacketView;

    open spec fn view(&self) -> EncodedPacketView {
        EncodedPacketView {
            data: self.data@,
            timestamp: self.timestamp,
            is_keyframe: self.is_keyframe,
            packet_type: self.packet_type,
        }
    }
}

/// Video encoder parameters.
pub struct VideoEncoderConfig {
    pub codec: VideoCodec,
    pub width: u32,
    pub height: u32,
    pub fps: u32,
    pub bitrate: u32,
    /// Seconds between keyframes.
    pub keyframe_interval: u32,
    pub preset: String,
}

impl Clone for VideoEncoderConfig {
    /// An equal copy.
    fn clone(&self) -> (r: Self)
        ensures
            r == *self,
    {
        VideoEncoderConfig {
            codec: self.codec,
            width: self.width,
            height: self.height,
            fps: self.fps,
            bitrate: self.bitrate,
            keyframe_interval: self.keyframe_interval,
            preset: self.preset.clone(),
        }
    }
}

/// Audio encoder parameters.
#[derive(Clone, Copy)]
pub struct AudioEncoderConfig {
    pub codec: AudioCodec,
    pub sample_rate: u32,
    pub channels: u32,
    pub bitrate: u32,
}

/// How many frames apart keyframes are tagged: the configured keyframe
/// interval in seconds times the frame rate.
pub open spec fn spec_keyframe_cadence(c: VideoEncoderConfig) -> int {
    c.keyframe_interval * c.fps
}

/// The H.264-capability video encoder: counts frames and tags the frames
/// whose position aligns with the keyframe cadence.
pub struct H264Encoder {
    config: VideoEncoderConfig,
    frame_count: u64,
}

impl H264Encoder {
    /// The encoder's parameters.
    pub closed spec fn config(&self) -> VideoEncoderConfig {
        self.config
    }

    /// How many frames the encoder has consumed.
    pub closed spec fn frame_count(&self) -> u64 {
        self.frame_count
    }

    /// A fresh encoder; construction accepts any parameters for this
    /// codec.
    pub fn new(config: VideoEncoderConfig) -> (r: StreamResult<H264Encoder>)
        ensures
            r matches Ok(e) && e.config() == config && e.frame_count() == 0,
    {
        Ok(H264Encoder { config, frame_count: 0 })
    }

    /// Encodes one frame into exactly one packet carrying the frame's
    /// payload and timestamp; the packet is tagged a keyframe exactly when
    /// the frame's position (counted from one) is one past a multiple of
    /// the keyframe cadence.
    pub fn encode_frame(&mut self, frame: &VideoFrame) -> (r: StreamResult<Vec<EncodedPacket>>)
        requires
            old(self).frame_count() < u64::MAX,
            spec_keyframe_cadence(old(self).config()) > 0,
        ensures
            final(self).config() == old(self).config(),
            final(self).frame_count() == old(self).frame_count() + 1,
            r matches Ok(ps) && ps@.len() == 1 && ps@[0]@ == (EncodedPacketView {
                data: frame.data@,
                timestamp: frame.timestamp,
                is_keyframe: (old(self).frame_count() + 1) as int % spec_keyframe_cadence(
                    old(self).config(),
                ) == 1,
                packet_type: PacketType::Video,
            }),
    {
        self.frame_count = self.frame_count + 1;
        let ki = self.config.keyframe_interval as u64;
        let fps = self.config.fps as u64;
        proof {
            assert(ki * fps <= u32::MAX as u64 * u32::MAX as u64) by (nonlinear_arith)
                requires
                    ki <= u32::MAX as u64,
                    fps <= u32::MAX as u64,
            ;
        }
        let cadence = ki * fps;
        let is_keyframe = self.frame_count % cadence == 1;
        let packet = EncodedPacket {
            data: clone_bytes(&frame.data),
            timestamp: frame.timestamp,
            is_keyframe,
            packet_type: PacketType::Video,
        };
        let mut out: Vec<EncodedPacket> = Vec::new();
        out.push(packet);
        Ok(out)
    }

    /// The encoder's parameters.
    pub fn get_config(&self) -> (r: VideoEncoderConfig)
        ensures
            r == self.config(),
    {
        self.config.clone()
    }

    /// Drains trailing buffered data; this encoder buffers nothing.
    pub fn flush(&mut self) -> (r: StreamResult<Vec<EncodedPacket>>)
        ensures
            *final(self) == *old(self),
            r matches Ok(ps) && ps@.len() == 0,
    {
        Ok(Vec::new())
    }
}

/// The AAC-capability audio encoder: counts frames; audio packets carry
/// no keyframe tag.
pub struct AacEncoder {
    config: AudioEncoderConfig,
    frame_count: u64,
}

impl AacEncoder {
    /// The encoder's parameters.
    pub closed spec fn config(&self) -> AudioEncoderConfig {
        self.config
    }

    /// How many frames the encoder has consumed.
    pub closed spec fn frame_count(&self) -> u64 {
        self.frame_count
    }

    /// A fresh encoder; construction accepts any parameters for this
    /// codec.
    pub fn new(config: AudioEncoderConfig) -> (r: StreamResult<AacEncoder>)
        ensures
            r matches Ok(e) && e.config() == config && e.frame_count() == 0,
    {
        Ok(AacEncoder { config, frame_count: 0 })
    }

    /// Encodes one frame into exactly one packet carrying the frame's
    /// payload and timestamp, never tagged a keyframe.
    pub fn encode_frame(&mut self, frame: &AudioFrame) -> (r: StreamResult<Vec<EncodedPacket>>)
        requires
            old(self).frame_count() < u64::MAX,
        ensures
            final(self).config() == old(self).config(),
            final(self).frame_count() == old(self).frame_count() + 1,
            r matches Ok(ps) && ps@.len() == 1 && ps@[0]@ == (EncodedPacketView {
                data: frame.data@,
                timestamp: frame.timestamp,
                is_keyframe: false,
                packet_type: PacketType::Audio,
            }),
    {
        self.frame_count = self.frame_count + 1;
        let packet = EncodedPacket {
            data: clone_bytes(&frame.data),
            timestamp: frame.timestamp,
            is_keyframe: false,
            packet_type: PacketType::Audio,
        };
        let mut out: Vec<EncodedPacket> = Vec::new();
        out.push(packet);
        Ok(out)
    }

    /// The encoder's parameters.
    pub fn get_config(&self) -> (r: AudioEncoderConfig)
        ensures
            r == self.config(),
    {
        self.config
    }

    /// Drains trailing buffered data; this encoder buffers nothing.
    pub fn flush(&mut self) -> (r: StreamResult<Vec<EncodedPacket>>)
        ensures
            *final(self) == *old(self),
            r matches Ok(ps) && ps@.len() == 0,
    {
        Ok(Vec::new())
    }
}

/// Builds encoders for the closed set of supported codecs; an unsupported
/// selection fails at construction time with a `Codec` error, never at
/// encode time.
pub struct EncoderFactory;

impl EncoderFactory {
    /// The video encoder for `config`, or a `Codec` error for a codec the
    /// capability does not cover.
    pub fn create_video_encoder(config: VideoEncoderConfig) -> (r: StreamResult<H264Encoder>)
        ensures
            r is Ok <==> config.codec is H264,
            r matches Ok(e) ==> e.config() == config && e.frame_count() == 0,
            r matches Err(e) ==> e is Codec,
    {
        match config.codec {
            VideoCodec::H264 => H264Encoder::new(config),
            _ => Err(StreamError::Codec(String::from_str("Unsupported video codec"))),
        }
    }

    /// The audio encoder for `config`, or a `Codec` error for a codec the
    /// capability does not cover.
    pub fn create_audio_encoder(config: AudioEncoderConfig) -> (r: StreamResult<AacEncoder>)
        ensures
            r is Ok <==> config.codec is Aac,
            r matches Ok(e) ==> e.config() == config && e.frame_count() == 0,
            r matches Err(e) ==> e is Codec,
    {
        match config.codec {
            AudioCodec::Aac => AacEncoder::new(config),
            _ => Err(StreamError::Codec(String::from_str("Unsupported audio codec"))),
        }
    }
}

} // verus!
