use game_stream::{
    AacEncoder, AudioCodec, AudioEncoderConfig, AudioFrame, AudioSampleFormat, CapturedFrame,
    EncoderFactory, EncoderManager, EncodingConfig, FrameType, H264Encoder, MediaPacket,
    PacketType, StreamError, VideoCodec, VideoEncoderConfig, VideoFrame, VideoPixelFormat,
};

fn video_config(fps: u32, keyframe_interval: u32) -> VideoEncoderConfig {
    VideoEncoderConfig {
        codec: VideoCodec::H264,
        width: 1920,
        height: 1080,
        fps,
        bitrate: 2500,
        keyframe_interval,
        preset: "fast".to_string(),
    }
}

fn audio_config() -> AudioEncoderConfig {
    AudioEncoderConfig { codec: AudioCodec::Aac, sample_rate: 44100, channels: 2, bitrate: 128 }
}

fn video_frame(timestamp: u64) -> VideoFrame {
    VideoFrame {
        data: vec![5; 16],
        width: 1920,
        height: 1080,
        format: VideoPixelFormat::Rgba32,
        timestamp,
    }
}

#[test]
fn keyframes_follow_the_configured_cadence() {
    // two seconds at thirty frames per second: one keyframe every sixty frames
    let mut encoder = H264Encoder::new(video_config(30, 2)).unwrap();
    for i in 1..=121u64 {
        let packets = encoder.encode_frame(&video_frame(i)).unwrap();
        assert_eq!(packets.len(), 1);
        let expected = i % 60 == 1;
        assert_eq!(packets[0].is_keyframe, expected, "frame {}", i);
        assert_eq!(packets[0].timestamp, i);
        assert!(matches!(packets[0].packet_type, PacketType::Video));
    }
}

#[test]
fn audio_packets_are_never_keyframes() {
    let mut encoder = AacEncoder::new(audio_config()).unwrap();
    let frame = AudioFrame {
        data: vec![1; 8],
        sample_rate: 44100,
        channels: 2,
        format: AudioSampleFormat::S16,
        timestamp: 42,
    };
    let packets = encoder.encode_frame(&frame).unwrap();
    assert_eq!(packets.len(), 1);
    assert!(!packets[0].is_keyframe);
    assert_eq!(packets[0].timestamp, 42);
    assert!(matches!(packets[0].packet_type, PacketType::Audio));
}

#[test]
fn flush_drains_nothing() {
    let mut v = H264Encoder::new(video_config(30, 2)).unwrap();
    assert!(v.flush().unwrap().is_empty());
    let mut a = AacEncoder::new(audio_config()).unwrap();
    assert!(a.flush().unwrap().is_empty());
}

#[test]
fn factory_rejects_unsupported_codecs_at_construction() {
    let mut vc = video_config(30, 2);
    vc.codec = VideoCodec::Av1;
    assert!(matches!(
        EncoderFactory::create_video_encoder(vc),
        Err(StreamError::Codec(_))
    ));
    let mut ac = audio_config();
    ac.codec = AudioCodec::Mp3;
    assert!(matches!(
        EncoderFactory::create_audio_encoder(ac),
        Err(StreamError::Codec(_))
    ));
}

fn encoding_config() -> EncodingConfig {
    game_stream::ClientConfig::default().encoding
}

#[test]
fn manager_encodes_video_frames_into_video_packets() {
    let mut manager = EncoderManager::new(&encoding_config()).unwrap();
    let frame = CapturedFrame {
        frame_type: FrameType::Video,
        data: vec![3; 32],
        timestamp: 9,
        width: Some(1920),
        height: Some(1080),
    };
    let packets = manager.encode_frame(frame).unwrap();
    assert_eq!(packets.len(), 1);
    match &packets[0] {
        MediaPacket::Video { data, timestamp, is_keyframe } => {
            assert_eq!(data, &vec![3; 32]);
            assert_eq!(*timestamp, 9);
            // the first frame of the stream is a keyframe
            assert!(*is_keyframe);
        },
        _ => panic!("expected a video packet"),
    }
}

#[test]
fn manager_encodes_audio_frames_into_audio_packets() {
    let mut manager = EncoderManager::new(&encoding_config()).unwrap();
    let frame = CapturedFrame {
        frame_type: FrameType::Audio,
        data: vec![4; 16],
        timestamp: 11,
        width: None,
        height: None,
    };
    let packets = manager.encode_frame(frame).unwrap();
    assert_eq!(packets.len(), 1);
    match &packets[0] {
        MediaPacket::Audio { data, timestamp } => {
            assert_eq!(data, &vec![4; 16]);
            assert_eq!(*timestamp, 11);
        },
        _ => panic!("expected an audio packet"),
    }
}

#[test]
fn manager_rejects_unsupported_codecs() {
    let mut c = encoding_config();
    c.video.codec = VideoCodec::H265;
    assert!(matches!(EncoderManager::new(&c), Err(StreamError::Codec(_))));
}
