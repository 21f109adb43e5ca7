use game_stream::{
    AudioCodec, AudioConfig, StreamError, StreamInfo, StreamManager, VideoCodec, VideoConfig,
    WebRtcSignal, WebRtcSignalingHandler,
};

fn descriptor(key: &str) -> StreamInfo {
    StreamInfo {
        stream_id: 1,
        stream_key: key.to_string(),
        title: None,
        description: None,
        created_at: 0,
        is_live: false,
        viewer_count: 0,
        video_config: VideoConfig {
            width: 1920,
            height: 1080,
            fps: 30,
            bitrate: 2500,
            codec: VideoCodec::H264,
        },
        audio_config: AudioConfig {
            sample_rate: 44100,
            channels: 2,
            bitrate: 128,
            codec: AudioCodec::Aac,
        },
    }
}

fn offer(key: &str) -> WebRtcSignal {
    WebRtcSignal::Offer { stream_key: key.to_string(), sdp: "v=0".to_string() }
}

const MINUTE_MS: u64 = 60_000;

#[test]
fn offer_for_registered_stream_is_answered_and_counted() {
    let mut registry = StreamManager::new();
    registry.create_stream("k".to_string(), descriptor("k")).unwrap();
    let mut handler = WebRtcSignalingHandler::new();
    let reply = handler.handle_signal_at(offer("k"), &mut registry, 1_000, 7).unwrap();
    match reply {
        Some(WebRtcSignal::Answer { sdp }) => {
            assert_eq!(
                sdp,
                "v=0\r\no=- 1 2 IN IP4 127.0.0.1\r\ns=-\r\nt=0 0\r\nm=video 9 UDP/TLS/RTP/SAVPF 96\r\na=rtpmap:96 H264/90000\r\na=sendonly\r\nm=audio 9 UDP/TLS/RTP/SAVPF 97\r\na=rtpmap:97 OPUS/48000/2\r\na=sendonly\r\n"
            );
        },
        _ => panic!("expected an answer"),
    }
    assert_eq!(handler.session_count(), 1);
    assert_eq!(registry.get_stream("k").unwrap().get_viewer_count(), 1);
}

#[test]
fn offer_for_absent_stream_is_stream_not_found() {
    let mut registry = StreamManager::new();
    let mut handler = WebRtcSignalingHandler::new();
    match handler.handle_signal_at(offer("ghost"), &mut registry, 1_000, 7) {
        Err(StreamError::StreamNotFound(_)) => {},
        other => panic!("expected StreamNotFound, got {:?}", other.is_ok()),
    }
    assert_eq!(handler.session_count(), 0);
}

#[test]
fn candidates_and_unhandled_variants_are_no_ops() {
    let mut registry = StreamManager::new();
    let mut handler = WebRtcSignalingHandler::new();
    let candidate = WebRtcSignal::IceCandidate {
        candidate: "candidate:1".to_string(),
        sdp_mid: Some("0".to_string()),
        sdp_mline_index: Some(0),
    };
    assert!(handler
        .handle_signal_at(candidate, &mut registry, 1_000, 8)
        .unwrap()
        .is_none());
    let answer = WebRtcSignal::Answer { sdp: "v=0".to_string() };
    assert!(handler
        .handle_signal_at(answer, &mut registry, 1_000, 9)
        .unwrap()
        .is_none());
    let error = WebRtcSignal::Error { message: "m".to_string() };
    assert!(handler
        .handle_signal_at(error, &mut registry, 1_000, 10)
        .unwrap()
        .is_none());
    assert_eq!(handler.session_count(), 0);
}

#[test]
fn reaper_removes_sessions_idle_past_the_threshold() {
    let mut registry = StreamManager::new();
    registry.create_stream("k".to_string(), descriptor("k")).unwrap();
    let mut handler = WebRtcSignalingHandler::new();
    let start: u64 = 100 * MINUTE_MS;
    handler.handle_signal_at(offer("k"), &mut registry, start, 1).unwrap();
    assert_eq!(handler.session_count(), 1);
    // four minutes of inactivity: retained
    handler.cleanup_connections(start + 4 * MINUTE_MS);
    assert_eq!(handler.session_count(), 1);
    // six minutes of inactivity: removed
    handler.cleanup_connections(start + 6 * MINUTE_MS);
    assert_eq!(handler.session_count(), 0);
}

#[test]
fn reaper_keeps_active_sessions_while_dropping_expired_ones() {
    let mut registry = StreamManager::new();
    registry.create_stream("k".to_string(), descriptor("k")).unwrap();
    let mut handler = WebRtcSignalingHandler::new();
    let start: u64 = 100 * MINUTE_MS;
    handler.handle_signal_at(offer("k"), &mut registry, start, 1).unwrap();
    handler
        .handle_signal_at(offer("k"), &mut registry, start + 5 * MINUTE_MS, 2)
        .unwrap();
    // at start + 7min the first session is 7 minutes idle, the second 2
    handler.cleanup_connections(start + 7 * MINUTE_MS);
    assert_eq!(handler.session_count(), 1);
}

#[test]
fn exactly_five_minutes_idle_is_retained() {
    let mut registry = StreamManager::new();
    registry.create_stream("k".to_string(), descriptor("k")).unwrap();
    let mut handler = WebRtcSignalingHandler::new();
    handler.handle_signal_at(offer("k"), &mut registry, 0, 1).unwrap();
    // expiry asks for strictly more than five whole minutes
    handler.cleanup_connections(5 * MINUTE_MS + 59_999);
    assert_eq!(handler.session_count(), 1);
    handler.cleanup_connections(6 * MINUTE_MS);
    assert_eq!(handler.session_count(), 0);
}
