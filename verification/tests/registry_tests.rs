use game_stream::{
    AudioCodec, AudioConfig, MediaPacket, StreamError, StreamInfo, StreamManager, StreamStatus,
    VideoCodec, VideoConfig, ViewProtocol, ViewerConnection,
};

fn descriptor(key: &str) -> StreamInfo {
    StreamInfo {
        stream_id: 7,
        stream_key: key.to_string(),
        title: None,
        description: None,
        created_at: 1_000,
        is_live: false,
        viewer_count: 0,
        video_config: VideoConfig {
            width: 1920,
            height: 1080,
            fps: 30,
            bitrate: 2500,
            codec: VideoCodec::H264,
        },
        audio_config: AudioConfig {
            sample_rate: 44100,
            channels: 2,
            bitrate: 128,
            codec: AudioCodec::Aac,
        },
    }
}

fn viewer(id: u128, key: &str) -> ViewerConnection {
    ViewerConnection {
        id,
        remote_addr: "10.0.0.1:9000".to_string(),
        connected_at: 2_000,
        protocol: ViewProtocol::WebRtc,
        stream_key: key.to_string(),
    }
}

#[test]
fn create_then_get_returns_handle_with_input_key() {
    let mut registry = StreamManager::new();
    registry.create_stream("game1".to_string(), descriptor("game1")).unwrap();
    let stream = registry.get_stream("game1").expect("stream registered");
    assert_eq!(stream.get_info().stream_key, "game1");
    assert_eq!(stream.stream_key, "game1");
}

#[test]
fn get_of_absent_key_is_none() {
    let registry = StreamManager::new();
    assert!(registry.get_stream("missing").is_none());
}

#[test]
fn duplicate_create_is_last_writer_wins() {
    let mut registry = StreamManager::new();
    registry.create_stream("k".to_string(), descriptor("k")).unwrap();
    let mut second = descriptor("k");
    second.stream_id = 99;
    registry.create_stream("k".to_string(), second).unwrap();
    assert_eq!(registry.stream_count(), 1);
    let stream = registry.get_stream("k").unwrap();
    assert_eq!(stream.get_info().stream_id, 99);
}

#[test]
fn remove_stream_unregisters() {
    let mut registry = StreamManager::new();
    registry.create_stream("k".to_string(), descriptor("k")).unwrap();
    let removed = registry.remove_stream("k");
    assert!(removed.is_some());
    assert!(registry.get_stream("k").is_none());
    assert!(registry.remove_stream("k").is_none());
}

#[test]
fn viewer_count_tracks_distinct_viewer_ids() {
    let mut registry = StreamManager::new();
    registry.create_stream("k".to_string(), descriptor("k")).unwrap();
    registry.add_viewer("k", viewer(1, "k")).unwrap();
    assert_eq!(registry.get_stream("k").unwrap().get_viewer_count(), 1);
    registry.add_viewer("k", viewer(2, "k")).unwrap();
    assert_eq!(registry.get_stream("k").unwrap().get_viewer_count(), 2);
    // a rejoin under the same id replaces the session, never double-counts
    registry.add_viewer("k", viewer(2, "k")).unwrap();
    assert_eq!(registry.get_stream("k").unwrap().get_viewer_count(), 2);
    assert!(registry.remove_viewer("k", 1));
    assert_eq!(registry.get_stream("k").unwrap().get_viewer_count(), 1);
    // removing an absent id changes nothing
    assert!(registry.remove_viewer("k", 42));
    assert_eq!(registry.get_stream("k").unwrap().get_viewer_count(), 1);
    assert!(registry.remove_viewer("k", 2));
    assert_eq!(registry.get_stream("k").unwrap().get_viewer_count(), 0);
}

#[test]
fn add_viewer_to_absent_stream_is_stream_not_found() {
    let mut registry = StreamManager::new();
    match registry.add_viewer("ghost", viewer(1, "ghost")) {
        Err(StreamError::StreamNotFound(_)) => {},
        other => panic!("expected StreamNotFound, got {:?}", other.map(|v| v.len())),
    }
}

#[test]
fn init_sequence_is_metadata_then_audio_config_then_keyframe() {
    let mut registry = StreamManager::new();
    registry.create_stream("k".to_string(), descriptor("k")).unwrap();
    registry
        .send_media_packet("k", MediaPacket::Metadata { data: vec![1] })
        .unwrap();
    registry
        .send_media_packet("k", MediaPacket::Audio { data: vec![2], timestamp: 10 })
        .unwrap();
    registry
        .send_media_packet(
            "k",
            MediaPacket::Video { data: vec![3; 2000], timestamp: 20, is_keyframe: true },
        )
        .unwrap();
    let init = registry.add_viewer("k", viewer(5, "k")).unwrap();
    assert_eq!(init.len(), 3);
    match &init[0] {
        MediaPacket::Metadata { data } => assert_eq!(data, &vec![1]),
        _ => panic!("first init packet must be the metadata packet"),
    }
    match &init[1] {
        MediaPacket::Audio { data, timestamp } => {
            assert_eq!(data, &vec![2]);
            assert_eq!(*timestamp, 10);
        },
        _ => panic!("second init packet must be the audio configuration packet"),
    }
    match &init[2] {
        MediaPacket::Video { data, timestamp, is_keyframe } => {
            assert_eq!(data.len(), 2000);
            assert_eq!(*timestamp, 20);
            assert!(*is_keyframe);
        },
        _ => panic!("third init packet must be the keyframe"),
    }
}

#[test]
fn cache_keeps_only_keyframes_and_first_audio_packet() {
    let mut registry = StreamManager::new();
    registry.create_stream("k".to_string(), descriptor("k")).unwrap();
    // a non-keyframe video packet is never cached
    registry
        .send_media_packet(
            "k",
            MediaPacket::Video { data: vec![9], timestamp: 1, is_keyframe: false },
        )
        .unwrap();
    // the second audio packet does not replace the configuration slot
    registry
        .send_media_packet("k", MediaPacket::Audio { data: vec![1], timestamp: 2 })
        .unwrap();
    registry
        .send_media_packet("k", MediaPacket::Audio { data: vec![2], timestamp: 3 })
        .unwrap();
    // the newer metadata packet replaces the older one
    registry
        .send_media_packet("k", MediaPacket::Metadata { data: vec![7] })
        .unwrap();
    registry
        .send_media_packet("k", MediaPacket::Metadata { data: vec![8] })
        .unwrap();
    let init = registry.get_stream("k").unwrap().get_init_packets();
    assert_eq!(init.len(), 2);
    match &init[0] {
        MediaPacket::Metadata { data } => assert_eq!(data, &vec![8]),
        _ => panic!("expected the latest metadata packet"),
    }
    match &init[1] {
        MediaPacket::Audio { data, .. } => assert_eq!(data, &vec![1]),
        _ => panic!("expected the first audio packet as configuration"),
    }
}

#[test]
fn send_media_packet_to_absent_stream_is_stream_not_found() {
    let mut registry = StreamManager::new();
    match registry.send_media_packet("ghost", MediaPacket::Metadata { data: vec![] }) {
        Err(StreamError::StreamNotFound(_)) => {},
        other => panic!("expected StreamNotFound, got {:?}", other.is_ok()),
    }
}

#[test]
fn status_transitions_update_the_liveness_flag() {
    let mut registry = StreamManager::new();
    registry.create_stream("k".to_string(), descriptor("k")).unwrap();
    assert!(!registry.get_stream("k").unwrap().get_info().is_live);
    registry.set_stream_status("k", StreamStatus::Live);
    let stream = registry.get_stream("k").unwrap();
    assert!(stream.get_info().is_live);
    assert!(matches!(stream.get_status(), StreamStatus::Live));
    registry.set_stream_status("k", StreamStatus::Stopping);
    assert!(registry.get_stream("k").unwrap().get_info().is_live);
    registry.set_stream_status("k", StreamStatus::Stopped);
    assert!(!registry.get_stream("k").unwrap().get_info().is_live);
    registry.set_stream_status("k", StreamStatus::Live);
    registry.set_stream_status("k", StreamStatus::Error("boom".to_string()));
    assert!(!registry.get_stream("k").unwrap().get_info().is_live);
}

#[test]
fn list_streams_snapshots_all_keys() {
    let mut registry = StreamManager::new();
    registry.create_stream("a".to_string(), descriptor("a")).unwrap();
    registry.create_stream("b".to_string(), descriptor("b")).unwrap();
    let keys = registry.list_streams();
    assert_eq!(keys.len(), 2);
    assert!(keys.iter().any(|k| k == "a"));
    assert!(keys.iter().any(|k| k == "b"));
}

#[test]
fn uptime_is_whole_seconds_since_creation() {
    assert_eq!(game_stream::uptime_seconds(10_000, 4_000), 6);
    assert_eq!(game_stream::uptime_seconds(10_999, 4_000), 6);
    assert_eq!(game_stream::uptime_seconds(4_000, 4_000), 0);
    assert_eq!(game_stream::uptime_seconds(1_000, 4_500), -3);
}
