use game_stream::{
    looks_like_keyframe, AuthConfig, AuthManager, IngestReply, MediaPacket, RtmpConnection,
    RtmpMessage, StreamError, StreamManager, StreamStatus,
};

fn open_guard() -> AuthManager {
    AuthManager::new(&AuthConfig { enabled: false, valid_stream_keys: vec![], jwt_secret: None })
}

fn strict_guard(keys: &[&str]) -> AuthManager {
    AuthManager::new(&AuthConfig {
        enabled: true,
        valid_stream_keys: keys.iter().map(|k| k.to_string()).collect(),
        jwt_secret: None,
    })
}

fn connection() -> RtmpConnection {
    RtmpConnection::new(1, "10.0.0.2:51000".to_string())
}

#[test]
fn keyframe_heuristic_is_a_size_threshold() {
    assert!(!looks_like_keyframe(&vec![0; 1000]));
    assert!(looks_like_keyframe(&vec![0; 1001]));
    assert!(!looks_like_keyframe(&vec![]));
}

#[test]
fn publish_with_valid_key_registers_a_live_stream() {
    let mut registry = StreamManager::new();
    let auth = open_guard();
    let mut conn = connection();
    conn.perform_handshake().unwrap();
    let reply = conn
        .handle_message(
            RtmpMessage::Connect { app_name: "live".to_string() },
            &mut registry,
            &auth,
            1_000,
            11,
        )
        .unwrap();
    assert_eq!(reply, IngestReply::ConnectResponse);
    let reply = conn
        .handle_message(
            RtmpMessage::Publish { stream_key: "game".to_string() },
            &mut registry,
            &auth,
            2_000,
            11,
        )
        .unwrap();
    assert_eq!(reply, IngestReply::PublishResponse);
    let stream = registry.get_stream("game").expect("registered");
    assert!(matches!(stream.get_status(), StreamStatus::Live));
    assert!(stream.get_info().is_live);
    assert_eq!(stream.get_info().stream_id, 11);
    assert_eq!(stream.get_info().created_at, 2_000);
    assert_eq!(stream.get_info().viewer_count, 0);
}

#[test]
fn publish_with_invalid_key_aborts_without_registry_mutation() {
    let mut registry = StreamManager::new();
    let auth = strict_guard(&["allowed"]);
    let mut conn = connection();
    match conn.handle_message(
        RtmpMessage::Publish { stream_key: "forbidden".to_string() },
        &mut registry,
        &auth,
        1_000,
        11,
    ) {
        Err(StreamError::Auth(_)) => {},
        other => panic!("expected Auth error, got {:?}", other.is_ok()),
    }
    assert_eq!(registry.stream_count(), 0);
}

#[test]
fn media_while_publishing_feeds_the_init_cache() {
    let mut registry = StreamManager::new();
    let auth = open_guard();
    let mut conn = connection();
    conn.handle_message(
        RtmpMessage::Publish { stream_key: "game".to_string() },
        &mut registry,
        &auth,
        1_000,
        11,
    )
    .unwrap();
    // a small video payload is no keyframe and is not cached
    conn.handle_message(
        RtmpMessage::VideoData { data: vec![1; 10], timestamp: 5 },
        &mut registry,
        &auth,
        1_005,
        11,
    )
    .unwrap();
    assert!(registry.get_stream("game").unwrap().get_init_packets().is_empty());
    // a large one is cached as the latest keyframe
    conn.handle_message(
        RtmpMessage::VideoData { data: vec![2; 1500], timestamp: 6 },
        &mut registry,
        &auth,
        1_006,
        11,
    )
    .unwrap();
    conn.handle_message(
        RtmpMessage::AudioData { data: vec![3; 8], timestamp: 7 },
        &mut registry,
        &auth,
        1_007,
        11,
    )
    .unwrap();
    let init = registry.get_stream("game").unwrap().get_init_packets();
    assert_eq!(init.len(), 2);
    assert!(matches!(&init[0], MediaPacket::Audio { .. }));
    match &init[1] {
        MediaPacket::Video { data, is_keyframe, .. } => {
            assert_eq!(data.len(), 1500);
            assert!(is_keyframe);
        },
        _ => panic!("expected the cached keyframe"),
    }
}

#[test]
fn media_before_publishing_is_dropped() {
    let mut registry = StreamManager::new();
    let auth = open_guard();
    let mut conn = connection();
    let reply = conn
        .handle_message(
            RtmpMessage::VideoData { data: vec![1; 2000], timestamp: 5 },
            &mut registry,
            &auth,
            1_000,
            11,
        )
        .unwrap();
    assert_eq!(reply, IngestReply::Accepted);
    assert_eq!(registry.stream_count(), 0);
}

#[test]
fn disconnect_stops_and_unregisters_the_stream() {
    let mut registry = StreamManager::new();
    let auth = open_guard();
    let mut conn = connection();
    conn.handle_message(
        RtmpMessage::Publish { stream_key: "game".to_string() },
        &mut registry,
        &auth,
        1_000,
        11,
    )
    .unwrap();
    assert_eq!(registry.stream_count(), 1);
    let reply = conn
        .handle_message(RtmpMessage::Disconnect, &mut registry, &auth, 2_000, 11)
        .unwrap();
    assert_eq!(reply, IngestReply::Closed);
    assert!(registry.get_stream("game").is_none());
    assert_eq!(registry.stream_count(), 0);
}

#[test]
fn finalization_runs_on_every_exit_path() {
    let mut registry = StreamManager::new();
    let auth = open_guard();
    let mut conn = connection();
    conn.handle_message(
        RtmpMessage::Publish { stream_key: "game".to_string() },
        &mut registry,
        &auth,
        1_000,
        11,
    )
    .unwrap();
    conn.finish(&mut registry);
    assert!(registry.get_stream("game").is_none());
    // finalizing a connection that never published changes nothing
    let mut idle = connection();
    idle.finish(&mut registry);
    assert_eq!(registry.stream_count(), 0);
}

#[test]
fn second_publish_to_the_same_key_overwrites() {
    let mut registry = StreamManager::new();
    let auth = open_guard();
    let mut first = connection();
    first
        .handle_message(
            RtmpMessage::Publish { stream_key: "game".to_string() },
            &mut registry,
            &auth,
            1_000,
            11,
        )
        .unwrap();
    let mut second = RtmpConnection::new(2, "10.0.0.3:51001".to_string());
    second
        .handle_message(
            RtmpMessage::Publish { stream_key: "game".to_string() },
            &mut registry,
            &auth,
            5_000,
            22,
        )
        .unwrap();
    assert_eq!(registry.stream_count(), 1);
    assert_eq!(registry.get_stream("game").unwrap().get_info().stream_id, 22);
}
