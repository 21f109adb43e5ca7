use game_stream::{ServerConfig, StreamingServer};

#[test]
fn default_server_configuration_matches_the_documented_values() {
    let c = ServerConfig::default();
    assert_eq!(c.rtmp.bind_addr, "0.0.0.0");
    assert_eq!(c.rtmp.port, 1935);
    assert_eq!(c.rtmp.chunk_size, 4096);
    assert_eq!(c.rtmp.max_connections, 100);
    assert_eq!(c.http.port, 8080);
    assert!(c.http.cors_enabled);
    assert!(!c.auth.enabled);
    assert_eq!(c.auth.valid_stream_keys, vec!["test_stream".to_string()]);
    assert_eq!(c.storage.hls_segment_duration, 6);
    assert_eq!(c.storage.hls_playlist_length, 10);
    assert_eq!(c.webrtc.ice_servers.len(), 1);
    assert_eq!(
        c.webrtc.ice_servers[0].urls,
        vec!["stun:stun.l.google.com:19302".to_string()]
    );
}

#[test]
fn server_composes_its_components() {
    let server = StreamingServer::new(ServerConfig::default()).unwrap();
    assert_eq!(server.stream_manager.stream_count(), 0);
    assert_eq!(server.signaling.session_count(), 0);
    assert!(server.auth_manager.validate_stream_key("anything"));
}

#[test]
fn publish_then_sweep_yields_a_playlist() {
    let mut server = StreamingServer::new(ServerConfig::default()).unwrap();
    let mut conn = game_stream::RtmpConnection::new(1, "10.0.0.5:40000".to_string());
    conn.handle_message(
        game_stream::RtmpMessage::Publish { stream_key: "game".to_string() },
        &mut server.stream_manager,
        &server.auth_manager,
        1_000,
        77,
    )
    .unwrap();
    server.process_hls_once(10_000);
    let playlist = server.hls_manager.get_playlist("game").unwrap();
    assert!(playlist.starts_with("#EXTM3U\n#EXT-X-VERSION:3\n#EXT-X-TARGETDURATION:6\n"));
    assert!(playlist.contains("segment_0.ts"));
    // the sweep logs one stream's failure and carries on; disconnecting
    // removes the stream, and the playlist outlives it for pull viewers
    conn.handle_message(
        game_stream::RtmpMessage::Disconnect,
        &mut server.stream_manager,
        &server.auth_manager,
        20_000,
        77,
    )
    .unwrap();
    server.process_hls_once(30_000);
    assert!(server.hls_manager.get_playlist("game").is_ok());
}
