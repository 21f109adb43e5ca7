use game_stream::{
    create_pusher, MediaPacket, NetworkConfig, PusherManager, RtmpPusher, ServerEndpoint,
    SrtPusher, StreamError, StreamProtocol,
};

fn endpoint(protocol: StreamProtocol) -> ServerEndpoint {
    ServerEndpoint {
        protocol,
        host: "localhost".to_string(),
        port: 1935,
        stream_key: "test_stream".to_string(),
        app_name: Some("live".to_string()),
    }
}

fn network() -> NetworkConfig {
    NetworkConfig { connection_timeout: 10, read_timeout: 30, write_timeout: 30, buffer_size: 65536 }
}

fn packet() -> MediaPacket {
    MediaPacket::Video { data: vec![0; 64], timestamp: 1, is_keyframe: false }
}

#[test]
fn push_while_disconnected_fails_with_network_error() {
    let mut pusher = RtmpPusher::new(&endpoint(StreamProtocol::Rtmp), &network());
    match pusher.push_packet(packet()) {
        Err(StreamError::Network(_)) => {},
        other => panic!("expected Network error, got {:?}", other.is_ok()),
    }
    // the failed push mutated nothing: connecting afterwards behaves as from fresh
    pusher.connect().unwrap();
    assert!(pusher.push_packet(packet()).is_ok());
}

#[test]
fn srt_push_while_disconnected_fails_with_network_error() {
    let mut pusher = SrtPusher::new(&endpoint(StreamProtocol::Srt), &network());
    assert!(matches!(pusher.push_packet(packet()), Err(StreamError::Network(_))));
    pusher.connect().unwrap();
    assert!(pusher.push_packet(packet()).is_ok());
}

#[test]
fn disconnect_then_push_fails_again() {
    let mut pusher = RtmpPusher::new(&endpoint(StreamProtocol::Rtmp), &network());
    pusher.connect().unwrap();
    assert!(pusher.push_packet(packet()).is_ok());
    pusher.disconnect().unwrap();
    assert!(matches!(pusher.push_packet(packet()), Err(StreamError::Network(_))));
}

#[test]
fn reconnect_restores_the_connection() {
    let mut pusher = RtmpPusher::new(&endpoint(StreamProtocol::Rtmp), &network());
    pusher.reconnect().unwrap();
    assert!(pusher.push_packet(packet()).is_ok());
}

#[test]
fn pusher_selection_follows_the_protocol() {
    assert!(matches!(
        create_pusher(&endpoint(StreamProtocol::Rtmp), &network()),
        Ok(game_stream::StreamPusherEnum::Rtmp(_))
    ));
    assert!(matches!(
        create_pusher(&endpoint(StreamProtocol::Srt), &network()),
        Ok(game_stream::StreamPusherEnum::Srt(_))
    ));
    assert!(matches!(
        create_pusher(&endpoint(StreamProtocol::Custom), &network()),
        Err(StreamError::Config(_))
    ));
}

#[test]
fn manager_applies_one_reconnect_then_continues() {
    let mut manager = PusherManager::new(&endpoint(StreamProtocol::Rtmp), &network()).unwrap();
    // not connected yet: the packet is lost to the recovery reconnect
    assert_eq!(manager.push_packet(packet()).unwrap(), false);
    // the recovery reconnected, so the next packet is delivered
    assert_eq!(manager.push_packet(packet()).unwrap(), true);
    manager.disconnect().unwrap();
    assert_eq!(manager.push_packet(packet()).unwrap(), false);
}

#[test]
fn manager_rejects_the_custom_protocol_at_construction() {
    assert!(matches!(
        PusherManager::new(&endpoint(StreamProtocol::Custom), &network()),
        Err(StreamError::Config(_))
    ));
}
