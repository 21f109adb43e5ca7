use game_stream::{MediaBuffer, MediaPacket, StreamError, WebRtcPeerConnection};

#[test]
fn empty_cache_yields_no_init_packets() {
    let buffer = MediaBuffer::new();
    assert!(buffer.get_init_packets().is_empty());
}

#[test]
fn newer_keyframe_replaces_the_cached_one() {
    let mut buffer = MediaBuffer::new();
    buffer.add_packet(MediaPacket::Video { data: vec![1], timestamp: 1, is_keyframe: true });
    buffer.add_packet(MediaPacket::Video { data: vec![2], timestamp: 2, is_keyframe: true });
    let init = buffer.get_init_packets();
    assert_eq!(init.len(), 1);
    match &init[0] {
        MediaPacket::Video { data, timestamp, .. } => {
            assert_eq!(data, &vec![2]);
            assert_eq!(*timestamp, 2);
        },
        _ => panic!("expected the latest keyframe"),
    }
}

#[test]
fn duplicate_copies_the_packet_value() {
    let packet = MediaPacket::Audio { data: vec![1, 2, 3], timestamp: 4 };
    match packet.duplicate() {
        MediaPacket::Audio { data, timestamp } => {
            assert_eq!(data, vec![1, 2, 3]);
            assert_eq!(timestamp, 4);
        },
        _ => panic!("duplicate changed the packet kind"),
    }
}

#[test]
fn session_expiry_is_strictly_over_five_minutes() {
    let session = WebRtcPeerConnection::new(1, "k".to_string(), 0);
    assert!(!session.is_expired(5 * 60_000));
    assert!(!session.is_expired(5 * 60_000 + 59_999));
    assert!(session.is_expired(6 * 60_000));
    // a clock that reads before the last activity never expires a session
    let late = WebRtcPeerConnection::new(2, "k".to_string(), 10 * 60_000);
    assert!(!late.is_expired(0));
}

#[test]
fn answering_an_offer_records_activity() {
    let mut session = WebRtcPeerConnection::new(1, "k".to_string(), 0);
    let sdp = session.handle_offer("v=0", 7 * 60_000);
    assert!(sdp.starts_with("v=0\r\no=- 420 2 IN IP4 127.0.0.1\r\n"));
    assert_eq!(session.get_last_activity(), 7 * 60_000);
    assert!(!session.is_expired(8 * 60_000));
}

#[test]
fn error_category_probes_match_their_variants() {
    assert!(StreamError::Network("n".to_string()).is_network());
    assert!(!StreamError::Timeout.is_network());
    assert!(StreamError::StreamNotFound("k".to_string()).is_stream_not_found());
    assert!(StreamError::Auth("a".to_string()).is_auth());
    assert!(!StreamError::ConnectionClosed.is_auth());
}
