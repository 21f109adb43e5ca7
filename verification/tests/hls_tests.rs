use game_stream::{
    segment_name, u32_to_string, u64_to_string, HlsManager, HlsPlaylist, StorageConfig,
    StreamError,
};

fn storage(duration: u32, window: u32) -> StorageConfig {
    StorageConfig {
        hls_segment_dir: "./hls".to_string(),
        hls_segment_duration: duration,
        hls_playlist_length: window,
        dash_segment_dir: "./dash".to_string(),
        dash_segment_duration: duration,
    }
}

#[test]
fn decimal_rendering_is_exact() {
    assert_eq!(u32_to_string(0), "0");
    assert_eq!(u32_to_string(7), "7");
    assert_eq!(u32_to_string(10), "10");
    assert_eq!(u32_to_string(65535), "65535");
    assert_eq!(u32_to_string(u32::MAX), "4294967295");
    assert_eq!(u64_to_string(u64::MAX), "18446744073709551615");
}

#[test]
fn segment_names_follow_the_addressing_scheme() {
    assert_eq!(segment_name(0), "segment_0.ts");
    assert_eq!(segment_name(37), "segment_37.ts");
}

#[test]
fn two_segment_playlist_renders_bit_exact() {
    // window of two: after five boundaries the advertised segments are 3 and 4
    let mut playlist = HlsPlaylist::new("k".to_string(), &storage(6, 2));
    for i in 0..5u32 {
        playlist.add_segment(segment_name(i), 6, 1_000 * (i as u64));
    }
    assert_eq!(
        playlist.generate_m3u8(),
        "#EXTM3U\n#EXT-X-VERSION:3\n#EXT-X-TARGETDURATION:6\n#EXT-X-MEDIA-SEQUENCE:3\n#EXTINF:6.0,\nsegment_3.ts\n#EXTINF:6.0,\nsegment_4.ts\n"
    );
}

#[test]
fn empty_playlist_renders_headers_only() {
    let playlist = HlsPlaylist::new("k".to_string(), &storage(6, 10));
    assert_eq!(
        playlist.generate_m3u8(),
        "#EXTM3U\n#EXT-X-VERSION:3\n#EXT-X-TARGETDURATION:6\n"
    );
}

#[test]
fn window_never_exceeds_bound_and_drops_oldest_first() {
    let mut playlist = HlsPlaylist::new("k".to_string(), &storage(6, 3));
    assert_eq!(playlist.segment_count(), 0);
    for i in 0..10u32 {
        playlist.add_segment(segment_name(i), 6, 100 * (i as u64));
        assert!(playlist.segment_count() <= 3);
    }
    assert_eq!(playlist.segment_count(), 3);
    // the oldest were dropped: the window starts at sequence 7
    let text = playlist.generate_m3u8();
    assert!(text.contains("#EXT-X-MEDIA-SEQUENCE:7\n"));
    assert!(text.contains("segment_7.ts"));
    assert!(text.contains("segment_9.ts"));
    assert!(!text.contains("segment_6.ts"));
}

#[test]
fn zero_window_advertises_nothing() {
    let mut playlist = HlsPlaylist::new("k".to_string(), &storage(6, 0));
    playlist.add_segment(segment_name(0), 6, 0);
    assert_eq!(playlist.segment_count(), 0);
    assert_eq!(playlist.next_sequence(), 1);
}

#[test]
fn boundaries_are_due_immediately_and_then_every_target_duration() {
    let mut playlist = HlsPlaylist::new("k".to_string(), &storage(6, 10));
    assert!(playlist.should_generate_segment(0));
    playlist.add_segment(segment_name(0), 6, 10_000);
    assert!(!playlist.should_generate_segment(10_000));
    assert!(!playlist.should_generate_segment(15_999));
    assert!(playlist.should_generate_segment(16_000));
    // a clock that reads earlier than the last boundary is never due
    assert!(!playlist.should_generate_segment(9_000));
}

#[test]
fn processing_a_live_stream_materializes_playlist_and_segment() {
    let mut registry = game_stream::StreamManager::new();
    let info = game_stream::StreamInfo {
        stream_id: 1,
        stream_key: "k".to_string(),
        title: None,
        description: None,
        created_at: 0,
        is_live: false,
        viewer_count: 0,
        video_config: game_stream::VideoConfig {
            width: 1920,
            height: 1080,
            fps: 30,
            bitrate: 2500,
            codec: game_stream::VideoCodec::H264,
        },
        audio_config: game_stream::AudioConfig {
            sample_rate: 44100,
            channels: 2,
            bitrate: 128,
            codec: game_stream::AudioCodec::Aac,
        },
    };
    registry.create_stream("k".to_string(), info).unwrap();
    registry.set_stream_status("k", game_stream::StreamStatus::Live);
    let mut hls = HlsManager::new(&storage(6, 10));
    let stream = registry.get_stream("k").unwrap();
    hls.process_stream("k", stream, 50_000).unwrap();
    let text = hls.get_playlist("k").unwrap();
    assert!(text.contains("segment_0.ts"));
    let data = hls.get_segment("k", "segment_0.ts").unwrap();
    assert_eq!(data.len(), game_stream::SEGMENT_BLOB_BYTES);
    assert!(data.iter().all(|b| *b == 0));
    // within the target duration no second boundary is due
    hls.process_stream("k", stream, 52_000).unwrap();
    assert!(!hls.get_playlist("k").unwrap().contains("segment_1.ts"));
    // past it, the next segment appears
    hls.process_stream("k", stream, 56_000).unwrap();
    assert!(hls.get_playlist("k").unwrap().contains("segment_1.ts"));
}

#[test]
fn processing_a_stream_that_is_not_live_does_nothing() {
    let mut registry = game_stream::StreamManager::new();
    let info = game_stream::StreamInfo {
        stream_id: 1,
        stream_key: "idle".to_string(),
        title: None,
        description: None,
        created_at: 0,
        is_live: false,
        viewer_count: 0,
        video_config: game_stream::VideoConfig {
            width: 1920,
            height: 1080,
            fps: 30,
            bitrate: 2500,
            codec: game_stream::VideoCodec::H264,
        },
        audio_config: game_stream::AudioConfig {
            sample_rate: 44100,
            channels: 2,
            bitrate: 128,
            codec: game_stream::AudioCodec::Aac,
        },
    };
    registry.create_stream("idle".to_string(), info).unwrap();
    let mut hls = HlsManager::new(&storage(6, 10));
    let stream = registry.get_stream("idle").unwrap();
    hls.process_stream("idle", stream, 50_000).unwrap();
    match hls.get_playlist("idle") {
        Err(StreamError::StreamNotFound(_)) => {},
        other => panic!("expected StreamNotFound, got {:?}", other.is_ok()),
    }
}

#[test]
fn absent_playlist_and_segment_lookups_are_stream_not_found() {
    let hls = HlsManager::new(&storage(6, 10));
    assert!(matches!(hls.get_playlist("nope"), Err(StreamError::StreamNotFound(_))));
    assert!(matches!(
        hls.get_segment("nope", "segment_0.ts"),
        Err(StreamError::StreamNotFound(_))
    ));
}
