use game_stream::{AudioCodec, ClientConfig, StreamError, StreamProtocol, StreamingClient, VideoCodec};

fn config(auto: bool, max_attempts: u32, interval: u64) -> ClientConfig {
    let mut c = ClientConfig::default();
    c.stream.auto_reconnect = auto;
    c.stream.max_reconnect_attempts = max_attempts;
    c.stream.reconnect_interval = interval;
    c
}

#[test]
fn always_failing_pipeline_waits_exactly_max_attempts_times() {
    let mut client = StreamingClient::new(config(true, 2, 0)).unwrap();
    let mut sleeps = 0;
    loop {
        match client.next_reconnect_delay() {
            Some(delay) => {
                assert_eq!(delay, 0);
                sleeps += 1;
            },
            None => break,
        }
    }
    assert_eq!(sleeps, 2);
}

#[test]
fn reconnect_delay_is_the_configured_interval() {
    let mut client = StreamingClient::new(config(true, 3, 5)).unwrap();
    assert_eq!(client.next_reconnect_delay(), Some(5));
    assert_eq!(client.next_reconnect_delay(), Some(5));
    assert_eq!(client.next_reconnect_delay(), Some(5));
    assert_eq!(client.next_reconnect_delay(), None);
}

#[test]
fn disabled_auto_reconnect_fails_immediately() {
    let mut client = StreamingClient::new(config(false, 10, 5)).unwrap();
    assert_eq!(client.next_reconnect_delay(), None);
    assert_eq!(client.next_reconnect_delay(), None);
}

#[test]
fn a_fresh_run_restarts_the_attempt_budget() {
    let mut client = StreamingClient::new(config(true, 1, 0)).unwrap();
    assert_eq!(client.next_reconnect_delay(), Some(0));
    assert_eq!(client.next_reconnect_delay(), None);
    client.reset_attempts();
    assert_eq!(client.next_reconnect_delay(), Some(0));
}

#[test]
fn unsupported_video_codec_fails_at_construction() {
    let mut c = ClientConfig::default();
    c.encoding.video.codec = VideoCodec::Vp9;
    assert!(matches!(StreamingClient::new(c), Err(StreamError::Codec(_))));
}

#[test]
fn unsupported_audio_codec_fails_at_construction() {
    let mut c = ClientConfig::default();
    c.encoding.audio.codec = AudioCodec::Opus;
    assert!(matches!(StreamingClient::new(c), Err(StreamError::Codec(_))));
}

#[test]
fn custom_transport_fails_at_construction() {
    let mut c = ClientConfig::default();
    c.server.protocol = StreamProtocol::Custom;
    assert!(matches!(StreamingClient::new(c), Err(StreamError::Config(_))));
}

#[test]
fn default_client_configuration_matches_the_documented_values() {
    let c = ClientConfig::default();
    assert_eq!(c.server.protocol, StreamProtocol::Rtmp);
    assert_eq!(c.server.host, "localhost");
    assert_eq!(c.server.port, 1935);
    assert_eq!(c.server.stream_key, "test_stream");
    assert_eq!(c.server.app_name.as_deref(), Some("live"));
    assert!(c.stream.auto_reconnect);
    assert_eq!(c.stream.reconnect_interval, 5);
    assert_eq!(c.stream.max_reconnect_attempts, 10);
    assert_eq!(c.encoding.video.width, 1920);
    assert_eq!(c.encoding.video.height, 1080);
    assert_eq!(c.encoding.video.fps, 30);
    assert_eq!(c.encoding.video.bitrate, 2500);
    assert_eq!(c.encoding.video.keyframe_interval, 2);
    assert_eq!(c.encoding.video.preset, "fast");
    assert_eq!(c.encoding.audio.sample_rate, 44100);
    assert_eq!(c.encoding.audio.channels, 2);
    assert_eq!(c.encoding.audio.bitrate, 128);
    assert_eq!(c.network.buffer_size, 65536);
}
