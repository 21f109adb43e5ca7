use game_stream::{
    AudioCapturer, AudioSource, CaptureConfig, CaptureManager, FrameType, VideoCapturer,
    VideoSource,
};

#[test]
fn screen_capture_yields_full_hd_rgba_frames() {
    let capturer =
        VideoCapturer::new(&VideoSource::Screen { display_index: 0 }, true).unwrap();
    let frame = capturer.capture_frame(777).unwrap();
    assert!(matches!(frame.frame_type, FrameType::Video));
    assert_eq!(frame.timestamp, 777);
    assert_eq!(frame.width, Some(1920));
    assert_eq!(frame.height, Some(1080));
    assert_eq!(frame.data.len(), 1920 * 1080 * 4);
}

#[test]
fn window_capture_yields_hd_frames() {
    let capturer = VideoCapturer::new(
        &VideoSource::Window { window_title: "game".to_string() },
        false,
    )
    .unwrap();
    let frame = capturer.capture_frame(1).unwrap();
    assert_eq!(frame.width, Some(1280));
    assert_eq!(frame.height, Some(720));
    assert_eq!(frame.data.len(), 1280 * 720 * 4);
}

#[test]
fn region_capture_sizes_to_the_region() {
    let capturer = VideoCapturer::new(
        &VideoSource::Region { x: 10, y: 20, width: 100, height: 50 },
        false,
    )
    .unwrap();
    let frame = capturer.capture_frame(2).unwrap();
    assert_eq!(frame.width, Some(100));
    assert_eq!(frame.height, Some(50));
    assert_eq!(frame.data.len(), 100 * 50 * 4);
}

#[test]
fn video_pacing_follows_the_target_rate() {
    let capturer =
        VideoCapturer::new(&VideoSource::Screen { display_index: 0 }, true).unwrap();
    assert_eq!(capturer.frame_interval_ms(), 33);
    assert!(!capturer.capture_due(1_032, 1_000));
    assert!(capturer.capture_due(1_033, 1_000));
    assert_eq!(capturer.remaining_delay_ms(1_010, 1_000), 23);
}

#[test]
fn audio_blocks_cover_their_sample_time() {
    let capturer = AudioCapturer::new(&AudioSource::Default).unwrap();
    // 1024 samples at 44100 Hz cover 23 whole milliseconds
    assert_eq!(capturer.frame_duration_ms(1024), 23);
    let frame = capturer.capture_audio_frame(1024, 5).unwrap();
    assert!(matches!(frame.frame_type, FrameType::Audio));
    assert_eq!(frame.timestamp, 5);
    assert_eq!(frame.width, None);
    assert_eq!(frame.height, None);
    // 16-bit stereo samples
    assert_eq!(frame.data.len(), 1024 * 2 * 2);
}

#[test]
fn capture_stage_skips_audio_when_disabled() {
    let with_audio = CaptureConfig {
        video_source: VideoSource::Screen { display_index: 0 },
        audio_source: AudioSource::Default,
        capture_cursor: true,
    };
    assert!(CaptureManager::new(&with_audio).unwrap().has_audio_capturer());
    let without_audio = CaptureConfig {
        video_source: VideoSource::Screen { display_index: 0 },
        audio_source: AudioSource::Disabled,
        capture_cursor: true,
    };
    assert!(!CaptureManager::new(&without_audio).unwrap().has_audio_capturer());
}
