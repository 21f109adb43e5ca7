//! The capture pipeline's data and pacing rules. Talking to an OS capture
//! backend is an external concern; the capturers here compute frame
//! cadence and materialize placeholder frames of the right shape at a
//! given instant.

use vstd::prelude::*;
use crate::config::{AudioSource, CaptureConfig, VideoSource};
use crate::error::StreamResult;

verus! {

/// The media kind of a captured frame.
#[derive(Debug, Clone, Copy, PartialEq, Eq, Structural)]
pub enum FrameType {
    Video,
    Audio,
}

/// A captured raw frame.
pub struct CapturedFrame {
    pub frame_type: FrameType,
    pub data: Vec<u8>,
    /// Milliseconds since the epoch.
    pub timestamp: u64,
    pub width: Option<u32>,
    pub height: Option<u32>,
}

/// The mathematical value of a captured frame.
pub struct CapturedFrameView {
    pub frame_type: FrameType,
    pub data: Seq<u8>,
    pub timestamp: u64,
    pub width: Option<u32>,
    pub height: Option<u32>,
}

impl View for CapturedFrame {
    type V = CapturedFrameView;

    open spec fn view(&self) -> CapturedFrameView {
        CapturedFrameView {
            frame_type: self.frame_type,
            data: self.data@,
            timestamp: self.timestamp,
            width: self.width,
            height: self.height,
        }
    }
}

/// A raw video frame of `w` by `h` pixels, four bytes each, captured at
/// `now_ms`; the pixel content comes from the capture backend, modeled as
/// a zero block.
pub open spec fn spec_video_frame(w: u32, h: u32, now_ms: u64) -> CapturedFrameView {
    CapturedFrameView {
        frame_type: FrameType::Video,
        data: Seq::new((w * h * 4) as nat, |i: int| 0u8),
        timestamp: now_ms,
        width: Some(w),
        height: Some(h),
    }
}

/// A raw audio frame of `samples` 16-bit samples per channel over
/// `channels` channels, captured at `now_ms`.
pub open spec fn spec_audio_frame(samples: u32, channels: u32, now_ms: u64) -> CapturedFrameView {
    CapturedFrameView {
        frame_type: FrameType::Audio,
        data: Seq::new((samples * channels * 2) as nat, |i: int| 0u8),
        timestamp: now_ms,
        width: None,
        height: None,
    }
}

/// A zero block of `n` bytes.
fn zero_block(n: usize) -> (v: Vec<u8>)
    ensures
        v@ == Seq::new(n as nat, |i: int| 0u8),
{
    let v = vec![0u8; n];
    proof {
        assert(v@ =~= Seq::new(n as nat, |i: int| 0u8));
    }
    v
}

/// The video capturer: paces captures to the target frame rate.
pub struct VideoCapturer {
    source: VideoSource,
    capture_cursor: bool,
    target_fps: u32,
}

impl VideoCapturer {
    /// The configured source.
    pub closed spec fn source(&self) -> VideoSource {
        self.source
    }

    /// Whether the cursor is captured.
    pub closed spec fn captures_cursor(&self) -> bool {
        self.capture_cursor
    }

    /// The target frame rate.
    pub closed spec fn target_fps(&self) -> u32 {
        self.target_fps
    }

    /// A capturer for `source` at the default thirty frames per second.
    pub fn new(source: &VideoSource, capture_cursor: bool) -> (r: StreamResult<VideoCapturer>)
        ensures
            r matches Ok(c) && c.source() == *source && c.captures_cursor() == capture_cursor
                && c.target_fps() == 30,
    {
        Ok(VideoCapturer { source: source.clone(), capture_cursor, target_fps: 30 })
    }

    /// Milliseconds between frames at the target rate.
    pub fn frame_interval_ms(&self) -> (r: u64)
        requires
            self.target_fps() >= 1,
        ensures
            r == 1000 as u64 / self.target_fps() as u64,
    {
        1000 / self.target_fps as u64
    }

    /// Whether a frame is due at `now_ms`, the last capture having been at
    /// `last_ms`: yes once a whole frame interval has elapsed.
    pub fn capture_due(&self, now_ms: u64, last_ms: u64) -> (r: bool)
        requires
            self.target_fps() >= 1,
        ensures
            r == (now_ms >= last_ms && now_ms - last_ms >= 1000 as u64 / self.target_fps() as u64),
    {
        now_ms >= last_ms && now_ms - last_ms >= self.frame_interval_ms()
    }

    /// How long to wait at `now_ms` before the next frame is due.
    pub fn remaining_delay_ms(&self, now_ms: u64, last_ms: u64) -> (r: u64)
        requires
            self.target_fps() >= 1,
            now_ms >= last_ms,
            now_ms - last_ms < 1000 as u64 / self.target_fps() as u64,
        ensures
            r == 1000 as u64 / self.target_fps() as u64 - (now_ms - last_ms),
    {
        self.frame_interval_ms() - (now_ms - last_ms)
    }

    /// Captures one full-screen frame at `now_ms` (1920 by 1080).
    pub fn capture_screen(&self, display_index: u32, now_ms: u64) -> (r: StreamResult<
        CapturedFrame,
    >)
        ensures
            r matches Ok(f) && f@ == spec_video_frame(1920, 1080, now_ms),
    {
        Ok(CapturedFrame {
            frame_type: FrameType::Video,
            data: zero_block(1920 * 1080 * 4),
            timestamp: now_ms,
            width: Some(1920),
            height: Some(1080),
        })
    }

    /// Captures one window frame at `now_ms` (1280 by 720).
    pub fn capture_window(&self, window_title: &str, now_ms: u64) -> (r: StreamResult<
        CapturedFrame,
    >)
        ensures
            r matches Ok(f) && f@ == spec_video_frame(1280, 720, now_ms),
    {
        Ok(CapturedFrame {
            frame_type: FrameType::Video,
            data: zero_block(1280 * 720 * 4),
            timestamp: now_ms,
            width: Some(1280),
            height: Some(720),
        })
    }

    /// Captures one frame of the given region at `now_ms`.
    pub fn capture_region(&self, x: u32, y: u32, width: u32, height: u32, now_ms: u64) -> (r:
        StreamResult<CapturedFrame>)
        requires
            width * height * 4 <= usize::MAX,
        ensures
            r matches Ok(f) && f@ == spec_video_frame(width, height, now_ms),
    {
        let size = (width as usize) * (height as usize) * 4;
        Ok(CapturedFrame {
            frame_type: FrameType::Video,
            data: zero_block(size),
            timestamp: now_ms,
            width: Some(width),
            height: Some(height),
        })
    }

    /// Captures one frame from the configured source at `now_ms`.
    pub fn capture_frame(&self, now_ms: u64) -> (r: StreamResult<CapturedFrame>)
        requires
            self.source() matches VideoSource::Region { width, height, .. } ==> width * height * 4
                <= usize::MAX,
        ensures
            r matches Ok(f) && f@ == (match self.source() {
                VideoSource::Screen { .. } => spec_video_frame(1920, 1080, now_ms),
                VideoSource::Window { .. } => spec_video_frame(1280, 720, now_ms),
                VideoSource::Region { width, height, .. } => spec_video_frame(
                    width,
                    height,
                    now_ms,
                ),
            }),
    {
        match &self.source {
            VideoSource::Screen { display_index } => self.capture_screen(*display_index, now_ms),
            VideoSource::Window { window_title } => self.capture_window(
                window_title.as_str(),
                now_ms,
            ),
            VideoSource::Region { x, y, width, height } => self.capture_region(
                *x,
                *y,
                *width,
                *height,
                now_ms,
            ),
        }
    }
}

/// The audio capturer: emits fixed-size sample blocks at the rate the
/// sample clock dictates.
pub struct AudioCapturer {
    source: AudioSource,
    sample_rate: u32,
    channels: u32,
}

impl AudioCapturer {
    /// The configured source.
    pub closed spec fn source(&self) -> AudioSource {
        self.source
    }

    /// Samples per second.
    pub closed spec fn sample_rate(&self) -> u32 {
        self.sample_rate
    }

    /// Channel count.
    pub closed spec fn channels(&self) -> u32 {
        self.channels
    }

    /// A capturer for `source` at the default rate of 44100 samples per
    /// second over two channels.
    pub fn new(source: &AudioSource) -> (r: StreamResult<AudioCapturer>)
        ensures
            r matches Ok(c) && c.source() == *source && c.sample_rate() == 44100 && c.channels()
                == 2,
    {
        Ok(AudioCapturer { source: source.clone(), sample_rate: 44100, channels: 2 })
    }

    /// Milliseconds covered by one block of `frame_size` samples.
    pub fn frame_duration_ms(&self, frame_size: u32) -> (r: u64)
        requires
            self.sample_rate() >= 1,
        ensures
            r as int == (frame_size as int * 1000) / (self.sample_rate() as int),
    {
        (frame_size as u64 * 1000) / self.sample_rate as u64
    }

    /// Captures one block of `frame_size` 16-bit samples per channel at
    /// `now_ms`.
    pub fn capture_audio_frame(&self, frame_size: u32, now_ms: u64) -> (r: StreamResult<
        CapturedFrame,
    >)
        requires
            frame_size * self.channels() * 2 <= usize::MAX,
        ensures
            r matches Ok(f) && f@ == spec_audio_frame(frame_size, self.channels(), now_ms),
    {
        let size = (frame_size as usize) * (self.channels as usize) * 2;
        Ok(CapturedFrame {
            frame_type: FrameType::Audio,
            data: zero_block(size),
            timestamp: now_ms,
            width: None,
            height: None,
        })
    }
}

/// The capture stage: one video capturer and, unless audio is disabled,
/// one audio capturer.
pub struct CaptureManager {
    config: CaptureConfig,
    video_capturer: Option<VideoCapturer>,
    audio_capturer: Option<AudioCapturer>,
}

impl CaptureManager {
    /// The stage's configuration.
    pub closed spec fn config(&self) -> CaptureConfig {
        self.config
    }

    /// The video capturer.
    pub closed spec fn video_capturer(&self) -> Option<VideoCapturer> {
        self.video_capturer
    }

    /// The audio capturer, absent when audio capture is disabled.
    pub closed spec fn audio_capturer(&self) -> Option<AudioCapturer> {
        self.audio_capturer
    }

    /// Whether the stage captures audio.
    pub fn has_audio_capturer(&self) -> (r: bool)
        ensures
            r == (self.audio_capturer() is Some),
    {
        self.audio_capturer.is_some()
    }

    /// Builds the stage: video capture always, audio capture exactly when
    /// the audio source is not disabled.
    pub fn new(config: &CaptureConfig) -> (r: StreamResult<CaptureManager>)
        ensures
            r matches Ok(m) && ({
                &&& m.config() == *config
                &&& m.video_capturer() matches Some(v) && v.source() == config.video_source
                    && v.captures_cursor() == config.capture_cursor && v.target_fps() == 30
                &&& (m.audio_capturer() is Some <==> !(config.audio_source is Disabled))
                &&& (m.audio_capturer() matches Some(a) ==> a.source() == config.audio_source
                    && a.sample_rate() == 44100 && a.channels() == 2)
            }),
    {
        let video_capturer = Some(VideoCapturer::new(&config.video_source, config.capture_cursor)?);
        let audio_capturer = match &config.audio_source {
            AudioSource::Disabled => None,
            src => Some(AudioCapturer::new(src)?),
        };
        Ok(CaptureManager { config: config.clone(), video_capturer, audio_capturer })
    }
}

} // verus!
