//! The client orchestrator's supervision policy: bounded pipeline
//! restarts with a configured wait between attempts. Wiring the stages
//! through queues and running them concurrently is the surrounding
//! process's part.

use vstd::prelude::*;
use crate::capture::CaptureManager;
use crate::config::ClientConfig;
use crate::encoder::EncoderManager;
use crate::error::StreamResult;
use crate::pusher::PusherManager;

verus! {

/// The streaming client: the three pipeline stages and the reconnect
/// counter of the current supervision run.
pub struct StreamingClient {
    config: ClientConfig,
    capture_manager: CaptureManager,
    encoder_manager: EncoderManager,
    pusher_manager: PusherManager,
    reconnect_attempts: u32,
}

impl StreamingClient {
    /// The client's configuration.
    pub closed spec fn config(&self) -> ClientConfig {
        self.config
    }

    /// How many restarts the current supervision run has used.
    pub closed spec fn reconnect_attempts(&self) -> u32 {
        self.reconnect_attempts
    }

    /// Builds the client's three stages. Construction fails exactly where
    /// a stage's construction fails: an unsupported codec (`Codec` error)
    /// or the custom transport protocol (`Config` error).
    pub fn new(config: ClientConfig) -> (r: StreamResult<StreamingClient>)
        ensures
            r is Ok <==> (config.encoding.video.codec is H264 && config.encoding.audio.codec is Aac
                && !(config.server.protocol is Custom)),
            r matches Ok(c) ==> c.config() == config && c.reconnect_attempts() == 0,
            r matches Err(e) ==> e is Codec || e is Config,
    {
        let capture_manager = CaptureManager::new(&config.capture)?;
        let encoder_manager = EncoderManager::new(&config.encoding)?;
        let pusher_manager = PusherManager::new(&config.server, &config.network)?;
        Ok(StreamingClient {
            config,
            capture_manager,
            encoder_manager,
            pusher_manager,
            reconnect_attempts: 0,
        })
    }

    /// Starts a fresh supervision run.
    pub fn reset_attempts(&mut self)
        ensures
            final(self).config() == old(self).config(),
            final(self).reconnect_attempts() == 0,
    {
        self.reconnect_attempts = 0;
    }

    /// The supervision decision after a failed pipeline attempt: with
    /// auto-reconnect off, fail immediately; otherwise count the attempt
    /// and, while the configured maximum is not exceeded, wait the
    /// configured interval (in seconds) and restart — so a pipeline that
    /// always fails waits exactly `max_reconnect_attempts` times before
    /// the failure becomes fatal.
    pub fn next_reconnect_delay(&mut self) -> (r: Option<u64>)
        requires
            old(self).reconnect_attempts() < u32::MAX,
        ensures
            final(self).config() == old(self).config(),
            !old(self).config().stream.auto_reconnect ==> r is None
                && final(self).reconnect_attempts() == old(self).reconnect_attempts(),
            old(self).config().stream.auto_reconnect ==> final(self).reconnect_attempts()
                == old(self).reconnect_attempts() + 1 && r == (if old(self).reconnect_attempts()
                + 1 > old(self).config().stream.max_reconnect_attempts {
                Option::<u64>::None
            } else {
                Some(old(self).config().stream.reconnect_interval)
            }),
    {
        if !self.config.stream.auto_reconnect {
            return None;
        }
        self.reconnect_attempts = self.reconnect_attempts + 1;
        if self.reconnect_attempts > self.config.stream.max_reconnect_attempts {
            None
        } else {
            Some(self.config.stream.reconnect_interval)
        }
    }
}

} // verus!
