//! The error taxonomy shared by the client pipeline and the server core.

use vstd::prelude::*;

verus! {

/// Every failure the streaming library reports, by category.
///
/// Errors that wrap an underlying failure carry a descriptive message.
#[derive(Debug, Clone)]
pub enum StreamError {
    Io(String),
    Serialization(String),
    Rtmp(String),
    WebRtc(String),
    Codec(String),
    Capture(String),
    Config(String),
    Network(String),
    Auth(String),
    StreamNotFound(String),
    InvalidStreamKey(String),
    ConnectionClosed,
    Timeout,
    Internal(String),
}

/// The usual result type of the library's fallible operations.
pub type StreamResult<T> = Result<T, StreamError>;

impl StreamError {
    /// True exactly when the error is a network-category failure.
    pub fn is_network(&self) -> (r: bool)
        ensures
            r == self is Network,
    {
        match self {
            StreamError::Network(_) => true,
            _ => false,
        }
    }

    /// True exactly when the error reports an absent stream.
    pub fn is_stream_not_found(&self) -> (r: bool)
        ensures
            r == self is StreamNotFound,
    {
        match self {
            StreamError::StreamNotFound(_) => true,
            _ => false,
        }
    }

    /// True exactly when the error is an authentication failure.
    pub fn is_auth(&self) -> (r: bool)
        ensures
            r == self is Auth,
    {
        match self {
            StreamError::Auth(_) => true,
            _ => false,
        }
    }
}

} // verus!
