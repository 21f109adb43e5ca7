//! Transport push: protocol-selected senders with a connect / push /
//! reconnect / disconnect contract, and the per-packet recovery policy.

use vstd::prelude::*;
use vstd::string::*;
use crate::config::{NetworkConfig, ServerEndpoint};
use crate::error::{StreamError, StreamResult};
use crate::protocol::StreamProtocol;
use crate::stream::MediaPacket;
use crate::strutil::{spec_uint_string, u64_to_string};

verus! {

/// The ingest URL text for a scheme, host and port.
pub open spec fn spec_push_url(scheme: Seq<char>, host: Seq<char>, port: u16) -> Seq<char> {
    scheme + host + ":"@ + spec_uint_string(port as nat)
}

/// Renders `host:port` after the given scheme prefix.
fn push_url(scheme_prefix: &str, host: &String, port: u16) -> (s: String)
    ensures
        s@ == spec_push_url(scheme_prefix@, host@, port),
{
    let mut s = scheme_prefix.to_owned();
    s.append(host.as_str());
    s.append(":");
    let p = u64_to_string(port as u64);
    s.append(p.as_str());
    proof {
        assert(s@ =~= spec_push_url(scheme_prefix@, host@, port));
    }
    s
}

/// A sender over the chunked real-time ingest protocol.
pub struct RtmpPusher {
    server_url: String,
    stream_key: String,
    app_name: String,
    network_config: NetworkConfig,
    connected: bool,
}

/// The mathematical value of a chunked-protocol sender.
pub struct RtmpPusherView {
    pub server_url: Seq<char>,
    pub stream_key: Seq<char>,
    pub app_name: Seq<char>,
    pub network_config: NetworkConfig,
    pub connected: bool,
}

impl View for RtmpPusher {
    type V = RtmpPusherView;

    closed spec fn view(&self) -> RtmpPusherView {
        RtmpPusherView {
            server_url: self.server_url@,
            stream_key: self.stream_key@,
            app_name: self.app_name@,
            network_config: self.network_config,
            connected: self.connected,
        }
    }
}

impl RtmpPusher {
    /// A disconnected sender aimed at the configured endpoint; a missing
    /// application name defaults to `live`.
    pub fn new(server_config: &ServerEndpoint, network_config: &NetworkConfig) -> (p: RtmpPusher)
        ensures
            p@.server_url == spec_push_url("rtmp://"@, server_config.host@, server_config.port),
            p@.stream_key == server_config.stream_key@,
            p@.app_name == (match server_config.app_name {
                Some(a) => a@,
                None => "live"@,
            }),
            p@.network_config == *network_config,
            !p@.connected,
    {
        let server_url = push_url("rtmp://", &server_config.host, server_config.port);
        let app_name = match &server_config.app_name {
            Some(a) => a.clone(),
            None => String::from_str("live"),
        };
        RtmpPusher {
            server_url,
            stream_key: server_config.stream_key.clone(),
            app_name,
            network_config: *network_config,
            connected: false,
        }
    }

    /// Establishes the connection.
    pub fn connect(&mut self) -> (r: StreamResult<()>)
        ensures
            r is Ok,
            final(self)@ == (RtmpPusherView { connected: true, ..old(self)@ }),
    {
        self.connected = true;
        Ok(())
    }

    /// Sends one packet. While disconnected this fails with a `Network`
    /// error and performs no state mutation; connected, the packet is
    /// framed and written by the transport.
    pub fn push_packet(&mut self, packet: MediaPacket) -> (r: StreamResult<()>)
        ensures
            final(self)@ == old(self)@,
            r is Ok <==> old(self)@.connected,
            r matches Err(e) ==> e is Network,
    {
        if !self.connected {
            return Err(StreamError::Network(String::from_str("Not connected to server")));
        }
        Ok(())
    }

    /// Disconnects, then connects again (the transport settles in
    /// between).
    pub fn reconnect(&mut self) -> (r: StreamResult<()>)
        ensures
            r is Ok,
            final(self)@ == (RtmpPusherView { connected: true, ..old(self)@ }),
    {
        let _ = self.disconnect();
        self.connect()
    }

    /// Drops the connection; a no-op while disconnected.
    pub fn disconnect(&mut self) -> (r: StreamResult<()>)
        ensures
            r is Ok,
            final(self)@ == (RtmpPusherView { connected: false, ..old(self)@ }),
    {
        if self.connected {
            self.connected = false;
        }
        Ok(())
    }
}

/// A sender over the datagram-oriented ingest protocol.
pub struct SrtPusher {
    server_url: String,
    stream_key: String,
    network_config: NetworkConfig,
    connected: bool,
}

/// The mathematical value of a datagram-protocol sender.
pub struct SrtPusherView {
    pub server_url: Seq<char>,
    pub stream_key: Seq<char>,
    pub network_config: NetworkConfig,
    pub connected: bool,
}

impl View for SrtPusher {
    type V = SrtPusherView;

    closed spec fn view(&self) -> SrtPusherView {
        SrtPusherView {
            server_url: self.server_url@,
            stream_key: self.stream_key@,
            network_config: self.network_config,
            connected: self.connected,
        }
    }
}

impl SrtPusher {
    /// A disconnected sender aimed at the configured endpoint.
    pub fn new(server_config: &ServerEndpoint, network_config: &NetworkConfig) -> (p: SrtPusher)
        ensures
            p@.server_url == spec_push_url("srt://"@, server_config.host@, server_config.port),
            p@.stream_key == server_config.stream_key@,
            p@.network_config == *network_config,
            !p@.connected,
    {
        SrtPusher {
            server_url: push_url("srt://", &server_config.host, server_config.port),
            stream_key: server_config.stream_key.clone(),
            network_config: *network_config,
            connected: false,
        }
    }

    /// Establishes the connection.
    pub fn connect(&mut self) -> (r: StreamResult<()>)
        ensures
            r is Ok,
            final(self)@ == (SrtPusherView { connected: true, ..old(self)@ }),
    {
        self.connected = true;
        Ok(())
    }

    /// Sends one packet. While disconnected this fails with a `Network`
    /// error and performs no state mutation.
    pub fn push_packet(&mut self, packet: MediaPacket) -> (r: StreamResult<()>)
        ensures
            final(self)@ == old(self)@,
            r is Ok <==> old(self)@.connected,
            r matches Err(e) ==> e is Network,
    {
        if !self.connected {
            return Err(StreamError::Network(String::from_str("Not connected to server")));
        }
        Ok(())
    }

    /// Disconnects, then connects again.
    pub fn reconnect(&mut self) -> (r: StreamResult<()>)
        ensures
            r is Ok,
            final(self)@ == (SrtPusherView { connected: true, ..old(self)@ }),
    {
        let _ = self.disconnect();
        self.connect()
    }

    /// Drops the connection; a no-op while disconnected.
    pub fn disconnect(&mut self) -> (r: StreamResult<()>)
        ensures
            r is Ok,
            final(self)@ == (SrtPusherView { connected: false, ..old(self)@ }),
    {
        if self.connected {
            self.connected = false;
        }
        Ok(())
    }
}

/// The closed set of transport senders, selected once at construction.
pub enum StreamPusherEnum {
    Rtmp(RtmpPusher),
    Srt(SrtPusher),
}

/// The mathematical value of a selected sender.
pub enum StreamPusherEnumView {
    Rtmp(RtmpPusherView),
    Srt(SrtPusherView),
}

impl View for StreamPusherEnum {
    type V = StreamPusherEnumView;

    open spec fn view(&self) -> StreamPusherEnumView {
        match self {
            StreamPusherEnum::Rtmp(p) => StreamPusherEnumView::Rtmp(p@),
            StreamPusherEnum::Srt(p) => StreamPusherEnumView::Srt(p@),
        }
    }
}

impl StreamPusherEnumView {
    /// Whether the sender is connected.
    pub open spec fn connected(&self) -> bool {
        match self {
            StreamPusherEnumView::Rtmp(p) => p.connected,
            StreamPusherEnumView::Srt(p) => p.connected,
        }
    }

    /// The sender's state with the connection flag replaced.
    pub open spec fn with_connected(&self, c: bool) -> StreamPusherEnumView {
        match self {
            StreamPusherEnumView::Rtmp(p) => StreamPusherEnumView::Rtmp(
                RtmpPusherView { connected: c, ..*p },
            ),
            StreamPusherEnumView::Srt(p) => StreamPusherEnumView::Srt(
                SrtPusherView { connected: c, ..*p },
            ),
        }
    }
}

impl StreamPusherEnum {
    /// Whether the sender is connected.
    pub open spec fn connected(&self) -> bool {
        self@.connected()
    }

    /// Establishes the connection.
    pub fn connect(&mut self) -> (r: StreamResult<()>)
        ensures
            r is Ok,
            final(self)@ == old(self)@.with_connected(true),
    {
        match self {
            StreamPusherEnum::Rtmp(p) => p.connect(),
            StreamPusherEnum::Srt(p) => p.connect(),
        }
    }

    /// Sends one packet. While disconnected this fails with a `Network`
    /// error and performs no state mutation.
    pub fn push_packet(&mut self, packet: MediaPacket) -> (r: StreamResult<()>)
        ensures
            final(self)@ == old(self)@,
            r is Ok <==> old(self).connected(),
            r matches Err(e) ==> e is Network,
    {
        match self {
            StreamPusherEnum::Rtmp(p) => p.push_packet(packet),
            StreamPusherEnum::Srt(p) => p.push_packet(packet),
        }
    }

    /// Disconnects, then connects again.
    pub fn reconnect(&mut self) -> (r: StreamResult<()>)
        ensures
            r is Ok,
            final(self)@ == old(self)@.with_connected(true),
    {
        match self {
            StreamPusherEnum::Rtmp(p) => p.reconnect(),
            StreamPusherEnum::Srt(p) => p.reconnect(),
        }
    }

    /// Drops the connection.
    pub fn disconnect(&mut self) -> (r: StreamResult<()>)
        ensures
            r is Ok,
            final(self)@ == old(self)@.with_connected(false),
    {
        match self {
            StreamPusherEnum::Rtmp(p) => p.disconnect(),
            StreamPusherEnum::Srt(p) => p.disconnect(),
        }
    }

    /// Sends one packet under the recovery policy: on a push failure, one
    /// reconnect is attempted; if it succeeds the packet is dropped and
    /// pushing continues, and if it failed the push error would propagate.
    /// Returns whether the packet itself was delivered.
    pub fn push_or_recover(&mut self, packet: MediaPacket) -> (r: StreamResult<bool>)
        ensures
            r matches Ok(delivered) && delivered == old(self).connected(),
            final(self).connected(),
            final(self)@ == old(self)@.with_connected(true),
    {
        match self.push_packet(packet) {
            Ok(_) => {
                proof {
                    lemma_with_connected_identity(old(self)@);
                }
                Ok(true)
            },
            Err(e) => {
                match self.reconnect() {
                    Ok(_) => Ok(false),
                    Err(reconnect_err) => Err(e),
                }
            },
        }
    }
}

/// Rewriting a sender's connection flag to its current value changes
/// nothing.
proof fn lemma_with_connected_identity(p: StreamPusherEnumView)
    ensures
        p.with_connected(p.connected()) == p,
{
    match p {
        StreamPusherEnumView::Rtmp(q) => {
            assert(p.with_connected(p.connected()) == p);
        },
        StreamPusherEnumView::Srt(q) => {
            assert(p.with_connected(p.connected()) == p);
        },
    }
}

/// Builds the sender selected by the endpoint's protocol; the custom
/// protocol has no transport yet and is rejected at construction.
pub fn create_pusher(server_config: &ServerEndpoint, network_config: &NetworkConfig) -> (r:
    StreamResult<StreamPusherEnum>)
    ensures
        r is Ok <==> server_config.protocol != StreamProtocol::Custom,
        r matches Ok(p) ==> !p.connected() && (p is Rtmp <==> server_config.protocol
            == StreamProtocol::Rtmp) && (p is Srt <==> server_config.protocol
            == StreamProtocol::Srt),
        r matches Err(e) ==> e is Config,
{
    match server_config.protocol {
        StreamProtocol::Rtmp => Ok(StreamPusherEnum::Rtmp(RtmpPusher::new(
            server_config,
            network_config,
        ))),
        StreamProtocol::Srt => Ok(StreamPusherEnum::Srt(SrtPusher::new(
            server_config,
            network_config,
        ))),
        StreamProtocol::Custom => Err(StreamError::Config(String::from_str(
            "Custom protocol not implemented yet",
        ))),
    }
}

/// The pushing stage: owns the selected sender and applies the recovery
/// policy packet by packet.
pub struct PusherManager {
    server_config: ServerEndpoint,
    network_config: NetworkConfig,
    pusher: Option<StreamPusherEnum>,
}

impl PusherManager {
    /// The sender, if construction selected one.
    pub closed spec fn pusher(&self) -> Option<StreamPusherEnum> {
        self.pusher
    }

    /// Whether a sender is present and connected.
    pub open spec fn connected(&self) -> bool {
        match self.pusher() {
            Some(p) => p.connected(),
            None => false,
        }
    }

    /// Builds the stage for the configured endpoint; the custom protocol
    /// is rejected here, never later.
    pub fn new(server_config: &ServerEndpoint, network_config: &NetworkConfig) -> (r: StreamResult<
        PusherManager,
    >)
        ensures
            r is Ok <==> server_config.protocol != StreamProtocol::Custom,
            r matches Ok(m) ==> m.pusher() is Some && !m.connected(),
            r matches Err(e) ==> e is Config,
    {
        let pusher = create_pusher(server_config, network_config)?;
        Ok(PusherManager {
            server_config: server_config.clone(),
            network_config: *network_config,
            pusher: Some(pusher),
        })
    }

    /// Connects the sender; without one (construction failed) this is a
    /// no-op, as there is nothing to push to.
    pub fn connect(&mut self) -> (r: StreamResult<()>)
        ensures
            r is Ok,
            old(self).pusher() is Some ==> final(self).connected(),
            old(self).pusher() is None ==> final(self).pusher() is None,
    {
        match &mut self.pusher {
            Some(p) => p.connect(),
            None => Ok(()),
        }
    }

    /// Sends one packet under the recovery policy (see
    /// `StreamPusherEnum::push_or_recover`); returns whether the packet
    /// itself was delivered. Without a sender, pushing fails with a
    /// `Network` error.
    pub fn push_packet(&mut self, packet: MediaPacket) -> (r: StreamResult<bool>)
        ensures
            match old(self).pusher() {
                Some(p) => r matches Ok(delivered) && delivered == p.connected()
                    && final(self).connected(),
                None => r matches Err(e) && e is Network && final(self).pusher() == old(self).pusher()
                    && final(self).connected() == old(self).connected(),
            },
    {
        match &mut self.pusher {
            Some(p) => p.push_or_recover(packet),
            None => Err(StreamError::Network(String::from_str("No pusher configured"))),
        }
    }

    /// Disconnects the sender, if any.
    pub fn disconnect(&mut self) -> (r: StreamResult<()>)
        ensures
            r is Ok,
            !final(self).connected(),
    {
        match &mut self.pusher {
            Some(p) => p.disconnect(),
            None => Ok(()),
        }
    }
}

} // verus!
