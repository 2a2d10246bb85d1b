//! Plain data types of the client's public surface: connection
//! statistics, certificate material, configuration values and common
//! network types. They carry values between the embedding application
//! and its callers and have no behaviour of their own.

use vstd::prelude::*;

verus! {

/// Connection statistics.
#[derive(Debug, Clone)]
pub struct QuicConnectionStats {
    /// Statistics of the current transmission path.
    pub path: QuicPathStats,
    /// Frames transmitted.
    pub frame_tx: QuicFrameStats,
    /// Frames received.
    pub frame_rx: QuicFrameStats,
    /// UDP datagrams transmitted.
    pub udp_tx: QuicUdpStats,
    /// UDP datagrams received.
    pub udp_rx: QuicUdpStats,
}

/// Path-specific statistics.
#[derive(Debug, Clone, Copy)]
pub struct QuicPathStats {
    /// Round-trip time estimate, in milliseconds.
    pub rtt_millis: u64,
    /// Congestion window size, in bytes.
    pub cwnd: u64,
    /// Packets deemed lost.
    pub lost_packets: u64,
    /// Bytes in packets deemed lost.
    pub lost_bytes: u64,
    /// Packets sent.
    pub sent_packets: u64,
    /// Congestion events encountered.
    pub congestion_events: u64,
}

/// Frame transmission or reception statistics.
#[derive(Debug, Clone, Copy)]
pub struct QuicFrameStats {
    /// ACK frames.
    pub acks: u64,
    /// CRYPTO frames.
    pub crypto: u64,
    /// CONNECTION_CLOSE frames.
    pub connection_close: u64,
    /// DATA_BLOCKED frames.
    pub data_blocked: u64,
    /// DATAGRAM frames.
    pub datagram: u64,
    /// HANDSHAKE_DONE frames.
    pub handshake_done: u64,
    /// MAX_DATA frames.
    pub max_data: u64,
    /// MAX_STREAM_DATA frames.
    pub max_stream_data: u64,
    /// MAX_STREAMS frames for bidirectional streams.
    pub max_streams_bidi: u64,
    /// MAX_STREAMS frames for unidirectional streams.
    pub max_streams_uni: u64,
    /// NEW_CONNECTION_ID frames.
    pub new_connection_id: u64,
    /// NEW_TOKEN frames.
    pub new_token: u64,
    /// PATH_CHALLENGE frames.
    pub path_challenge: u64,
    /// PATH_RESPONSE frames.
    pub path_response: u64,
    /// PING frames.
    pub ping: u64,
    /// RESET_STREAM frames.
    pub reset_stream: u64,
    /// RETIRE_CONNECTION_ID frames.
    pub retire_connection_id: u64,
    /// STREAM frames.
    pub stream: u64,
    /// STREAM_DATA_BLOCKED frames.
    pub stream_data_blocked: u64,
    /// STREAMS_BLOCKED frames for bidirectional streams.
    pub streams_blocked_bidi: u64,
    /// STREAMS_BLOCKED frames for unidirectional streams.
    pub streams_blocked_uni: u64,
    /// STOP_SENDING frames.
    pub stop_sending: u64,
}

/// UDP-level statistics.
#[derive(Debug, Clone, Copy)]
pub struct QuicUdpStats {
    /// Datagrams carried.
    pub datagrams: u64,
    /// Bytes carried.
    pub bytes: u64,
    /// I/O operations performed.
    pub ios: u64,
}

/// Certificate chain for TLS, DER-encoded.
#[derive(Debug, Clone)]
pub struct CertificateChain {
    /// The certificates, leaf first.
    pub certificates: Vec<Vec<u8>>,
}

/// Private key for TLS, DER-encoded.
#[derive(Debug, Clone)]
pub struct PrivateKey {
    /// The key bytes.
    pub key_data: Vec<u8>,
}

/// Transport configuration parameters.
#[derive(Debug, Clone)]
pub struct TransportConfig {
    /// Maximum idle timeout, in milliseconds.
    pub max_idle_timeout: Option<u64>,
    /// Maximum concurrent unidirectional streams.
    pub max_uni_streams: Option<u32>,
    /// Maximum concurrent bidirectional streams.
    pub max_bi_streams: Option<u32>,
    /// Connection-level flow control limit, in bytes.
    pub max_data: Option<u64>,
}

/// Endpoint configuration.
#[derive(Debug, Clone)]
pub struct EndpointConfig {
    /// Transport parameters for connections of this endpoint.
    pub transport: TransportConfig,
    /// ALPN protocol identifiers, preferred first.
    pub alpn_protocols: Vec<String>,
}

/// A connection id, as raw bytes.
#[derive(Debug, Clone)]
pub struct ConnectionId {
    /// The id bytes.
    pub bytes: Vec<u8>,
}

/// Network address information.
#[derive(Debug, Clone)]
pub struct SocketAddress {
    /// The IP address as text.
    pub ip: String,
    /// The port.
    pub port: u16,
}

/// Direction of a stream.
#[derive(Debug, Clone, Copy, PartialEq, Eq, Structural)]
pub enum StreamDirection {
    /// Both sides may send.
    Bidirectional,
    /// Only the opener may send.
    Unidirectional,
}

/// Kept for compatibility with earlier callers; carries nothing.
#[derive(Debug)]
pub struct QuicStream {
    _unused: (),
}

} // verus!
