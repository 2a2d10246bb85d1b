//! Error taxonomy for the client.
//!
//! Every failure surfaced by the client carries a kind (the `QuicError`
//! variant), a structured fault classification, and a human-readable
//! message. Retryability is decided from the kind and fault alone,
//! never by inspecting message text.

use vstd::prelude::*;

verus! {

use vstd::string::StringExecFns;

/// How a connection-level failure came about. Drives retryability:
/// timeouts, refusals, unreachable destinations and handshake failures
/// are transient, the rest are not.
#[derive(Debug, Clone, Copy, PartialEq, Eq, Structural)]
pub enum ConnectFault {
    /// The connection attempt timed out.
    Timeout,
    /// The peer refused the connection.
    Refused,
    /// The destination was unreachable.
    Unreachable,
    /// The handshake was started but the connection could not be
    /// established.
    EstablishFailed,
    /// The connection could not even be initiated (bad server name,
    /// endpoint already closed, and the like).
    InitiateFailed,
    /// The request URL could not be parsed.
    InvalidUrl,
    /// The request URL holds no host.
    MissingHost,
    /// The destination address was not a valid socket address.
    InvalidAddress,
    /// Opening a stream on an established connection failed.
    StreamOpenFailed,
}

/// How a stream-level failure came about. Only losses of the underlying
/// connection and failed request writes are worth a retry; payload
/// violations are not.
#[derive(Debug, Clone, Copy, PartialEq, Eq, Structural)]
pub enum StreamFault {
    /// The connection was lost mid-request.
    ConnectionLost,
    /// Writing the request bytes failed.
    SendFailed,
    /// The peer sent more than the response size ceiling.
    TooLong,
    /// The response was not valid UTF-8.
    DecodeFailed,
    /// Any other stream-level failure (peer stopped or reset the
    /// stream, illegal read ordering, and the like).
    Other,
}

/// Error surfaced by client operations.
#[derive(Debug, Clone, PartialEq)]
pub enum QuicError {
    /// Failed to parse the destination, establish a connection, or open
    /// a stream on one.
    Connection { fault: ConnectFault, message: String },
    /// Local endpoint or runtime setup failure.
    Endpoint { message: String },
    /// Write, finish or read failure mid-request.
    Stream { fault: StreamFault, message: String },
    /// Certificate or TLS configuration failure.
    Tls { message: String },
    /// Invalid configuration supplied.
    Config { message: String },
    /// Failure produced by the timeout wrapper.
    Network { message: String },
    /// Low-level write fault surfaced without higher context.
    Write { message: String },
}

/// A connection fault that indicates a transient condition.
pub open spec fn spec_connect_fault_retryable(fault: ConnectFault) -> bool {
    ||| fault == ConnectFault::Timeout
    ||| fault == ConnectFault::Refused
    ||| fault == ConnectFault::Unreachable
    ||| fault == ConnectFault::EstablishFailed
}

/// A stream fault that indicates the connection may simply have been
/// lost, so a fresh attempt could succeed.
pub open spec fn spec_stream_fault_retryable(fault: StreamFault) -> bool {
    ||| fault == StreamFault::ConnectionLost
    ||| fault == StreamFault::SendFailed
}

/// The retry policy table: which errors a failed attempt may be
/// retried after.
pub open spec fn spec_is_retryable(e: QuicError) -> bool {
    match e {
        QuicError::Connection { fault, .. } => spec_connect_fault_retryable(fault),
        QuicError::Network { .. } => true,
        QuicError::Stream { fault, .. } => spec_stream_fault_retryable(fault),
        QuicError::Endpoint { .. } => false,
        QuicError::Tls { .. } => false,
        QuicError::Config { .. } => false,
        QuicError::Write { .. } => false,
    }
}

/// Decide whether a failed attempt may be retried.
///
/// Connection faults are retried when they indicate a timeout, a
/// refusal, an unreachable destination or a failed establishment;
/// timeout-wrapper failures are always retried; stream faults are
/// retried only when the connection may have been lost or the request
/// write failed. Endpoint, TLS, configuration and low-level write
/// errors are never retried.
pub fn is_retryable_error(e: &QuicError) -> (r: bool)
    ensures
        r == spec_is_retryable(*e),
{
    match e {
        QuicError::Connection { fault, .. } => {
            match fault {
                ConnectFault::Timeout => true,
                ConnectFault::Refused => true,
                ConnectFault::Unreachable => true,
                ConnectFault::EstablishFailed => true,
                _ => false,
            }
        },
        QuicError::Network { .. } => true,
        QuicError::Stream { fault, .. } => {
            match fault {
                StreamFault::ConnectionLost => true,
                StreamFault::SendFailed => true,
                _ => false,
            }
        },
        _ => false,
    }
}

impl QuicError {
    /// The error's kind and message as one line of text, in place of a
    /// `Display` implementation.
    pub fn describe(&self) -> (r: String)
        ensures
            (match *self {
                QuicError::Connection { message, .. } => r@ == "Connection error: "@ + message@,
                QuicError::Endpoint { message } => r@ == "Endpoint error: "@ + message@,
                QuicError::Stream { message, .. } => r@ == "Stream error: "@ + message@,
                QuicError::Tls { message } => r@ == "TLS error: "@ + message@,
                QuicError::Config { message } => r@ == "Configuration error: "@ + message@,
                QuicError::Network { message } => r@ == "Network error: "@ + message@,
                QuicError::Write { message } => r@ == "Write error: "@ + message@,
            }),
    {
        match self {
            QuicError::Connection { message, .. } => concat_prefix("Connection error: ", message),
            QuicError::Endpoint { message } => concat_prefix("Endpoint error: ", message),
            QuicError::Stream { message, .. } => concat_prefix("Stream error: ", message),
            QuicError::Tls { message } => concat_prefix("TLS error: ", message),
            QuicError::Config { message } => concat_prefix("Configuration error: ", message),
            QuicError::Network { message } => concat_prefix("Network error: ", message),
            QuicError::Write { message } => concat_prefix("Write error: ", message),
        }
    }
}

/// Join a fixed prefix and a detail message into one `String`.
fn concat_prefix(prefix: &str, detail: &String) -> (r: String)
    ensures
        r@ == prefix@ + detail@,
{
    let mut out = prefix.to_owned();
    out.append(detail.as_str());
    out
}

/// Write operation errors when sending data on a stream.
#[derive(Debug, Clone, PartialEq)]
pub enum QuicWriteException {
    /// The stream was stopped by the peer, with an application-defined
    /// error code.
    Stopped(u64),
    /// The connection (or the stream itself) is gone, with a
    /// description of how.
    ConnectionLost(String),
}

/// The descriptive text of a write exception.
pub open spec fn spec_write_exception_text(ex: QuicWriteException) -> Seq<char> {
    match ex {
        QuicWriteException::Stopped(_) => "Stream was stopped by peer"@,
        QuicWriteException::ConnectionLost(m) => "Connection was lost: "@ + m@,
    }
}

impl QuicWriteException {
    /// The exception as one line of text.
    pub fn describe(&self) -> (r: String)
        ensures
            r@ == spec_write_exception_text(*self),
    {
        match self {
            QuicWriteException::Stopped(_) => "Stream was stopped by peer".to_owned(),
            QuicWriteException::ConnectionLost(m) => concat_prefix("Connection was lost: ", m),
        }
    }
}

/// Read operation errors when receiving data from a stream.
#[derive(Debug, Clone, PartialEq)]
pub enum QuicReadException {
    /// The stream was reset by the peer, with an application-defined
    /// error code.
    Reset(u64),
    /// The connection was lost, with a description of how.
    ConnectionLost(String),
    /// This was a 0-RTT stream and the server rejected it.
    ZeroRttRejected,
    /// The stream was already stopped, finished or reset.
    ClosedStream,
    /// An ordered read followed an unordered read.
    IllegalOrderedRead,
}

/// The descriptive text of a read exception.
pub open spec fn spec_read_exception_text(ex: QuicReadException) -> Seq<char> {
    match ex {
        QuicReadException::Reset(_) => "Stream was reset by peer"@,
        QuicReadException::ConnectionLost(m) => "Connection was lost: "@ + m@,
        QuicReadException::ZeroRttRejected => "0-RTT was rejected"@,
        QuicReadException::ClosedStream => "Stream was closed"@,
        QuicReadException::IllegalOrderedRead => "Illegal ordered read"@,
    }
}

impl QuicReadException {
    /// The exception as one line of text.
    pub fn describe(&self) -> (r: String)
        ensures
            r@ == spec_read_exception_text(*self),
    {
        match self {
            QuicReadException::Reset(_) => "Stream was reset by peer".to_owned(),
            QuicReadException::ConnectionLost(m) => concat_prefix("Connection was lost: ", m),
            QuicReadException::ZeroRttRejected => "0-RTT was rejected".to_owned(),
            QuicReadException::ClosedStream => "Stream was closed".to_owned(),
            QuicReadException::IllegalOrderedRead => "Illegal ordered read".to_owned(),
        }
    }
}

/// Errors when reading all remaining data from a stream.
#[derive(Debug, Clone, PartialEq)]
pub enum QuicReadToEndException {
    /// A read error occurred.
    Read(QuicReadException),
    /// The stream's data exceeds the size limit.
    TooLong,
}

/// The descriptive text of a read-to-end exception.
pub open spec fn spec_read_to_end_exception_text(ex: QuicReadToEndException) -> Seq<char> {
    match ex {
        QuicReadToEndException::Read(re) => spec_read_exception_text(re),
        QuicReadToEndException::TooLong => "Stream data exceeds size limit"@,
    }
}

impl QuicReadToEndException {
    /// The exception as one line of text.
    pub fn describe(&self) -> (r: String)
        ensures
            r@ == spec_read_to_end_exception_text(*self),
    {
        match self {
            QuicReadToEndException::Read(re) => re.describe(),
            QuicReadToEndException::TooLong => "Stream data exceeds size limit".to_owned(),
        }
    }
}

/// Errors when sending unreliable datagrams.
#[derive(Debug, Clone, PartialEq)]
pub enum QuicDatagramException {
    /// Datagrams are not supported (or disabled) by the peer.
    UnsupportedByPeer,
    /// The datagram exceeds the connection's maximum datagram size.
    TooLarge {
        /// The maximum size a datagram may have, or zero when unknown.
        max_size: usize,
    },
    /// The connection was lost, with a description of how.
    ConnectionLost(String),
}

/// The descriptive text of a datagram exception.
pub open spec fn spec_datagram_exception_text(ex: QuicDatagramException) -> Seq<char> {
    match ex {
        QuicDatagramException::UnsupportedByPeer => "Datagrams are not supported by the peer"@,
        QuicDatagramException::TooLarge { .. } => "Datagram is too large"@,
        QuicDatagramException::ConnectionLost(m) => "Connection was lost: "@ + m@,
    }
}

impl QuicDatagramException {
    /// The exception as one line of text.
    pub fn describe(&self) -> (r: String)
        ensures
            r@ == spec_datagram_exception_text(*self),
    {
        match self {
            QuicDatagramException::UnsupportedByPeer => {
                "Datagrams are not supported by the peer".to_owned()
            },
            QuicDatagramException::TooLarge { .. } => "Datagram is too large".to_owned(),
            QuicDatagramException::ConnectionLost(m) => concat_prefix("Connection was lost: ", m),
        }
    }
}

} // verus!
