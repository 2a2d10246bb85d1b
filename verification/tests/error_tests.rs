use quic_client::ConnectFault;
use quic_client::QuicError;
use quic_client::QuicReadException;
use quic_client::QuicReadToEndException;
use quic_client::QuicWriteException;
use quic_client::StreamFault;
use quic_client::is_retryable_error;

fn conn(fault: ConnectFault) -> QuicError {
    QuicError::Connection { fault, message: "m".to_string() }
}

fn stream(fault: StreamFault) -> QuicError {
    QuicError::Stream { fault, message: "m".to_string() }
}

#[test]
fn transient_connection_faults_are_retryable() {
    assert!(is_retryable_error(&conn(ConnectFault::Timeout)));
    assert!(is_retryable_error(&conn(ConnectFault::Refused)));
    assert!(is_retryable_error(&conn(ConnectFault::Unreachable)));
    assert!(is_retryable_error(&conn(ConnectFault::EstablishFailed)));
}

#[test]
fn other_connection_faults_are_not_retryable() {
    assert!(!is_retryable_error(&conn(ConnectFault::InvalidUrl)));
    assert!(!is_retryable_error(&conn(ConnectFault::MissingHost)));
    assert!(!is_retryable_error(&conn(ConnectFault::InvalidAddress)));
    assert!(!is_retryable_error(&conn(ConnectFault::InitiateFailed)));
    assert!(!is_retryable_error(&conn(ConnectFault::StreamOpenFailed)));
}

#[test]
fn network_errors_are_always_retryable() {
    let e = QuicError::Network { message: "Request timed out".to_string() };
    assert!(is_retryable_error(&e));
}

#[test]
fn stream_faults_are_retryable_only_on_loss_or_failed_send() {
    assert!(is_retryable_error(&stream(StreamFault::ConnectionLost)));
    assert!(is_retryable_error(&stream(StreamFault::SendFailed)));
    assert!(!is_retryable_error(&stream(StreamFault::TooLong)));
    assert!(!is_retryable_error(&stream(StreamFault::DecodeFailed)));
    assert!(!is_retryable_error(&stream(StreamFault::Other)));
}

#[test]
fn config_tls_endpoint_and_write_errors_are_not_retryable() {
    assert!(!is_retryable_error(&QuicError::Config { message: "m".to_string() }));
    assert!(!is_retryable_error(&QuicError::Tls { message: "m".to_string() }));
    assert!(!is_retryable_error(&QuicError::Endpoint { message: "m".to_string() }));
    assert!(!is_retryable_error(&QuicError::Write { message: "m".to_string() }));
}

#[test]
fn describe_prefixes_each_kind() {
    let e = QuicError::Connection {
        fault: ConnectFault::Refused,
        message: "connection refused".to_string(),
    };
    assert_eq!(e.describe(), "Connection error: connection refused");
    let e = QuicError::Tls { message: "invalid certificate".to_string() };
    assert_eq!(e.describe(), "TLS error: invalid certificate");
    let e = QuicError::Network { message: "Request timed out".to_string() };
    assert_eq!(e.describe(), "Network error: Request timed out");
    let e = QuicError::Config { message: "bad".to_string() };
    assert_eq!(e.describe(), "Configuration error: bad");
    let e = QuicError::Endpoint { message: "down".to_string() };
    assert_eq!(e.describe(), "Endpoint error: down");
    let e = QuicError::Write { message: "w".to_string() };
    assert_eq!(e.describe(), "Write error: w");
    let e = QuicError::Stream {
        fault: StreamFault::Other,
        message: "s".to_string(),
    };
    assert_eq!(e.describe(), "Stream error: s");
}

#[test]
fn exception_descriptions() {
    let w = QuicWriteException::Stopped(5);
    assert_eq!(w.describe(), "Stream was stopped by peer");
    let w = QuicWriteException::ConnectionLost("gone".to_string());
    assert_eq!(w.describe(), "Connection was lost: gone");

    let r = QuicReadException::Reset(3);
    assert_eq!(r.describe(), "Stream was reset by peer");
    let r = QuicReadException::ClosedStream;
    assert_eq!(r.describe(), "Stream was closed");

    let t = QuicReadToEndException::TooLong;
    assert_eq!(t.describe(), "Stream data exceeds size limit");
    let t = QuicReadToEndException::Read(QuicReadException::IllegalOrderedRead);
    assert_eq!(t.describe(), "Illegal ordered read");
}
