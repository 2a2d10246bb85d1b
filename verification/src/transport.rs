//! The boundary to the transport library.
//!
//! The transport's calls themselves (connect, open a stream, write,
//! read) suspend on network I/O and are made by the embedding
//! application. What stands here is everything that can be decided
//! from their outcomes: the conversion of each transport error into
//! the client's taxonomy, with the fault classification that drives
//! retries, and the decoding of a raw response into text.

use vstd::prelude::*;
use crate::errors::ConnectFault;
use crate::errors::QuicError;
use crate::errors::QuicReadException;
use crate::errors::QuicReadToEndException;
use crate::errors::QuicWriteException;
use crate::errors::StreamFault;
use crate::errors::spec_is_retryable;
use crate::errors::spec_read_to_end_exception_text;
use crate::errors::spec_write_exception_text;

verus! {

use vstd::string::StrSliceExecFns;
use vstd::string::StringExecFns;
use vstd::string::StringSliceAdditionalSpecFns;
use vstd::utf8::valid_utf8;
use vstd::utf8::decode_utf8;

/// The ceiling on response size: one mebibyte. Reads beyond it fail
/// rather than exhaust memory.
pub const RESPONSE_SIZE_LIMIT: usize = 1048576;

#[verifier::external_type_specification]
#[verifier::external_body]
/// Declares `quinn::WriteError` so its values can cross this boundary.
pub struct ExWriteError(quinn::WriteError);

#[verifier::external_type_specification]
#[verifier::external_body]
/// Declares `quinn::ClosedStream` so its values can cross this boundary.
pub struct ExClosedStream(quinn::ClosedStream);

#[verifier::external_type_specification]
#[verifier::external_body]
/// Declares `quinn::ReadToEndError` so its values can cross this boundary.
pub struct ExReadToEndError(quinn::ReadToEndError);

#[verifier::external_type_specification]
#[verifier::external_body]
/// Declares `quinn::ConnectionError` so its values can cross this boundary.
pub struct ExConnectionError(quinn::ConnectionError);

#[verifier::external_type_specification]
#[verifier::external_body]
/// Declares `quinn::ConnectError` so its values can cross this boundary.
pub struct ExConnectError(quinn::ConnectError);

/// Relies on the variant structure of `quinn::WriteError`: `Stopped`
/// carries the peer's application error code; `ConnectionLost`,
/// `ClosedStream` and `ZeroRttRejected` all mean the stream can carry
/// no more data, and map to `ConnectionLost` with a description.
#[verifier::external_body]
fn write_exception_from(e: quinn::WriteError) -> (r: QuicWriteException) {
    match e {
        quinn::WriteError::Stopped(code) => QuicWriteException::Stopped(u64::from(code)),
        quinn::WriteError::ConnectionLost(ce) => {
            QuicWriteException::ConnectionLost(format!("{:?}", ce))
        },
        quinn::WriteError::ClosedStream => {
            QuicWriteException::ConnectionLost("Stream was closed".to_string())
        },
        quinn::WriteError::ZeroRttRejected => {
            QuicWriteException::ConnectionLost("0-RTT was rejected".to_string())
        },
    }
}

/// Relies on the variant structures of `quinn::ReadToEndError` and
/// `quinn::ReadError`: `TooLong` means the size limit was exceeded,
/// and each read error variant maps to its counterpart, with the
/// peer's error code where one is carried.
#[verifier::external_body]
fn read_to_end_exception_from(e: quinn::ReadToEndError) -> (r: QuicReadToEndException) {
    match e {
        quinn::ReadToEndError::TooLong => QuicReadToEndException::TooLong,
        quinn::ReadToEndError::Read(re) => QuicReadToEndException::Read(
            match re {
                quinn::ReadError::Reset(code) => QuicReadException::Reset(u64::from(code)),
                quinn::ReadError::ConnectionLost(ce) => {
                    QuicReadException::ConnectionLost(format!("{:?}", ce))
                },
                quinn::ReadError::ZeroRttRejected => QuicReadException::ZeroRttRejected,
                quinn::ReadError::ClosedStream => QuicReadException::ClosedStream,
                quinn::ReadError::IllegalOrderedRead => QuicReadException::IllegalOrderedRead,
            },
        ),
    }
}

/// Relies on the `Debug` rendering of `quinn::ConnectionError` for a
/// description of the failure; nothing is assumed of the text.
#[verifier::external_body]
fn connection_error_text(e: &quinn::ConnectionError) -> (r: String) {
    format!("{:?}", e)
}

/// Relies on the `Debug` rendering of `quinn::ConnectError` for a
/// description of the failure; nothing is assumed of the text.
#[verifier::external_body]
fn connect_error_text(e: &quinn::ConnectError) -> (r: String) {
    format!("{:?}", e)
}

/// The stream error surfaced when writing the request bytes fails.
/// Always a retryable `SendFailed` stream fault: the connection may
/// simply have been lost, so a fresh attempt could succeed.
pub fn write_exception_failure(ex: QuicWriteException) -> (r: QuicError)
    ensures
        r matches QuicError::Stream { fault, message } && fault == StreamFault::SendFailed
            && message@ == "Failed to send data: "@ + spec_write_exception_text(ex),
        spec_is_retryable(r),
{
    let detail = ex.describe();
    let mut message = "Failed to send data: ".to_owned();
    message.append(detail.as_str());
    QuicError::Stream { fault: StreamFault::SendFailed, message }
}

/// The stream error surfaced when writing the request bytes fails,
/// from the transport's own error value.
pub fn send_data_failure(e: quinn::WriteError) -> (r: QuicError)
    ensures
        r matches QuicError::Stream { fault, .. } && fault == StreamFault::SendFailed,
        spec_is_retryable(r),
{
    write_exception_failure(write_exception_from(e))
}

/// The stream error surfaced when finishing the send side fails. The
/// transport reports that failure only for a stream that was already
/// finished or reset, which the taxonomy counts as a loss of the
/// stream: a retryable `ConnectionLost` fault.
pub fn finish_failure(_e: quinn::ClosedStream) -> (r: QuicError)
    ensures
        r matches QuicError::Stream { fault, message } && fault == StreamFault::ConnectionLost
            && message@ == "Failed to finish send stream: Stream was already closed"@,
        spec_is_retryable(r),
{
    QuicError::Stream {
        fault: StreamFault::ConnectionLost,
        message: "Failed to finish send stream: Stream was already closed".to_owned(),
    }
}

/// The stream error surfaced when reading the response fails:
/// retryable exactly when the underlying connection was lost; a
/// response over the size ceiling is a `TooLong` fault and every other
/// read failure an `Other` fault, neither worth a retry.
pub fn read_exception_failure(ex: QuicReadToEndException) -> (r: QuicError)
    ensures
        r matches QuicError::Stream { fault, message } && message@ == "Failed to read response: "@
            + spec_read_to_end_exception_text(ex) && fault == (match ex {
            QuicReadToEndException::TooLong => StreamFault::TooLong,
            QuicReadToEndException::Read(QuicReadException::ConnectionLost(_)) => (
            StreamFault::ConnectionLost),
            QuicReadToEndException::Read(_) => StreamFault::Other,
        }),
        spec_is_retryable(r) <==> ex matches QuicReadToEndException::Read(
            QuicReadException::ConnectionLost(_),
        ),
{
    let fault = match &ex {
        QuicReadToEndException::TooLong => StreamFault::TooLong,
        QuicReadToEndException::Read(QuicReadException::ConnectionLost(_)) => {
            StreamFault::ConnectionLost
        },
        QuicReadToEndException::Read(_) => StreamFault::Other,
    };
    let detail = ex.describe();
    let mut message = "Failed to read response: ".to_owned();
    message.append(detail.as_str());
    QuicError::Stream { fault, message }
}

/// The stream error surfaced when reading the response fails, from
/// the transport's own error value.
pub fn read_response_failure(e: quinn::ReadToEndError) -> (r: QuicError)
    ensures
        r matches QuicError::Stream { fault, .. } && (fault == StreamFault::ConnectionLost
            || fault == StreamFault::TooLong || fault == StreamFault::Other),
        spec_is_retryable(r) ==> (r matches QuicError::Stream { fault, .. } && fault
            == StreamFault::ConnectionLost),
{
    read_exception_failure(read_to_end_exception_from(e))
}

/// The connection error surfaced when a started handshake fails: a
/// retryable `EstablishFailed` fault.
pub fn establish_failure(e: quinn::ConnectionError) -> (r: QuicError)
    ensures
        r matches QuicError::Connection { fault, .. } && fault == ConnectFault::EstablishFailed,
        spec_is_retryable(r),
{
    let detail = connection_error_text(&e);
    let mut message = "Failed to establish connection: ".to_owned();
    message.append(detail.as_str());
    QuicError::Connection { fault: ConnectFault::EstablishFailed, message }
}

/// The connection error surfaced when the connection could not even be
/// initiated: a non-retryable `InitiateFailed` fault.
pub fn initiate_failure(e: quinn::ConnectError) -> (r: QuicError)
    ensures
        r matches QuicError::Connection { fault, .. } && fault == ConnectFault::InitiateFailed,
        !spec_is_retryable(r),
{
    let detail = connect_error_text(&e);
    let mut message = "Failed to initiate connection: ".to_owned();
    message.append(detail.as_str());
    QuicError::Connection { fault: ConnectFault::InitiateFailed, message }
}

/// The connection error surfaced when opening a bidirectional stream
/// on an established connection fails: a non-retryable
/// `StreamOpenFailed` fault.
pub fn open_stream_failure(e: quinn::ConnectionError) -> (r: QuicError)
    ensures
        r matches QuicError::Connection { fault, .. } && fault == ConnectFault::StreamOpenFailed,
        !spec_is_retryable(r),
{
    let detail = connection_error_text(&e);
    let mut message = "Failed to open bidirectional stream: ".to_owned();
    message.append(detail.as_str());
    QuicError::Connection { fault: ConnectFault::StreamOpenFailed, message }
}

/// Relies on `String::from_utf8`: succeeds exactly on valid UTF-8, and
/// then carries the decoded characters of the input bytes.
#[verifier::external_body]
fn utf8_to_string(bytes: Vec<u8>) -> (r: Option<String>)
    ensures
        r is Some <==> valid_utf8(bytes@),
        (match r {
            Some(s) => s@ == decode_utf8(bytes@),
            None => true,
        }),
{
    String::from_utf8(bytes).ok()
}

/// The request payload as the bytes written to the stream: the UTF-8
/// encoding of the text.
pub fn request_bytes(data: &str) -> (r: Vec<u8>)
    ensures
        r@ == data.spec_bytes(),
{
    data.as_bytes_vec()
}

/// Decode the received response bytes as UTF-8 text. A response that
/// is not valid UTF-8 is a payload-contract violation, not a network
/// fault: it fails with a non-retryable `DecodeFailed` stream fault.
pub fn decode_response(bytes: Vec<u8>) -> (r: Result<String, QuicError>)
    ensures
        r is Ok <==> valid_utf8(bytes@),
        (match r {
            Ok(s) => s@ == decode_utf8(bytes@),
            Err(e) => e matches QuicError::Stream { fault, message } && fault
                == StreamFault::DecodeFailed && message@ == "Response is not valid UTF-8"@
                && !spec_is_retryable(e),
        }),
{
    match utf8_to_string(bytes) {
        Some(s) => Ok(s),
        None => Err(
            QuicError::Stream {
                fault: StreamFault::DecodeFailed,
                message: "Response is not valid UTF-8".to_owned(),
            },
        ),
    }
}

} // verus!
