//! Deriving the pool's partition key from a request URL.
//!
//! A URL is parsed only far enough to extract its host and port; the
//! port defaults to 443 when the URL names none. A URL that cannot be
//! parsed, or that holds no host, is rejected with a non-retryable
//! connection error.

use vstd::prelude::*;
use crate::errors::ConnectFault;
use crate::errors::QuicError;
use crate::errors::spec_is_retryable;
use crate::pool::HostKey;

verus! {

/// The port used when the URL names none.
pub const DEFAULT_PORT: u16 = 443;

/// What the url library makes of a URL text: `None` when it does not
/// parse, otherwise its host text (if it has a host part) and its
/// explicit port (if it names one). The result depends on the text
/// alone.
pub uninterp spec fn spec_url_parts(url: Seq<char>) -> Option<(Option<Seq<char>>, Option<u16>)>;

/// Relies on `url::Url::parse`, `url::Url::host_str` and
/// `url::Url::port`: parses the URL and hands back its host text and
/// explicit port. The outer `None` means the URL did not parse; an
/// inner `None` host means the URL holds no host part. The result is
/// [`spec_url_parts`] of the text.
#[verifier::external_body]
fn url_host_and_port(url: &str) -> (r: Option<(Option<String>, Option<u16>)>)
    ensures
        (match spec_url_parts(url@) {
            None => r is None,
            Some((host, port)) => r matches Some((h, p)) && p == port && (match host {
                None => h is None,
                Some(host_text) => h matches Some(h_text) && h_text@ == host_text,
            }),
        }),
{
    match url::Url::parse(url) {
        Ok(u) => Some((u.host_str().map(|h| h.to_string()), u.port())),
        Err(_) => None,
    }
}

/// Build the pool key from the parsed host and port of a URL: the
/// host as given, the port defaulted to [`DEFAULT_PORT`] when absent.
/// A URL without a host is rejected with a non-retryable
/// connection error.
pub fn target_from_parts(host: Option<String>, port: Option<u16>) -> (r: Result<
    HostKey,
    QuicError,
>)
    ensures
        (match host {
            Some(h) => r matches Ok(k) && k.host@ == h@ && k.port == (match port {
                Some(p) => p,
                None => DEFAULT_PORT,
            }),
            None => r matches Err(e) && e matches QuicError::Connection { fault, message }
                && fault == ConnectFault::MissingHost && message@ == "URL must contain a host"@
                && !spec_is_retryable(e),
        }),
{
    match host {
        Some(h) => {
            let p = match port {
                Some(p) => p,
                None => DEFAULT_PORT,
            };
            Ok(HostKey { host: h, port: p })
        },
        None => Err(
            QuicError::Connection {
                fault: ConnectFault::MissingHost,
                message: "URL must contain a host".to_owned(),
            },
        ),
    }
}

/// Parse `url` far enough to derive the pool key, going by what the
/// url library makes of the text ([`spec_url_parts`]): a URL that does
/// not parse is rejected as an invalid URL, one without a host as
/// missing its host — both non-retryable connection errors — and one
/// with a host yields exactly that host, with the port defaulted to
/// [`DEFAULT_PORT`] when the URL names none.
pub fn parse_target(url: &str) -> (r: Result<HostKey, QuicError>)
    ensures
        (match spec_url_parts(url@) {
            None => r matches Err(e) && e matches QuicError::Connection { fault, message }
                && fault == ConnectFault::InvalidUrl && message@ == "Invalid URL"@
                && !spec_is_retryable(e),
            Some((host, port)) => (match host {
                None => r matches Err(e) && e matches QuicError::Connection { fault, message }
                    && fault == ConnectFault::MissingHost && message@
                    == "URL must contain a host"@ && !spec_is_retryable(e),
                Some(host_text) => r matches Ok(k) && k.host@ == host_text && k.port == (
                match port {
                    Some(p) => p,
                    None => DEFAULT_PORT,
                }),
            }),
        }),
{
    match url_host_and_port(url) {
        None => Err(
            QuicError::Connection {
                fault: ConnectFault::InvalidUrl,
                message: "Invalid URL".to_owned(),
            },
        ),
        Some((host, port)) => target_from_parts(host, port),
    }
}

} // verus!
