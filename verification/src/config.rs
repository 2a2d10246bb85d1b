//! Client configuration: the six tunables that govern pooling, retry
//! and timeout behaviour.

use vstd::prelude::*;

verus! {

/// Configuration for the client.
///
/// All durations are in milliseconds. `retry_attempts` counts the
/// retries after the first attempt, so `0` means "try once, never
/// retry".
#[derive(Debug, Clone, Copy, PartialEq, Eq, Structural)]
pub struct QuicClientConfig {
    /// Maximum number of pooled connections kept per host key.
    pub max_connections_per_host: usize,
    /// Connection timeout in milliseconds.
    pub connect_timeout_ms: u64,
    /// Request timeout in milliseconds.
    pub request_timeout_ms: u64,
    /// Number of retry attempts for failed requests.
    pub retry_attempts: u32,
    /// Base retry delay in milliseconds; attempt `i` waits `(i + 1)`
    /// times this unit.
    pub retry_delay_ms: u64,
    /// Keep-alive timeout for pooled connections in milliseconds.
    pub keep_alive_timeout_ms: u64,
}

/// The default configuration values.
pub open spec fn spec_default_config() -> QuicClientConfig {
    QuicClientConfig {
        max_connections_per_host: 10,
        connect_timeout_ms: 5000,
        request_timeout_ms: 30000,
        retry_attempts: 3,
        retry_delay_ms: 1000,
        keep_alive_timeout_ms: 60000,
    }
}

impl Default for QuicClientConfig {
    fn default() -> (r: QuicClientConfig)
        ensures
            r == spec_default_config(),
    {
        QuicClientConfig {
            max_connections_per_host: 10,
            connect_timeout_ms: 5000,
            request_timeout_ms: 30000,
            retry_attempts: 3,
            retry_delay_ms: 1000,
            keep_alive_timeout_ms: 60000,
        }
    }
}

/// Create a new configuration holding the default values.
pub fn quic_client_config_new() -> (r: QuicClientConfig)
    ensures
        r == spec_default_config(),
{
    QuicClientConfig::default()
}

} // verus!
