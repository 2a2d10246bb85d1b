//! A request/response client layer over a connection-oriented, stream-
//! multiplexing transport.
//!
//! The crate provides the three pieces of policy such a client needs —
//! a per-host connection pool with recency-based expiry, a retry
//! orchestrator with linear backoff, and a timeout wrapper — together
//! with the error taxonomy that drives the retry decisions. All
//! bookkeeping and policy is verified; the transport calls themselves
//! (handshake, stream I/O) are performed by the embedding application,
//! which feeds their outcomes back into the verified state.

pub mod config;
pub mod errors;
pub mod models;
pub mod pool;
pub mod retry;
pub mod target;
pub mod timeout;
pub mod transport;

pub use config::QuicClientConfig;
pub use config::quic_client_config_new;
pub use errors::ConnectFault;
pub use errors::QuicDatagramException;
pub use errors::QuicError;
pub use errors::QuicReadException;
pub use errors::QuicReadToEndException;
pub use errors::QuicWriteException;
pub use errors::StreamFault;
pub use errors::is_retryable_error;
pub use pool::ConnectionPool;
pub use pool::HostKey;
pub use pool::PooledEntry;
pub use retry::SendPlan;
pub use retry::backoff_delay;
pub use retry::retry_decision;
pub use retry::send_plan;
pub use target::parse_target;
pub use timeout::resolve_timeout;
