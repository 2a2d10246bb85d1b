//! The timeout wrapper's decision: how the outcome of racing an
//! operation against a deadline is surfaced.
//!
//! The race itself is a timer the embedding application runs; it hands
//! the result here as `Some(outcome)` when the operation finished
//! first and `None` when the deadline fired first. An expired deadline
//! becomes a Network-kind "timed out" error, which the retry policy
//! counts as retryable.

use vstd::prelude::*;
use crate::errors::QuicError;
use crate::errors::spec_is_retryable;

verus! {

/// Surface the outcome of a timed operation: the operation's own
/// result when it beat the deadline, and a Network-kind error carrying
/// `timeout_message` when the deadline fired first.
pub fn resolve_timeout(outcome: Option<Result<String, QuicError>>, timeout_message: &str) -> (r:
    Result<String, QuicError>)
    ensures
        (match outcome {
            Some(x) => r == x,
            None => r matches Err(e) && e matches QuicError::Network { message } && message@
                == timeout_message@ && spec_is_retryable(e),
        }),
{
    match outcome {
        Some(x) => x,
        None => Err(QuicError::Network { message: timeout_message.to_owned() }),
    }
}

} // verus!
