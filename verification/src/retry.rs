//! The retry orchestrator: a bounded retry loop with classification-
//! driven linear backoff.
//!
//! A request is attempted up to `retry_attempts + 1` times. A
//! successful attempt returns immediately; a non-retryable failure
//! stops the loop at once; a retryable failure before the last allowed
//! attempt is followed by a backoff sleep of `retry_delay_ms *
//! (attempt + 1)` milliseconds. On total failure the error of the
//! final attempt is the one surfaced.
//!
//! The attempts themselves suspend on network I/O, so the embedding
//! application drives them and consults [`retry_decision`] after each
//! failure. [`send_plan`] runs the same policy over a pre-listed
//! sequence of attempt outcomes, which pins the whole loop down in one
//! contract.

use vstd::prelude::*;
use crate::config::QuicClientConfig;
use crate::errors::QuicError;
use crate::errors::is_retryable_error;
use crate::errors::spec_is_retryable;

verus! {

/// An outcome on which the retry loop stops: a success, or a failure
/// that is not worth retrying.
pub open spec fn spec_stops(o: Result<String, QuicError>) -> bool {
    match o {
        Ok(_) => true,
        Err(e) => !spec_is_retryable(e),
    }
}

/// The linear backoff delay slept after failed attempt `attempt`:
/// `unit * (attempt + 1)` milliseconds, saturated at `u64::MAX`.
pub open spec fn spec_backoff_delay(unit: u64, attempt: int) -> u64 {
    if unit * (attempt + 1) <= u64::MAX {
        (unit * (attempt + 1)) as u64
    } else {
        u64::MAX
    }
}

/// Compute the backoff delay for a failed attempt.
pub fn backoff_delay(unit: u64, attempt: u32) -> (r: u64)
    ensures
        r == spec_backoff_delay(unit, attempt as int),
{
    match unit.checked_mul(attempt as u64 + 1) {
        Some(v) => v,
        None => u64::MAX,
    }
}

/// Decide what to do after attempt `attempt` (counted from zero)
/// failed with `e`: `Some(delay_ms)` to sleep and try again, `None` to
/// surface the error. A retry is granted exactly when the error is
/// retryable and attempts remain.
pub fn retry_decision(cfg: &QuicClientConfig, attempt: u32, e: &QuicError) -> (r: Option<u64>)
    ensures
        r is Some <==> (attempt < cfg.retry_attempts && spec_is_retryable(*e)),
        (match r {
            Some(d) => d == spec_backoff_delay(cfg.retry_delay_ms, attempt as int),
            None => true,
        }),
{
    if attempt < cfg.retry_attempts && is_retryable_error(e) {
        Some(backoff_delay(cfg.retry_delay_ms, attempt))
    } else {
        None
    }
}

/// The attempt index on which the retry loop stops, scanning from `i`:
/// the first index before `last` whose outcome stops the loop, and
/// `last` itself (the final allowed attempt) otherwise.
pub open spec fn spec_stop_index_from(
    outcomes: Seq<Result<String, QuicError>>,
    i: int,
    last: int,
) -> int
    decreases last - i,
{
    if i >= last {
        last
    } else if spec_stops(outcomes[i]) {
        i
    } else {
        spec_stop_index_from(outcomes, i + 1, last)
    }
}

/// The attempt index on which the retry loop stops under `cfg`.
pub open spec fn spec_stop_index(
    cfg: QuicClientConfig,
    outcomes: Seq<Result<String, QuicError>>,
) -> int {
    spec_stop_index_from(outcomes, 0, cfg.retry_attempts as int)
}

/// What one full run of the retry loop did: the surfaced result, how
/// many attempts were made, and the backoff delays slept between them.
pub struct SendPlan {
    /// The result surfaced to the caller: the first stopping outcome,
    /// or the outcome of the final allowed attempt.
    pub result: Result<String, QuicError>,
    /// Number of attempts made, between `1` and `retry_attempts + 1`.
    pub attempts_made: u64,
    /// The delays slept, in order: one entry per retried attempt.
    pub delays: Vec<u64>,
}

/// Run the retry policy over a pre-listed sequence of attempt
/// outcomes, as a fault-injected transport would produce them:
/// `outcomes[i]` is what attempt `i` would return. Stops on the first
/// success or non-retryable failure, and otherwise surfaces the
/// outcome of the final allowed attempt; every retried attempt `i`
/// contributes the backoff delay `retry_delay_ms * (i + 1)`.
pub fn send_plan(cfg: &QuicClientConfig, outcomes: Vec<Result<String, QuicError>>) -> (r:
    SendPlan)
    requires
        outcomes@.len() > cfg.retry_attempts,
    ensures
        ({
            let stop = spec_stop_index(*cfg, outcomes@);
            &&& 0 <= stop <= cfg.retry_attempts
            &&& r.result == outcomes@[stop]
            &&& r.attempts_made == stop + 1
            &&& r.delays@.len() == stop
            &&& forall|i: int|
                0 <= i < stop ==> #[trigger] r.delays@[i] == spec_backoff_delay(
                    cfg.retry_delay_ms,
                    i,
                )
            &&& forall|i: int| 0 <= i < stop ==> !spec_stops(#[trigger] outcomes@[i])
            &&& (stop < cfg.retry_attempts ==> spec_stops(outcomes@[stop]))
        }),
{
    let ghost all = outcomes@;
    let ghost last = cfg.retry_attempts as int;
    let mut rest = outcomes;
    let mut delays: Vec<u64> = Vec::new();
    let mut attempt: u32 = 0;
    loop
        invariant
            all == outcomes@,
            all.len() > cfg.retry_attempts,
            attempt <= cfg.retry_attempts,
            rest@ == all.skip(attempt as int),
            delays@.len() == attempt,
            forall|i: int|
                0 <= i < attempt ==> #[trigger] delays@[i] == spec_backoff_delay(
                    cfg.retry_delay_ms,
                    i,
                ),
            forall|i: int| 0 <= i < attempt ==> !spec_stops(#[trigger] all[i]),
            spec_stop_index(*cfg, all) == spec_stop_index_from(all, attempt as int, last),
            last == cfg.retry_attempts as int,
        decreases cfg.retry_attempts - attempt,
    {
        proof {
            assert(rest@.len() > 0);
        }
        let o = rest.remove(0);
        proof {
            assert(o == all[attempt as int]);
            assert(rest@ =~= all.skip(attempt as int + 1));
        }
        let stops_here = match &o {
            Ok(_) => true,
            Err(e) => !is_retryable_error(e),
        };
        if stops_here || attempt >= cfg.retry_attempts {
            proof {
                if attempt >= cfg.retry_attempts {
                    assert(spec_stop_index_from(all, attempt as int, last) == last);
                } else {
                    assert(spec_stop_index_from(all, attempt as int, last) == attempt as int);
                }
            }
            return SendPlan {
                result: o,
                attempts_made: attempt as u64 + 1,
                delays,
            };
        }
        proof {
            assert(spec_stop_index_from(all, attempt as int, last) == spec_stop_index_from(
                all,
                attempt as int + 1,
                last,
            ));
        }
        delays.push(backoff_delay(cfg.retry_delay_ms, attempt));
        attempt = attempt + 1;
    }
}

/// A run whose attempts all fail with retryable errors stops only at
/// the final allowed attempt: exactly `retry_attempts + 1` attempts
/// are made, and (by the contract of [`send_plan`]) the surfaced
/// result is the outcome of that last attempt.
pub proof fn lemma_total_failure_uses_all_attempts(
    cfg: QuicClientConfig,
    outcomes: Seq<Result<String, QuicError>>,
)
    requires
        outcomes.len() > cfg.retry_attempts,
        forall|i: int| 0 <= i <= cfg.retry_attempts ==> !spec_stops(#[trigger] outcomes[i]),
    ensures
        spec_stop_index(cfg, outcomes) == cfg.retry_attempts,
{
    lemma_stop_index_when_none_stop(outcomes, 0, cfg.retry_attempts as int);
}

/// Scanning outcomes none of which stop the loop lands on the final
/// allowed attempt.
proof fn lemma_stop_index_when_none_stop(
    outcomes: Seq<Result<String, QuicError>>,
    i: int,
    last: int,
)
    requires
        0 <= i <= last,
        forall|j: int| i <= j <= last ==> !spec_stops(#[trigger] outcomes[j]),
    ensures
        spec_stop_index_from(outcomes, i, last) == last,
    decreases last - i,
{
    if i < last {
        lemma_stop_index_when_none_stop(outcomes, i + 1, last);
    }
}

} // verus!
