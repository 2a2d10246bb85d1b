use quic_client::ConnectFault;
use quic_client::QuicClientConfig;
use quic_client::QuicError;
use quic_client::StreamFault;
use quic_client::backoff_delay;
use quic_client::retry_decision;
use quic_client::send_plan;

fn config(retry_attempts: u32, retry_delay_ms: u64) -> QuicClientConfig {
    QuicClientConfig { retry_attempts, retry_delay_ms, ..QuicClientConfig::default() }
}

fn refused() -> QuicError {
    QuicError::Connection {
        fault: ConnectFault::Refused,
        message: "connection refused".to_string(),
    }
}

fn tls_bad_certificate() -> QuicError {
    QuicError::Tls { message: "invalid certificate".to_string() }
}

#[test]
fn backoff_is_linear_in_the_attempt_index() {
    assert_eq!(backoff_delay(100, 0), 100);
    assert_eq!(backoff_delay(100, 1), 200);
    assert_eq!(backoff_delay(100, 2), 300);
    assert_eq!(backoff_delay(1_000, 0), 1_000);
}

#[test]
fn backoff_saturates_instead_of_overflowing() {
    assert_eq!(backoff_delay(u64::MAX, 1), u64::MAX);
    assert_eq!(backoff_delay(u64::MAX / 2 + 1, 1), u64::MAX);
}

#[test]
fn retry_decision_grants_retry_only_while_attempts_remain() {
    let cfg = config(2, 100);
    assert_eq!(retry_decision(&cfg, 0, &refused()), Some(100));
    assert_eq!(retry_decision(&cfg, 1, &refused()), Some(200));
    assert_eq!(retry_decision(&cfg, 2, &refused()), None);
}

#[test]
fn retry_decision_refuses_non_retryable_errors() {
    let cfg = config(5, 100);
    assert_eq!(retry_decision(&cfg, 0, &tls_bad_certificate()), None);
}

#[test]
fn send_succeeding_on_third_attempt_returns_pong_after_two_backoffs() {
    // retry_attempts = 2, delay unit 100 ms; the transport mock fails
    // attempts 0 and 1 with "connection refused" and succeeds on
    // attempt 2 with "pong": the send returns "pong" after backoff
    // sleeps of 100 ms and 200 ms.
    let cfg = config(2, 100);
    let outcomes = vec![Err(refused()), Err(refused()), Ok("pong".to_string())];
    let plan = send_plan(&cfg, outcomes);
    assert_eq!(plan.result, Ok("pong".to_string()));
    assert_eq!(plan.attempts_made, 3);
    assert_eq!(plan.delays, vec![100, 200]);
}

#[test]
fn non_retryable_failure_surfaces_immediately_with_one_attempt() {
    // A TLS-kind "invalid certificate" failure is not retryable: the
    // send stops after exactly one attempt and surfaces that error.
    let cfg = config(2, 100);
    let outcomes = vec![
        Err(tls_bad_certificate()),
        Err(refused()),
        Ok("unreached".to_string()),
    ];
    let plan = send_plan(&cfg, outcomes);
    assert_eq!(plan.result, Err(tls_bad_certificate()));
    assert_eq!(plan.attempts_made, 1);
    assert!(plan.delays.is_empty());
}

#[test]
fn total_failure_makes_all_attempts_and_surfaces_the_last_error() {
    // With 2 retries configured, a transport that always fails is
    // attempted exactly 3 times, and the surfaced error is the one
    // from the final attempt.
    let cfg = config(2, 100);
    let last = QuicError::Stream {
        fault: StreamFault::ConnectionLost,
        message: "third failure".to_string(),
    };
    let outcomes = vec![Err(refused()), Err(refused()), Err(last.clone())];
    let plan = send_plan(&cfg, outcomes);
    assert_eq!(plan.result, Err(last));
    assert_eq!(plan.attempts_made, 3);
    assert_eq!(plan.delays, vec![100, 200]);
}

#[test]
fn zero_retry_attempts_means_try_once() {
    let cfg = config(0, 100);
    let outcomes = vec![Err(refused())];
    let plan = send_plan(&cfg, outcomes);
    assert_eq!(plan.result, Err(refused()));
    assert_eq!(plan.attempts_made, 1);
    assert!(plan.delays.is_empty());
}

#[test]
fn success_on_first_attempt_makes_no_retry() {
    let cfg = config(3, 50);
    let outcomes = vec![
        Ok("pong".to_string()),
        Err(refused()),
        Err(refused()),
        Err(refused()),
    ];
    let plan = send_plan(&cfg, outcomes);
    assert_eq!(plan.result, Ok("pong".to_string()));
    assert_eq!(plan.attempts_made, 1);
    assert!(plan.delays.is_empty());
}

#[test]
fn retryable_then_non_retryable_stops_at_the_second_attempt() {
    let cfg = config(3, 10);
    let outcomes = vec![
        Err(refused()),
        Err(tls_bad_certificate()),
        Ok("unreached".to_string()),
        Ok("unreached".to_string()),
    ];
    let plan = send_plan(&cfg, outcomes);
    assert_eq!(plan.result, Err(tls_bad_certificate()));
    assert_eq!(plan.attempts_made, 2);
    assert_eq!(plan.delays, vec![10]);
}
