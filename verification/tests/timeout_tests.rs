use quic_client::ConnectFault;
use quic_client::QuicError;
use quic_client::is_retryable_error;
use quic_client::resolve_timeout;

#[test]
fn expired_deadline_becomes_a_network_timed_out_error() {
    // An operation that never completes loses the race against the
    // deadline; the wrapper surfaces a Network-kind "timed out" error.
    let r = resolve_timeout(None, "Request timed out");
    match &r {
        Err(QuicError::Network { message }) => assert_eq!(message, "Request timed out"),
        other => panic!("unexpected: {:?}", other),
    }
    assert!(is_retryable_error(&r.unwrap_err()));
}

#[test]
fn completed_operation_passes_through_unchanged() {
    let ok = resolve_timeout(Some(Ok("pong".to_string())), "Request timed out");
    assert_eq!(ok, Ok("pong".to_string()));

    let failure = QuicError::Connection {
        fault: ConnectFault::Refused,
        message: "connection refused".to_string(),
    };
    let err = resolve_timeout(Some(Err(failure.clone())), "Request timed out");
    assert_eq!(err, Err(failure));
}

#[test]
fn timeout_fires_for_an_operation_that_never_completes() {
    // Racing an operation that never completes against a 50 ms
    // deadline yields the Network "timed out" error shortly after the
    // deadline, not later.
    let rt = tokio::runtime::Runtime::new().unwrap();
    let started = std::time::Instant::now();
    let r = rt.block_on(async {
        let outcome = tokio::time::timeout(
            std::time::Duration::from_millis(50),
            std::future::pending::<Result<String, QuicError>>(),
        )
        .await
        .ok();
        resolve_timeout(outcome, "Request timed out")
    });
    assert!(started.elapsed() >= std::time::Duration::from_millis(50));
    assert!(started.elapsed() < std::time::Duration::from_secs(5));
    match r {
        Err(QuicError::Network { message }) => assert_eq!(message, "Request timed out"),
        other => panic!("unexpected: {:?}", other),
    }
}

#[test]
fn timeout_message_names_the_operation() {
    let r = resolve_timeout(None, "GET request timed out");
    match r {
        Err(QuicError::Network { message }) => assert_eq!(message, "GET request timed out"),
        other => panic!("unexpected: {:?}", other),
    }
}
