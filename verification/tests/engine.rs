use fib_payments::http::{HttpClient, RetryDecision};
use fib_payments::{Error, NetworkCause};

fn timeout_error() -> Error {
    Error::Network(NetworkCause {
        is_timeout: true,
        is_connect: false,
        detail: "operation timed out".to_string(),
    })
}

fn connect_error() -> Error {
    Error::Network(NetworkCause {
        is_timeout: false,
        is_connect: true,
        detail: "connection refused".to_string(),
    })
}

#[test]
fn default_policy_matches_schedule() {
    let client = HttpClient::default();
    assert_eq!(client.policy.initial_interval_ms, 100);
    assert_eq!(client.policy.max_interval_ms, 10_000);
    assert_eq!(client.policy.max_elapsed_ms, 30_000);
    assert_eq!(client.initial_state().next_interval_ms, 100);
}

#[test]
fn transient_failure_is_retried_with_doubling_intervals() {
    let client = HttpClient::default();
    let mut state = client.initial_state();
    let mut elapsed: u64 = 0;
    let mut delays = Vec::new();
    for _ in 0..9 {
        match client.on_attempt_failure(&state, timeout_error(), elapsed) {
            RetryDecision::RetryAfter { delay_ms, next } => {
                delays.push(delay_ms);
                elapsed += delay_ms;
                state = next;
            }
            RetryDecision::GiveUp { .. } => panic!("gave up inside the budget"),
        }
    }
    // 100 + 200 + ... + 10_000 + 10_000 = 32_700 ms: the next failure falls
    // outside the 30 s budget.
    assert_eq!(
        delays,
        vec![100, 200, 400, 800, 1600, 3200, 6400, 10_000, 10_000]
    );
    assert_eq!(elapsed, 32_700);
    match client.on_attempt_failure(&state, timeout_error(), elapsed) {
        RetryDecision::GiveUp { .. } => {}
        RetryDecision::RetryAfter { .. } => panic!("the budget was already spent"),
    }
    // Strictly increasing until the cap is reached, never above it.
    for w in delays.windows(2) {
        if w[0] < 10_000 {
            assert!(w[1] > w[0]);
        }
        assert!(w[1] <= 10_000);
    }
}

#[test]
fn retry_loop_stops_after_elapsed_budget_with_last_error() {
    let client = HttpClient::default();
    let mut state = client.initial_state();
    let mut elapsed: u64 = 0;
    let mut rounds = 0u32;
    loop {
        rounds += 1;
        assert!(rounds < 1000, "the loop must stop once the budget is spent");
        match client.on_attempt_failure(&state, connect_error(), elapsed) {
            RetryDecision::RetryAfter { delay_ms, next } => {
                elapsed += delay_ms;
                state = next;
            }
            RetryDecision::GiveUp { error } => {
                // The budget was exceeded and the last error came back unchanged.
                assert!(elapsed > 30_000);
                match error {
                    Error::Network(cause) => {
                        assert!(cause.is_connect);
                        assert_eq!(cause.detail, "connection refused");
                    }
                    _ => panic!("the last transport error must surface unchanged"),
                }
                break;
            }
        }
    }
}

#[test]
fn budget_boundary_still_retries_at_exactly_30s() {
    let client = HttpClient::default();
    let state = client.initial_state();
    match client.on_attempt_failure(&state, timeout_error(), 30_000) {
        RetryDecision::RetryAfter { delay_ms, .. } => assert_eq!(delay_ms, 100),
        RetryDecision::GiveUp { .. } => panic!("30 s elapsed is still within the budget"),
    }
}

#[test]
fn permanent_failure_is_never_retried() {
    let client = HttpClient::default();
    let state = client.initial_state();
    let api_error = Error::ApiError {
        status_code: 401,
        code: "UNAUTHORIZED".to_string(),
        message: "Invalid or expired token".to_string(),
        trace_id: None,
    };
    match client.on_attempt_failure(&state, api_error, 0) {
        RetryDecision::GiveUp { error } => match error {
            Error::ApiError { status_code, code, .. } => {
                assert_eq!(status_code, 401);
                assert_eq!(code, "UNAUTHORIZED");
            }
            _ => panic!("error must come back unchanged"),
        },
        RetryDecision::RetryAfter { .. } => panic!("a permanent failure must not be retried"),
    }
}

#[test]
fn non_transient_network_failure_is_permanent() {
    let client = HttpClient::default();
    let state = client.initial_state();
    let e = Error::Network(NetworkCause {
        is_timeout: false,
        is_connect: false,
        detail: "tls handshake failed".to_string(),
    });
    assert!(!e.is_transient());
    match client.on_attempt_failure(&state, e, 0) {
        RetryDecision::GiveUp { .. } => {}
        RetryDecision::RetryAfter { .. } => panic!("only timeouts and connect failures retry"),
    }
}

#[test]
fn transient_classification() {
    assert!(timeout_error().is_transient());
    assert!(connect_error().is_transient());
    assert!(!Error::Configuration("x".to_string()).is_transient());
    assert!(!Error::Authentication("x".to_string()).is_transient());
    assert!(!Error::Api("x".to_string()).is_transient());
    assert!(!Error::RetryExhausted("x".to_string()).is_transient());
    assert!(!Error::InvalidUrl("x".to_string()).is_transient());
    assert!(!Error::Serialization("x".to_string()).is_transient());
}
