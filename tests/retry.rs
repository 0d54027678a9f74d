use websearch_mcp::error::WebSearchError;
use websearch_mcp::retry::{backoff, RetryState, RetryStep};

/// Drives the policy over `op` as a caller would, recording the sleeps instead of taking them.
fn run<F: FnMut() -> Result<String, WebSearchError>>(
    max_retries: u32,
    mut op: F,
) -> (Result<String, WebSearchError>, Vec<u64>) {
    let mut state = RetryState::new(max_retries);
    let mut sleeps = Vec::new();
    loop {
        match state.record(op()) {
            RetryStep::Finished(r) => return (r, sleeps),
            RetryStep::Backoff(secs) => sleeps.push(secs),
        }
    }
}

#[test]
fn test_succeeds_on_first_try() {
    let mut calls = 0u32;
    let (result, _) = run(3, || {
        calls += 1;
        Ok("success".to_string())
    });
    assert_eq!(result.unwrap(), "success");
    assert_eq!(calls, 1);
}

#[test]
fn test_retries_on_retryable_error_then_succeeds() {
    let mut calls = 0u32;
    let (result, _) = run(3, || {
        let n = calls;
        calls += 1;
        if n < 2 {
            Err(WebSearchError::Timeout(10))
        } else {
            Ok("recovered".to_string())
        }
    });
    assert_eq!(result.unwrap(), "recovered");
    assert_eq!(calls, 3);
}

#[test]
fn test_gives_up_after_max_retries() {
    let mut calls = 0u32;
    let (result, _) = run(2, || {
        calls += 1;
        Err(WebSearchError::Timeout(10))
    });
    assert!(result.is_err());
    // 1 initial + 2 retries = 3 calls
    assert_eq!(calls, 3);
}

#[test]
fn test_does_not_retry_non_retryable_error() {
    let mut calls = 0u32;
    let (result, _) = run(3, || {
        calls += 1;
        Err(WebSearchError::EmptyQuery)
    });
    assert!(result.is_err());
    assert_eq!(calls, 1);
}

#[test]
fn test_zero_retries_only_tries_once() {
    let mut calls = 0u32;
    let (result, _) = run(0, || {
        calls += 1;
        Err(WebSearchError::Timeout(10))
    });
    assert!(result.is_err());
    assert_eq!(calls, 1);
}

#[test]
fn retry_scenario_succeeds_on_third_attempt() {
    let mut calls = 0u32;
    let (result, sleeps) = run(2, || {
        calls += 1;
        if calls < 3 {
            Err(WebSearchError::HttpError("connection reset".to_string()))
        } else {
            Ok("done".to_string())
        }
    });
    assert_eq!(result.unwrap(), "done");
    assert_eq!(calls, 3);
    assert_eq!(sleeps, vec![1, 2]);
}

#[test]
fn retry_scenario_non_retryable_first() {
    let mut calls = 0u32;
    let (result, sleeps) = run(3, || {
        calls += 1;
        Err(WebSearchError::HtmlParseError("bad markup".to_string()))
    });
    assert!(matches!(result, Err(WebSearchError::HtmlParseError(_))));
    assert_eq!(calls, 1);
    assert!(sleeps.is_empty());
}

#[test]
fn retry_returns_last_error_and_doubles_backoff() {
    let mut calls = 0u64;
    let (result, sleeps) = run(3, || {
        calls += 1;
        Err(WebSearchError::Timeout(calls))
    });
    assert!(matches!(result, Err(WebSearchError::Timeout(4))));
    assert_eq!(calls, 4);
    assert_eq!(sleeps, vec![1, 2, 4]);
}

#[test]
fn retry_backoff_values() {
    assert_eq!(backoff(0), 1);
    assert_eq!(backoff(3), 8);
    assert_eq!(backoff(63), 1u64 << 63);
    assert_eq!(backoff(64), u64::MAX);
    assert_eq!(backoff(1000), u64::MAX);
}

#[test]
fn retry_state_reports_finished() {
    let mut state = RetryState::new(1);
    assert!(!state.finished());
    assert!(matches!(state.record(Err(WebSearchError::Timeout(1))), RetryStep::Backoff(1)));
    assert!(!state.finished());
    assert!(matches!(state.record(Err(WebSearchError::Timeout(1))), RetryStep::Finished(Err(_))));
    assert!(state.finished());
}
