use std::time::Duration;
use warp_client::retry::{BackoffDecision, RetryDecision, RetryState};

/// Runs an operation the way the app's retry loop does, with every decision
/// taken by the library's retry state.
fn with_retry<T, E>(
    mut operation: impl FnMut() -> Result<T, E>,
    is_retryable: impl Fn(&E) -> bool,
    mut sleep: impl FnMut(Duration),
    backoff: impl Fn(usize) -> Option<Duration>,
) -> Result<T, E> {
    let mut state = RetryState::new();
    loop {
        let result = operation();
        let (succeeded, retryable) = match &result {
            Ok(_) => (true, false),
            Err(err) => (false, is_retryable(err)),
        };
        match state.after_attempt(succeeded, retryable) {
            RetryDecision::Finish => return result,
            RetryDecision::ConsultBackoff { attempts_made } => {
                let delay = backoff(attempts_made);
                match state.after_backoff(delay.is_some()) {
                    BackoffDecision::Finish => return result,
                    BackoffDecision::SleepThenRetry => sleep(delay.unwrap()),
                }
            }
        }
    }
}

#[test]
fn with_retry_succeeds_on_first_attempt() {
    let mut attempts = 0usize;
    let result: Result<u32, &str> = with_retry(
        || {
            attempts += 1;
            Ok(attempts as u32)
        },
        |_err: &&str| true,
        |_delay| (),
        |_attempts_made| Some(Duration::from_millis(1)),
    );

    assert_eq!(result, Ok(1));
    assert_eq!(attempts, 1);
}

#[test]
fn with_retry_retries_transient_failures_on_backoff_schedule_then_succeeds() {
    let backoff_schedule = [Duration::from_millis(1), Duration::from_millis(2)];
    let mut attempts = 0usize;
    let mut delays_used = Vec::new();
    let result: Result<u32, &str> = with_retry(
        || {
            attempts += 1;
            if attempts < 3 {
                Err("transient failure")
            } else {
                Ok(attempts as u32)
            }
        },
        |_err: &&str| true,
        |delay| delays_used.push(delay),
        |attempts_made| backoff_schedule.get(attempts_made).copied(),
    );

    assert_eq!(result, Ok(3));
    assert_eq!(attempts, 3);
    assert_eq!(delays_used, backoff_schedule);
}

#[test]
fn with_retry_stops_once_backoff_schedule_is_exhausted() {
    let backoff_schedule = [Duration::from_millis(1), Duration::from_millis(2)];
    let mut attempts = 0usize;
    let result: Result<(), &str> = with_retry(
        || {
            attempts += 1;
            Err("persistent failure")
        },
        |_err: &&str| true,
        |_delay| (),
        |attempts_made| backoff_schedule.get(attempts_made).copied(),
    );

    assert_eq!(result, Err("persistent failure"));
    // One initial attempt plus one retry per scheduled backoff delay.
    assert_eq!(attempts, backoff_schedule.len() + 1);
}

#[test]
fn with_retry_fails_fast_when_error_is_not_retryable() {
    let mut attempts = 0usize;
    let result: Result<(), &str> = with_retry(
        || {
            attempts += 1;
            Err("permanent failure")
        },
        |_err: &&str| false,
        |_delay| (),
        |_attempts_made| Some(Duration::from_millis(1)),
    );

    assert_eq!(result, Err("permanent failure"));
    assert_eq!(attempts, 1, "non-retryable errors must not be retried");
}

#[test]
fn retry_state_counts_granted_delays() {
    let mut state = RetryState::new();
    assert_eq!(
        state.after_attempt(false, true),
        RetryDecision::ConsultBackoff { attempts_made: 0 }
    );
    assert_eq!(state.after_backoff(true), BackoffDecision::SleepThenRetry);
    assert_eq!(
        state.after_attempt(false, true),
        RetryDecision::ConsultBackoff { attempts_made: 1 }
    );
    assert_eq!(state.after_backoff(false), BackoffDecision::Finish);
    assert_eq!(state.after_attempt(true, true), RetryDecision::Finish);
}
