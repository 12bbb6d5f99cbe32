use codex_support::duration::Duration;
use codex_support::retry::{
    backoff, capped_delay, jittered_delay, max_retry_delay, JITTER_STEPS, raw_backoff, retry_action, retry_policy, RetryAction,
    RetryOn, RetryPolicy, TransportError,
};
use http::StatusCode;

fn http_error(status: StatusCode) -> TransportError {
    TransportError::Http {
        status: status.as_u16(),
        url: None,
        headers: None,
        body: None,
    }
}

fn all_classes() -> RetryOn {
    RetryOn {
        retry_429: true,
        retry_5xx: true,
        retry_transport: true,
    }
}

/// Drives the retry decisions the way the asynchronous runner does, calling
/// `op` with the attempt number until the decision is to finish.
fn drive<T>(
    policy: RetryPolicy,
    mut op: impl FnMut(u64) -> Result<T, TransportError>,
) -> (Result<T, TransportError>, Vec<Duration>) {
    let mut attempt = 0;
    let mut waits = Vec::new();
    loop {
        match retry_action(&policy, attempt, op(attempt)) {
            RetryAction::Finish(result) => return (result, waits),
            RetryAction::Wait {
                delay,
                next_attempt,
            } => {
                waits.push(delay);
                attempt = next_attempt;
            }
        }
    }
}

#[test]
fn retry_decision_respects_configured_error_classes() {
    let retry_on = all_classes();

    for err in [
        http_error(StatusCode::TOO_MANY_REQUESTS),
        http_error(StatusCode::INTERNAL_SERVER_ERROR),
        http_error(StatusCode::BAD_GATEWAY),
        TransportError::Timeout,
        TransportError::Network("connection reset".to_string()),
    ] {
        assert!(retry_on.should_retry(&err, 0, 1));
    }

    for err in [
        http_error(StatusCode::BAD_REQUEST),
        http_error(StatusCode::UNAUTHORIZED),
        TransportError::Build("invalid request".to_string()),
        TransportError::RetryLimit,
    ] {
        assert!(!retry_on.should_retry(&err, 0, 1));
    }
}

#[test]
fn retry_decision_respects_disabled_error_classes() {
    let retry_on = RetryOn {
        retry_429: false,
        retry_5xx: false,
        retry_transport: false,
    };

    for err in [
        http_error(StatusCode::TOO_MANY_REQUESTS),
        http_error(StatusCode::BAD_GATEWAY),
        TransportError::Timeout,
        TransportError::Network("connection reset".to_string()),
    ] {
        assert!(!retry_on.should_retry(&err, 0, 1));
    }
}

#[test]
fn retry_decision_stops_after_configured_attempts() {
    let retry_on = all_classes();

    assert!(retry_on.should_retry(&http_error(StatusCode::BAD_GATEWAY), 0, 1));
    assert!(!retry_on.should_retry(&http_error(StatusCode::BAD_GATEWAY), 1, 1));
}

#[test]
fn backoff_never_exceeds_max_retry_delay() {
    assert_eq!(
        max_retry_delay(),
        backoff(Duration::from_secs(20 * 60), /*attempt*/ 0)
    );
    assert_eq!(max_retry_delay(), backoff(max_retry_delay(), /*attempt*/ 8));
}

#[test]
fn run_with_retry_retries_until_configured_limit() {
    let mut attempts = 0u64;
    let (result, _) = drive(retry_policy(3), |attempt| {
        let current = attempts;
        attempts += 1;
        if current < 3 {
            Err(http_error(StatusCode::BAD_GATEWAY))
        } else {
            Ok(attempt)
        }
    });
    let result = result.expect("retryable HTTP errors should retry within the configured limit");

    assert_eq!(3, result);
    assert_eq!(4, attempts);
}

#[test]
fn run_with_retry_returns_error_after_configured_limit() {
    let mut attempts = 0u64;
    let (result, _) = drive(retry_policy(2), |_attempt| {
        attempts += 1;
        Err::<(), _>(http_error(StatusCode::BAD_GATEWAY))
    });
    let err = result.expect_err("retryable HTTP errors should stop after the configured limit");

    assert!(matches!(err, TransportError::Http { status: 502, .. }));
    assert_eq!(3, attempts);
}

#[test]
fn run_with_retry_does_not_retry_request_build_errors() {
    let mut attempts = 0u64;
    let (result, _) = drive(retry_policy(3), |_attempt| {
        attempts += 1;
        Err::<(), _>(TransportError::Build("invalid request".to_string()))
    });
    let err = result.expect_err("request build errors should not retry");

    assert!(matches!(err, TransportError::Build(message) if message == "invalid request"));
    assert_eq!(1, attempts);
}

#[test]
fn status_classes_are_told_apart() {
    let only_5xx = RetryOn {
        retry_429: false,
        retry_5xx: true,
        retry_transport: false,
    };
    assert!(only_5xx.should_retry(&http_error(StatusCode::INTERNAL_SERVER_ERROR), 0, 5));
    assert!(only_5xx.should_retry(&http_error(StatusCode::from_u16(599).unwrap()), 0, 5));
    assert!(!only_5xx.should_retry(&http_error(StatusCode::from_u16(600).unwrap()), 0, 5));
    assert!(!only_5xx.should_retry(&http_error(StatusCode::from_u16(499).unwrap()), 0, 5));
    assert!(!only_5xx.should_retry(&http_error(StatusCode::TOO_MANY_REQUESTS), 0, 5));
    assert!(!only_5xx.should_retry(&TransportError::Timeout, 0, 5));

    let only_429 = RetryOn {
        retry_429: true,
        retry_5xx: false,
        retry_transport: false,
    };
    assert!(only_429.should_retry(&http_error(StatusCode::TOO_MANY_REQUESTS), 4, 5));
    assert!(!only_429.should_retry(&http_error(StatusCode::SERVICE_UNAVAILABLE), 0, 5));
    assert!(!only_429.should_retry(&http_error(StatusCode::TOO_MANY_REQUESTS), 5, 5));
}

#[test]
fn raw_backoff_doubles_per_attempt() {
    let base = Duration::from_millis(250);
    assert_eq!(250, raw_backoff(base, 1));
    assert_eq!(500, raw_backoff(base, 2));
    assert_eq!(1000, raw_backoff(base, 3));
    assert_eq!(250 * 1024, raw_backoff(base, 11));
    assert_eq!(u64::MAX, raw_backoff(base, 65));
    assert_eq!(u64::MAX, raw_backoff(base, u64::MAX));
    assert_eq!(0, raw_backoff(Duration::zero(), 40));
    // Only whole milliseconds count.
    assert_eq!(1, raw_backoff(Duration::new(0, 1_999_999), 1));
}

#[test]
fn backoff_jitter_stays_within_ten_percent() {
    let base = Duration::from_secs(1);
    for _ in 0..200 {
        let first = backoff(base, 1).as_millis();
        assert!((900..1100).contains(&first), "{first}");
        let third = backoff(base, 3).as_millis();
        assert!((3600..4400).contains(&third), "{third}");
    }
}

#[test]
fn backoff_jitter_varies_between_calls() {
    let base = Duration::from_secs(10);
    let mut seen = std::collections::BTreeSet::new();
    for _ in 0..200 {
        seen.insert(backoff(base, 1).as_millis());
    }
    assert!(seen.len() > 1, "the jitter should draw different delays");
}

#[test]
fn backoff_is_capped_for_late_attempts() {
    assert_eq!(max_retry_delay(), backoff(Duration::from_secs(1), 30));
    assert_eq!(max_retry_delay(), backoff(Duration::from_secs(1), u64::MAX));
    assert_eq!(Duration::zero(), backoff(Duration::zero(), 5));
    assert_eq!(Duration::from_secs(3), backoff(Duration::from_secs(3), 0));
}

#[test]
fn capped_delay_limits_the_wait() {
    assert_eq!(Duration::from_millis(1234), capped_delay(1234));
    assert_eq!(max_retry_delay(), capped_delay(600_001));
    assert_eq!(max_retry_delay(), capped_delay(u128::MAX));
    assert_eq!(Duration::zero(), capped_delay(0));
}

#[test]
fn retry_action_waits_a_backoff_before_the_next_attempt() {
    let policy = RetryPolicy {
        max_attempts: 4,
        base_delay: Duration::from_millis(100),
        retry_on: all_classes(),
    };
    let mut calls = 0;
    let (result, waits) = drive(policy, |_| {
        calls += 1;
        Err::<(), _>(TransportError::Timeout)
    });
    assert!(matches!(result, Err(TransportError::Timeout)));
    assert_eq!(5, calls);
    assert_eq!(4, waits.len());
    for (i, wait) in waits.iter().enumerate() {
        let raw = 100u128 << i;
        let ms = wait.as_millis();
        assert!(ms >= raw * 9 / 10 && ms < (raw * 11 + 9) / 10, "{i}: {ms}");
    }
}

#[test]
fn retry_action_hands_back_success_at_once() {
    match retry_action(&retry_policy(3), 0, Ok::<u32, TransportError>(7)) {
        RetryAction::Finish(Ok(7)) => {}
        _ => panic!("a success must be handed back"),
    }
    match retry_action(&retry_policy(0), 0, Err::<u32, _>(TransportError::Timeout)) {
        RetryAction::Finish(Err(TransportError::Timeout)) => {}
        _ => panic!("no retries are allowed"),
    }
}

#[test]
fn retry_policy_retries_every_class_without_waiting() {
    let policy = retry_policy(3);
    assert_eq!(3, policy.max_attempts);
    assert_eq!(Duration::zero(), policy.base_delay);
    assert_eq!(all_classes(), policy.retry_on);
}

#[test]
fn backoff_grows_with_attempt_and_base() {
    let short = Duration::from_millis(100);
    let long = Duration::from_millis(300);
    for attempt in 1..20 {
        assert!(raw_backoff(short, attempt) <= raw_backoff(long, attempt));
        assert!(raw_backoff(long, attempt) <= raw_backoff(long, attempt + 1));
    }
    let mut previous = capped_delay(0);
    for jittered in [1u128, 10, 999, 1000, 600_000, 600_001, u64::MAX as u128 + 1] {
        let next = capped_delay(jittered);
        assert!(previous <= next);
        previous = next;
    }
}

#[test]
fn jittered_delay_scales_the_raw_delay_by_the_drawn_factor() {
    assert_eq!(Duration::from_millis(900), jittered_delay(1000, 0));
    assert_eq!(Duration::from_millis(1000), jittered_delay(1000, JITTER_STEPS / 2));
    assert_eq!(Duration::from_millis(1099), jittered_delay(1000, JITTER_STEPS - 1));
    assert_eq!(Duration::zero(), jittered_delay(0, JITTER_STEPS - 1));
    assert_eq!(max_retry_delay(), jittered_delay(u64::MAX, 0));
    assert_eq!(max_retry_delay(), jittered_delay(700_000, 0));
}

#[test]
fn same_draw_never_waits_less_for_a_later_attempt_or_longer_base() {
    let short = Duration::from_millis(100);
    let long = Duration::from_millis(150);
    for draw in [0, 1, JITTER_STEPS / 3, JITTER_STEPS / 2, JITTER_STEPS - 1] {
        for attempt in 1..15 {
            let a = jittered_delay(raw_backoff(short, attempt), draw);
            let b = jittered_delay(raw_backoff(long, attempt), draw);
            let c = jittered_delay(raw_backoff(long, attempt + 1), draw);
            assert!(a <= b && b <= c, "{draw} {attempt}");
        }
    }
}
