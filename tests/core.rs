use async_translate::text::decimal_text;
use async_translate::error::TranslationError;
use async_translate::retry::backoff_delay_ms;
use async_translate::token::CachedToken;
use async_translate::{
    Admission, AuthReply, AuthStep, CredentialPool, RateGovernor, RetryExecutor, RetryOutcome,
    TokenCache, TranslateOptions,
};
use std::time::Duration;

#[test]
fn five_callers_with_limit_two() {
    let mut g = RateGovernor::new(2, 0);
    let answers: Vec<Admission> = (0..5).map(|_| g.try_admit(1_000)).collect();
    assert_eq!(
        answers,
        vec![
            Admission::Granted,
            Admission::Granted,
            Admission::Busy,
            Admission::Busy,
            Admission::Busy
        ]
    );
    assert_eq!(g.outstanding(), 2);
    g.release();
    assert_eq!(g.outstanding(), 1);
    assert_eq!(g.try_admit(1_001), Admission::Granted);
    assert_eq!(g.try_admit(1_001), Admission::Busy);
}

#[test]
fn release_without_admission_stays_at_zero() {
    let mut g = RateGovernor::new(1, 0);
    g.release();
    assert_eq!(g.outstanding(), 0);
    assert_eq!(g.try_admit(0), Admission::Granted);
}

#[test]
fn zero_concurrency_never_admits() {
    let mut g = RateGovernor::new(0, 0);
    assert_eq!(g.try_admit(0), Admission::Busy);
}

#[test]
fn rate_ceiling_over_sliding_window() {
    let mut g = RateGovernor::new(10, 2);
    assert_eq!(g.try_admit(0), Admission::Granted);
    assert_eq!(g.try_admit(1_000), Admission::Granted);
    g.release();
    g.release();
    assert_eq!(g.try_admit(2_000), Admission::WaitMs(58_000));
    assert_eq!(g.try_admit(59_999), Admission::WaitMs(1));
    assert_eq!(g.try_admit(60_000), Admission::Granted);
    assert_eq!(g.try_admit(60_500), Admission::WaitMs(500));
    assert_eq!(g.try_admit(61_000), Admission::Granted);
    assert_eq!(g.outstanding(), 2);
}

#[test]
fn earlier_time_counts_as_latest_seen() {
    let mut g = RateGovernor::new(10, 1);
    assert_eq!(g.try_admit(10_000), Admission::Granted);
    assert_eq!(g.try_admit(5_000), Admission::WaitMs(60_000));
}

#[test]
fn zero_rpm_means_no_ceiling() {
    let mut g = RateGovernor::new(1_000, 0);
    for _ in 0..500 {
        assert_eq!(g.try_admit(7), Admission::Granted);
    }
}

#[test]
fn pool_round_robin_wraps() {
    let keys = vec!["a".to_string(), "b".to_string(), "c".to_string()];
    let mut pool = CredentialPool::new(keys).unwrap();
    assert_eq!(pool.len(), 3);
    assert_eq!(pool.next(), (0, "a".to_string()));
    assert_eq!(pool.next(), (1, "b".to_string()));
    assert_eq!(pool.next(), (2, "c".to_string()));
    assert_eq!(pool.next(), (0, "a".to_string()));
}

#[test]
fn single_key_pool_always_returns_it() {
    let mut pool = CredentialPool::new(vec!["only".to_string()]).unwrap();
    for _ in 0..3 {
        assert_eq!(pool.next(), (0, "only".to_string()));
    }
}

#[test]
fn empty_pool_is_refused() {
    match CredentialPool::new(vec![]) {
        Err(TranslationError::ConfigurationError(m)) => assert_eq!(m, "No API keys configured"),
        other => panic!("unexpected {:?}", other.map(|p| p.len())),
    }
}

#[test]
fn token_served_until_refresh_margin() {
    let mut c = TokenCache::new(None);
    assert_eq!(c.lookup(0), None);
    c.store("tok".to_string(), 1_000);
    assert_eq!(c.cached, Some(CachedToken { value: "tok".to_string(), expires_at_ms: 541_000 }));
    assert_eq!(c.lookup(1_000), Some("tok".to_string()));
    assert_eq!(c.lookup(1_000), c.lookup(2_000));
    assert_eq!(c.lookup(480_999), Some("tok".to_string()));
    assert_eq!(c.lookup(481_000), None);
    assert_eq!(c.lookup(600_000), None);
}

#[test]
fn token_expiry_saturates() {
    let mut c = TokenCache::new(None);
    c.store("t".to_string(), u64::MAX - 10);
    assert_eq!(c.cached.as_ref().map(|t| t.expires_at_ms), Some(u64::MAX));
}

#[test]
fn invalidate_forces_fetch() {
    let mut c = TokenCache::new(None);
    c.store("tok".to_string(), 0);
    c.invalidate();
    assert_eq!(c.lookup(1), None);
}

#[test]
fn static_key_is_always_served() {
    let mut c = TokenCache::new(Some("key".to_string()));
    assert_eq!(c.lookup(0), Some("key".to_string()));
    c.invalidate();
    assert_eq!(c.lookup(10_000_000), Some("key".to_string()));
}

#[test]
fn auth_success_caches_token() {
    let mut c = TokenCache::new(None);
    let step = c.on_auth_reply(
        1,
        AuthReply::Answered { status: 200, body: Ok("fresh".to_string()) },
        5_000,
    );
    assert_eq!(step, AuthStep::Done("fresh".to_string()));
    assert_eq!(c.lookup(6_000), Some("fresh".to_string()));
}

#[test]
fn auth_retries_then_fails() {
    let mut c = TokenCache::new(None);
    let failing = || AuthReply::Answered { status: 503, body: Ok(String::new()) };
    assert_eq!(c.on_auth_reply(1, failing(), 0), AuthStep::RetryAfterMs(1_000));
    assert_eq!(c.on_auth_reply(2, failing(), 0), AuthStep::RetryAfterMs(1_000));
    assert_eq!(
        c.on_auth_reply(3, failing(), 0),
        AuthStep::Fail(TranslationError::AuthenticationError(
            "Failed to authenticate: HTTP 503".to_string()
        ))
    );
    assert_eq!(c.cached, None);
}

#[test]
fn auth_transport_failure_on_last_attempt() {
    let mut c = TokenCache::new(None);
    assert_eq!(
        c.on_auth_reply(2, AuthReply::Transport("reset".to_string()), 0),
        AuthStep::RetryAfterMs(1_000)
    );
    assert_eq!(
        c.on_auth_reply(3, AuthReply::Transport("reset".to_string()), 0),
        AuthStep::Fail(TranslationError::NetworkError("reset".to_string()))
    );
}

#[test]
fn auth_unreadable_body_fails_at_once() {
    let mut c = TokenCache::new(None);
    assert_eq!(
        c.on_auth_reply(1, AuthReply::Answered { status: 200, body: Err("eof".to_string()) }, 0),
        AuthStep::Fail(TranslationError::AuthenticationError(
            "Failed to read auth response: eof".to_string()
        ))
    );
}

#[test]
fn backoff_doubles_from_base() {
    assert_eq!(backoff_delay_ms(0), 0);
    assert_eq!(backoff_delay_ms(1), 100);
    assert_eq!(backoff_delay_ms(2), 200);
    assert_eq!(backoff_delay_ms(3), 400);
    assert_eq!(backoff_delay_ms(4), 800);
    assert_eq!(backoff_delay_ms(58), 100 * (1u64 << 57));
    assert_eq!(backoff_delay_ms(59), u64::MAX);
    assert_eq!(backoff_delay_ms(u64::MAX), u64::MAX);
}

#[test]
fn permanent_retryable_failure_exhausts_budget() {
    let mut exec = RetryExecutor::new(2);
    let mut delays = vec![exec.next_delay_ms()];
    let mut attempts = 0;
    let outcome = loop {
        attempts += 1;
        match exec.on_failure(TranslationError::NetworkError(format!("n{}", attempts))) {
            RetryOutcome::Again { state, delay_ms } => {
                delays.push(delay_ms);
                exec = state;
            }
            RetryOutcome::GiveUp(e) => break e,
        }
    };
    assert_eq!(attempts, 3);
    assert_eq!(delays, vec![0, 100, 200]);
    assert_eq!(
        outcome,
        TranslationError::MaxRetriesExceeded {
            attempts: 3,
            errors: vec![
                TranslationError::NetworkError("n1".to_string()),
                TranslationError::NetworkError("n2".to_string()),
                TranslationError::NetworkError("n3".to_string()),
            ],
        }
    );
}

#[test]
fn two_server_errors_then_success() {
    let mut exec = RetryExecutor::new(3);
    let mut waited = Vec::new();
    let replies = vec![Err(503u16), Err(503u16), Ok("你好")];
    let mut attempts = 0;
    let mut result = None;
    for reply in replies {
        attempts += 1;
        match reply {
            Ok(text) => {
                result = Some(text.to_string());
                break;
            }
            Err(status) => {
                let e = TranslationError::HttpError { status, body: String::new() };
                match exec.on_failure(e) {
                    RetryOutcome::Again { state, delay_ms } => {
                        waited.push(delay_ms);
                        exec = state;
                    }
                    RetryOutcome::GiveUp(e) => panic!("gave up: {:?}", e),
                }
            }
        }
    }
    assert_eq!(result, Some("你好".to_string()));
    assert_eq!(attempts, 3);
    assert_eq!(exec.failed_attempts(), 2);
    assert_eq!(waited, vec![100, 200]);
}

#[test]
fn authentication_failure_stops_at_once() {
    let exec = RetryExecutor::new(3);
    assert_eq!(exec.next_delay_ms(), 0);
    let e = async_translate::openai::error_for_status(401, "bad key".to_string());
    match exec.on_failure(e) {
        RetryOutcome::GiveUp(err) => {
            assert_eq!(err, TranslationError::AuthenticationError("bad key".to_string()))
        }
        RetryOutcome::Again { .. } => panic!("retried a fatal error"),
    }
}

#[test]
fn no_retries_gives_one_attempt() {
    let exec = RetryExecutor::new(0);
    match exec.on_failure(TranslationError::TimeoutError) {
        RetryOutcome::GiveUp(TranslationError::MaxRetriesExceeded { attempts, errors }) => {
            assert_eq!(attempts, 1);
            assert_eq!(errors, vec![TranslationError::TimeoutError]);
        }
        other => panic!("unexpected {:?}", other),
    }
}

#[test]
fn retry_classification() {
    assert!(TranslationError::NetworkError("x".to_string()).is_retryable());
    assert!(TranslationError::TimeoutError.is_retryable());
    assert!(TranslationError::HttpError { status: 500, body: String::new() }.is_retryable());
    assert!(TranslationError::HttpError { status: 599, body: String::new() }.is_retryable());
    assert!(!TranslationError::HttpError { status: 404, body: String::new() }.is_retryable());
    assert!(!TranslationError::HttpError { status: 600, body: String::new() }.is_retryable());
    assert!(!TranslationError::AuthenticationError("x".to_string()).is_retryable());
    assert!(!TranslationError::ServiceError("x".to_string()).is_retryable());
    assert!(!TranslationError::ConfigurationError("x".to_string()).is_retryable());
    assert!(!TranslationError::Other("x".to_string()).is_retryable());
    let agg = TranslationError::MaxRetriesExceeded { attempts: 1, errors: vec![] };
    assert!(!agg.is_retryable());
}

#[test]
fn transport_errors_are_classified_once() {
    assert_eq!(
        TranslationError::from_transport(true, "slow".to_string()),
        TranslationError::TimeoutError
    );
    assert_eq!(
        TranslationError::from_transport(false, "refused".to_string()),
        TranslationError::NetworkError("refused".to_string())
    );
    assert_eq!(
        TranslationError::malformed_response("eof"),
        TranslationError::ServiceError("JSON parsing error: eof".to_string())
    );
}

#[test]
fn error_descriptions() {
    assert_eq!(
        TranslationError::HttpError { status: 503, body: "busy".to_string() }.describe(),
        "HTTP error 503: busy"
    );
    assert_eq!(TranslationError::TimeoutError.describe(), "Request timeout");
    assert_eq!(
        TranslationError::NetworkError("reset".to_string()).describe(),
        "Network error: reset"
    );
    assert_eq!(
        TranslationError::ConfigurationError("none".to_string()).describe(),
        "Configuration error: none"
    );
    let agg = TranslationError::MaxRetriesExceeded {
        attempts: 2,
        errors: vec![
            TranslationError::TimeoutError,
            TranslationError::HttpError { status: 502, body: "gw".to_string() },
        ],
    };
    assert_eq!(
        agg.describe(),
        "Max retries exceeded after 2 attempts\n  Attempt 1: Request timeout\n  Attempt 2: HTTP error 502: gw\n"
    );
}

#[test]
fn options_defaults_and_setters() {
    let d = TranslateOptions::default();
    assert_eq!(d.timeout, Some(Duration::from_secs(30)));
    assert_eq!(d.max_retries, 3);
    let o = TranslateOptions::default().timeout(Duration::from_secs(60)).max_retries(5);
    assert_eq!(o.timeout, Some(Duration::from_secs(60)));
    assert_eq!(o.max_retries, 5);
    let none = o.no_timeout().no_retries();
    assert_eq!(none.timeout, None);
    assert_eq!(none.max_retries, 0);
}

#[test]
fn decimal_digits() {
    assert_eq!(decimal_text(0), "0");
    assert_eq!(decimal_text(7), "7");
    assert_eq!(decimal_text(401000), "401000");
    assert_eq!(decimal_text(u64::MAX), u64::MAX.to_string());
}
