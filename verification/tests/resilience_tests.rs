use rustboot::ratelimit::{
    FixedWindow, FixedWindowState, LeakyBucket, LeakyBucketState, RateLimitError, SlidingWindow,
    SlidingWindowState, TokenBucket, TokenBucketState,
};
use rustboot::resilience::{
    retry_after_failure, BreakerState, CircuitBreaker, CircuitBreakerConfig, CircuitState,
    ResilienceError, RetryConfig,
};

#[test]
fn token_bucket_basic() {
    let mut bucket = TokenBucket::new(10, 5, 100_000_000);
    assert_eq!(bucket.available_tokens(), 10);
    for _ in 0..5 {
        assert!(bucket.try_acquire().is_ok());
    }
    assert_eq!(bucket.available_tokens(), 5);
}

#[test]
fn token_bucket_refill_at_times() {
    let mut s = TokenBucketState::new(10, 5, 50_000_000);
    for _ in 0..10 {
        assert!(s.try_acquire_at(0));
    }
    assert!(!s.try_acquire_at(49_000_000));
    assert!(s.try_acquire_at(60_000_000));
    assert_eq!(s.tokens, 4);
    assert_eq!(s.last_refill_ns, 60_000_000);
}

#[test]
fn token_bucket_never_exceeds_capacity() {
    let mut s = TokenBucketState::new(10, 20, 50_000_000);
    assert!(s.try_acquire_at(200_000_000));
    assert_eq!(s.tokens, 9);
    let mut huge = TokenBucketState::new(3, usize::MAX, 1_000_000);
    huge.tokens = 0;
    assert!(huge.try_acquire_at(u128::MAX));
    assert_eq!(huge.tokens, 2);
}

#[test]
fn leaky_bucket_basic_and_overflow() {
    let mut bucket = LeakyBucket::new(5, 1, 100_000_000);
    for _ in 0..5 {
        assert!(bucket.try_acquire().is_ok());
    }
    assert!(matches!(bucket.try_acquire(), Err(RateLimitError::RateLimitExceeded)));
    assert_eq!(bucket.current_level(), 5);
}

#[test]
fn leaky_bucket_leaks_at_times() {
    let mut s = LeakyBucketState::new(10, 3, 50_000_000);
    for _ in 0..10 {
        assert!(s.try_acquire_at(0));
    }
    s.leak_at(120_000_000);
    assert_eq!(s.level, 4);
    assert_eq!(s.last_leak_ns, 120_000_000);
    s.leak_at(1_000_000_000);
    assert_eq!(s.level, 0);
}

#[test]
fn fixed_window_basic_and_reset() {
    let mut w = FixedWindow::new(5, 60_000_000_000);
    for _ in 0..5 {
        assert!(w.try_acquire().is_ok());
    }
    assert!(w.try_acquire().is_err());
    assert_eq!(w.current_count(), 5);
    let mut s = FixedWindowState::new(3, 100_000_000);
    for _ in 0..3 {
        assert!(s.try_acquire_at(10_000_000));
    }
    assert!(!s.try_acquire_at(99_000_000));
    assert!(s.try_acquire_at(110_000_000));
    assert_eq!(s.count, 1);
    assert_eq!(s.window_start_ns, 110_000_000);
}

#[test]
fn sliding_window_expiry_at_times() {
    let mut s = SlidingWindowState::new(3, 100_000_000);
    assert!(s.try_acquire_at(0));
    assert!(s.try_acquire_at(50_000_000));
    assert!(s.try_acquire_at(50_000_000));
    assert!(!s.try_acquire_at(60_000_000));
    assert!(s.try_acquire_at(110_000_000));
    assert_eq!(s.requests.iter().copied().collect::<Vec<u128>>(), vec![50_000_000, 50_000_000, 110_000_000]);
    let mut w = SlidingWindow::new(5, 60_000_000_000);
    for _ in 0..5 {
        assert!(w.try_acquire().is_ok());
    }
    assert!(w.try_acquire().is_err());
    assert_eq!(w.current_count(), 5);
}

#[test]
fn rate_limit_error_messages() {
    assert_eq!(RateLimitError::RateLimitExceeded.message(), "Rate limit exceeded");
    assert_eq!(
        RateLimitError::InvalidConfig("x".to_string()).message(),
        "Invalid configuration: x"
    );
}

fn cfg(failures: usize, timeout: u128, successes: usize) -> CircuitBreakerConfig {
    CircuitBreakerConfig { failure_threshold: failures, timeout, success_threshold: successes }
}

#[test]
fn circuit_breaker_closed_to_open() {
    let mut cb = CircuitBreaker::new(cfg(3, 100_000_000_000, 2));
    assert_eq!(cb.state(), CircuitState::Closed);
    for _ in 0..3 {
        assert!(cb.before_call().is_ok());
        let r = cb.complete::<()>(Err("error".to_string()));
        assert!(matches!(r, Err(ResilienceError::OperationFailed(ref m)) if m == "error"));
    }
    assert_eq!(cb.state(), CircuitState::Open);
    assert!(matches!(cb.before_call(), Err(ResilienceError::CircuitOpen)));
}

#[test]
fn circuit_breaker_half_open_recovery_at_times() {
    let c = cfg(2, 50_000_000, 2);
    let mut s = BreakerState::new();
    s.on_failure(&c, 0);
    s.on_failure(&c, 10_000_000);
    assert_eq!(s.state, CircuitState::Open);
    assert!(!s.allow_call_at(&c, 59_000_000));
    assert_eq!(s.state, CircuitState::Open);
    assert!(s.allow_call_at(&c, 60_000_000));
    assert_eq!(s.state, CircuitState::HalfOpen);
    s.on_success(&c);
    assert_eq!(s.state, CircuitState::HalfOpen);
    s.on_success(&c);
    assert_eq!(s.state, CircuitState::Closed);
    assert_eq!(s.failure_count, 0);
}

#[test]
fn circuit_breaker_half_open_failure_reopens() {
    let c = cfg(1, 0, 3);
    let mut s = BreakerState::new();
    s.on_failure(&c, 5_000_000);
    assert!(s.allow_call_at(&c, 5_000_000));
    assert_eq!(s.state, CircuitState::HalfOpen);
    s.on_failure(&c, 6_000_000);
    assert_eq!(s.state, CircuitState::Open);
    assert_eq!(s.success_count, 0);
}

#[test]
fn circuit_breaker_success_resets_failure_count() {
    let c = cfg(3, 1_000_000_000, 1);
    let mut s = BreakerState::new();
    s.on_failure(&c, 1_000_000);
    s.on_failure(&c, 2_000_000);
    s.on_success(&c);
    assert_eq!(s.failure_count, 0);
    s.on_failure(&c, 3_000_000);
    s.on_failure(&c, 4_000_000);
    assert_eq!(s.state, CircuitState::Closed);
}

#[test]
fn circuit_breaker_passes_values() {
    let mut cb = CircuitBreaker::new(CircuitBreakerConfig::default());
    assert!(matches!(cb.complete(Ok(42)), Ok(42)));
    assert_eq!(CircuitBreakerConfig::default(), cfg(5, 60_000_000_000, 2));
}

#[test]
fn retry_decisions() {
    assert_eq!(retry_after_failure(0, 3).unwrap(), 1);
    assert_eq!(retry_after_failure(1, 3).unwrap(), 2);
    assert!(matches!(retry_after_failure(2, 3), Err(ResilienceError::MaxRetriesExceeded(3))));
    assert!(matches!(retry_after_failure(0, 0), Err(ResilienceError::MaxRetriesExceeded(0))));
    assert!(matches!(retry_after_failure(0, 1), Err(ResilienceError::MaxRetriesExceeded(1))));
}

#[test]
fn retry_config_builders() {
    let c = RetryConfig::default().with_max_attempts(10).with_initial_delay_ms(50);
    assert_eq!(c, RetryConfig::new(10, 50, 10000));
    assert_eq!(c.with_max_delay_ms(7).max_delay_ms, 7);
}

#[test]
fn resilience_error_messages() {
    assert_eq!(ResilienceError::MaxRetriesExceeded(3).message(), "Max retries (3) exceeded");
    assert_eq!(ResilienceError::CircuitOpen.message(), "Circuit breaker is open");
    assert_eq!(
        ResilienceError::OperationFailed("boom".to_string()).message(),
        "Operation failed: boom"
    );
    assert_eq!(
        ResilienceError::Timeout(std::time::Duration::from_millis(10)).message(),
        "Operation timed out after 10ms"
    );
}

#[test]
fn token_bucket_counts_whole_milliseconds() {
    // An interval of 1.5 ms counts as 1 ms, as `Duration::as_millis` does.
    let mut s = TokenBucketState::new(4, 1, 1_500_000);
    for _ in 0..4 {
        assert!(s.try_acquire_at(0));
    }
    assert!(!s.try_acquire_at(999_999));
    assert!(s.try_acquire_at(2_999_999));
    assert_eq!(s.tokens, 1);
    assert_eq!(s.last_refill_ns, 2_999_999);
}

#[test]
fn circuit_breaker_timeout_below_a_millisecond() {
    let c = cfg(1, 500_000, 1);
    let mut s = BreakerState::new();
    s.on_failure(&c, 1_000);
    assert!(!s.allow_call_at(&c, 500_999));
    assert!(s.allow_call_at(&c, 501_000));
    assert_eq!(s.state, CircuitState::HalfOpen);
}
