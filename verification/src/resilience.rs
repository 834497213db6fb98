//! Fault tolerance: the circuit breaker's state machine, retry configuration and the retry
//! decision, and the resilience errors.
//!
//! A circuit breaker starts closed. In the closed state failures are counted, and reaching
//! `failure_threshold` opens the circuit; a success resets the count. An open circuit
//! refuses calls until `timeout` has passed since the last failure, then lets calls through
//! half-open. Half-open, `success_threshold` successes close the circuit again and any
//! failure reopens it.
use vstd::prelude::*;
use std::time::Instant;
use crate::clock::{duration_debug_text, instant_now, nanos_since};
use crate::text::{decimal, owned, push_decimal, push_str};

verus! {

/// Errors of the resilience patterns.
#[derive(Debug)]
pub enum ResilienceError {
    /// The operation did not finish within the duration.
    Timeout(std::time::Duration),
    /// The operation failed on every attempt.
    MaxRetriesExceeded(usize),
    /// The circuit breaker is open.
    CircuitOpen,
    /// The operation failed, with the error's text.
    OperationFailed(String),
}

/// The result of a resilience operation.
pub type ResilienceResult<T> = Result<T, ResilienceError>;

impl ResilienceError {
    /// The error's message; a timeout's duration is rendered as `{:?}` renders it.
    pub fn message(&self) -> (m: String)
        ensures
            match self {
                ResilienceError::Timeout(_) => exists|d: Seq<char>|
                    m@ == "Operation timed out after "@ + d,
                ResilienceError::MaxRetriesExceeded(n) => m@ == "Max retries ("@ + decimal(
                    *n as nat,
                ) + ") exceeded"@,
                ResilienceError::CircuitOpen => m@ == "Circuit breaker is open"@,
                ResilienceError::OperationFailed(e) => m@ == "Operation failed: "@ + e@,
            },
    {
        match self {
            ResilienceError::Timeout(d) => {
                let mut m = owned("Operation timed out after ");
                let t = duration_debug_text(d);
                push_str(&mut m, t.as_str());
                m
            },
            ResilienceError::MaxRetriesExceeded(n) => {
                let mut m = owned("Max retries (");
                push_decimal(&mut m, *n as u64);
                push_str(&mut m, ") exceeded");
                m
            },
            ResilienceError::CircuitOpen => owned("Circuit breaker is open"),
            ResilienceError::OperationFailed(e) => {
                let mut m = owned("Operation failed: ");
                push_str(&mut m, e.as_str());
                m
            },
        }
    }
}

/// Circuit breaker state.
#[derive(Debug, Clone, Copy, PartialEq, Eq, Structural)]
pub enum CircuitState {
    /// Circuit is closed, requests flow through
    Closed,
    /// Circuit is open, requests fail fast
    Open,
    /// Circuit is half-open, testing if service recovered
    HalfOpen,
}

/// Circuit breaker configuration.
#[derive(Debug, Clone, Copy, PartialEq, Eq, Structural)]
pub struct CircuitBreakerConfig {
    /// Number of failures before opening circuit
    pub failure_threshold: usize,
    /// Nanoseconds to wait after the last failure before trying again
    pub timeout: u128,
    /// Number of successes needed to close circuit
    pub success_threshold: usize,
}

impl Default for CircuitBreakerConfig {
    /// Five failures, one minute, two successes.
    fn default() -> (c: Self)
        ensures
            c == (CircuitBreakerConfig { failure_threshold: 5, timeout: 60_000_000_000, success_threshold: 2 }),
    {
        CircuitBreakerConfig { failure_threshold: 5, timeout: 60_000_000_000, success_threshold: 2 }
    }
}

/// The state of a circuit breaker; times are nanoseconds on the breaker's clock.
#[derive(Debug, Clone, Copy, PartialEq, Eq, Structural)]
pub struct BreakerState {
    pub state: CircuitState,
    pub failure_count: usize,
    pub success_count: usize,
    pub last_failure_ns: Option<u128>,
}

impl BreakerState {
    /// A closed breaker with nothing counted.
    pub open spec fn initial() -> Self {
        BreakerState {
            state: CircuitState::Closed,
            failure_count: 0,
            success_count: 0,
            last_failure_ns: None,
        }
    }

    /// The counters stay in range: successes are only counted toward `success_threshold`.
    pub open spec fn wf(self, config: CircuitBreakerConfig) -> bool {
        self.success_count == 0 || self.success_count < config.success_threshold
    }

    /// Whether a call at `now` goes through: an open circuit whose timeout has passed since the
    /// last failure turns half-open with no successes counted and lets the call through; an
    /// open circuit still within its timeout refuses; otherwise the call goes through.
    pub open spec fn allow_call(self, config: CircuitBreakerConfig, now: u128) -> (Self, bool) {
        match self.state {
            CircuitState::Open => match self.last_failure_ns {
                Some(t) => if now >= t && now - t >= config.timeout {
                    (BreakerState { state: CircuitState::HalfOpen, success_count: 0, ..self }, true)
                } else {
                    (self, false)
                },
                None => (self, true),
            },
            _ => (self, true),
        }
    }

    /// After a success: half-open, one more success is counted, and reaching the threshold
    /// closes the circuit with both counts reset; closed, the failure count is reset.
    pub open spec fn succeeded(self, config: CircuitBreakerConfig) -> Self {
        match self.state {
            CircuitState::HalfOpen => if self.success_count + 1 >= config.success_threshold {
                BreakerState {
                    state: CircuitState::Closed,
                    failure_count: 0,
                    success_count: 0,
                    ..self
                }
            } else {
                BreakerState { success_count: (self.success_count + 1) as usize, ..self }
            },
            CircuitState::Closed => BreakerState { failure_count: 0, ..self },
            CircuitState::Open => self,
        }
    }

    /// After a failure at `now`: one more failure is counted and its time kept; closed,
    /// reaching the threshold opens the circuit; half-open, the circuit reopens with no
    /// successes counted.
    pub open spec fn failed(self, config: CircuitBreakerConfig, now: u128) -> Self {
        let s = BreakerState {
            failure_count: (self.failure_count + 1) as usize,
            last_failure_ns: Some(now),
            ..self
        };
        match self.state {
            CircuitState::Closed => if s.failure_count >= config.failure_threshold {
                BreakerState { state: CircuitState::Open, ..s }
            } else {
                s
            },
            CircuitState::HalfOpen => BreakerState {
                state: CircuitState::Open,
                success_count: 0,
                ..s
            },
            CircuitState::Open => s,
        }
    }

    /// A closed breaker with nothing counted.
    pub fn new() -> (s: Self)
        ensures
            s == Self::initial(),
    {
        BreakerState {
            state: CircuitState::Closed,
            failure_count: 0,
            success_count: 0,
            last_failure_ns: None,
        }
    }

    /// Decides whether a call at `now_ns` goes through (see `allow_call`).
    pub fn allow_call_at(&mut self, config: &CircuitBreakerConfig, now_ns: u128) -> (ok: bool)
        ensures
            (*final(self), ok) == old(self).allow_call(*config, now_ns),
    {
        match self.state {
            CircuitState::Open => match self.last_failure_ns {
                Some(t) => {
                    if now_ns >= t && now_ns - t >= config.timeout {
                        self.state = CircuitState::HalfOpen;
                        self.success_count = 0;
                        true
                    } else {
                        false
                    }
                },
                None => true,
            },
            _ => true,
        }
    }

    /// Records a success (see `succeeded`).
    pub fn on_success(&mut self, config: &CircuitBreakerConfig)
        requires
            old(self).wf(*config),
        ensures
            *final(self) == old(self).succeeded(*config),
            final(self).wf(*config),
    {
        match self.state {
            CircuitState::HalfOpen => {
                self.success_count = self.success_count + 1;
                if self.success_count >= config.success_threshold {
                    self.state = CircuitState::Closed;
                    self.failure_count = 0;
                    self.success_count = 0;
                }
            },
            CircuitState::Closed => {
                self.failure_count = 0;
            },
            CircuitState::Open => {},
        }
    }

    /// Records a failure at `now_ns` (see `failed`).
    pub fn on_failure(&mut self, config: &CircuitBreakerConfig, now_ns: u128)
        requires
            old(self).failure_count < usize::MAX,
            old(self).wf(*config),
        ensures
            *final(self) == old(self).failed(*config, now_ns),
            final(self).wf(*config),
    {
        self.failure_count = self.failure_count + 1;
        self.last_failure_ns = Some(now_ns);
        match self.state {
            CircuitState::Closed => {
                if self.failure_count >= config.failure_threshold {
                    self.state = CircuitState::Open;
                }
            },
            CircuitState::HalfOpen => {
                self.state = CircuitState::Open;
                self.success_count = 0;
            },
            CircuitState::Open => {},
        }
    }
}

/// The state after `n` failures at `now`, one after another.
pub open spec fn after_failures(s: BreakerState, config: CircuitBreakerConfig, n: nat, now: u128) -> BreakerState
    decreases n,
{
    if n == 0 {
        s
    } else {
        after_failures(s, config, (n - 1) as nat, now).failed(config, now)
    }
}

/// The state after `n` successes, one after another.
pub open spec fn after_successes(s: BreakerState, config: CircuitBreakerConfig, n: nat) -> BreakerState
    decreases n,
{
    if n == 0 {
        s
    } else {
        after_successes(s, config, (n - 1) as nat).succeeded(config)
    }
}

proof fn lemma_failures_from_closed(s: BreakerState, config: CircuitBreakerConfig, n: nat, now: u128)
    requires
        s.state == CircuitState::Closed,
        s.failure_count + n < usize::MAX,
        s.failure_count + n < config.failure_threshold,
    ensures
        after_failures(s, config, n, now).state == CircuitState::Closed,
        after_failures(s, config, n, now).failure_count == s.failure_count + n,
    decreases n,
{
    if n > 0 {
        lemma_failures_from_closed(s, config, (n - 1) as nat, now);
    }
}

/// A closed circuit opens after exactly as many consecutive failures as the failure
/// threshold: after fewer it is still closed, after that many it is open.
pub proof fn failures_open_circuit(s: BreakerState, config: CircuitBreakerConfig, now: u128)
    requires
        s.state == CircuitState::Closed,
        s.failure_count == 0,
        config.failure_threshold >= 1,
        config.failure_threshold < usize::MAX,
    ensures
        forall|k: nat|
            k < config.failure_threshold ==> #[trigger] after_failures(s, config, k, now).state
                == CircuitState::Closed,
        after_failures(s, config, config.failure_threshold as nat, now).state == CircuitState::Open,
{
    assert forall|k: nat| k < config.failure_threshold implies #[trigger] after_failures(
        s,
        config,
        k,
        now,
    ).state == CircuitState::Closed by {
        lemma_failures_from_closed(s, config, k, now);
    }
    let n = (config.failure_threshold - 1) as nat;
    lemma_failures_from_closed(s, config, n, now);
}

proof fn lemma_successes_from_half_open(s: BreakerState, config: CircuitBreakerConfig, n: nat)
    requires
        s.state == CircuitState::HalfOpen,
        s.success_count == 0,
        n < config.success_threshold,
    ensures
        after_successes(s, config, n).state == CircuitState::HalfOpen,
        after_successes(s, config, n).success_count == n,
        after_successes(s, config, n).failure_count == s.failure_count,
    decreases n,
{
    if n > 0 {
        lemma_successes_from_half_open(s, config, (n - 1) as nat);
    }
}

/// A half-open circuit closes after exactly as many consecutive successes as the success
/// threshold, with both counts reset; after fewer it is still half-open.
pub proof fn successes_close_circuit(s: BreakerState, config: CircuitBreakerConfig)
    requires
        s.state == CircuitState::HalfOpen,
        s.success_count == 0,
        config.success_threshold >= 1,
    ensures
        forall|k: nat|
            k < config.success_threshold ==> #[trigger] after_successes(s, config, k).state
                == CircuitState::HalfOpen,
        after_successes(s, config, config.success_threshold as nat).state == CircuitState::Closed,
        after_successes(s, config, config.success_threshold as nat).failure_count == 0,
        after_successes(s, config, config.success_threshold as nat).success_count == 0,
{
    assert forall|k: nat| k < config.success_threshold implies #[trigger] after_successes(
        s,
        config,
        k,
    ).state == CircuitState::HalfOpen by {
        lemma_successes_from_half_open(s, config, k);
    }
    lemma_successes_from_half_open(s, config, (config.success_threshold - 1) as nat);
}

/// Only an open circuit refuses a call: a closed or half-open circuit lets every call
/// through, at any time, and is left as it was.
pub proof fn calls_pass_unless_open(s: BreakerState, config: CircuitBreakerConfig, now: u128)
    requires
        s.state != CircuitState::Open,
    ensures
        s.allow_call(config, now) == (s, true),
{
}

/// The state after calls at the times `times`, one after another, each decided by
/// `allow_call` and, when let through, succeeding; and whether each was let through.
pub open spec fn after_successful_calls(
    s: BreakerState,
    config: CircuitBreakerConfig,
    times: Seq<u128>,
) -> (BreakerState, Seq<bool>)
    decreases times.len(),
{
    if times.len() == 0 {
        (s, Seq::empty())
    } else {
        let (s1, ok) = s.allow_call(config, times[0]);
        let s2 = if ok {
            s1.succeeded(config)
        } else {
            s1
        };
        let (last, oks) = after_successful_calls(s2, config, times.drop_first());
        (last, seq![ok] + oks)
    }
}

/// A half-open circuit closes through its calls: from half-open with `c` successes
/// counted, the next `success_threshold - c` calls, at any times, are all let through and,
/// when they succeed, close the circuit.
pub proof fn half_open_calls_close_circuit(
    s: BreakerState,
    config: CircuitBreakerConfig,
    times: Seq<u128>,
)
    requires
        s.state == CircuitState::HalfOpen,
        s.success_count < config.success_threshold,
        times.len() == config.success_threshold - s.success_count,
    ensures
        after_successful_calls(s, config, times).1.len() == times.len(),
        forall|i: int| 0 <= i < times.len() ==> #[trigger] after_successful_calls(s, config, times).1[i],
        after_successful_calls(s, config, times).0.state == CircuitState::Closed,
    decreases times.len(),
{
    let s1 = s.allow_call(config, times[0]).0;
    assert(s1 == s);
    let s2 = s.succeeded(config);
    let rest = times.drop_first();
    let run = after_successful_calls(s, config, times);
    if s.success_count + 1 >= config.success_threshold {
        assert(rest.len() == 0);
        assert(after_successful_calls(s2, config, rest) == (s2, Seq::<bool>::empty()));
        assert(run.1 =~= seq![true]);
    } else {
        half_open_calls_close_circuit(s2, config, rest);
        let tail = after_successful_calls(s2, config, rest).1;
        assert forall|i: int| 0 <= i < times.len() implies #[trigger] run.1[i] by {
            if i > 0 {
                assert(run.1[i] == tail[i - 1]);
            }
        }
    }
}

/// An open circuit refuses every call until its timeout has passed since the last failure,
/// and is left unchanged by the refusal; once it has passed, the call goes through
/// half-open.
pub proof fn open_circuit_waits_for_timeout(s: BreakerState, config: CircuitBreakerConfig, now: u128)
    requires
        s.state == CircuitState::Open,
        s.last_failure_ns is Some,
    ensures
        ({
            let t = s.last_failure_ns->0;
            if now >= t && now - t >= config.timeout {
                s.allow_call(config, now).1 && s.allow_call(config, now).0.state == CircuitState::HalfOpen
            } else {
                !s.allow_call(config, now).1 && s.allow_call(config, now).0 == s
            }
        }),
{
}

/// Any failure of a half-open circuit reopens it, and a success of a closed circuit
/// clears its failure count.
pub proof fn half_open_failure_reopens(s: BreakerState, config: CircuitBreakerConfig, now: u128)
    ensures
        s.state == CircuitState::HalfOpen ==> s.failed(config, now).state == CircuitState::Open,
        s.state == CircuitState::Closed ==> s.succeeded(config).failure_count == 0
            && s.succeeded(config).state == CircuitState::Closed,
{
}

/// Circuit breaker for fault tolerance.
pub struct CircuitBreaker {
    config: CircuitBreakerConfig,
    origin: Instant,
    state: BreakerState,
}

impl CircuitBreaker {
    /// The counters stay in range for the configuration.
    #[verifier::type_invariant]
    spec fn counters_in_range(self) -> bool {
        self.state.wf(self.config)
    }

    /// The configuration.
    pub closed spec fn config_spec(&self) -> CircuitBreakerConfig {
        self.config
    }

    /// The breaker's state; its clock counts from its creation.
    pub closed spec fn view(&self) -> BreakerState {
        self.state
    }

    /// A closed breaker.
    pub fn new(config: CircuitBreakerConfig) -> (b: Self)
        ensures
            b.config_spec() == config,
            b@ == BreakerState::initial(),
    {
        CircuitBreaker { config, origin: instant_now(), state: BreakerState::new() }
    }

    /// The failures counted since the count was last reset.
    pub fn failure_count(&self) -> (n: usize)
        ensures
            n == self@.failure_count,
    {
        self.state.failure_count
    }

    /// The current circuit state.
    pub fn state(&self) -> (s: CircuitState)
        ensures
            s == self@.state,
    {
        self.state.state
    }

    /// Decides whether a call goes through now: `CircuitOpen` when the circuit refuses it (see `allow_call`).
    pub fn before_call(&mut self) -> (r: ResilienceResult<()>)
        ensures
            final(self).config_spec() == old(self).config_spec(),
            exists|now: u128|
                #[trigger] old(self)@.allow_call(old(self).config_spec(), now) == (final(self)@, r is Ok),
            r matches Err(e) ==> e is CircuitOpen,
    {
        proof {
            use_type_invariant(&*self);
        }
        let now = nanos_since(&self.origin);
        let mut st = self.state;
        let ok = st.allow_call_at(&self.config, now);
        self.state = st;
        assert(old(self)@.allow_call(old(self).config_spec(), now) == (self@, ok));
        if ok {
            Ok(())
        } else {
            Err(ResilienceError::CircuitOpen)
        }
    }

    /// Records the outcome of a call that went through: a success passes the value on; a
    /// failure, given by its error's text, becomes `OperationFailed`.
    pub fn complete<T>(&mut self, outcome: Result<T, String>) -> (r: ResilienceResult<T>)
        requires
            old(self)@.failure_count < usize::MAX,
        ensures
            final(self).config_spec() == old(self).config_spec(),
            match outcome {
                Ok(v) => final(self)@ == old(self)@.succeeded(old(self).config_spec()) && r
                    == Ok::<T, ResilienceError>(v),
                Err(e) => {
                    &&& exists|now: u128|
                        final(self)@ == #[trigger] old(self)@.failed(old(self).config_spec(), now)
                    &&& r matches Err(ResilienceError::OperationFailed(m))
                    &&& m@ == e@
                },
            },
    {
        proof {
            use_type_invariant(&*self);
        }
        match outcome {
            Ok(v) => {
                let mut st = self.state;
                st.on_success(&self.config);
                self.state = st;
                Ok(v)
            },
            Err(e) => {
                let now = nanos_since(&self.origin);
                let mut st = self.state;
                st.on_failure(&self.config, now);
                self.state = st;
                assert(self@ == old(self)@.failed(old(self).config_spec(), now));
                Err(ResilienceError::OperationFailed(e))
            },
        }
    }
}

/// Configuration for retry behavior.
#[derive(Debug, Clone, PartialEq, Eq, Structural)]
pub struct RetryConfig {
    /// Maximum number of retry attempts
    pub max_attempts: usize,
    /// Initial delay between retries in milliseconds
    pub initial_delay_ms: u64,
    /// Maximum delay between retries in milliseconds
    pub max_delay_ms: u64,
}

impl RetryConfig {
    /// A retry configuration.
    pub fn new(max_attempts: usize, initial_delay_ms: u64, max_delay_ms: u64) -> (c: Self)
        ensures
            c == (RetryConfig { max_attempts, initial_delay_ms, max_delay_ms }),
    {
        RetryConfig { max_attempts, initial_delay_ms, max_delay_ms }
    }

    /// Sets the maximum number of attempts.
    pub fn with_max_attempts(self, max_attempts: usize) -> (c: Self)
        ensures
            c == (RetryConfig { max_attempts, ..self }),
    {
        let mut c = self;
        c.max_attempts = max_attempts;
        c
    }

    /// Sets the initial delay in milliseconds.
    pub fn with_initial_delay_ms(self, delay: u64) -> (c: Self)
        ensures
            c == (RetryConfig { initial_delay_ms: delay, ..self }),
    {
        let mut c = self;
        c.initial_delay_ms = delay;
        c
    }

    /// Sets the maximum delay in milliseconds.
    pub fn with_max_delay_ms(self, delay: u64) -> (c: Self)
        ensures
            c == (RetryConfig { max_delay_ms: delay, ..self }),
    {
        let mut c = self;
        c.max_delay_ms = delay;
        c
    }
}

impl Default for RetryConfig {
    /// Three attempts, 100 ms at first, 10 s at most.
    fn default() -> (c: Self)
        ensures
            c == (RetryConfig { max_attempts: 3, initial_delay_ms: 100, max_delay_ms: 10000 }),
    {
        RetryConfig { max_attempts: 3, initial_delay_ms: 100, max_delay_ms: 10000 }
    }
}

/// Whether retrying stops after the failure that brings the failed attempts to `failed`.
pub open spec fn gives_up(failed: nat, max_retries: nat) -> bool {
    failed >= max_retries
}

/// The retry decision after a failed attempt, `failed` attempts having failed before it:
/// `Ok` with the number of failed attempts so far (which sets the backoff before the next
/// attempt) while that is below `max_retries`, else `MaxRetriesExceeded(max_retries)`.
pub fn retry_after_failure(failed: usize, max_retries: usize) -> (r: ResilienceResult<usize>)
    requires
        failed < usize::MAX,
    ensures
        !gives_up((failed + 1) as nat, max_retries as nat) ==> r == Ok::<usize, ResilienceError>(
            (failed + 1) as usize,
        ),
        gives_up((failed + 1) as nat, max_retries as nat) ==> (r matches Err(
            ResilienceError::MaxRetriesExceeded(n),
        ) && n == max_retries),
{
    let attempts = failed + 1;
    if attempts >= max_retries {
        Err(ResilienceError::MaxRetriesExceeded(max_retries))
    } else {
        Ok(attempts)
    }
}

/// An operation that always fails is attempted exactly `max_retries` times, or once when
/// `max_retries` is 0: retrying goes on after each earlier failure and stops after that one.
pub proof fn retries_bounded(max_retries: nat)
    ensures
        forall|k: nat| 1 <= k < max_retries ==> !#[trigger] gives_up(k, max_retries),
        gives_up(if max_retries == 0 { 1 } else { max_retries }, max_retries),
{
}

} // verus!
