//! Rate limiting algorithms: token bucket, leaky bucket, fixed window and sliding window.
//!
//! Each limiter is a state of plain integers (its `*State` type) and the instant from which
//! its clock is read. Times are nanoseconds since that instant; a state steps at a
//! given time by `try_acquire_at`, which is what every reading of the clock is handed to.
use vstd::prelude::*;
use std::collections::VecDeque;
use std::time::Instant;
use crate::clock::{instant_now, nanos_since};
use crate::text::{owned, push_str};

verus! {

/// Rate limiting errors.
#[derive(Debug)]
pub enum RateLimitError {
    /// The limit is reached.
    RateLimitExceeded,
    /// The configuration is not usable.
    InvalidConfig(String),
}

/// The result of a rate limiting operation.
pub type RateLimitResult<T> = Result<T, RateLimitError>;

impl RateLimitError {
    /// The error's message.
    pub open spec fn message_spec(&self) -> Seq<char> {
        match self {
            RateLimitError::RateLimitExceeded => "Rate limit exceeded"@,
            RateLimitError::InvalidConfig(s) => "Invalid configuration: "@ + s@,
        }
    }

    /// The error's message.
    pub fn message(&self) -> (m: String)
        ensures
            m@ == self.message_spec(),
    {
        match self {
            RateLimitError::RateLimitExceeded => owned("Rate limit exceeded"),
            RateLimitError::InvalidConfig(s) => {
                let mut m = owned("Invalid configuration: ");
                push_str(&mut m, s.as_str());
                m
            },
        }
    }
}

/// The nanoseconds from `then` to `now`; none when `now` is not later.
pub open spec fn elapsed_since(now: u128, then: u128) -> int {
    if now >= then {
        now - then
    } else {
        0
    }
}

/// The smaller of two integers.
pub open spec fn min_int(a: int, b: int) -> int {
    if a <= b {
        a
    } else {
        b
    }
}

fn elapsed_ns(now: u128, then: u128) -> (e: u128)
    ensures
        e == elapsed_since(now, then),
{
    if now >= then {
        now - then
    } else {
        0
    }
}

/// The state of a token bucket: up to `capacity` tokens, `refill_rate` more for every
/// `refill_interval_ns` elapsed since the last refill, both counted in whole milliseconds.
#[derive(Clone, Copy, PartialEq, Eq, Debug)]
pub struct TokenBucketState {
    pub capacity: usize,
    pub refill_rate: usize,
    pub refill_interval_ns: u128,
    pub tokens: usize,
    pub last_refill_ns: u128,
}

impl TokenBucketState {
    /// The state after the refills due at `now`: the whole milliseconds elapsed since the
    /// last refill, divided by the interval's whole milliseconds, give the refills; each
    /// adds `refill_rate` tokens, up to `capacity`, and the refill time moves to `now`;
    /// with no refill due nothing changes.
    pub open spec fn refilled(self, now: u128) -> Self {
        let refills = (elapsed_since(now, self.last_refill_ns) / 1_000_000) / (self.refill_interval_ns / 1_000_000) as int;
        if refills > 0 {
            TokenBucketState {
                tokens: min_int(self.tokens + refills * self.refill_rate, self.capacity as int)
                    as usize,
                last_refill_ns: now,
                ..self
            }
        } else {
            self
        }
    }

    /// One acquisition at `now`: after refilling, a token is taken if there is one.
    pub open spec fn acquire_step(self, now: u128) -> (Self, bool) {
        let s = self.refilled(now);
        if s.tokens > 0 {
            (TokenBucketState { tokens: (s.tokens - 1) as usize, ..s }, true)
        } else {
            (s, false)
        }
    }

    /// A full bucket whose last refill is at time 0.
    pub fn new(capacity: usize, refill_rate: usize, refill_interval_ns: u128) -> (s: Self)
        ensures
            s == (TokenBucketState {
                capacity,
                refill_rate,
                refill_interval_ns,
                tokens: capacity,
                last_refill_ns: 0,
            }),
    {
        TokenBucketState { capacity, refill_rate, refill_interval_ns, tokens: capacity, last_refill_ns: 0 }
    }

    fn refill_at(&mut self, now_ns: u128)
        requires
            old(self).refill_interval_ns >= 1_000_000,
        ensures
            *final(self) == old(self).refilled(now_ns),
    {
        let elapsed = elapsed_ns(now_ns, self.last_refill_ns);
        let refills: u128 = (elapsed / 1_000_000) / (self.refill_interval_ns / 1_000_000);
        if refills > 0 {
            let ghost product: int = refills * self.refill_rate;
            assert(product >= 0) by (nonlinear_arith)
                requires
                    product == refills * self.refill_rate,
            ;
            let tokens: usize = if self.tokens >= self.capacity {
                self.capacity
            } else {
                let room: usize = self.capacity - self.tokens;
                match refills.checked_mul(self.refill_rate as u128) {
                    Some(p) => {
                        if p < room as u128 {
                            self.tokens + p as usize
                        } else {
                            self.capacity
                        }
                    },
                    None => self.capacity,
                }
            };
            self.tokens = tokens;
            self.last_refill_ns = now_ns;
        }
    }

    /// Tries to take a token at `now_ns`, after the refills due then.
    pub fn try_acquire_at(&mut self, now_ns: u128) -> (ok: bool)
        requires
            old(self).refill_interval_ns >= 1_000_000,
        ensures
            (*final(self), ok) == old(self).acquire_step(now_ns),
    {
        self.refill_at(now_ns);
        if self.tokens > 0 {
            self.tokens = self.tokens - 1;
            true
        } else {
            false
        }
    }
}

/// A refill or an acquisition never leaves more tokens than the capacity.
pub proof fn token_bucket_within_capacity(s: TokenBucketState, now: u128)
    requires
        s.tokens <= s.capacity,
        s.refill_interval_ns >= 1_000_000,
    ensures
        s.refilled(now).tokens <= s.capacity,
        s.acquire_step(now).0.tokens <= s.capacity,
        s.acquire_step(now).0.capacity == s.capacity,
{
}

/// A bucket that still holds tokens after refilling grants the request; one that holds
/// none refuses it and is left as refilled.
pub proof fn token_bucket_grants_iff_tokens(s: TokenBucketState, now: u128)
    ensures
        s.acquire_step(now).1 == (s.refilled(now).tokens > 0),
        !s.acquire_step(now).1 ==> s.acquire_step(now).0 == s.refilled(now),
{
}

/// Token bucket rate limiter.
pub struct TokenBucket {
    origin: Instant,
    state: TokenBucketState,
}

impl TokenBucket {
    /// The bucket's state; its clock counts from its creation.
    pub closed spec fn view(&self) -> TokenBucketState {
        self.state
    }

    /// A full bucket of `capacity` tokens, refilled by `refill_rate` tokens every
    /// `refill_interval_ns` nanoseconds.
    pub fn new(capacity: usize, refill_rate: usize, refill_interval_ns: u128) -> (b: Self)
        ensures
            b@ == TokenBucketState::new_spec(capacity, refill_rate, refill_interval_ns),
    {
        TokenBucket {
            origin: instant_now(),
            state: TokenBucketState::new(capacity, refill_rate, refill_interval_ns),
        }
    }

    /// Tries to take a token now; `RateLimitExceeded` when the bucket is empty after
    /// refilling.
    pub fn try_acquire(&mut self) -> (r: RateLimitResult<()>)
        requires
            old(self)@.refill_interval_ns >= 1_000_000,
        ensures
            exists|now: u128| old(self)@.acquire_step(now) == (final(self)@, r is Ok),
            r matches Err(e) ==> e is RateLimitExceeded,
    {
        let now = nanos_since(&self.origin);
        if self.state.try_acquire_at(now) {
            Ok(())
        } else {
            Err(RateLimitError::RateLimitExceeded)
        }
    }

    /// The bucket's state.
    pub fn state(&self) -> (s: TokenBucketState)
        ensures
            s == self@,
    {
        self.state
    }

    /// The tokens in the bucket, as of the last refill.
    pub fn available_tokens(&self) -> (n: usize)
        ensures
            n == self@.tokens,
    {
        self.state.tokens
    }
}

impl TokenBucketState {
    /// A full bucket whose last refill is at time 0.
    pub open spec fn new_spec(capacity: usize, refill_rate: usize, refill_interval_ns: u128) -> Self {
        TokenBucketState { capacity, refill_rate, refill_interval_ns, tokens: capacity, last_refill_ns: 0 }
    }
}

/// The state of a leaky bucket: a level of up to `capacity` requests, lowered by
/// `leak_rate` for every `leak_interval_ns` elapsed since the last leak, both counted in
/// whole milliseconds.
#[derive(Clone, Copy, PartialEq, Eq, Debug)]
pub struct LeakyBucketState {
    pub capacity: usize,
    pub leak_rate: usize,
    pub leak_interval_ns: u128,
    pub level: usize,
    pub last_leak_ns: u128,
}

impl LeakyBucketState {
    /// The state after the leaks due at `now`: the whole milliseconds elapsed since the last
    /// leak, divided by the interval's whole milliseconds, give the leaks; each lowers the
    /// level by `leak_rate`, not below zero, and the leak time moves to `now`; with no leak
    /// due nothing changes.
    pub open spec fn leaked(self, now: u128) -> Self {
        let leaks = (elapsed_since(now, self.last_leak_ns) / 1_000_000) / (self.leak_interval_ns / 1_000_000) as int;
        if leaks > 0 {
            LeakyBucketState {
                level: if self.level >= leaks * self.leak_rate {
                    (self.level - leaks * self.leak_rate) as usize
                } else {
                    0
                },
                last_leak_ns: now,
                ..self
            }
        } else {
            self
        }
    }

    /// One request at `now`: after leaking, it is added if the level is below capacity.
    pub open spec fn acquire_step(self, now: u128) -> (Self, bool) {
        let s = self.leaked(now);
        if s.level < s.capacity {
            (LeakyBucketState { level: (s.level + 1) as usize, ..s }, true)
        } else {
            (s, false)
        }
    }

    /// An empty bucket whose last leak is at time 0.
    pub open spec fn new_spec(capacity: usize, leak_rate: usize, leak_interval_ns: u128) -> Self {
        LeakyBucketState { capacity, leak_rate, leak_interval_ns, level: 0, last_leak_ns: 0 }
    }

    /// An empty bucket whose last leak is at time 0.
    pub fn new(capacity: usize, leak_rate: usize, leak_interval_ns: u128) -> (s: Self)
        ensures
            s == Self::new_spec(capacity, leak_rate, leak_interval_ns),
    {
        LeakyBucketState { capacity, leak_rate, leak_interval_ns, level: 0, last_leak_ns: 0 }
    }

    /// Applies the leaks due at `now_ns`.
    pub fn leak_at(&mut self, now_ns: u128)
        requires
            old(self).leak_interval_ns >= 1_000_000,
        ensures
            *final(self) == old(self).leaked(now_ns),
    {
        let elapsed = elapsed_ns(now_ns, self.last_leak_ns);
        let leaks: u128 = (elapsed / 1_000_000) / (self.leak_interval_ns / 1_000_000);
        if leaks > 0 {
            let ghost product: int = leaks * self.leak_rate;
            assert(product >= 0) by (nonlinear_arith)
                requires
                    product == leaks * self.leak_rate,
            ;
            let level: usize = match leaks.checked_mul(self.leak_rate as u128) {
                Some(p) => {
                    if (self.level as u128) >= p {
                        self.level - p as usize
                    } else {
                        0
                    }
                },
                None => 0,
            };
            self.level = level;
            self.last_leak_ns = now_ns;
        }
    }

    /// Tries to add a request at `now_ns`, after the leaks due then.
    pub fn try_acquire_at(&mut self, now_ns: u128) -> (ok: bool)
        requires
            old(self).leak_interval_ns >= 1_000_000,
        ensures
            (*final(self), ok) == old(self).acquire_step(now_ns),
    {
        self.leak_at(now_ns);
        if self.level < self.capacity {
            self.level = self.level + 1;
            true
        } else {
            false
        }
    }
}

/// A leak or an accepted request never raises the level above the capacity, and a full
/// bucket that has not leaked refuses.
pub proof fn leaky_bucket_within_capacity(s: LeakyBucketState, now: u128)
    requires
        s.level <= s.capacity,
        s.leak_interval_ns >= 1_000_000,
    ensures
        s.leaked(now).level <= s.capacity,
        s.acquire_step(now).0.level <= s.capacity,
        s.leaked(now).level >= s.capacity ==> !s.acquire_step(now).1,
{
}

/// Leaky bucket rate limiter.
pub struct LeakyBucket {
    origin: Instant,
    state: LeakyBucketState,
}

impl LeakyBucket {
    /// The bucket's state; its clock counts from its creation.
    pub closed spec fn view(&self) -> LeakyBucketState {
        self.state
    }

    /// An empty bucket of `capacity` requests that leaks `leak_rate` requests every
    /// `leak_interval_ns` nanoseconds.
    pub fn new(capacity: usize, leak_rate: usize, leak_interval_ns: u128) -> (b: Self)
        ensures
            b@ == LeakyBucketState::new_spec(capacity, leak_rate, leak_interval_ns),
    {
        LeakyBucket {
            origin: instant_now(),
            state: LeakyBucketState::new(capacity, leak_rate, leak_interval_ns),
        }
    }

    /// Tries to add a request now; `RateLimitExceeded` when the bucket is full after
    /// leaking.
    pub fn try_acquire(&mut self) -> (r: RateLimitResult<()>)
        requires
            old(self)@.leak_interval_ns >= 1_000_000,
        ensures
            exists|now: u128| old(self)@.acquire_step(now) == (final(self)@, r is Ok),
            r matches Err(e) ==> e is RateLimitExceeded,
    {
        let now = nanos_since(&self.origin);
        if self.state.try_acquire_at(now) {
            Ok(())
        } else {
            Err(RateLimitError::RateLimitExceeded)
        }
    }

    /// The bucket's state.
    pub fn state(&self) -> (s: LeakyBucketState)
        ensures
            s == self@,
    {
        self.state
    }

    /// The level now, after applying the leaks due.
    pub fn current_level(&mut self) -> (n: usize)
        requires
            old(self)@.leak_interval_ns >= 1_000_000,
        ensures
            exists|now: u128| final(self)@ == old(self)@.leaked(now),
            n == final(self)@.level,
    {
        let now = nanos_since(&self.origin);
        self.state.leak_at(now);
        self.state.level
    }
}

/// The state of a fixed window counter: up to `max_requests` in each window of
/// `window_size_ns` nanoseconds that starts at `window_start_ns`.
#[derive(Clone, Copy, PartialEq, Eq, Debug)]
pub struct FixedWindowState {
    pub max_requests: usize,
    pub window_size_ns: u128,
    pub count: usize,
    pub window_start_ns: u128,
}

impl FixedWindowState {
    /// The state at `now`: once the window has lasted `window_size_ns`, a new one starts at
    /// `now` with no requests counted.
    pub open spec fn current(self, now: u128) -> Self {
        if elapsed_since(now, self.window_start_ns) >= self.window_size_ns {
            FixedWindowState { count: 0, window_start_ns: now, ..self }
        } else {
            self
        }
    }

    /// One request at `now`: counted if the current window is under its limit.
    pub open spec fn acquire_step(self, now: u128) -> (Self, bool) {
        let s = self.current(now);
        if s.count < s.max_requests {
            (FixedWindowState { count: (s.count + 1) as usize, ..s }, true)
        } else {
            (s, false)
        }
    }

    /// A window that starts at time 0 with no requests.
    pub open spec fn new_spec(max_requests: usize, window_size_ns: u128) -> Self {
        FixedWindowState { max_requests, window_size_ns, count: 0, window_start_ns: 0 }
    }

    /// A window that starts at time 0 with no requests.
    pub fn new(max_requests: usize, window_size_ns: u128) -> (s: Self)
        ensures
            s == Self::new_spec(max_requests, window_size_ns),
    {
        FixedWindowState { max_requests, window_size_ns, count: 0, window_start_ns: 0 }
    }

    /// Tries to count a request at `now_ns`.
    pub fn try_acquire_at(&mut self, now_ns: u128) -> (ok: bool)
        ensures
            (*final(self), ok) == old(self).acquire_step(now_ns),
    {
        if elapsed_ns(now_ns, self.window_start_ns) >= self.window_size_ns {
            self.count = 0;
            self.window_start_ns = now_ns;
        }
        if self.count < self.max_requests {
            self.count = self.count + 1;
            true
        } else {
            false
        }
    }
}

/// Within one window no more than `max_requests` requests are counted: a window at its
/// limit refuses every request until it expires, and the count never passes the limit.
pub proof fn fixed_window_limit(s: FixedWindowState, now: u128)
    requires
        s.count <= s.max_requests,
    ensures
        s.acquire_step(now).0.count <= s.max_requests,
        s.count >= s.max_requests && elapsed_since(now, s.window_start_ns) < s.window_size_ns
            ==> !s.acquire_step(now).1 && s.acquire_step(now).0 == s,
{
}

/// The state after requests at the times `times`, in order, and whether each was granted.
pub open spec fn fixed_window_run(s: FixedWindowState, times: Seq<u128>) -> (
    FixedWindowState,
    Seq<bool>,
)
    decreases times.len(),
{
    if times.len() == 0 {
        (s, Seq::empty())
    } else {
        let (s1, ok) = s.acquire_step(times[0]);
        let (last, oks) = fixed_window_run(s1, times.drop_first());
        (last, seq![ok] + oks)
    }
}

/// Within one window the requests are counted up to the limit and the rest refused: for
/// requests at times that all fall within the window begun at `window_start_ns`, the
/// `i`-th is granted exactly when fewer than `max_requests` were counted before it, and
/// the count ends at the limit or at the count plus the requests, whichever is smaller.
pub proof fn fixed_window_counts_per_window(s: FixedWindowState, times: Seq<u128>)
    requires
        s.count <= s.max_requests,
        forall|i: int| 0 <= i < times.len() ==> elapsed_since(#[trigger] times[i], s.window_start_ns)
            < s.window_size_ns,
    ensures
        fixed_window_run(s, times).1.len() == times.len(),
        forall|i: int|
            0 <= i < times.len() ==> #[trigger] fixed_window_run(s, times).1[i] == (s.count + i
                < s.max_requests),
        fixed_window_run(s, times).0.count == min_int(s.count + times.len(), s.max_requests as int),
        fixed_window_run(s, times).0.window_start_ns == s.window_start_ns,
        fixed_window_run(s, times).0.max_requests == s.max_requests,
        fixed_window_run(s, times).0.window_size_ns == s.window_size_ns,
    decreases times.len(),
{
    if times.len() > 0 {
        let (s1, ok) = s.acquire_step(times[0]);
        let rest = times.drop_first();
        assert(elapsed_since(times[0], s.window_start_ns) < s.window_size_ns);
        assert forall|i: int| 0 <= i < rest.len() implies elapsed_since(
            #[trigger] rest[i],
            s1.window_start_ns,
        ) < s1.window_size_ns by {
            assert(rest[i] == times[i + 1]);
        }
        fixed_window_counts_per_window(s1, rest);
        let oks = fixed_window_run(s1, rest).1;
        assert forall|i: int| 0 <= i < times.len() implies #[trigger] fixed_window_run(
            s,
            times,
        ).1[i] == (s.count + i < s.max_requests) by {
            if i > 0 {
                assert(fixed_window_run(s, times).1[i] == oks[i - 1]);
            }
        }
    }
}

/// Fixed window rate limiter.
pub struct FixedWindow {
    origin: Instant,
    state: FixedWindowState,
}

impl FixedWindow {
    /// The window's state; its clock counts from its creation.
    pub closed spec fn view(&self) -> FixedWindowState {
        self.state
    }

    /// A limiter of `max_requests` per window of `window_size_ns` nanoseconds.
    pub fn new(max_requests: usize, window_size_ns: u128) -> (w: Self)
        ensures
            w@ == FixedWindowState::new_spec(max_requests, window_size_ns),
    {
        FixedWindow { origin: instant_now(), state: FixedWindowState::new(max_requests, window_size_ns) }
    }

    /// Tries to count a request now; `RateLimitExceeded` when the current window is full.
    pub fn try_acquire(&mut self) -> (r: RateLimitResult<()>)
        ensures
            exists|now: u128| old(self)@.acquire_step(now) == (final(self)@, r is Ok),
            r matches Err(e) ==> e is RateLimitExceeded,
    {
        let now = nanos_since(&self.origin);
        let ok = self.state.try_acquire_at(now);
        assert(old(self)@.acquire_step(now) == (self@, ok));
        if ok {
            Ok(())
        } else {
            Err(RateLimitError::RateLimitExceeded)
        }
    }

    /// The requests counted in the current window.
    pub fn current_count(&self) -> (n: usize)
        ensures
            n == self@.count,
    {
        self.state.count
    }
}

/// The request times still in the window at `now`: the leading times that are at least
/// `window_ns` old are dropped, up to the first that is not.
pub open spec fn unexpired(times: Seq<u128>, now: u128, window_ns: u128) -> Seq<u128>
    decreases times.len(),
{
    if times.len() > 0 && elapsed_since(now, times[0]) >= window_ns {
        unexpired(times.drop_first(), now, window_ns)
    } else {
        times
    }
}

proof fn lemma_unexpired_len(times: Seq<u128>, now: u128, window_ns: u128)
    ensures
        unexpired(times, now, window_ns).len() <= times.len(),
    decreases times.len(),
{
    if times.len() > 0 && elapsed_since(now, times[0]) >= window_ns {
        lemma_unexpired_len(times.drop_first(), now, window_ns);
    }
}

/// The state of a sliding window log: the times of the requests counted, oldest first.
pub struct SlidingWindowState {
    pub max_requests: usize,
    pub window_size_ns: u128,
    pub requests: VecDeque<u128>,
}

impl SlidingWindowState {
    /// Whether a request at `now` is counted: fewer than `max_requests` requests remain in
    /// the window.
    pub open spec fn admits(&self, now: u128) -> bool {
        unexpired(self.requests@, now, self.window_size_ns).len() < self.max_requests
    }

    /// The request times after a request at `now`: the unexpired times, and `now` if it
    /// was counted.
    pub open spec fn times_after(&self, now: u128) -> Seq<u128> {
        let kept = unexpired(self.requests@, now, self.window_size_ns);
        if self.admits(now) {
            kept.push(now)
        } else {
            kept
        }
    }

    /// An empty log.
    pub fn new(max_requests: usize, window_size_ns: u128) -> (s: Self)
        ensures
            s.max_requests == max_requests,
            s.window_size_ns == window_size_ns,
            s.requests@ == Seq::<u128>::empty(),
    {
        SlidingWindowState { max_requests, window_size_ns, requests: VecDeque::new() }
    }

    /// Tries to count a request at `now_ns`, after dropping the expired times.
    pub fn try_acquire_at(&mut self, now_ns: u128) -> (ok: bool)
        ensures
            ok == old(self).admits(now_ns),
            final(self).requests@ == old(self).times_after(now_ns),
            final(self).max_requests == old(self).max_requests,
            final(self).window_size_ns == old(self).window_size_ns,
    {
        let ghost kept = unexpired(old(self).requests@, now_ns, old(self).window_size_ns);
        let w = self.window_size_ns;
        loop
            invariant
                self.window_size_ns == w,
                self.max_requests == old(self).max_requests,
                w == old(self).window_size_ns,
                unexpired(self.requests@, now_ns, w) == kept,
            ensures
                self.window_size_ns == w,
                self.max_requests == old(self).max_requests,
                self.requests@ == kept,
            decreases self.requests@.len(),
        {
            if self.requests.len() == 0 {
                break;
            }
            let oldest = self.requests[0];
            if elapsed_ns(now_ns, oldest) >= w as u128 {
                let ghost before = self.requests@;
                self.requests.pop_front();
                assert(self.requests@ =~= before.drop_first());
            } else {
                break;
            }
        }
        if self.requests.len() < self.max_requests {
            self.requests.push_back(now_ns);
            true
        } else {
            false
        }
    }

    /// The requests in the log.
    pub fn count(&self) -> (n: usize)
        ensures
            n == self.requests@.len(),
    {
        self.requests.len()
    }
}

/// A log never holds more than `max_requests` times, and one at its limit within the
/// window refuses.
pub proof fn sliding_window_limit(s: SlidingWindowState, now: u128)
    requires
        s.requests@.len() <= s.max_requests,
    ensures
        s.times_after(now).len() <= s.max_requests,
        unexpired(s.requests@, now, s.window_size_ns).len() >= s.max_requests ==> !s.admits(
            now,
        ),
{
    lemma_unexpired_len(s.requests@, now, s.window_size_ns);
}

/// Sliding window rate limiter.
pub struct SlidingWindow {
    origin: Instant,
    state: SlidingWindowState,
}

impl SlidingWindow {
    /// The most requests in a window.
    pub closed spec fn max_requests(&self) -> usize {
        self.state.max_requests
    }

    /// The window's length in nanoseconds.
    pub closed spec fn window_size_ns(&self) -> u128 {
        self.state.window_size_ns
    }

    /// The times of the requests counted (nanoseconds since the limiter's creation), oldest
    /// first.
    pub closed spec fn times(&self) -> Seq<u128> {
        self.state.requests@
    }

    /// Whether a request at `now` is counted.
    pub closed spec fn admits(&self, now: u128) -> bool {
        self.state.admits(now)
    }

    /// The request times after a request at `now`.
    pub closed spec fn times_after(&self, now: u128) -> Seq<u128> {
        self.state.times_after(now)
    }

    /// Whether a request at `now` is counted: fewer than `max_requests` requests remain in
    /// the window.
    pub proof fn lemma_admits(&self, now: u128)
        ensures
            self.admits(now) == (unexpired(self.times(), now, self.window_size_ns()).len()
                < self.max_requests()),
            self.times_after(now) == (if self.admits(now) {
                unexpired(self.times(), now, self.window_size_ns()).push(now)
            } else {
                unexpired(self.times(), now, self.window_size_ns())
            }),
    {
    }

    /// A limiter of `max_requests` per sliding window of `window_size_ns` nanoseconds.
    pub fn new(max_requests: usize, window_size_ns: u128) -> (w: Self)
        ensures
            w.max_requests() == max_requests,
            w.window_size_ns() == window_size_ns,
            w.times() == Seq::<u128>::empty(),
    {
        SlidingWindow { origin: instant_now(), state: SlidingWindowState::new(max_requests, window_size_ns) }
    }

    /// Tries to count a request now; `RateLimitExceeded` when the window is full.
    pub fn try_acquire(&mut self) -> (r: RateLimitResult<()>)
        ensures
            final(self).max_requests() == old(self).max_requests(),
            final(self).window_size_ns() == old(self).window_size_ns(),
            exists|now: u128|
                (r is Ok) == old(self).admits(now) && final(self).times() == old(
                    self,
                ).times_after(now),
            r matches Err(e) ==> e is RateLimitExceeded,
    {
        let now = nanos_since(&self.origin);
        let ok = self.state.try_acquire_at(now);
        assert(ok == old(self).admits(now) && self.times() == old(self).times_after(now));
        if ok {
            Ok(())
        } else {
            Err(RateLimitError::RateLimitExceeded)
        }
    }

    /// The requests counted in the window, as of the last request.
    pub fn current_count(&self) -> (n: usize)
        ensures
            n == self.times().len(),
    {
        self.state.count()
    }
}

} // verus!
