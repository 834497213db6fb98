//! Rate limiting of HTTP requests: one limiter per client key, made from a configuration
//! on the key's first request, with the standard rate limit headers on the response and
//! `429 Too Many Requests` once the key's limit is reached.
use vstd::prelude::*;
use vstd::string::{StrSliceExecFns, StringSliceAdditionalSpecFns};
use crate::http_context::{header_view, lookup_ci, HttpContext, MiddlewareError};
use crate::ratelimit::{
    FixedWindow, FixedWindowState, LeakyBucket, LeakyBucketState,
    RateLimitResult, SlidingWindow, TokenBucket, TokenBucketState,
};
use crate::strmap::StrMap;
use crate::text::{decimal, digit_char, owned, push_decimal, push_decimal_u128, push_str};

verus! {

/// Strategy for extracting the rate limit key from a request.
pub trait KeyExtractor {
    /// Whether `key_of` tells which key `extract_key` gives. It is `false` unless an
    /// implementation says otherwise; such an implementation promises nothing of
    /// `extract_key`.
    open spec fn states_key(&self) -> bool {
        false
    }

    /// The rate limit key of the request, where `states_key` holds.
    open spec fn key_of(&self, ctx: HttpContext) -> Option<Seq<char>> {
        None
    }

    /// The rate limit key of the request, if it has one.
    fn extract_key(&self, ctx: &HttpContext) -> (r: Option<String>)
        ensures
            self.states_key() ==> key_view(r) == self.key_of(*ctx),
    ;
}

/// The text of a key, if there is one.
pub open spec fn key_view(k: Option<String>) -> Option<Seq<char>> {
    match k {
        Some(s) => Some(s@),
        None => None,
    }
}

/// Extracts the rate limit key from the client IP address.
#[derive(Clone)]
pub struct IpKeyExtractor;

impl KeyExtractor for IpKeyExtractor {
    open spec fn states_key(&self) -> bool {
        true
    }

    /// The client IP address.
    open spec fn key_of(&self, ctx: HttpContext) -> Option<Seq<char>> {
        key_view(ctx.client_ip)
    }

    /// The client IP address.
    fn extract_key(&self, ctx: &HttpContext) -> (r: Option<String>)
        ensures
            r == ctx.client_ip,
    {
        match &ctx.client_ip {
            Some(ip) => Some(ip.clone()),
            None => None,
        }
    }
}

/// Extracts the rate limit key from a request header (an API key, say).
#[derive(Clone)]
pub struct HeaderKeyExtractor {
    header_name: String,
}

impl HeaderKeyExtractor {
    /// The name of the header read.
    pub closed spec fn header_name_view(&self) -> Seq<char> {
        self.header_name@
    }

    /// Creates an extractor reading `header_name`.
    pub fn new(header_name: &str) -> (e: Self)
        ensures
            e.header_name_view() == header_name@,
    {
        HeaderKeyExtractor { header_name: owned(header_name) }
    }
}

impl KeyExtractor for HeaderKeyExtractor {
    open spec fn states_key(&self) -> bool {
        true
    }

    /// The value of the header, found case-insensitively.
    open spec fn key_of(&self, ctx: HttpContext) -> Option<Seq<char>> {
        key_view(lookup_ci(ctx.headers.pairs(), self.header_name_view()))
    }

    /// The value of the header, found case-insensitively.
    fn extract_key(&self, ctx: &HttpContext) -> (r: Option<String>)
        ensures
            r == lookup_ci(ctx.headers.pairs(), self.header_name_view()),
    {
        match ctx.get_header(self.header_name.as_str()) {
            Some(v) => Some(v.clone()),
            None => None,
        }
    }
}

/// Extracts the rate limit key with a function of the request.
pub struct CustomKeyExtractor<F: Fn(&HttpContext) -> Option<String> + Send + Sync> {
    extractor: F,
}

impl<F: Fn(&HttpContext) -> Option<String> + Send + Sync> CustomKeyExtractor<F> {
    /// The function can be called on every request.
    #[verifier::type_invariant]
    spec fn callable(self) -> bool {
        forall|c: &HttpContext| #[trigger] self.extractor.requires((c,))
    }

    /// The function used.
    pub closed spec fn extractor_spec(&self) -> F {
        self.extractor
    }

    /// An extractor that calls `extractor`, which must accept every request.
    pub fn new(extractor: F) -> (e: Self)
        requires
            forall|c: &HttpContext| #[trigger] extractor.requires((c,)),
        ensures
            e.extractor_spec() == extractor,
    {
        CustomKeyExtractor { extractor }
    }
}

impl<F: Fn(&HttpContext) -> Option<String> + Send + Sync> KeyExtractor for CustomKeyExtractor<F> {
    /// What the function gives for the request.
    fn extract_key(&self, ctx: &HttpContext) -> (r: Option<String>)
        ensures
            self.extractor_spec().ensures((ctx,), r),
    {
        proof {
            use_type_invariant(self);
        }
        (self.extractor)(ctx)
    }
}

/// Configuration of the rate limiting algorithm. Intervals and windows are in nanoseconds.
#[derive(Clone, Copy, PartialEq, Eq)]
pub enum RateLimitConfig {
    /// Token bucket: `capacity` tokens, `refill_rate` more every `refill_interval`.
    TokenBucket { capacity: usize, refill_rate: usize, refill_interval: u128 },
    /// Leaky bucket: `capacity` requests, `leak_rate` leaked every `leak_interval`.
    LeakyBucket { capacity: usize, leak_rate: usize, leak_interval: u128 },
    /// Fixed window: `max_requests` per window of `window_size`.
    FixedWindow { max_requests: usize, window_size: u128 },
    /// Sliding window: `max_requests` per sliding window of `window_size`.
    SlidingWindow { max_requests: usize, window_size: u128 },
}

/// A limiter made from a configuration.
pub enum RateLimiter {
    TokenBucket(TokenBucket),
    LeakyBucket(LeakyBucket),
    FixedWindow(FixedWindow),
    SlidingWindow(SlidingWindow),
}

/// The fractional digits that `{:?}` of a `Duration` writes for the remainder `frac` of a
/// unit whose first fractional digit is worth `divisor`: one digit at a time while any
/// remainder is left, so no trailing zeros.
pub open spec fn fraction_digits(frac: nat, divisor: nat) -> Seq<char>
    decreases divisor,
{
    if frac == 0 || divisor == 0 {
        Seq::empty()
    } else {
        seq![digit_char(frac / divisor)] + fraction_digits(frac % divisor, divisor / 10)
    }
}

/// A whole number of units and its fraction, as `{:?}` of a `Duration` writes them: the
/// fraction, where there is one, after a `.`.
pub open spec fn decimal_with_fraction(whole: nat, frac: nat, divisor: nat) -> Seq<char> {
    if frac == 0 {
        decimal(whole)
    } else {
        decimal(whole) + "."@ + fraction_digits(frac, divisor)
    }
}

/// The debug form of a duration of `ns` nanoseconds (`{:?}` of `Duration::from_nanos`):
/// in seconds from one second on, else in milliseconds from one millisecond, else in
/// microseconds from one microsecond, else in nanoseconds; fractions without trailing
/// zeros.
pub open spec fn duration_debug(ns: nat) -> Seq<char> {
    let secs = ns / 1_000_000_000;
    let sub = ns % 1_000_000_000;
    if secs > 0 {
        decimal_with_fraction(secs, sub, 100_000_000) + "s"@
    } else if sub >= 1_000_000 {
        decimal_with_fraction(sub / 1_000_000, sub % 1_000_000, 100_000) + "ms"@
    } else if sub >= 1_000 {
        decimal_with_fraction(sub / 1_000, sub % 1_000, 100) + "\u{b5}s"@
    } else {
        decimal(sub) + "ns"@
    }
}

/// `10` to the power `k`.
pub open spec fn ten_pow(k: nat) -> nat
    decreases k,
{
    if k == 0 {
        1
    } else {
        10 * ten_pow((k - 1) as nat)
    }
}

fn push_fraction(s: &mut String, frac: u64, divisor: u64, Ghost(k): Ghost<nat>)
    requires
        divisor == ten_pow(k),
        frac < divisor * 10,
    ensures
        final(s)@ == old(s)@ + fraction_digits(frac as nat, divisor as nat),
    decreases k,
{
    if frac != 0 {
        let d = frac / divisor;
        assert(d < 10) by (nonlinear_arith)
            requires
                frac < divisor * 10,
                divisor > 0,
                d == frac / divisor,
        ;
        let ghost before = s@;
        push_decimal(s, d);
        assert(decimal(d as nat) == seq![digit_char(d as nat)]);
        let r = frac % divisor;
        assert(fraction_digits(frac as nat, divisor as nat) == seq![digit_char(d as nat)]
            + fraction_digits(r as nat, (divisor / 10) as nat));
        if r == 0 {
            assert(fraction_digits(r as nat, (divisor / 10) as nat) == Seq::<char>::empty());
        }
        if r != 0 {
            assert(k > 0);
            assert(divisor / 10 == ten_pow((k - 1) as nat));
            push_fraction(s, r, divisor / 10, Ghost((k - 1) as nat));
        }
        assert(final(s)@ =~= old(s)@ + fraction_digits(frac as nat, divisor as nat));
    } else {
        assert(final(s)@ =~= old(s)@ + fraction_digits(frac as nat, divisor as nat));
    }
}

fn push_duration(s: &mut String, ns: u128)
    ensures
        final(s)@ == old(s)@ + duration_debug(ns as nat),
{
    let secs = ns / 1_000_000_000;
    let sub = (ns % 1_000_000_000) as u64;
    assert(ten_pow(8) == 100_000_000 && ten_pow(5) == 100_000 && ten_pow(2) == 100) by {
        reveal_with_fuel(ten_pow, 9);
    }
    if secs > 0 {
        push_decimal_u128(s, secs);
        if sub != 0 {
            push_str(s, ".");
            push_fraction(s, sub, 100_000_000, Ghost(8));
        }
        push_str(s, "s");
    } else if sub >= 1_000_000 {
        push_decimal(s, sub / 1_000_000);
        if sub % 1_000_000 != 0 {
            push_str(s, ".");
            push_fraction(s, sub % 1_000_000, 100_000, Ghost(5));
        }
        push_str(s, "ms");
    } else if sub >= 1_000 {
        push_decimal(s, sub / 1_000);
        if sub % 1_000 != 0 {
            push_str(s, ".");
            push_fraction(s, sub % 1_000, 100, Ghost(2));
        }
        push_str(s, "\u{b5}s");
    } else {
        push_decimal(s, sub);
        push_str(s, "ns");
    }
    assert(final(s)@ =~= old(s)@ + duration_debug(ns as nat));
}

impl RateLimitConfig {
    /// Whether limiters made from the configuration can run: the bucket intervals are not
    /// zero.
    pub open spec fn usable(self) -> bool {
        match self {
            RateLimitConfig::TokenBucket { refill_interval, .. } => refill_interval >= 1_000_000,
            RateLimitConfig::LeakyBucket { leak_interval, .. } => leak_interval >= 1_000_000,
            _ => true,
        }
    }

    /// The request limit: a bucket's capacity, a window's maximum.
    pub open spec fn max_requests_spec(self) -> usize {
        match self {
            RateLimitConfig::TokenBucket { capacity, .. } => capacity,
            RateLimitConfig::LeakyBucket { capacity, .. } => capacity,
            RateLimitConfig::FixedWindow { max_requests, .. } => max_requests,
            RateLimitConfig::SlidingWindow { max_requests, .. } => max_requests,
        }
    }

    /// Whether `l` is a limiter freshly made from the configuration.
    pub open spec fn fresh(self, l: RateLimiter) -> bool {
        match (self, l) {
            (
                RateLimitConfig::TokenBucket { capacity, refill_rate, refill_interval },
                RateLimiter::TokenBucket(b),
            ) => b@ == TokenBucketState::new_spec(capacity, refill_rate, refill_interval),
            (
                RateLimitConfig::LeakyBucket { capacity, leak_rate, leak_interval },
                RateLimiter::LeakyBucket(b),
            ) => b@ == LeakyBucketState::new_spec(capacity, leak_rate, leak_interval),
            (
                RateLimitConfig::FixedWindow { max_requests, window_size },
                RateLimiter::FixedWindow(w),
            ) => w@ == FixedWindowState::new_spec(max_requests, window_size),
            (
                RateLimitConfig::SlidingWindow { max_requests, window_size },
                RateLimiter::SlidingWindow(w),
            ) => w.max_requests() == max_requests && w.window_size_ns() == window_size
                && w.times() == Seq::<u128>::empty(),
            _ => false,
        }
    }

    /// The debug form of the configuration.
    pub open spec fn describe_spec(self) -> Seq<char> {
        match self {
            RateLimitConfig::TokenBucket { capacity, refill_rate, refill_interval } =>
                "TokenBucket(capacity="@ + decimal(capacity as nat) + ", refill_rate="@ + decimal(
                    refill_rate as nat,
                ) + ", refill_interval="@ + duration_debug(refill_interval as nat) + ")"@,
            RateLimitConfig::LeakyBucket { capacity, leak_rate, leak_interval } =>
                "LeakyBucket(capacity="@ + decimal(capacity as nat) + ", leak_rate="@ + decimal(
                    leak_rate as nat,
                ) + ", leak_interval="@ + duration_debug(leak_interval as nat) + ")"@,
            RateLimitConfig::FixedWindow { max_requests, window_size } => "FixedWindow(max_requests="@
                + decimal(max_requests as nat) + ", window_size="@ + duration_debug(
                window_size as nat,
            ) + ")"@,
            RateLimitConfig::SlidingWindow { max_requests, window_size } =>
                "SlidingWindow(max_requests="@ + decimal(max_requests as nat) + ", window_size="@
                    + duration_debug(window_size as nat) + ")"@,
        }
    }

    /// Makes a fresh limiter of the configured kind.
    pub fn create_limiter(&self) -> (l: RateLimiter)
        ensures
            self.fresh(l),
    {
        match *self {
            RateLimitConfig::TokenBucket { capacity, refill_rate, refill_interval } => {
                RateLimiter::TokenBucket(TokenBucket::new(capacity, refill_rate, refill_interval))
            },
            RateLimitConfig::LeakyBucket { capacity, leak_rate, leak_interval } => {
                RateLimiter::LeakyBucket(LeakyBucket::new(capacity, leak_rate, leak_interval))
            },
            RateLimitConfig::FixedWindow { max_requests, window_size } => {
                RateLimiter::FixedWindow(FixedWindow::new(max_requests, window_size))
            },
            RateLimitConfig::SlidingWindow { max_requests, window_size } => {
                RateLimiter::SlidingWindow(SlidingWindow::new(max_requests, window_size))
            },
        }
    }

    /// The request limit: a bucket's capacity, a window's maximum.
    pub fn max_requests(&self) -> (n: usize)
        ensures
            n == self.max_requests_spec(),
    {
        match *self {
            RateLimitConfig::TokenBucket { capacity, .. } => capacity,
            RateLimitConfig::LeakyBucket { capacity, .. } => capacity,
            RateLimitConfig::FixedWindow { max_requests, .. } => max_requests,
            RateLimitConfig::SlidingWindow { max_requests, .. } => max_requests,
        }
    }

    /// A copy of the configuration.
    pub fn clone_config(&self) -> (c: Self)
        ensures
            c == *self,
    {
        match *self {
            RateLimitConfig::TokenBucket { capacity, refill_rate, refill_interval } => {
                RateLimitConfig::TokenBucket { capacity, refill_rate, refill_interval }
            },
            RateLimitConfig::LeakyBucket { capacity, leak_rate, leak_interval } => {
                RateLimitConfig::LeakyBucket { capacity, leak_rate, leak_interval }
            },
            RateLimitConfig::FixedWindow { max_requests, window_size } => {
                RateLimitConfig::FixedWindow { max_requests, window_size }
            },
            RateLimitConfig::SlidingWindow { max_requests, window_size } => {
                RateLimitConfig::SlidingWindow { max_requests, window_size }
            },
        }
    }

    /// The debug form of the configuration, such as
    /// `FixedWindow(max_requests=5, window_size=60s)`.
    pub fn describe(&self) -> (s: String)
        ensures
            s@ == self.describe_spec(),
    {
        let mut s = String::new();
        match *self {
            RateLimitConfig::TokenBucket { capacity, refill_rate, refill_interval } => {
                push_str(&mut s, "TokenBucket(capacity=");
                push_decimal(&mut s, capacity as u64);
                push_str(&mut s, ", refill_rate=");
                push_decimal(&mut s, refill_rate as u64);
                push_str(&mut s, ", refill_interval=");
                push_duration(&mut s, refill_interval);
            },
            RateLimitConfig::LeakyBucket { capacity, leak_rate, leak_interval } => {
                push_str(&mut s, "LeakyBucket(capacity=");
                push_decimal(&mut s, capacity as u64);
                push_str(&mut s, ", leak_rate=");
                push_decimal(&mut s, leak_rate as u64);
                push_str(&mut s, ", leak_interval=");
                push_duration(&mut s, leak_interval);
            },
            RateLimitConfig::FixedWindow { max_requests, window_size } => {
                push_str(&mut s, "FixedWindow(max_requests=");
                push_decimal(&mut s, max_requests as u64);
                push_str(&mut s, ", window_size=");
                push_duration(&mut s, window_size);
            },
            RateLimitConfig::SlidingWindow { max_requests, window_size } => {
                push_str(&mut s, "SlidingWindow(max_requests=");
                push_decimal(&mut s, max_requests as u64);
                push_str(&mut s, ", window_size=");
                push_duration(&mut s, window_size);
            },
        }
        push_str(&mut s, ")");
        assert(s@ =~= self.describe_spec());
        s
    }
}

impl RateLimiter {
    /// Whether the limiter can run: a bucket's interval is not zero.
    pub open spec fn usable(self) -> bool {
        match self {
            RateLimiter::TokenBucket(b) => b@.refill_interval_ns >= 1_000_000,
            RateLimiter::LeakyBucket(b) => b@.leak_interval_ns >= 1_000_000,
            _ => true,
        }
    }

    /// Whether `next` is the limiter after one request, granted or not as `ok` says, at some
    /// time of its clock.
    pub open spec fn acquired(self, next: RateLimiter, ok: bool) -> bool {
        match (self, next) {
            (RateLimiter::TokenBucket(a), RateLimiter::TokenBucket(b)) => exists|now: u128|
                a@.acquire_step(now) == (b@, ok),
            (RateLimiter::LeakyBucket(a), RateLimiter::LeakyBucket(b)) => exists|now: u128|
                a@.acquire_step(now) == (b@, ok),
            (RateLimiter::FixedWindow(a), RateLimiter::FixedWindow(b)) => exists|now: u128|
                a@.acquire_step(now) == (b@, ok),
            (RateLimiter::SlidingWindow(a), RateLimiter::SlidingWindow(b)) => b.max_requests()
                == a.max_requests() && b.window_size_ns() == a.window_size_ns() && exists|
                now: u128,
            | ok == a.admits(now) && b.times() == a.times_after(now),
            _ => false,
        }
    }

    /// What is reported as the remaining capacity: a token bucket's tokens; 0 for the
    /// other kinds, which do not expose it.
    pub open spec fn remaining_spec(self) -> usize {
        match self {
            RateLimiter::TokenBucket(b) => b@.tokens,
            _ => 0,
        }
    }

    /// Takes one request; `RateLimitExceeded` when the limit is reached.
    pub fn try_acquire(&mut self) -> (r: RateLimitResult<()>)
        requires
            old(self).usable(),
        ensures
            old(self).acquired(*final(self), r is Ok),
            final(self).usable(),
            r matches Err(e) ==> e is RateLimitExceeded,
    {
        match self {
            RateLimiter::TokenBucket(b) => b.try_acquire(),
            RateLimiter::LeakyBucket(b) => b.try_acquire(),
            RateLimiter::FixedWindow(w) => w.try_acquire(),
            RateLimiter::SlidingWindow(w) => w.try_acquire(),
        }
    }

    /// The remaining capacity reported in the response headers.
    pub fn remaining_capacity(&self) -> (n: usize)
        ensures
            n == self.remaining_spec(),
    {
        match self {
            RateLimiter::TokenBucket(b) => b.available_tokens(),
            RateLimiter::LeakyBucket(_) => 0,
            RateLimiter::FixedWindow(_) => 0,
            RateLimiter::SlidingWindow(_) => 0,
        }
    }
}

/// What the rate limit middleware does with a request.
pub enum RateLimitStep {
    /// Pass the request on to the next middleware.
    Next(HttpContext),
    /// Reject the request: the context as answered, and the error returned.
    Reject(HttpContext, MiddlewareError),
}

/// The response headers of a granted request.
pub open spec fn granted_headers(
    h: Map<Seq<char>, Seq<char>>,
    with_limits: bool,
    max: usize,
    remaining: usize,
) -> Map<Seq<char>, Seq<char>> {
    if with_limits {
        h.insert("X-RateLimit-Limit"@, decimal(max as nat)).insert(
            "X-RateLimit-Remaining"@,
            decimal(remaining as nat),
        )
    } else {
        h
    }
}

/// The response headers of a request over the limit.
pub open spec fn refused_headers(h: Map<Seq<char>, Seq<char>>, with_limits: bool, max: usize) -> Map<
    Seq<char>,
    Seq<char>,
> {
    if with_limits {
        h.insert("X-RateLimit-Limit"@, decimal(max as nat)).insert(
            "X-RateLimit-Remaining"@,
            "0"@,
        ).insert("Retry-After"@, "60"@)
    } else {
        h
    }
}

/// Whether `e` is a rejection with message `msg`.
pub open spec fn rejected_with(e: MiddlewareError, msg: Seq<char>) -> bool {
    e matches MiddlewareError::Rejected(m) && m@ == msg
}

/// Whether `c` is `ctx` answered with `status` and `body`, its response headers aside.
pub open spec fn answered_with(c: HttpContext, ctx: HttpContext, status: u16, body: Seq<u8>) -> bool {
    &&& c == (HttpContext {
        status: Some(status),
        response_body: c.response_body,
        response_headers: c.response_headers,
        ..ctx
    })
    &&& c.response_body matches Some(b) && b@ == body
}

/// HTTP rate limiting middleware: one limiter per key, made from the configuration.
pub struct RateLimitMiddleware<E> {
    config: RateLimitConfig,
    key_extractor: E,
    limiters: StrMap<RateLimiter>,
    include_headers: bool,
}

/// What `process` does: the outcome `r` and the middleware `after`, for the middleware
/// `before` given `ctx` and the key `key`.
pub open spec fn processed<E>(
    before: RateLimitMiddleware<E>,
    after: RateLimitMiddleware<E>,
    ctx: HttpContext,
    key: Option<String>,
    r: RateLimitStep,
) -> bool {
    match key {
        None => {
            &&& after.limiters_spec() == before.limiters_spec()
            &&& r matches RateLimitStep::Reject(c, e)
            &&& rejected_with(e, "Unable to extract rate limit key"@)
            &&& header_view(c.response_headers) == header_view(ctx.response_headers)
            &&& answered_with(
                c,
                ctx,
                400,
                "Bad Request: Unable to identify client for rate limiting".spec_bytes(),
            )
        },
        Some(k) => exists|l0: RateLimiter, l1: RateLimiter, ok: bool|
            {
                &&& (if before.limiters_spec().dom().contains(k@) {
                    l0 == before.limiters_spec()[k@]
                } else {
                    before.config_spec().fresh(l0)
                })
                &&& l0.acquired(l1, ok)
                &&& after.limiters_spec() == before.limiters_spec().insert(k@, l1)
                &&& if ok {
                    &&& r matches RateLimitStep::Next(c)
                    &&& header_view(c.response_headers) == granted_headers(
                        header_view(ctx.response_headers),
                        before.include_headers_spec(),
                        before.config_spec().max_requests_spec(),
                        l1.remaining_spec(),
                    )
                    &&& c == (HttpContext { response_headers: c.response_headers, ..ctx })
                } else {
                    &&& r matches RateLimitStep::Reject(c, e)
                    &&& rejected_with(e, "Rate limit exceeded"@)
                    &&& header_view(c.response_headers) == refused_headers(
                        header_view(ctx.response_headers),
                        before.include_headers_spec(),
                        before.config_spec().max_requests_spec(),
                    )
                    &&& answered_with(c, ctx, 429, "Too Many Requests".spec_bytes())
                }
            },
    }
}

impl<E> RateLimitMiddleware<E> {
    /// The configuration.
    pub closed spec fn config_spec(&self) -> RateLimitConfig {
        self.config
    }

    /// The limiter of each key seen.
    pub closed spec fn limiters_spec(&self) -> Map<Seq<char>, RateLimiter> {
        self.limiters@
    }

    /// Whether rate limit headers are added to responses.
    pub closed spec fn include_headers_spec(&self) -> bool {
        self.include_headers
    }

    /// Every limiter can run.
    pub open spec fn wf(&self) -> bool {
        forall|k: Seq<char>| #[trigger]
            self.limiters_spec().dom().contains(k) ==> self.limiters_spec()[k].usable()
    }

    /// The key extractor.
    pub closed spec fn key_extractor_spec(&self) -> E {
        self.key_extractor
    }

    /// A middleware keyed by `key_extractor`, with no limiters yet, adding the rate limit
    /// headers.
    pub fn with_key_extractor(config: RateLimitConfig, key_extractor: E) -> (m: Self)
        ensures
            m.config_spec() == config,
            m.key_extractor_spec() == key_extractor,
            m.limiters_spec() == Map::<Seq<char>, RateLimiter>::empty(),
            m.include_headers_spec(),
            m.wf(),
    {
        RateLimitMiddleware { config, key_extractor, limiters: StrMap::new(), include_headers: true }
    }

    /// The configuration.
    pub fn config(&self) -> (c: RateLimitConfig)
        ensures
            c == self.config_spec(),
    {
        self.config
    }

    /// Sets whether rate limit headers are added to responses.
    pub fn with_headers(self, include_headers: bool) -> (m: Self)
        ensures
            m.config_spec() == self.config_spec(),
            m.key_extractor_spec() == self.key_extractor_spec(),
            m.limiters_spec() == self.limiters_spec(),
            m.include_headers_spec() == include_headers,
    {
        let mut m = self;
        m.include_headers = include_headers;
        m
    }

    /// Decides what happens to a request with rate limit key `key`. Without a key it is
    /// rejected with `400 Bad Request`. Otherwise the key's limiter (made from the
    /// configuration on the key's first request) takes the request: if granted, the request
    /// passes on with the limit and remaining headers; if not, it is answered with
    /// `429 Too Many Requests` and rejected. No other key's limiter changes.
    pub fn process(&mut self, ctx: HttpContext, key: Option<String>) -> (r: RateLimitStep)
        requires
            old(self).config_spec().usable(),
            old(self).wf(),
        ensures
            final(self).config_spec() == old(self).config_spec(),
            final(self).key_extractor_spec() == old(self).key_extractor_spec(),
            final(self).include_headers_spec() == old(self).include_headers_spec(),
            final(self).wf(),
            processed(*old(self), *final(self), ctx, key, r),
    {
        let mut ctx = ctx;
        let key = match key {
            Some(k) => k,
            None => {
                ctx.set_response(
                    400,
                    "Bad Request: Unable to identify client for rate limiting".as_bytes_vec(),
                );
                return RateLimitStep::Reject(
                    ctx,
                    MiddlewareError::Rejected(owned("Unable to extract rate limit key")),
                );
            },
        };
        let max_requests = self.config.max_requests();
        let mut limiter = match self.limiters.remove(key.as_str()) {
            Some(l) => l,
            None => self.config.create_limiter(),
        };
        let ghost l0 = limiter;
        proof {
            if old(self).limiters_spec().dom().contains(key@) {
                assert(old(self).limiters_spec()[key@].usable());
            }
        }
        let acquired = limiter.try_acquire();
        let ok = acquired.is_ok();
        let remaining = limiter.remaining_capacity();
        let ghost l1 = limiter;
        self.limiters.insert(owned(key.as_str()), limiter);
        assert(self.limiters@ =~= old(self).limiters@.insert(key@, l1));
        let ghost h0 = header_view(ctx.response_headers);
        if ok {
            if self.include_headers {
                let mut v = String::new();
                push_decimal(&mut v, max_requests as u64);
                ctx.add_response_header(owned("X-RateLimit-Limit"), v);
                let mut w = String::new();
                push_decimal(&mut w, remaining as u64);
                ctx.add_response_header(owned("X-RateLimit-Remaining"), w);
            }
            assert(header_view(ctx.response_headers) =~= granted_headers(
                h0,
                self.include_headers,
                max_requests,
                l1.remaining_spec(),
            ));
            RateLimitStep::Next(ctx)
        } else {
            if self.include_headers {
                let mut v = String::new();
                push_decimal(&mut v, max_requests as u64);
                ctx.add_response_header(owned("X-RateLimit-Limit"), v);
                ctx.add_response_header(owned("X-RateLimit-Remaining"), owned("0"));
                ctx.add_response_header(owned("Retry-After"), owned("60"));
            }
            assert(header_view(ctx.response_headers) =~= refused_headers(
                h0,
                self.include_headers,
                max_requests,
            ));
            ctx.set_response(429, "Too Many Requests".as_bytes_vec());
            RateLimitStep::Reject(ctx, MiddlewareError::Rejected(owned("Rate limit exceeded")))
        }
    }

}

impl<E: KeyExtractor> RateLimitMiddleware<E> {
    /// Extracts the request's key with the key extractor, then decides as `process` does.
    pub fn handle(&mut self, ctx: HttpContext) -> (r: RateLimitStep)
        requires
            old(self).config_spec().usable(),
            old(self).wf(),
        ensures
            final(self).config_spec() == old(self).config_spec(),
            final(self).key_extractor_spec() == old(self).key_extractor_spec(),
            final(self).include_headers_spec() == old(self).include_headers_spec(),
            final(self).wf(),
            exists|key: Option<String>|
                {
                    &&& processed(*old(self), *final(self), ctx, key, r)
                    &&& old(self).key_extractor_spec().states_key() ==> key_view(key) == old(
                        self,
                    ).key_extractor_spec().key_of(ctx)
                },
    {
        let key = self.key_extractor.extract_key(&ctx);
        let ghost k = key;
        let r = self.process(ctx, key);
        assert(processed(*old(self), *self, ctx, k, r));
        r
    }
}

impl RateLimitMiddleware<IpKeyExtractor> {
    /// A middleware keyed by client IP, with no limiters yet, adding the rate limit
    /// headers.
    pub fn new(config: RateLimitConfig) -> (m: Self)
        ensures
            m.config_spec() == config,
            m.limiters_spec() == Map::<Seq<char>, RateLimiter>::empty(),
            m.include_headers_spec(),
            m.wf(),
    {
        Self::with_key_extractor(config, IpKeyExtractor)
    }
}

/// Keys are limited independently: a request for one key leaves the limiter of every
/// other key as it was, and a request without a key changes no limiter.
pub proof fn other_keys_unaffected<E>(
    before: RateLimitMiddleware<E>,
    after: RateLimitMiddleware<E>,
    ctx: HttpContext,
    key: Option<String>,
    r: RateLimitStep,
    other: Seq<char>,
)
    requires
        processed(before, after, ctx, key, r),
        key matches Some(k) ==> k@ != other,
    ensures
        after.limiters_spec().dom().contains(other) == before.limiters_spec().dom().contains(
            other,
        ),
        before.limiters_spec().dom().contains(other) ==> after.limiters_spec()[other]
            == before.limiters_spec()[other],
{
}

} // verus!
