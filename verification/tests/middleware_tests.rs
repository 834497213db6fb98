use rustboot::cors::{CorsConfig, CorsMiddleware, CorsStep, OriginPattern};
use rustboot::http_context::{HttpContext, MiddlewareError};
use rustboot::http_logging::{
    HttpLogLevel, HttpLoggingConfig, HttpLoggingContext, HttpLoggingMiddleware,
    HttpLoggingRequest, HttpLoggingResponse,
};
use rustboot::http_ratelimit::{
    CustomKeyExtractor, HeaderKeyExtractor, IpKeyExtractor, KeyExtractor, RateLimitConfig, RateLimitMiddleware,
    RateLimitStep,
};
use rustboot::pipeline::{LoggingMiddleware, MetricsMiddleware, Pipeline, TimingMiddleware};
use rustboot::security_headers::{HasHeaders, SecurityHeadersConfig, SecurityHeadersMiddleware};
use rustboot::strmap::StrMap;

fn create_test_context(method: &str, origin: Option<&str>) -> HttpContext {
    let mut headers = StrMap::new();
    if let Some(origin) = origin {
        headers.insert("Origin".to_string(), origin.to_string());
    }
    HttpContext::from_headers(method.to_string(), headers)
}

fn passed(step: CorsStep) -> HttpContext {
    match step {
        CorsStep::Next(c) => c,
        CorsStep::Done(_) => panic!("answered"),
        CorsStep::Reject(e) => panic!("rejected: {}", e.message()),
    }
}

#[test]
fn test_cors_no_origin_header() {
    let cors = CorsMiddleware::permissive();
    let ctx = passed(cors.process(create_test_context("GET", None)));
    assert!(!ctx.response_headers.contains_key("Access-Control-Allow-Origin"));
}

#[test]
fn test_cors_permissive_any_origin() {
    let cors = CorsMiddleware::permissive();
    let ctx = passed(cors.process(create_test_context("GET", Some("https://example.com"))));
    assert_eq!(ctx.response_headers.get("Access-Control-Allow-Origin"), Some(&"*".to_string()));
}

#[test]
fn test_cors_specific_origin_allowed() {
    let config = CorsConfig::new().allow_origins(vec!["https://example.com".to_string()]);
    let cors = CorsMiddleware::new(config);
    let ctx = passed(cors.process(create_test_context("GET", Some("https://example.com"))));
    assert_eq!(
        ctx.response_headers.get("Access-Control-Allow-Origin"),
        Some(&"https://example.com".to_string())
    );
    assert_eq!(ctx.response_headers.get("Vary"), Some(&"Origin".to_string()));
}

#[test]
fn test_cors_specific_origin_rejected() {
    let config = CorsConfig::new().allow_origins(vec!["https://example.com".to_string()]);
    let cors = CorsMiddleware::new(config);
    match cors.process(create_test_context("GET", Some("https://evil.com"))) {
        CorsStep::Reject(MiddlewareError::Rejected(msg)) => {
            assert_eq!(msg, "Origin 'https://evil.com' is not allowed")
        }
        _ => panic!("Expected Rejected error"),
    }
}

#[test]
fn test_cors_regex_origin() {
    let config = CorsConfig::new().allow_origin_regex(r"^https://.*\.example\.com$").unwrap();
    let cors = CorsMiddleware::new(config);
    assert!(matches!(
        cors.process(create_test_context("GET", Some("https://api.example.com"))),
        CorsStep::Next(_)
    ));
    assert!(matches!(
        cors.process(create_test_context("GET", Some("https://example.org"))),
        CorsStep::Reject(_)
    ));
}

#[test]
fn cors_bad_regex_is_an_error() {
    assert!(CorsConfig::new().allow_origin_regex("(").is_err());
    let p = OriginPattern::compile("^a+$").unwrap();
    assert_eq!(p.as_str(), "^a+$");
    assert!(p.is_match("aaa"));
    assert!(!p.is_match("ab"));
}

#[test]
fn test_cors_preflight_success() {
    let config = CorsConfig::new()
        .allow_origins(vec!["https://example.com".to_string()])
        .allow_methods(vec!["GET".to_string(), "POST".to_string()])
        .allow_headers(vec!["Content-Type".to_string()])
        .max_age(7200);
    let cors = CorsMiddleware::new(config);
    let mut headers = StrMap::new();
    headers.insert("Origin".to_string(), "https://example.com".to_string());
    headers.insert("Access-Control-Request-Method".to_string(), "POST".to_string());
    headers.insert("Access-Control-Request-Headers".to_string(), "Content-Type".to_string());
    let ctx = HttpContext::from_headers("OPTIONS".to_string(), headers);
    match cors.process(ctx) {
        CorsStep::Done(ctx) => {
            assert_eq!(ctx.status, Some(204));
            assert_eq!(
                ctx.response_headers.get("Access-Control-Allow-Origin"),
                Some(&"https://example.com".to_string())
            );
            assert_eq!(
                ctx.response_headers.get("Access-Control-Allow-Methods"),
                Some(&"GET, POST".to_string())
            );
            assert_eq!(
                ctx.response_headers.get("Access-Control-Allow-Headers"),
                Some(&"Content-Type".to_string())
            );
            assert_eq!(
                ctx.response_headers.get("Access-Control-Max-Age"),
                Some(&"7200".to_string())
            );
        }
        _ => panic!("expected a preflight answer"),
    }
}

#[test]
fn test_cors_preflight_method_rejected() {
    let config = CorsConfig::new()
        .allow_origins(vec!["https://example.com".to_string()])
        .allow_methods(vec!["GET".to_string()]);
    let cors = CorsMiddleware::new(config);
    let mut headers = StrMap::new();
    headers.insert("Origin".to_string(), "https://example.com".to_string());
    headers.insert("Access-Control-Request-Method".to_string(), "DELETE".to_string());
    match cors.process(HttpContext::from_headers("OPTIONS".to_string(), headers)) {
        CorsStep::Reject(MiddlewareError::Rejected(m)) => {
            assert_eq!(m, "Method 'DELETE' is not allowed")
        }
        _ => panic!("expected a rejection"),
    }
}

#[test]
fn test_cors_preflight_header_rejected() {
    let config = CorsConfig::new()
        .allow_origins(vec!["https://example.com".to_string()])
        .allow_headers(vec!["Content-Type".to_string()]);
    let cors = CorsMiddleware::new(config);
    let mut headers = StrMap::new();
    headers.insert("Origin".to_string(), "https://example.com".to_string());
    headers.insert("Access-Control-Request-Method".to_string(), "GET".to_string());
    headers.insert("Access-Control-Request-Headers".to_string(), "X-Custom-Header".to_string());
    match cors.process(HttpContext::from_headers("OPTIONS".to_string(), headers)) {
        CorsStep::Reject(MiddlewareError::Rejected(m)) => {
            assert_eq!(m, "Header 'X-Custom-Header' is not allowed")
        }
        _ => panic!("expected a rejection"),
    }
}

#[test]
fn cors_preflight_headers_case_insensitive() {
    let cors = CorsMiddleware::new(CorsConfig::new());
    let mut headers = StrMap::new();
    headers.insert("origin".to_string(), "https://a.test".to_string());
    headers.insert("access-control-request-method".to_string(), "post".to_string());
    headers.insert(
        "Access-Control-Request-Headers".to_string(),
        " content-type , AUTHORIZATION".to_string(),
    );
    assert!(matches!(
        cors.process(HttpContext::from_headers("options".to_string(), headers)),
        CorsStep::Done(_)
    ));
}

#[test]
fn test_cors_with_credentials() {
    let config = CorsConfig::new()
        .allow_origins(vec!["https://example.com".to_string()])
        .allow_credentials(true);
    let cors = CorsMiddleware::new(config);
    let ctx = passed(cors.process(create_test_context("GET", Some("https://example.com"))));
    assert_eq!(
        ctx.response_headers.get("Access-Control-Allow-Credentials"),
        Some(&"true".to_string())
    );
    assert_eq!(
        ctx.response_headers.get("Access-Control-Allow-Origin"),
        Some(&"https://example.com".to_string())
    );
}

#[test]
fn test_cors_expose_headers() {
    let config = CorsConfig::new()
        .allow_origins(vec!["https://example.com".to_string()])
        .expose_headers(vec!["X-Custom-Header".to_string(), "X-Another-Header".to_string()]);
    let cors = CorsMiddleware::new(config);
    let ctx = passed(cors.process(create_test_context("GET", Some("https://example.com"))));
    assert_eq!(
        ctx.response_headers.get("Access-Control-Expose-Headers"),
        Some(&"X-Custom-Header, X-Another-Header".to_string())
    );
}

#[test]
fn test_cors_restrictive_constructor() {
    let cors = CorsMiddleware::restrictive(vec!["https://example.com".to_string()]);
    let ctx = passed(cors.process(create_test_context("GET", Some("https://example.com"))));
    assert_eq!(
        ctx.response_headers.get("Access-Control-Allow-Credentials"),
        Some(&"true".to_string())
    );
}

fn ctx_with_ip(ip: &str) -> HttpContext {
    HttpContext::new("GET".to_string(), "/test".to_string()).with_client_ip(ip.to_string())
}

#[test]
fn test_ip_key_extractor() {
    let ctx = ctx_with_ip("192.168.1.1");
    assert_eq!(IpKeyExtractor.extract_key(&ctx), Some("192.168.1.1".to_string()));
}

#[test]
fn test_header_key_extractor() {
    let extractor = HeaderKeyExtractor::new("X-API-Key");
    let ctx = HttpContext::new("GET".to_string(), "/test".to_string())
        .with_header("X-API-Key".to_string(), "secret123".to_string());
    assert_eq!(extractor.extract_key(&ctx), Some("secret123".to_string()));
}

#[test]
fn test_custom_key_extractor() {
    let extractor = CustomKeyExtractor::new(|ctx: &HttpContext| {
        ctx.url.split('/').nth(2).map(|s| s.to_string())
    });
    let ctx = HttpContext::new("GET".to_string(), "/users/42/profile".to_string());
    assert_eq!(extractor.extract_key(&ctx), Some("42".to_string()));
}

#[test]
fn test_rate_limit_middleware_allows_requests() {
    let mut m = RateLimitMiddleware::new(RateLimitConfig::FixedWindow {
        max_requests: 5,
        window_size: 60_000_000_000,
    });
    match m.handle(ctx_with_ip("192.168.1.1")) {
        RateLimitStep::Next(ctx) => {
            assert_eq!(ctx.response_headers.get("X-RateLimit-Limit"), Some(&"5".to_string()));
            assert_eq!(ctx.response_headers.get("X-RateLimit-Remaining"), Some(&"0".to_string()));
        }
        RateLimitStep::Reject(..) => panic!("rejected"),
    }
}

#[test]
fn test_rate_limit_middleware_per_key() {
    let mut m = RateLimitMiddleware::new(RateLimitConfig::FixedWindow {
        max_requests: 2,
        window_size: 60_000_000_000,
    });
    for _ in 0..2 {
        assert!(matches!(m.handle(ctx_with_ip("192.168.1.1")), RateLimitStep::Next(_)));
    }
    match m.handle(ctx_with_ip("192.168.1.1")) {
        RateLimitStep::Reject(ctx, MiddlewareError::Rejected(msg)) => {
            assert_eq!(msg, "Rate limit exceeded");
            assert_eq!(ctx.status, Some(429));
            assert_eq!(ctx.response_body, Some(b"Too Many Requests".to_vec()));
            assert_eq!(ctx.response_headers.get("Retry-After"), Some(&"60".to_string()));
            assert_eq!(ctx.response_headers.get("X-RateLimit-Remaining"), Some(&"0".to_string()));
        }
        _ => panic!("expected a rejection"),
    }
    assert!(matches!(m.handle(ctx_with_ip("192.168.1.2")), RateLimitStep::Next(_)));
}

#[test]
fn test_rate_limit_with_api_key() {
    let mut m = RateLimitMiddleware::with_key_extractor(
        RateLimitConfig::TokenBucket { capacity: 3, refill_rate: 1, refill_interval: 10_000_000_000 },
        HeaderKeyExtractor::new("X-API-Key"),
    );
    let request = || {
        HttpContext::new("GET".to_string(), "/test".to_string())
            .with_header("X-API-Key".to_string(), "test-key-123".to_string())
    };
    for left in [2, 1, 0] {
        match m.handle(request()) {
            RateLimitStep::Next(ctx) => assert_eq!(
                ctx.response_headers.get("X-RateLimit-Remaining"),
                Some(&left.to_string())
            ),
            RateLimitStep::Reject(..) => panic!("rejected"),
        }
    }
    assert!(matches!(
        m.handle(request()),
        RateLimitStep::Reject(_, MiddlewareError::Rejected(_))
    ));
}

#[test]
fn test_rate_limit_no_key_rejects() {
    let mut m = RateLimitMiddleware::new(RateLimitConfig::FixedWindow {
        max_requests: 5,
        window_size: 60_000_000_000,
    });
    match m.process(HttpContext::new("GET".to_string(), "/test".to_string()), None) {
        RateLimitStep::Reject(ctx, MiddlewareError::Rejected(msg)) => {
            assert_eq!(msg, "Unable to extract rate limit key");
            assert_eq!(ctx.status, Some(400));
            assert_eq!(
                ctx.response_body,
                Some(b"Bad Request: Unable to identify client for rate limiting".to_vec())
            );
        }
        _ => panic!("expected a rejection"),
    }
}

#[test]
fn test_rate_limit_headers_disabled() {
    let mut m = RateLimitMiddleware::new(RateLimitConfig::SlidingWindow {
        max_requests: 1,
        window_size: 60_000_000_000,
    })
    .with_headers(false);
    match m.process(HttpContext::new("GET".to_string(), "/".to_string()), Some("k".to_string())) {
        RateLimitStep::Next(ctx) => assert_eq!(ctx.response_headers.len(), 0),
        _ => panic!("rejected"),
    }
    assert!(matches!(
        m.process(HttpContext::new("GET".to_string(), "/".to_string()), Some("k".to_string())),
        RateLimitStep::Reject(..)
    ));
}

#[test]
fn rate_limit_config_describe() {
    let c = RateLimitConfig::TokenBucket { capacity: 3, refill_rate: 1, refill_interval: 10_000_000_000 };
    assert_eq!(c.describe(), "TokenBucket(capacity=3, refill_rate=1, refill_interval=10s)");
    let c = RateLimitConfig::LeakyBucket { capacity: 5, leak_rate: 2, leak_interval: 1_500_000_000 };
    assert_eq!(c.describe(), "LeakyBucket(capacity=5, leak_rate=2, leak_interval=1.5s)");
    let c = RateLimitConfig::FixedWindow { max_requests: 2, window_size: 250_000_000 };
    assert_eq!(c.describe(), "FixedWindow(max_requests=2, window_size=250ms)");
    let c = RateLimitConfig::SlidingWindow { max_requests: 9, window_size: 1_005_000_000 };
    assert_eq!(c.describe(), "SlidingWindow(max_requests=9, window_size=1.005s)");
    let c = RateLimitConfig::FixedWindow { max_requests: 1, window_size: 0 };
    assert_eq!(c.describe(), "FixedWindow(max_requests=1, window_size=0ns)");
    let c = RateLimitConfig::FixedWindow { max_requests: 1, window_size: 1_500_000 };
    assert_eq!(c.describe(), "FixedWindow(max_requests=1, window_size=1.5ms)");
    let c = RateLimitConfig::FixedWindow { max_requests: 1, window_size: 2_050 };
    assert_eq!(c.describe(), "FixedWindow(max_requests=1, window_size=2.05\u{b5}s)");
    let c = RateLimitConfig::FixedWindow { max_requests: 1, window_size: 7 };
    assert_eq!(c.describe(), "FixedWindow(max_requests=1, window_size=7ns)");
    let c = RateLimitConfig::FixedWindow { max_requests: 1, window_size: 1_000_000_001 };
    assert_eq!(c.describe(), "FixedWindow(max_requests=1, window_size=1.000000001s)");
    let d = std::time::Duration::from_nanos(1_000_000_001);
    assert_eq!(format!("{:?}", d), "1.000000001s");
    assert_eq!(c.max_requests(), 1);
    assert!(c.clone_config() == c);
}

#[test]
fn test_config_builder() {
    let config = HttpLoggingConfig::builder()
        .request_level(HttpLogLevel::Trace)
        .response_level(HttpLogLevel::Debug)
        .log_request_headers(false)
        .log_response_headers(true)
        .log_request_body(true)
        .log_response_body(false)
        .max_body_size(2048)
        .track_request_id(false)
        .request_id_header("X-Custom-ID".to_string())
        .build();
    assert_eq!(config.request_level, HttpLogLevel::Trace);
    assert_eq!(config.response_level, HttpLogLevel::Debug);
    assert!(!config.log_request_headers);
    assert!(config.log_response_headers);
    assert!(config.log_request_body);
    assert!(!config.log_response_body);
    assert_eq!(config.max_body_size, 2048);
    assert!(!config.track_request_id);
    assert_eq!(config.request_id_header, "X-Custom-ID");
}

#[test]
fn builder_defaults() {
    let config = HttpLoggingConfig::builder().build();
    assert_eq!(config.request_level, HttpLogLevel::Info);
    assert_eq!(config.max_body_size, 1024);
    assert!(config.track_request_id);
    assert_eq!(config.request_id_header, "X-Request-ID");
}

#[test]
fn test_body_preview_truncation() {
    let request = HttpLoggingRequest::new("POST".to_string(), "/upload".to_string())
        .with_body(vec![b'A'; 2000]);
    let preview = request.body_preview(100).unwrap();
    assert_eq!(preview, format!("{}... (2000 bytes total)", "A".repeat(100)));
}

#[test]
fn body_preview_cases() {
    let r = HttpLoggingResponse::new(200);
    assert_eq!(r.body_preview(10), None);
    let r = HttpLoggingResponse::new(200).with_body(vec![]);
    assert_eq!(r.body_preview(10), None);
    let r = HttpLoggingResponse::new(200).with_body(b"hello".to_vec());
    assert_eq!(r.body_preview(10), Some("hello".to_string()));
    let r = HttpLoggingResponse::new(200).with_body(vec![0xff, 0xfe, 0x00]);
    assert_eq!(r.body_preview(10), Some("<binary data, 3 bytes>".to_string()));
    let r = HttpLoggingResponse::new(200).with_body("é".as_bytes().to_vec());
    assert_eq!(r.body_preview(1), Some("<binary data, 2 bytes>".to_string()));
}

#[test]
fn test_response_success_check() {
    assert!(HttpLoggingResponse::new(200).is_success());
    assert!(!HttpLoggingResponse::new(404).is_success());
    assert!(!HttpLoggingResponse::new(500).is_success());
    assert!(HttpLoggingResponse::new(299).is_success());
    assert!(!HttpLoggingResponse::new(300).is_success());
}

#[test]
fn test_request_id_from_header() {
    let m = HttpLoggingMiddleware::new();
    let request = HttpLoggingRequest::new("GET".to_string(), "/test".to_string())
        .with_header("X-Request-ID".to_string(), "custom-request-id-123".to_string());
    let ctx = m.assign_request_id(HttpLoggingContext::new(request));
    assert_eq!(ctx.request.request_id.as_deref(), Some("custom-request-id-123"));
}

#[test]
fn request_id_generated_when_missing() {
    let m = HttpLoggingMiddleware::new();
    let request = HttpLoggingRequest::new("GET".to_string(), "/test".to_string());
    let ctx = m.assign_request_id(HttpLoggingContext::new(request));
    let id = ctx.request.request_id.unwrap();
    assert_eq!(id.len(), 36);
    assert_eq!(id.chars().nth(14), Some('4'));
}

#[test]
fn request_log_line() {
    let m = HttpLoggingMiddleware::with_config(
        HttpLoggingConfig::builder().log_request_body(true).max_body_size(4).build(),
    );
    let request = HttpLoggingRequest::new("POST".to_string(), "/api".to_string())
        .with_header("A".to_string(), "1".to_string())
        .with_header("B".to_string(), "2".to_string())
        .with_body(b"hello".to_vec())
        .with_request_id("r1".to_string());
    let (level, line) = m.log_request(&HttpLoggingContext::new(request));
    assert_eq!(level, HttpLogLevel::Info);
    assert_eq!(
        line,
        "HTTP Request: method=POST | path=/api | request_id=r1 | headers=[A=1, B=2] | body=hell... (5 bytes total)"
    );
}

#[test]
fn response_log_levels() {
    let m = HttpLoggingMiddleware::new();
    let request = HttpLoggingRequest::new("GET".to_string(), "/x".to_string());
    let ctx = HttpLoggingContext::new(request.clone()).with_response(HttpLoggingResponse::new(503));
    let (level, line) = m.response_log(&ctx, "5ms").unwrap();
    assert_eq!(level, HttpLogLevel::Error);
    assert_eq!(
        line,
        "HTTP Response: method=GET | path=/x | status=503 | duration=5ms | request_id=<none>"
    );
    let ctx = HttpLoggingContext::new(request.clone()).with_response(HttpLoggingResponse::new(404));
    assert_eq!(m.response_log(&ctx, "1ms").unwrap().0, HttpLogLevel::Warn);
    let ctx = HttpLoggingContext::new(request.clone()).with_response(HttpLoggingResponse::new(200));
    assert_eq!(m.response_log(&ctx, "1ms").unwrap().0, HttpLogLevel::Info);
    assert!(m.response_log(&HttpLoggingContext::new(request), "1ms").is_none());
}

#[derive(Debug, Clone)]
struct TestContext {
    headers: Vec<(String, String)>,
}

impl HasHeaders for TestContext {
    fn add_header(&mut self, name: String, value: String) {
        self.headers.push((name, value));
    }
}

impl TestContext {
    fn new() -> Self {
        Self { headers: Vec::new() }
    }

    fn has_header(&self, name: &str) -> bool {
        self.headers.iter().any(|(n, _)| n == name)
    }

    fn get_header(&self, name: &str) -> Option<String> {
        self.headers.iter().find(|(n, _)| n == name).map(|(_, v)| v.clone())
    }
}

fn applied(m: &SecurityHeadersMiddleware) -> TestContext {
    let mut ctx = TestContext::new();
    m.apply_headers(&mut ctx);
    ctx
}

#[test]
fn test_default_security_headers() {
    let ctx = applied(&SecurityHeadersMiddleware::default());
    for name in [
        "Content-Security-Policy",
        "Strict-Transport-Security",
        "X-Frame-Options",
        "X-Content-Type-Options",
        "X-XSS-Protection",
        "Referrer-Policy",
        "Permissions-Policy",
    ] {
        assert!(ctx.has_header(name));
    }
    assert_eq!(
        ctx.get_header("Strict-Transport-Security"),
        Some("max-age=31536000; includeSubDomains; preload".to_string())
    );
}

#[test]
fn test_hsts_configuration() {
    let m = SecurityHeadersMiddleware::new(SecurityHeadersConfig::new().with_hsts(63072000, true, false));
    assert_eq!(
        applied(&m).get_header("Strict-Transport-Security"),
        Some("max-age=63072000; includeSubDomains".to_string())
    );
    let c = SecurityHeadersConfig::new().with_hsts(10, false, true);
    assert_eq!(c.build_hsts_header(), Some("max-age=10; preload".to_string()));
}

#[test]
fn test_disabled_headers() {
    let config = SecurityHeadersConfig::default()
        .without_csp()
        .without_hsts()
        .without_permissions_policy();
    let ctx = applied(&SecurityHeadersMiddleware::new(config));
    assert!(!ctx.has_header("Content-Security-Policy"));
    assert!(!ctx.has_header("Strict-Transport-Security"));
    assert!(!ctx.has_header("Permissions-Policy"));
    assert!(ctx.has_header("X-Frame-Options"));
    assert!(ctx.has_header("X-Content-Type-Options"));
}

#[test]
fn test_permissive_config() {
    let ctx = applied(&SecurityHeadersMiddleware::permissive());
    let csp = ctx.get_header("Content-Security-Policy").unwrap();
    assert!(csp.contains("unsafe-inline"));
    assert!(csp.contains("unsafe-eval"));
    assert!(!ctx.has_header("Strict-Transport-Security"));
}

#[test]
fn test_empty_config() {
    let ctx = applied(&SecurityHeadersMiddleware::new(SecurityHeadersConfig::new()));
    assert_eq!(ctx.headers.len(), 0);
}

#[test]
fn security_header_order() {
    let m = SecurityHeadersMiddleware::new(
        SecurityHeadersConfig::new()
            .with_referrer_policy("no-referrer")
            .with_frame_options("SAMEORIGIN")
            .with_csp("default-src 'none'"),
    );
    assert_eq!(
        m.headers(),
        vec![
            ("Content-Security-Policy".to_string(), "default-src 'none'".to_string()),
            ("X-Frame-Options".to_string(), "SAMEORIGIN".to_string()),
            ("Referrer-Policy".to_string(), "no-referrer".to_string()),
        ]
    );
}

#[test]
fn pipeline_keeps_order() {
    let p = Pipeline::new().with_middleware("first").with_middleware("second");
    assert_eq!(p.len(), 2);
    assert_eq!(p.get(0), Some(&"first"));
    assert_eq!(p.get(1), Some(&"second"));
    assert_eq!(p.get(2), None);
}

#[test]
fn built_in_middleware_lines() {
    let l = LoggingMiddleware::new("api");
    assert_eq!(l.request_line("ctx"), "[api] Processing request: ctx");
    assert_eq!(l.name(), "api");
    assert_eq!(l.success_line(), "[api] Request successful");
    assert_eq!(
        l.failure_line(&MiddlewareError::Rejected("no".to_string())),
        "[api] Request failed: Request rejected: no"
    );
    assert_eq!(TimingMiddleware::new("t").timing_line("3ms"), "[t] Execution time: 3ms");
    let m = MetricsMiddleware::new("m");
    assert_eq!(m.start_line(), "[m] Request started");
    assert_eq!(m.outcome_line(true), "[m] Request completed successfully");
    assert_eq!(m.outcome_line(false), "[m] Request failed");
}
