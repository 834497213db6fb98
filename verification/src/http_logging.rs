//! HTTP request/response logging: configuration, request ID tracking, body previews and
//! the log lines written for requests and responses.
//!
//! Responses with a 5xx status are logged at `Error` and 4xx at `Warn`, whatever the
//! configured response level; others at the configured level.
use vstd::prelude::*;
use vstd::utf8::*;
use crate::base64::string_from_utf8;
use crate::clock::duration_debug_text;
use crate::http_context::MiddlewareError;
use crate::ids::{is_uuid_v4_text, new_uuid_v4};
use crate::strmap::StrMap;
use crate::text::{decimal, join, join_spec, owned, push_decimal, push_str};

verus! {

/// Log level for HTTP logging.
#[derive(Debug, Clone, Copy, PartialEq, Eq, Structural)]
pub enum HttpLogLevel {
    /// Log errors only.
    Error,
    /// Log warnings and errors.
    Warn,
    /// Log info, warnings, and errors.
    Info,
    /// Log debug info and above.
    Debug,
    /// Log everything including trace.
    Trace,
}

/// Configuration for HTTP logging middleware.
#[derive(Debug, Clone)]
pub struct HttpLoggingConfig {
    /// Log level for requests.
    pub request_level: HttpLogLevel,
    /// Log level for responses.
    pub response_level: HttpLogLevel,
    /// Whether to log request headers.
    pub log_request_headers: bool,
    /// Whether to log response headers.
    pub log_response_headers: bool,
    /// Whether to log request body (with size limit).
    pub log_request_body: bool,
    /// Whether to log response body (with size limit).
    pub log_response_body: bool,
    /// Maximum body size to log (in bytes).
    pub max_body_size: usize,
    /// Whether to generate and track request IDs.
    pub track_request_id: bool,
    /// Custom request ID header name (default: "X-Request-ID").
    pub request_id_header: String,
}

/// The default configuration: `Info` for both, headers logged, bodies not, 1024 bytes of
/// body at most, request IDs tracked in `X-Request-ID`.
pub open spec fn is_default_config(c: HttpLoggingConfig) -> bool {
    &&& c.request_level == HttpLogLevel::Info
    &&& c.response_level == HttpLogLevel::Info
    &&& c.log_request_headers
    &&& c.log_response_headers
    &&& !c.log_request_body
    &&& !c.log_response_body
    &&& c.max_body_size == 1024
    &&& c.track_request_id
    &&& c.request_id_header@ == "X-Request-ID"@
}

impl Default for HttpLoggingConfig {
    fn default() -> (c: Self)
        ensures
            is_default_config(c),
    {
        HttpLoggingConfig {
            request_level: HttpLogLevel::Info,
            response_level: HttpLogLevel::Info,
            log_request_headers: true,
            log_response_headers: true,
            log_request_body: false,
            log_response_body: false,
            max_body_size: 1024,
            track_request_id: true,
            request_id_header: owned("X-Request-ID"),
        }
    }
}

impl HttpLoggingConfig {
    /// A builder with nothing set.
    pub fn builder() -> (b: HttpLoggingConfigBuilder)
        ensures
            b.is_unset(),
    {
        HttpLoggingConfigBuilder::default()
    }
}

/// Builder for `HttpLoggingConfig`: each setting left unset takes its default.
#[derive(Debug)]
pub struct HttpLoggingConfigBuilder {
    pub request_level: Option<HttpLogLevel>,
    pub response_level: Option<HttpLogLevel>,
    pub log_request_headers: Option<bool>,
    pub log_response_headers: Option<bool>,
    pub log_request_body: Option<bool>,
    pub log_response_body: Option<bool>,
    pub max_body_size: Option<usize>,
    pub track_request_id: Option<bool>,
    pub request_id_header: Option<String>,
}

impl Default for HttpLoggingConfigBuilder {
    fn default() -> (b: Self)
        ensures
            b.is_unset(),
    {
        HttpLoggingConfigBuilder {
            request_level: None,
            response_level: None,
            log_request_headers: None,
            log_response_headers: None,
            log_request_body: None,
            log_response_body: None,
            max_body_size: None,
            track_request_id: None,
            request_id_header: None,
        }
    }
}

/// The value set, or the default.
pub open spec fn or_default<T>(v: Option<T>, d: T) -> T {
    match v {
        Some(x) => x,
        None => d,
    }
}

impl HttpLoggingConfigBuilder {
    /// Nothing is set.
    pub open spec fn is_unset(self) -> bool {
        &&& self.request_level is None
        &&& self.response_level is None
        &&& self.log_request_headers is None
        &&& self.log_response_headers is None
        &&& self.log_request_body is None
        &&& self.log_response_body is None
        &&& self.max_body_size is None
        &&& self.track_request_id is None
        &&& self.request_id_header is None
    }

    /// Sets the request log level.
    pub fn request_level(self, level: HttpLogLevel) -> (b: Self)
        ensures
            b == (HttpLoggingConfigBuilder { request_level: Some(level), ..self }),
    {
        let mut b = self;
        b.request_level = Some(level);
        b
    }

    /// Sets the response log level.
    pub fn response_level(self, level: HttpLogLevel) -> (b: Self)
        ensures
            b == (HttpLoggingConfigBuilder { response_level: Some(level), ..self }),
    {
        let mut b = self;
        b.response_level = Some(level);
        b
    }

    /// Sets whether request headers are logged.
    pub fn log_request_headers(self, log: bool) -> (b: Self)
        ensures
            b == (HttpLoggingConfigBuilder { log_request_headers: Some(log), ..self }),
    {
        let mut b = self;
        b.log_request_headers = Some(log);
        b
    }

    /// Sets whether response headers are logged.
    pub fn log_response_headers(self, log: bool) -> (b: Self)
        ensures
            b == (HttpLoggingConfigBuilder { log_response_headers: Some(log), ..self }),
    {
        let mut b = self;
        b.log_response_headers = Some(log);
        b
    }

    /// Sets whether the request body is logged.
    pub fn log_request_body(self, log: bool) -> (b: Self)
        ensures
            b == (HttpLoggingConfigBuilder { log_request_body: Some(log), ..self }),
    {
        let mut b = self;
        b.log_request_body = Some(log);
        b
    }

    /// Sets whether the response body is logged.
    pub fn log_response_body(self, log: bool) -> (b: Self)
        ensures
            b == (HttpLoggingConfigBuilder { log_response_body: Some(log), ..self }),
    {
        let mut b = self;
        b.log_response_body = Some(log);
        b
    }

    /// Sets the most body bytes logged.
    pub fn max_body_size(self, size: usize) -> (b: Self)
        ensures
            b == (HttpLoggingConfigBuilder { max_body_size: Some(size), ..self }),
    {
        let mut b = self;
        b.max_body_size = Some(size);
        b
    }

    /// Sets whether request IDs are tracked.
    pub fn track_request_id(self, track: bool) -> (b: Self)
        ensures
            b == (HttpLoggingConfigBuilder { track_request_id: Some(track), ..self }),
    {
        let mut b = self;
        b.track_request_id = Some(track);
        b
    }

    /// Sets the request ID header name.
    pub fn request_id_header(self, header: String) -> (b: Self)
        ensures
            b == (HttpLoggingConfigBuilder { request_id_header: Some(header), ..self }),
    {
        let mut b = self;
        b.request_id_header = Some(header);
        b
    }

    /// The configuration: each setting as set, the default where unset.
    pub fn build(self) -> (c: HttpLoggingConfig)
        ensures
            c.request_level == or_default(self.request_level, HttpLogLevel::Info),
            c.response_level == or_default(self.response_level, HttpLogLevel::Info),
            c.log_request_headers == or_default(self.log_request_headers, true),
            c.log_response_headers == or_default(self.log_response_headers, true),
            c.log_request_body == or_default(self.log_request_body, false),
            c.log_response_body == or_default(self.log_response_body, false),
            c.max_body_size == or_default(self.max_body_size, 1024usize),
            c.track_request_id == or_default(self.track_request_id, true),
            c.request_id_header@ == (match self.request_id_header {
                Some(h) => h@,
                None => "X-Request-ID"@,
            }),
    {
        let defaults = HttpLoggingConfig::default();
        HttpLoggingConfig {
            request_level: match self.request_level {
                Some(v) => v,
                None => defaults.request_level,
            },
            response_level: match self.response_level {
                Some(v) => v,
                None => defaults.response_level,
            },
            log_request_headers: match self.log_request_headers {
                Some(v) => v,
                None => defaults.log_request_headers,
            },
            log_response_headers: match self.log_response_headers {
                Some(v) => v,
                None => defaults.log_response_headers,
            },
            log_request_body: match self.log_request_body {
                Some(v) => v,
                None => defaults.log_request_body,
            },
            log_response_body: match self.log_response_body {
                Some(v) => v,
                None => defaults.log_response_body,
            },
            max_body_size: match self.max_body_size {
                Some(v) => v,
                None => defaults.max_body_size,
            },
            track_request_id: match self.track_request_id {
                Some(v) => v,
                None => defaults.track_request_id,
            },
            request_id_header: match self.request_id_header {
                Some(v) => v,
                None => defaults.request_id_header,
            },
        }
    }
}

/// The preview of a body: none for an absent or empty body; else its first `max_size`
/// bytes as text when they are valid UTF-8, followed by `... (N bytes total)` when the body
/// is longer; else `<binary data, N bytes>`.
pub open spec fn preview_spec(body: Option<Seq<u8>>, max_size: usize) -> Option<Seq<char>> {
    match body {
        None => None,
        Some(b) => if b.len() == 0 {
            None
        } else {
            let p = b.take(if b.len() <= max_size { b.len() as int } else { max_size as int });
            if valid_utf8(p) {
                if b.len() > max_size {
                    Some(decode_utf8(p) + "... ("@ + decimal(b.len()) + " bytes total)"@)
                } else {
                    Some(decode_utf8(p))
                }
            } else {
                Some("<binary data, "@ + decimal(b.len()) + " bytes>"@)
            }
        },
    }
}

/// The bytes of an optional body.
pub open spec fn body_bytes(body: Option<Vec<u8>>) -> Option<Seq<u8>> {
    match body {
        Some(b) => Some(b@),
        None => None,
    }
}

fn preview_of(body: &Option<Vec<u8>>, max_size: usize) -> (r: Option<String>)
    ensures
        match r {
            Some(s) => preview_spec(body_bytes(*body), max_size) == Some(s@),
            None => preview_spec(body_bytes(*body), max_size) is None,
        },
{
    let body = match body {
        None => return None,
        Some(b) => b,
    };
    if body.len() == 0 {
        return None;
    }
    let n: usize = if body.len() <= max_size { body.len() } else { max_size };
    let mut prefix: Vec<u8> = Vec::new();
    let mut i: usize = 0;
    while i < n
        invariant
            i <= n,
            n <= body@.len(),
            prefix@ == body@.take(i as int),
        decreases n - i,
    {
        prefix.push(body[i]);
        assert(body@.take(i + 1) =~= body@.take(i as int).push(body@[i as int]));
        i = i + 1;
    }
    let total = body.len();
    match string_from_utf8(prefix) {
        Ok(s) => {
            if total > max_size {
                let mut m = s;
                push_str(&mut m, "... (");
                push_decimal(&mut m, total as u64);
                push_str(&mut m, " bytes total)");
                Some(m)
            } else {
                Some(s)
            }
        },
        Err(_) => {
            let mut m = owned("<binary data, ");
            push_decimal(&mut m, total as u64);
            push_str(&mut m, " bytes>");
            Some(m)
        },
    }
}

/// HTTP request context for logging middleware.
#[derive(Debug, Clone)]
pub struct HttpLoggingRequest {
    /// HTTP method (GET, POST, etc.).
    pub method: String,
    /// Request path/URL.
    pub path: String,
    /// Request headers.
    pub headers: StrMap<String>,
    /// Request body (optional).
    pub body: Option<Vec<u8>>,
    /// Request ID (generated or from header).
    pub request_id: Option<String>,
}

impl HttpLoggingRequest {
    /// A request without headers, body or request ID.
    pub fn new(method: String, path: String) -> (r: Self)
        ensures
            r.method == method,
            r.path == path,
            r.headers@ == Map::<Seq<char>, String>::empty(),
            r.headers.pairs() == Seq::<(Seq<char>, String)>::empty(),
            r.body is None,
            r.request_id is None,
    {
        HttpLoggingRequest { method, path, headers: StrMap::new(), body: None, request_id: None }
    }

    /// Sets a header.
    pub fn with_header(self, key: String, value: String) -> (r: Self)
        ensures
            r.headers@ == self.headers@.insert(key@, value),
            r == (HttpLoggingRequest { headers: r.headers, ..self }),
    {
        let mut r = self;
        r.headers.insert(key, value);
        r
    }

    /// Sets the body.
    pub fn with_body(self, body: Vec<u8>) -> (r: Self)
        ensures
            r == (HttpLoggingRequest { body: Some(body), ..self }),
    {
        let mut r = self;
        r.body = Some(body);
        r
    }

    /// Sets the request ID.
    pub fn with_request_id(self, id: String) -> (r: Self)
        ensures
            r == (HttpLoggingRequest { request_id: Some(id), ..self }),
    {
        let mut r = self;
        r.request_id = Some(id);
        r
    }

    /// The body as text, cut to `max_size` bytes (see `preview_spec`).
    pub fn body_preview(&self, max_size: usize) -> (r: Option<String>)
        ensures
            match r {
                Some(s) => preview_spec(body_bytes(self.body), max_size) == Some(s@),
                None => preview_spec(body_bytes(self.body), max_size) is None,
            },
    {
        preview_of(&self.body, max_size)
    }
}

/// HTTP response context for logging middleware.
#[derive(Debug, Clone)]
pub struct HttpLoggingResponse {
    /// HTTP status code.
    pub status: u16,
    /// Response headers.
    pub headers: StrMap<String>,
    /// Response body (optional).
    pub body: Option<Vec<u8>>,
}

impl HttpLoggingResponse {
    /// A response with `status`, without headers or body.
    pub fn new(status: u16) -> (r: Self)
        ensures
            r.status == status,
            r.headers@ == Map::<Seq<char>, String>::empty(),
            r.headers.pairs() == Seq::<(Seq<char>, String)>::empty(),
            r.body is None,
    {
        HttpLoggingResponse { status, headers: StrMap::new(), body: None }
    }

    /// Sets a header.
    pub fn with_header(self, key: String, value: String) -> (r: Self)
        ensures
            r.headers@ == self.headers@.insert(key@, value),
            r.status == self.status && r.body == self.body,
    {
        let mut r = self;
        r.headers.insert(key, value);
        r
    }

    /// Sets the body.
    pub fn with_body(self, body: Vec<u8>) -> (r: Self)
        ensures
            r == (HttpLoggingResponse { body: Some(body), ..self }),
    {
        let mut r = self;
        r.body = Some(body);
        r
    }

    /// The body as text, cut to `max_size` bytes (see `preview_spec`).
    pub fn body_preview(&self, max_size: usize) -> (r: Option<String>)
        ensures
            match r {
                Some(s) => preview_spec(body_bytes(self.body), max_size) == Some(s@),
                None => preview_spec(body_bytes(self.body), max_size) is None,
            },
    {
        preview_of(&self.body, max_size)
    }

    /// Whether the status is a success (2xx).
    pub fn is_success(&self) -> (b: bool)
        ensures
            b == (200 <= self.status && self.status < 300),
    {
        self.status >= 200 && self.status < 300
    }
}

/// HTTP context containing both request and response for logging.
#[derive(Debug, Clone)]
pub struct HttpLoggingContext {
    /// HTTP request.
    pub request: HttpLoggingRequest,
    /// HTTP response (populated after processing).
    pub response: Option<HttpLoggingResponse>,
}

impl HttpLoggingContext {
    /// A context holding `request` and no response.
    pub fn new(request: HttpLoggingRequest) -> (c: Self)
        ensures
            c.request == request,
            c.response is None,
    {
        HttpLoggingContext { request, response: None }
    }

    /// Sets the response.
    pub fn with_response(self, response: HttpLoggingResponse) -> (c: Self)
        ensures
            c.request == self.request,
            c.response == Some(response),
    {
        let mut c = self;
        c.response = Some(response);
        c
    }
}

/// The `key=value` texts of headers, in order.
pub open spec fn header_texts(pairs: Seq<(Seq<char>, String)>) -> Seq<Seq<char>> {
    pairs.map_values(|p: (Seq<char>, String)| p.0 + "="@ + p.1@)
}

/// The request ID as logged.
pub open spec fn request_id_text(id: Option<String>) -> Seq<char> {
    match id {
        Some(s) => s@,
        None => "<none>"@,
    }
}

/// The optional parts of a log line: the headers when asked for and present, then the body
/// preview when asked for and present.
pub open spec fn detail_parts(
    log_headers: bool,
    headers: StrMap<String>,
    log_body: bool,
    body: Option<Vec<u8>>,
    max_body_size: usize,
) -> Seq<Seq<char>> {
    let h: Seq<Seq<char>> = if log_headers && headers.pairs().len() > 0 {
        seq!["headers=["@ + join_spec(header_texts(headers.pairs()), ", "@) + "]"@]
    } else {
        seq![]
    };
    let b: Seq<Seq<char>> = if log_body {
        match preview_spec(body_bytes(body), max_body_size) {
            Some(p) => seq!["body="@ + p],
            None => seq![],
        }
    } else {
        seq![]
    };
    h + b
}

/// The log line of a request.
pub open spec fn request_line(config: HttpLoggingConfig, req: HttpLoggingRequest) -> Seq<char> {
    "HTTP Request: "@ + join_spec(
        seq![
            "method="@ + req.method@,
            "path="@ + req.path@,
            "request_id="@ + request_id_text(req.request_id),
        ] + detail_parts(
            config.log_request_headers,
            req.headers,
            config.log_request_body,
            req.body,
            config.max_body_size,
        ),
        " | "@,
    )
}

/// The log line of a response that took `duration` (as rendered).
pub open spec fn response_line(
    config: HttpLoggingConfig,
    req: HttpLoggingRequest,
    resp: HttpLoggingResponse,
    duration: Seq<char>,
) -> Seq<char> {
    "HTTP Response: "@ + join_spec(
        seq![
            "method="@ + req.method@,
            "path="@ + req.path@,
            "status="@ + decimal(resp.status as nat),
            "duration="@ + duration,
            "request_id="@ + request_id_text(req.request_id),
        ] + detail_parts(
            config.log_response_headers,
            resp.headers,
            config.log_response_body,
            resp.body,
            config.max_body_size,
        ),
        " | "@,
    )
}

/// The level a response is logged at: `Error` for 5xx, `Warn` for 4xx, else the configured
/// level.
pub open spec fn response_level_spec(configured: HttpLogLevel, status: u16) -> HttpLogLevel {
    if status >= 500 {
        HttpLogLevel::Error
    } else if status >= 400 {
        HttpLogLevel::Warn
    } else {
        configured
    }
}

/// HTTP request/response logging middleware.
pub struct HttpLoggingMiddleware {
    config: HttpLoggingConfig,
}

impl Default for HttpLoggingMiddleware {
    fn default() -> (m: Self)
        ensures
            is_default_config(m@),
    {
        Self::new()
    }
}

impl HttpLoggingMiddleware {
    /// The config.
    pub closed spec fn view(&self) -> HttpLoggingConfig {
        self.config
    }

    /// The config.
    pub fn config(&self) -> (r: &HttpLoggingConfig)
        ensures
            *r == self@,
    {
        &self.config
    }

    /// The middleware with the default configuration.
    pub fn new() -> (m: Self)
        ensures
            is_default_config(m@),
    {
        HttpLoggingMiddleware { config: HttpLoggingConfig::default() }
    }

    /// The middleware with `config`.
    pub fn with_config(config: HttpLoggingConfig) -> (m: Self)
        ensures
            m@ == config,
    {
        HttpLoggingMiddleware { config }
    }

    /// A new request ID: a random version 4 UUID.
    pub fn generate_request_id() -> (id: String)
        ensures
            is_uuid_v4_text(id@),
    {
        new_uuid_v4()
    }

    /// Gives the request an ID when IDs are tracked and it has none: the value of the
    /// configured header (matched exactly) if present, else a new UUID.
    pub fn assign_request_id(&self, ctx: HttpLoggingContext) -> (c: HttpLoggingContext)
        ensures
            if self@.track_request_id && ctx.request.request_id is None {
                &&& c.response == ctx.response
                &&& c.request == (HttpLoggingRequest { request_id: c.request.request_id, ..ctx.request })
                &&& match ctx.request.headers@.get(self@.request_id_header@) {
                    Some(v) => c.request.request_id == Some(v),
                    None => c.request.request_id matches Some(id) && is_uuid_v4_text(id@),
                }
            } else {
                c == ctx
            },
    {
        if self.config.track_request_id && ctx.request.request_id.is_none() {
            let id = match ctx.request.headers.get(self.config.request_id_header.as_str()) {
                Some(v) => v.clone(),
                None => Self::generate_request_id(),
            };
            let mut c = ctx;
            c.request.request_id = Some(id);
            c
        } else {
            ctx
        }
    }

    fn detail_texts(
        &self,
        parts: &mut Vec<String>,
        log_headers: bool,
        headers: &StrMap<String>,
        log_body: bool,
        body: &Option<Vec<u8>>,
    )
        ensures
            final(parts)@.map_values(|s: String| s@) == old(parts)@.map_values(|s: String| s@)
                + detail_parts(log_headers, *headers, log_body, *body, self@.max_body_size),
    {
        let ghost before = parts@.map_values(|s: String| s@);
        if log_headers && headers.len() > 0 {
            let keys = headers.keys();
            let mut texts: Vec<String> = Vec::new();
            let mut i: usize = 0;
            while i < headers.len()
                invariant
                    i <= headers.pairs().len(),
                    texts@.map_values(|s: String| s@) == header_texts(headers.pairs()).take(
                        i as int,
                    ),
                decreases headers.pairs().len() - i,
            {
                let mut t = owned(headers.key_at(i).as_str());
                push_str(&mut t, "=");
                push_str(&mut t, headers.value_at(i).as_str());
                let ghost prev = texts@;
                texts.push(t);
                assert(texts@.map_values(|s: String| s@) =~= prev.map_values(|s: String| s@).push(
                    t@,
                ));
                assert(header_texts(headers.pairs()).take(i + 1) =~= header_texts(
                    headers.pairs(),
                ).take(i as int).push(t@));
                i = i + 1;
            }
            assert(header_texts(headers.pairs()).take(i as int) =~= header_texts(headers.pairs()));
            let mut h = owned("headers=[");
            let joined = join(&texts, ", ");
            push_str(&mut h, joined.as_str());
            push_str(&mut h, "]");
            let ghost prev = parts@;
            parts.push(h);
            assert(parts@.map_values(|s: String| s@) =~= prev.map_values(|s: String| s@).push(h@));
        }
        let ghost mid = parts@.map_values(|s: String| s@);
        if log_body {
            match preview_of(body, self.config.max_body_size) {
                Some(p) => {
                    let mut b = owned("body=");
                    push_str(&mut b, p.as_str());
                    let ghost prev = parts@;
                    parts.push(b);
                    assert(parts@.map_values(|s: String| s@) =~= prev.map_values(|s: String| s@).push(
                        b@,
                    ));
                },
                None => {},
            }
        }
        assert(parts@.map_values(|s: String| s@) =~= before + detail_parts(
            log_headers,
            *headers,
            log_body,
            *body,
            self.config.max_body_size,
        ));
    }

    /// The level and line logged for a request.
    pub fn log_request(&self, ctx: &HttpLoggingContext) -> (r: (HttpLogLevel, String))
        ensures
            r.0 == self@.request_level,
            r.1@ == request_line(self@, ctx.request),
    {
        let req = &ctx.request;
        let mut parts: Vec<String> = Vec::new();
        let mut m = owned("method=");
        push_str(&mut m, req.method.as_str());
        parts.push(m);
        let mut p = owned("path=");
        push_str(&mut p, req.path.as_str());
        parts.push(p);
        let mut id = owned("request_id=");
        match &req.request_id {
            Some(r) => push_str(&mut id, r.as_str()),
            None => push_str(&mut id, "<none>"),
        }
        parts.push(id);
        assert(parts@.map_values(|s: String| s@) =~= seq![m@, p@, id@]);
        self.detail_texts(
            &mut parts,
            self.config.log_request_headers,
            &req.headers,
            self.config.log_request_body,
            &req.body,
        );
        let mut line = owned("HTTP Request: ");
        let joined = join(&parts, " | ");
        push_str(&mut line, joined.as_str());
        (self.config.request_level, line)
    }

    /// The level and line logged for the response of `ctx`, which took `duration` (as
    /// rendered); none when there is no response.
    pub fn response_log(&self, ctx: &HttpLoggingContext, duration: &str) -> (r: Option<
        (HttpLogLevel, String),
    >)
        ensures
            match ctx.response {
                None => r is None,
                Some(resp) => r matches Some(x) && x.0 == response_level_spec(
                    self@.response_level,
                    resp.status,
                ) && x.1@ == response_line(self@, ctx.request, resp, duration@),
            },
    {
        let req = &ctx.request;
        let resp = match &ctx.response {
            None => return None,
            Some(r) => r,
        };
        let mut parts: Vec<String> = Vec::new();
        let mut m = owned("method=");
        push_str(&mut m, req.method.as_str());
        parts.push(m);
        let mut p = owned("path=");
        push_str(&mut p, req.path.as_str());
        parts.push(p);
        let mut st = owned("status=");
        push_decimal(&mut st, resp.status as u64);
        parts.push(st);
        let mut d = owned("duration=");
        push_str(&mut d, duration);
        parts.push(d);
        let mut id = owned("request_id=");
        match &req.request_id {
            Some(r) => push_str(&mut id, r.as_str()),
            None => push_str(&mut id, "<none>"),
        }
        parts.push(id);
        assert(parts@.map_values(|s: String| s@) =~= seq![m@, p@, st@, d@, id@]);
        self.detail_texts(
            &mut parts,
            self.config.log_response_headers,
            &resp.headers,
            self.config.log_response_body,
            &resp.body,
        );
        let mut line = owned("HTTP Response: ");
        let joined = join(&parts, " | ");
        push_str(&mut line, joined.as_str());
        let level = if resp.status >= 500 {
            HttpLogLevel::Error
        } else if resp.status >= 400 {
            HttpLogLevel::Warn
        } else {
            self.config.response_level
        };
        Some((level, line))
    }

    /// The level and line logged for the response of `ctx`, which took `duration`; none
    /// when there is no response.
    pub fn log_response(&self, ctx: &HttpLoggingContext, duration: &std::time::Duration) -> (r:
        Option<(HttpLogLevel, String)>)
        ensures
            match ctx.response {
                None => r is None,
                Some(resp) => r matches Some(x) && x.0 == response_level_spec(
                    self@.response_level,
                    resp.status,
                ) && exists|text: Seq<char>|
                    x.1@ == #[trigger] response_line(self@, ctx.request, resp, text),
            },
    {
        let text = duration_debug_text(duration);
        self.response_log(ctx, text.as_str())
    }

    /// The line logged when the rest of the pipeline fails after `duration` (as rendered).
    pub fn failure_log(error: &MiddlewareError, duration: &str) -> (line: String)
        ensures
            line@ == "HTTP Request failed: error="@ + error.message_spec() + " duration="@
                + duration@,
    {
        let mut line = owned("HTTP Request failed: error=");
        let m = error.message();
        push_str(&mut line, m.as_str());
        push_str(&mut line, " duration=");
        push_str(&mut line, duration);
        line
    }
}

} // verus!
