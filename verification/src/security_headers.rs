//! Security headers: the configuration of the security-related response headers
//! (Content-Security-Policy, Strict-Transport-Security, X-Frame-Options,
//! X-Content-Type-Options, X-XSS-Protection, Referrer-Policy, Permissions-Policy) and the
//! list of headers it adds to a response.
use vstd::prelude::*;
use crate::text::{decimal, owned, push_decimal, push_str};

verus! {

/// Configuration for security headers; a header whose value is `None` is not added.
#[derive(Debug, Clone)]
pub struct SecurityHeadersConfig {
    /// Content-Security-Policy header value
    pub content_security_policy: Option<String>,
    /// Strict-Transport-Security max-age in seconds
    pub hsts_max_age: Option<u64>,
    /// Include subdomains in HSTS
    pub hsts_include_subdomains: bool,
    /// Include preload directive in HSTS
    pub hsts_preload: bool,
    /// X-Frame-Options header value (DENY, SAMEORIGIN, or ALLOW-FROM uri)
    pub x_frame_options: Option<String>,
    /// X-Content-Type-Options header value (typically "nosniff")
    pub x_content_type_options: Option<String>,
    /// X-XSS-Protection header value (legacy, typically "1; mode=block")
    pub x_xss_protection: Option<String>,
    /// Referrer-Policy header value
    pub referrer_policy: Option<String>,
    /// Permissions-Policy header value
    pub permissions_policy: Option<String>,
}

/// The text of an optional string.
pub open spec fn opt_view(v: Option<String>) -> Option<Seq<char>> {
    match v {
        Some(s) => Some(s@),
        None => None,
    }
}

/// The restrictive default Permissions-Policy.
pub open spec fn default_permissions_policy() -> Seq<char> {
    "geolocation=(), microphone=(), camera=(), payment=(), usb=(), magnetometer=(), gyroscope=(), accelerometer=()"@
}

/// The secure defaults: CSP `default-src 'self'`; HSTS for a year with subdomains and
/// preload; `DENY` framing; `nosniff`; `1; mode=block`; `strict-origin-when-cross-origin`;
/// a restrictive Permissions-Policy.
pub open spec fn is_secure_config(c: SecurityHeadersConfig) -> bool {
    &&& opt_view(c.content_security_policy) == Some("default-src 'self'"@)
    &&& c.hsts_max_age == Some(31536000u64)
    &&& c.hsts_include_subdomains
    &&& c.hsts_preload
    &&& opt_view(c.x_frame_options) == Some("DENY"@)
    &&& opt_view(c.x_content_type_options) == Some("nosniff"@)
    &&& opt_view(c.x_xss_protection) == Some("1; mode=block"@)
    &&& opt_view(c.referrer_policy) == Some("strict-origin-when-cross-origin"@)
    &&& opt_view(c.permissions_policy) == Some(default_permissions_policy())
}

/// The development settings: a CSP allowing inline and eval; no HSTS; `SAMEORIGIN`
/// framing; `nosniff`; `1; mode=block`; `no-referrer-when-downgrade`; no
/// Permissions-Policy.
pub open spec fn is_permissive_config(c: SecurityHeadersConfig) -> bool {
    &&& opt_view(c.content_security_policy) == Some(
        "default-src 'self' 'unsafe-inline' 'unsafe-eval'"@,
    )
    &&& c.hsts_max_age is None
    &&& !c.hsts_include_subdomains
    &&& !c.hsts_preload
    &&& opt_view(c.x_frame_options) == Some("SAMEORIGIN"@)
    &&& opt_view(c.x_content_type_options) == Some("nosniff"@)
    &&& opt_view(c.x_xss_protection) == Some("1; mode=block"@)
    &&& opt_view(c.referrer_policy) == Some("no-referrer-when-downgrade"@)
    &&& c.permissions_policy is None
}

/// No header is set.
pub open spec fn is_empty_config(c: SecurityHeadersConfig) -> bool {
    &&& c.content_security_policy is None
    &&& c.hsts_max_age is None
    &&& !c.hsts_include_subdomains
    &&& !c.hsts_preload
    &&& c.x_frame_options is None
    &&& c.x_content_type_options is None
    &&& c.x_xss_protection is None
    &&& c.referrer_policy is None
    &&& c.permissions_policy is None
}

impl Default for SecurityHeadersConfig {
    /// The secure defaults.
    fn default() -> (c: Self)
        ensures
            is_secure_config(c),
    {
        SecurityHeadersConfig {
            content_security_policy: Some(owned("default-src 'self'")),
            hsts_max_age: Some(31536000),
            hsts_include_subdomains: true,
            hsts_preload: true,
            x_frame_options: Some(owned("DENY")),
            x_content_type_options: Some(owned("nosniff")),
            x_xss_protection: Some(owned("1; mode=block")),
            referrer_policy: Some(owned("strict-origin-when-cross-origin")),
            permissions_policy: Some(
                owned(
                    "geolocation=(), microphone=(), camera=(), payment=(), usb=(), magnetometer=(), gyroscope=(), accelerometer=()",
                ),
            ),
        }
    }
}

impl SecurityHeadersConfig {
    /// A configuration with no headers set.
    pub fn new() -> (c: Self)
        ensures
            is_empty_config(c),
    {
        SecurityHeadersConfig {
            content_security_policy: None,
            hsts_max_age: None,
            hsts_include_subdomains: false,
            hsts_preload: false,
            x_frame_options: None,
            x_content_type_options: None,
            x_xss_protection: None,
            referrer_policy: None,
            permissions_policy: None,
        }
    }

    /// A permissive configuration for development.
    pub fn permissive() -> (c: Self)
        ensures
            is_permissive_config(c),
    {
        SecurityHeadersConfig {
            content_security_policy: Some(owned("default-src 'self' 'unsafe-inline' 'unsafe-eval'")),
            hsts_max_age: None,
            hsts_include_subdomains: false,
            hsts_preload: false,
            x_frame_options: Some(owned("SAMEORIGIN")),
            x_content_type_options: Some(owned("nosniff")),
            x_xss_protection: Some(owned("1; mode=block")),
            referrer_policy: Some(owned("no-referrer-when-downgrade")),
            permissions_policy: None,
        }
    }

    /// Sets the Content-Security-Policy.
    pub fn with_csp(self, policy: &str) -> (c: Self)
        ensures
            opt_view(c.content_security_policy) == Some(policy@),
            c == (SecurityHeadersConfig { content_security_policy: c.content_security_policy, ..self }),
    {
        let mut c = self;
        c.content_security_policy = Some(owned(policy));
        c
    }

    /// Removes the Content-Security-Policy.
    pub fn without_csp(self) -> (c: Self)
        ensures
            c == (SecurityHeadersConfig { content_security_policy: None, ..self }),
    {
        let mut c = self;
        c.content_security_policy = None;
        c
    }

    /// Sets Strict-Transport-Security: `max_age` seconds, with subdomains and preload as
    /// given.
    pub fn with_hsts(self, max_age: u64, include_subdomains: bool, preload: bool) -> (c: Self)
        ensures
            c == (SecurityHeadersConfig {
                hsts_max_age: Some(max_age),
                hsts_include_subdomains: include_subdomains,
                hsts_preload: preload,
                ..self
            }),
    {
        let mut c = self;
        c.hsts_max_age = Some(max_age);
        c.hsts_include_subdomains = include_subdomains;
        c.hsts_preload = preload;
        c
    }

    /// Removes Strict-Transport-Security.
    pub fn without_hsts(self) -> (c: Self)
        ensures
            c == (SecurityHeadersConfig { hsts_max_age: None, ..self }),
    {
        let mut c = self;
        c.hsts_max_age = None;
        c
    }

    /// Sets X-Frame-Options.
    pub fn with_frame_options(self, value: &str) -> (c: Self)
        ensures
            opt_view(c.x_frame_options) == Some(value@),
            c == (SecurityHeadersConfig { x_frame_options: c.x_frame_options, ..self }),
    {
        let mut c = self;
        c.x_frame_options = Some(owned(value));
        c
    }

    /// Removes X-Frame-Options.
    pub fn without_frame_options(self) -> (c: Self)
        ensures
            c == (SecurityHeadersConfig { x_frame_options: None, ..self }),
    {
        let mut c = self;
        c.x_frame_options = None;
        c
    }

    /// Sets X-Content-Type-Options.
    pub fn with_content_type_options(self, value: &str) -> (c: Self)
        ensures
            opt_view(c.x_content_type_options) == Some(value@),
            c == (SecurityHeadersConfig { x_content_type_options: c.x_content_type_options, ..self }),
    {
        let mut c = self;
        c.x_content_type_options = Some(owned(value));
        c
    }

    /// Removes X-Content-Type-Options.
    pub fn without_content_type_options(self) -> (c: Self)
        ensures
            c == (SecurityHeadersConfig { x_content_type_options: None, ..self }),
    {
        let mut c = self;
        c.x_content_type_options = None;
        c
    }

    /// Sets X-XSS-Protection.
    pub fn with_xss_protection(self, value: &str) -> (c: Self)
        ensures
            opt_view(c.x_xss_protection) == Some(value@),
            c == (SecurityHeadersConfig { x_xss_protection: c.x_xss_protection, ..self }),
    {
        let mut c = self;
        c.x_xss_protection = Some(owned(value));
        c
    }

    /// Removes X-XSS-Protection.
    pub fn without_xss_protection(self) -> (c: Self)
        ensures
            c == (SecurityHeadersConfig { x_xss_protection: None, ..self }),
    {
        let mut c = self;
        c.x_xss_protection = None;
        c
    }

    /// Sets Referrer-Policy.
    pub fn with_referrer_policy(self, policy: &str) -> (c: Self)
        ensures
            opt_view(c.referrer_policy) == Some(policy@),
            c == (SecurityHeadersConfig { referrer_policy: c.referrer_policy, ..self }),
    {
        let mut c = self;
        c.referrer_policy = Some(owned(policy));
        c
    }

    /// Removes Referrer-Policy.
    pub fn without_referrer_policy(self) -> (c: Self)
        ensures
            c == (SecurityHeadersConfig { referrer_policy: None, ..self }),
    {
        let mut c = self;
        c.referrer_policy = None;
        c
    }

    /// Sets Permissions-Policy.
    pub fn with_permissions_policy(self, policy: &str) -> (c: Self)
        ensures
            opt_view(c.permissions_policy) == Some(policy@),
            c == (SecurityHeadersConfig { permissions_policy: c.permissions_policy, ..self }),
    {
        let mut c = self;
        c.permissions_policy = Some(owned(policy));
        c
    }

    /// Removes Permissions-Policy.
    pub fn without_permissions_policy(self) -> (c: Self)
        ensures
            c == (SecurityHeadersConfig { permissions_policy: None, ..self }),
    {
        let mut c = self;
        c.permissions_policy = None;
        c
    }

    /// The Strict-Transport-Security value: `max-age=N`, then `; includeSubDomains` and
    /// `; preload` as configured; none without a max age.
    pub open spec fn hsts_spec(self) -> Option<Seq<char>> {
        match self.hsts_max_age {
            None => None,
            Some(n) => Some(
                "max-age="@ + decimal(n as nat) + (if self.hsts_include_subdomains {
                    "; includeSubDomains"@
                } else {
                    Seq::<char>::empty()
                }) + (if self.hsts_preload {
                    "; preload"@
                } else {
                    Seq::<char>::empty()
                }),
            ),
        }
    }

    /// The Strict-Transport-Security value (see `hsts_spec`).
    pub fn build_hsts_header(&self) -> (r: Option<String>)
        ensures
            opt_view(r) == self.hsts_spec(),
    {
        match self.hsts_max_age {
            None => None,
            Some(n) => {
                let mut v = owned("max-age=");
                push_decimal(&mut v, n);
                if self.hsts_include_subdomains {
                    push_str(&mut v, "; includeSubDomains");
                }
                if self.hsts_preload {
                    push_str(&mut v, "; preload");
                }
                assert(v@ =~= self.hsts_spec()->0);
                Some(v)
            },
        }
    }

    /// The headers added to a response, in order: each configured header with its value.
    pub open spec fn header_list(self) -> Seq<(Seq<char>, Seq<char>)> {
        entry("Content-Security-Policy"@, opt_view(self.content_security_policy)) + entry(
            "Strict-Transport-Security"@,
            self.hsts_spec(),
        ) + entry("X-Frame-Options"@, opt_view(self.x_frame_options)) + entry(
            "X-Content-Type-Options"@,
            opt_view(self.x_content_type_options),
        ) + entry("X-XSS-Protection"@, opt_view(self.x_xss_protection)) + entry(
            "Referrer-Policy"@,
            opt_view(self.referrer_policy),
        ) + entry("Permissions-Policy"@, opt_view(self.permissions_policy))
    }
}

/// The header `(name, value)` when there is a value.
pub open spec fn entry(name: Seq<char>, value: Option<Seq<char>>) -> Seq<(Seq<char>, Seq<char>)> {
    match value {
        Some(v) => seq![(name, v)],
        None => seq![],
    }
}

/// The views of a list of header pairs.
pub open spec fn pair_views(v: Seq<(String, String)>) -> Seq<(Seq<char>, Seq<char>)> {
    v.map_values(|p: (String, String)| (p.0@, p.1@))
}

fn push_entry(list: &mut Vec<(String, String)>, name: &str, value: &Option<String>)
    ensures
        pair_views(final(list)@) == pair_views(old(list)@) + entry(name@, opt_view(*value)),
{
    match value {
        Some(v) => {
            let ghost before = list@;
            list.push((owned(name), owned(v.as_str())));
            assert(pair_views(list@) =~= pair_views(before) + entry(name@, opt_view(*value)));
        },
        None => {
            assert(pair_views(list@) =~= pair_views(list@) + entry(name@, opt_view(*value)));
        },
    }
}

/// Context trait for types that can have HTTP headers added.
pub trait HasHeaders {
    /// Whether `added_headers` records what `add_header` adds. It is `false` unless an
    /// implementation says otherwise; such an implementation promises nothing of
    /// `add_header`.
    open spec fn records_added_headers() -> bool {
        false
    }

    /// The headers added so far, as (name, value) pairs in the order they were added,
    /// where `records_added_headers` holds.
    open spec fn added_headers(&self) -> Seq<(Seq<char>, Seq<char>)> {
        Seq::empty()
    }

    /// Adds a header to the context.
    fn add_header(&mut self, name: String, value: String)
        ensures
            Self::records_added_headers() ==> final(self).added_headers() == old(
                self,
            ).added_headers().push((name@, value@)),
    ;
}

/// Middleware that adds security headers to HTTP responses.
pub struct SecurityHeadersMiddleware {
    config: SecurityHeadersConfig,
}

impl SecurityHeadersMiddleware {
    /// The config.
    pub closed spec fn view(&self) -> SecurityHeadersConfig {
        self.config
    }

    /// The config.
    pub fn config(&self) -> (r: &SecurityHeadersConfig)
        ensures
            *r == self@,
    {
        &self.config
    }

    /// The middleware with `config`.
    pub fn new(config: SecurityHeadersConfig) -> (m: Self)
        ensures
            m@ == config,
    {
        SecurityHeadersMiddleware { config }
    }

    /// The middleware with the secure defaults.
    pub fn secure() -> (m: Self)
        ensures
            is_secure_config(m@),
    {
        Self::new(SecurityHeadersConfig::default())
    }

    /// The middleware with the permissive settings for development.
    pub fn permissive() -> (m: Self)
        ensures
            is_permissive_config(m@),
    {
        Self::new(SecurityHeadersConfig::permissive())
    }

    /// The headers to add, in order (see `header_list`).
    pub fn headers(&self) -> (r: Vec<(String, String)>)
        ensures
            pair_views(r@) == self@.header_list(),
    {
        let mut list: Vec<(String, String)> = Vec::new();
        assert(pair_views(list@) =~= Seq::<(Seq<char>, Seq<char>)>::empty());
        push_entry(&mut list, "Content-Security-Policy", &self.config.content_security_policy);
        let hsts = self.config.build_hsts_header();
        push_entry(&mut list, "Strict-Transport-Security", &hsts);
        push_entry(&mut list, "X-Frame-Options", &self.config.x_frame_options);
        push_entry(&mut list, "X-Content-Type-Options", &self.config.x_content_type_options);
        push_entry(&mut list, "X-XSS-Protection", &self.config.x_xss_protection);
        push_entry(&mut list, "Referrer-Policy", &self.config.referrer_policy);
        push_entry(&mut list, "Permissions-Policy", &self.config.permissions_policy);
        assert(pair_views(list@) =~= self.config.header_list());
        list
    }

    /// Adds the configured headers to `ctx`, in the order of `headers`: one `add_header`
    /// call per header.
    pub fn apply_headers<Ctx: HasHeaders>(&self, ctx: &mut Ctx)
        ensures
            Ctx::records_added_headers() ==> final(ctx).added_headers() == old(
                ctx,
            ).added_headers() + self@.header_list(),
    {
        let list = self.headers();
        let ghost start = ctx.added_headers();
        let mut i: usize = 0;
        while i < list.len()
            invariant
                i <= list@.len(),
                pair_views(list@) == self@.header_list(),
                Ctx::records_added_headers() ==> ctx.added_headers() == start + pair_views(
                    list@,
                ).take(i as int),
            decreases list@.len() - i,
        {
            let (name, value) = (owned(list[i].0.as_str()), owned(list[i].1.as_str()));
            ctx.add_header(name, value);
            assert(pair_views(list@).take(i + 1) =~= pair_views(list@).take(i as int).push(
                (list@[i as int].0@, list@[i as int].1@),
            ));
            i = i + 1;
        }
        assert(pair_views(list@).take(list@.len() as int) =~= pair_views(list@));
    }
}

impl Default for SecurityHeadersMiddleware {
    fn default() -> (m: Self)
        ensures
            is_secure_config(m@),
    {
        Self::secure()
    }
}

} // verus!
