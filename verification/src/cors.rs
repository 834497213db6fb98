//! CORS (Cross-Origin Resource Sharing): origin checks, preflight handling and the
//! response headers they set.
//!
//! `CorsMiddleware::process` decides what happens to a request: it passes on (to the next
//! middleware), is answered at once (a preflight), or is rejected.
use vstd::prelude::*;
use crate::http_context::{header_view, lookup_ci, HttpContext, MiddlewareError};
use crate::strmap::StrMap;
use crate::text::{
    decimal, join_spec, owned, push_decimal, push_str, split_char, split_spec, str_eq, to_lowercase,
    to_uppercase, trim, trim_spec, unicode_lowercase, unicode_uppercase,
};

verus! {

#[verifier::external_type_specification]
#[verifier::external_body]
pub struct ExRegex(regex::Regex);

/// `Clone` for `regex::Regex`: a copy of the same compiled regex (its source shares the
/// compiled program). Nothing is stated of the opaque result.
pub assume_specification[ <regex::Regex as Clone>::clone ](r: &regex::Regex) -> regex::Regex;

/// Whether `regex::Regex::new` accepts the pattern.
pub uninterp spec fn regex_compiles(pattern: Seq<char>) -> bool;

/// What `regex::Regex::is_match` answers for a regex compiled from `pattern` on `text`.
pub uninterp spec fn regex_matches(pattern: Seq<char>, text: Seq<char>) -> bool;

/// `regex::Regex::new`: compiles a pattern; `Ok` exactly when the pattern is accepted
/// (named by `regex_compiles`), else the rendered error.
#[verifier::external_body]
fn regex_new(pattern: &str) -> (r: Result<regex::Regex, String>)
    ensures
        r is Ok == regex_compiles(pattern@),
{
    regex::Regex::new(pattern).map_err(|e| e.to_string())
}

/// A compiled origin pattern, with the text it was compiled from.
#[derive(Clone)]
pub struct OriginPattern {
    source: String,
    compiled: regex::Regex,
}

/// `regex::Regex::is_match` on the compiled form of the pattern: whether the pattern
/// matches somewhere in `text`. The compiled regex is made from `source` by
/// `OriginPattern::compile`, the only constructor, so the answer is the one named by
/// `regex_matches` on the source.
#[verifier::external_body]
fn pattern_is_match(p: &OriginPattern, text: &str) -> (b: bool)
    ensures
        b == regex_matches(p.source@, text@),
{
    p.compiled.is_match(text)
}

/// An origin pattern that does not compile.
#[derive(Debug)]
pub struct PatternError {
    pub message: String,
}

impl OriginPattern {
    /// The pattern text.
    pub closed spec fn source_view(self) -> Seq<char> {
        self.source@
    }

    /// Compiles `pattern`.
    pub fn compile(pattern: &str) -> (r: Result<OriginPattern, PatternError>)
        ensures
            r is Ok == regex_compiles(pattern@),
            r matches Ok(p) ==> p.source_view() == pattern@,
    {
        match regex_new(pattern) {
            Ok(re) => Ok(OriginPattern { source: owned(pattern), compiled: re }),
            Err(e) => Err(PatternError { message: e }),
        }
    }

    /// Whether the pattern matches somewhere in `text`.
    pub fn is_match(&self, text: &str) -> (b: bool)
        ensures
            b == regex_matches(self.source_view(), text@),
    {
        pattern_is_match(self, text)
    }

    /// The pattern text.
    pub fn as_str(&self) -> (s: &str)
        ensures
            s@ == self.source_view(),
    {
        self.source.as_str()
    }
}

/// Origin configuration for CORS.
#[derive(Clone)]
pub enum OriginConfig {
    /// Allow any origin (*).
    Any,
    /// Allow specific origins.
    Specific(StrMap<()>),
    /// Allow origins matching a regex pattern.
    Regex(OriginPattern),
}

/// CORS middleware configuration.
pub struct CorsConfig {
    /// Allowed origins configuration.
    pub origins: OriginConfig,
    /// Allowed HTTP methods.
    pub methods: StrMap<()>,
    /// Allowed request headers.
    pub headers: StrMap<()>,
    /// Exposed response headers.
    pub expose_headers: StrMap<()>,
    /// Whether to allow credentials (cookies, authorization headers).
    pub allow_credentials: bool,
    /// Max age for the preflight cache, in whole seconds.
    pub max_age: Option<u64>,
}

/// The set of the views of some strings.
pub open spec fn views_set(v: Seq<String>) -> Set<Seq<char>> {
    v.map_values(|s: String| s@).to_set()
}

/// A set holding each of `names`.
pub fn name_set_of(names: Vec<String>) -> (s: StrMap<()>)
    ensures
        s@.dom() == views_set(names@),
        names@.map_values(|x: String| x@).no_duplicates() ==> s.keys_seq() == names@.map_values(
            |x: String| x@,
        ),
{
    let ghost all = names@;
    let mut s: StrMap<()> = StrMap::new();
    let rest = names;
    let n = rest.len();
    let mut idx: usize = 0;
    while idx < n
        invariant
            rest@ == all,
            n == all.len(),
            idx <= n,
            s@.dom() == all.take(idx as int).map_values(|x: String| x@).to_set(),
            all.map_values(|x: String| x@).no_duplicates() ==> s.keys_seq() == all.take(
                idx as int,
            ).map_values(|x: String| x@),
        decreases n - idx,
    {
        let name = rest[idx].clone();
        proof {
            let vs = all.map_values(|x: String| x@);
            let pre = all.take(idx as int).map_values(|x: String| x@);
            if vs.no_duplicates() {
                assert forall|j: int| 0 <= j < idx implies #[trigger] pre[j] != all[idx as int]@ by {
                    assert(vs[j] == all[j]@ && vs[idx as int] == all[idx as int]@);
                }
                assert(!pre.contains(all[idx as int]@));
                assert(!s@.dom().contains(all[idx as int]@));
            }
        }
        s.insert(name, ());
        assert(all.take(idx + 1).map_values(|x: String| x@) =~= all.take(idx as int).map_values(
            |x: String| x@,
        ).push(all[idx as int]@));
        proof {
            all.take(idx as int).map_values(|x: String| x@).lemma_push_to_set_commute(
                all[idx as int]@,
            );
        }
        assert(s@.dom() =~= all.take(idx + 1).map_values(|x: String| x@).to_set());
        idx = idx + 1;
    }
    assert(all.take(n as int) =~= all);
    s
}

/// Names that differ in length or in one of their first two characters are distinct.
proof fn lemma_names_distinct(names: Seq<Seq<char>>)
    requires
        forall|i: int, j: int|
            0 <= i < j < names.len() ==> (#[trigger] names[i]).len() != (#[trigger] names[j]).len()
                || names[i][0] != names[j][0] || names[i][1] != names[j][1],
    ensures
        names.no_duplicates(),
{
    assert forall|i: int, j: int| 0 <= i < names.len() && 0 <= j < names.len() && i != j implies names[i]
        != names[j] by {
        if i < j {
            assert(names[i].len() != names[j].len() || names[i][0] != names[j][0] || names[i][1]
                != names[j][1]);
        } else {
            assert(names[j].len() != names[i].len() || names[j][0] != names[i][0] || names[j][1]
                != names[i][1]);
        }
    }
}

/// The names of a set, in order, joined by `sep`.
pub fn join_names(s: &StrMap<()>, sep: &str) -> (r: String)
    ensures
        r@ == join_spec(s.keys_seq(), sep@),
{
    let keys = s.keys();
    let ghost ks = s.keys_seq();
    let mut r = String::new();
    let mut i: usize = 0;
    while i < keys.len()
        invariant
            i <= keys@.len(),
            keys@.map_values(|x: String| x@) == ks,
            r@ == join_spec(ks.take(i as int), sep@),
        decreases keys@.len() - i,
    {
        assert(ks.take(i + 1).drop_last() =~= ks.take(i as int));
        assert(ks.take(i + 1).last() == keys@[i as int]@);
        if i > 0 {
            push_str(&mut r, sep);
        } else {
            assert(r@ =~= Seq::<char>::empty());
        }
        push_str(&mut r, keys[i].as_str());
        i = i + 1;
    }
    assert(ks.take(keys@.len() as int) =~= ks);
    r
}

pub open spec fn default_methods() -> Set<Seq<char>> {
    set!["GET"@, "POST"@, "PUT"@, "DELETE"@, "PATCH"@, "HEAD"@, "OPTIONS"@]
}

pub open spec fn default_headers() -> Set<Seq<char>> {
    set!["Content-Type"@, "Authorization"@]
}

/// The default methods, in the order they are listed in the preflight answer.
pub open spec fn default_method_order() -> Seq<Seq<char>> {
    seq!["GET"@, "POST"@, "PUT"@, "DELETE"@, "PATCH"@, "HEAD"@, "OPTIONS"@]
}

/// The default request headers, in the order they are listed in the preflight answer.
pub open spec fn default_header_order() -> Seq<Seq<char>> {
    seq!["Content-Type"@, "Authorization"@]
}

/// The default configuration: any origin; the usual methods; `Content-Type` and
/// `Authorization`; nothing exposed; no credentials; a max age of one hour.
pub open spec fn is_default_cors_config(c: CorsConfig) -> bool {
    &&& c.origins is Any
    &&& c.methods@.dom() == default_methods()
    &&& c.headers@.dom() == default_headers()
    &&& c.methods.keys_seq() == default_method_order()
    &&& c.headers.keys_seq() == default_header_order()
    &&& c.expose_headers@.dom() == Set::<Seq<char>>::empty()
    &&& !c.allow_credentials
    &&& c.max_age == Some(3600u64)
}

impl Default for CorsConfig {
    fn default() -> (c: Self)
        ensures
            is_default_cors_config(c),
    {
        CorsConfig::new()
    }
}

impl CorsConfig {
    /// The default configuration (see `is_default_cors_config`).
    pub fn new() -> (c: Self)
        ensures
            is_default_cors_config(c),
    {
        proof {
            reveal_strlit("GET");
            reveal_strlit("POST");
            reveal_strlit("PUT");
            reveal_strlit("DELETE");
            reveal_strlit("PATCH");
            reveal_strlit("HEAD");
            reveal_strlit("OPTIONS");
            reveal_strlit("Content-Type");
            reveal_strlit("Authorization");
        }
        let method_names = vec![
            owned("GET"),
            owned("POST"),
            owned("PUT"),
            owned("DELETE"),
            owned("PATCH"),
            owned("HEAD"),
            owned("OPTIONS"),
        ];
        assert(method_names@.map_values(|x: String| x@) =~= default_method_order());
        proof {
            lemma_names_distinct(default_method_order());
        }
        let ghost method_views = method_names@;
        let methods = name_set_of(method_names);
        assert(views_set(method_views) =~= default_methods());
        let header_names = vec![owned("Content-Type"), owned("Authorization")];
        assert(header_names@.map_values(|x: String| x@) =~= default_header_order());
        proof {
            lemma_names_distinct(default_header_order());
        }
        let ghost header_views = header_names@;
        let headers = name_set_of(header_names);
        assert(views_set(header_views) =~= default_headers());
        let expose: StrMap<()> = StrMap::new();
        CorsConfig {
            origins: OriginConfig::Any,
            methods,
            headers,
            expose_headers: expose,
            allow_credentials: false,
            max_age: Some(3600),
        }
    }

    /// Allows all origins.
    pub fn allow_all_origins(self) -> (c: Self)
        ensures
            c == (CorsConfig { origins: OriginConfig::Any, ..self }),
    {
        let mut c = self;
        c.origins = OriginConfig::Any;
        c
    }

    /// Allows exactly the given origins.
    pub fn allow_origins(self, origins: Vec<String>) -> (c: Self)
        ensures
            c.origins matches OriginConfig::Specific(s) && s@.dom() == views_set(origins@),
            c.methods == self.methods && c.headers == self.headers && c.expose_headers
                == self.expose_headers && c.allow_credentials == self.allow_credentials
                && c.max_age == self.max_age,
    {
        let mut c = self;
        c.origins = OriginConfig::Specific(name_set_of(origins));
        c
    }

    /// Allows the origins that match `pattern`; a pattern that does not compile is an
    /// error.
    pub fn allow_origin_regex(self, pattern: &str) -> (r: Result<Self, PatternError>)
        ensures
            r is Ok == regex_compiles(pattern@),
            r matches Ok(c) ==> c.origins matches OriginConfig::Regex(p) && p.source_view()
                == pattern@ && c.methods == self.methods && c.headers == self.headers
                && c.expose_headers == self.expose_headers && c.allow_credentials
                == self.allow_credentials && c.max_age == self.max_age,
    {
        let p = OriginPattern::compile(pattern)?;
        let mut c = self;
        c.origins = OriginConfig::Regex(p);
        Ok(c)
    }

    /// Sets the allowed methods.
    pub fn allow_methods(self, methods: Vec<String>) -> (c: Self)
        ensures
            c.methods@.dom() == views_set(methods@),
            c == (CorsConfig { methods: c.methods, ..self }),
    {
        let mut c = self;
        c.methods = name_set_of(methods);
        c
    }

    /// Sets the allowed request headers.
    pub fn allow_headers(self, headers: Vec<String>) -> (c: Self)
        ensures
            c.headers@.dom() == views_set(headers@),
            c == (CorsConfig { headers: c.headers, ..self }),
    {
        let mut c = self;
        c.headers = name_set_of(headers);
        c
    }

    /// Sets the exposed response headers.
    pub fn expose_headers(self, headers: Vec<String>) -> (c: Self)
        ensures
            c.expose_headers@.dom() == views_set(headers@),
            c == (CorsConfig { expose_headers: c.expose_headers, ..self }),
    {
        let mut c = self;
        c.expose_headers = name_set_of(headers);
        c
    }

    /// Enables or disables credentials.
    pub fn allow_credentials(self, allow: bool) -> (c: Self)
        ensures
            c == (CorsConfig { allow_credentials: allow, ..self }),
    {
        let mut c = self;
        c.allow_credentials = allow;
        c
    }

    /// Sets the max age for the preflight cache, in whole seconds.
    pub fn max_age(self, seconds: u64) -> (c: Self)
        ensures
            c == (CorsConfig { max_age: Some(seconds), ..self }),
    {
        let mut c = self;
        c.max_age = Some(seconds);
        c
    }

    /// Whether `origin` is allowed.
    pub fn is_origin_allowed(&self, origin: &str) -> (b: bool)
        ensures
            b == origin_allowed(self.origins, origin@),
    {
        match &self.origins {
            OriginConfig::Any => true,
            OriginConfig::Specific(origins) => origins.contains_key(origin),
            OriginConfig::Regex(p) => p.is_match(origin),
        }
    }
}

/// Whether an origin is allowed by the configuration.
pub open spec fn origin_allowed(origins: OriginConfig, origin: Seq<char>) -> bool {
    match origins {
        OriginConfig::Any => true,
        OriginConfig::Specific(s) => s@.dom().contains(origin),
        OriginConfig::Regex(p) => regex_matches(p.source_view(), origin),
    }
}

/// The response headers after the origin headers are set for an allowed origin.
pub open spec fn origin_headers(
    config: CorsConfig,
    origin: Seq<char>,
    h: Map<Seq<char>, Seq<char>>,
) -> Map<Seq<char>, Seq<char>> {
    if config.allow_credentials {
        h.insert("Access-Control-Allow-Origin"@, origin).insert(
            "Access-Control-Allow-Credentials"@,
            "true"@,
        ).insert("Vary"@, "Origin"@)
    } else {
        match config.origins {
            OriginConfig::Any => h.insert("Access-Control-Allow-Origin"@, "*"@),
            _ => h.insert("Access-Control-Allow-Origin"@, origin).insert("Vary"@, "Origin"@),
        }
    }
}

/// The requested header names: the `,`-separated pieces, trimmed.
pub open spec fn requested_headers(h: Seq<char>) -> Seq<Seq<char>> {
    split_spec(h, ',').map_values(|p: Seq<char>| trim_spec(p))
}

/// Whether a requested header is allowed: some allowed header has the same lowercase form.
pub open spec fn header_allowed(allowed: Seq<Seq<char>>, h: Seq<char>) -> bool {
    exists|i: int| 0 <= i < allowed.len() && unicode_lowercase(#[trigger] allowed[i])
        == unicode_lowercase(h)
}

/// The first requested header that is not allowed.
pub open spec fn first_disallowed(allowed: Seq<Seq<char>>, hs: Seq<Seq<char>>) -> Option<
    Seq<char>,
>
    decreases hs.len(),
{
    if hs.len() == 0 {
        None
    } else if !header_allowed(allowed, hs[0]) {
        Some(hs[0])
    } else {
        first_disallowed(allowed, hs.drop_first())
    }
}

/// A preflight's requested headers pass only if each of them is allowed: no header is
/// reported exactly when every requested header matches an allowed one, and a header
/// reported is the first requested one that matches none.
pub proof fn first_disallowed_is_first_unmatched(allowed: Seq<Seq<char>>, hs: Seq<Seq<char>>)
    ensures
        first_disallowed(allowed, hs) is None <==> forall|i: int|
            0 <= i < hs.len() ==> header_allowed(allowed, #[trigger] hs[i]),
        first_disallowed(allowed, hs) matches Some(h) ==> exists|i: int|
            0 <= i < hs.len() && #[trigger] hs[i] == h && !header_allowed(allowed, h) && forall|
                j: int,
            | 0 <= j < i ==> header_allowed(allowed, #[trigger] hs[j]),
    decreases hs.len(),
{
    if hs.len() > 0 {
        let rest = hs.drop_first();
        first_disallowed_is_first_unmatched(allowed, rest);
        if header_allowed(allowed, hs[0]) {
            assert forall|i: int| 0 <= i < rest.len() implies #[trigger] rest[i] == hs[i + 1] by {}
            if first_disallowed(allowed, rest) is None {
                assert forall|i: int| 0 <= i < hs.len() implies header_allowed(
                    allowed,
                    #[trigger] hs[i],
                ) by {
                    if i > 0 {
                        assert(hs[i] == rest[i - 1]);
                    }
                }
            } else {
                let i = choose|i: int|
                    0 <= i < rest.len() && #[trigger] rest[i] == first_disallowed(allowed, rest)->0
                        && !header_allowed(allowed, rest[i]) && forall|j: int|
                        0 <= j < i ==> header_allowed(allowed, #[trigger] rest[j]);
                assert(hs[i + 1] == rest[i]);
                assert forall|j: int| 0 <= j < i + 1 implies header_allowed(
                    allowed,
                    #[trigger] hs[j],
                ) by {
                    if j > 0 {
                        assert(hs[j] == rest[j - 1]);
                    }
                }
                assert(!header_allowed(allowed, hs[i + 1]));
            }
        } else {
            assert(!header_allowed(allowed, hs[0]));
        }
    }
}

/// The response headers of an accepted preflight.
pub open spec fn preflight_headers(config: CorsConfig, h: Map<Seq<char>, Seq<char>>) -> Map<
    Seq<char>,
    Seq<char>,
> {
    let h2 = h.insert(
        "Access-Control-Allow-Methods"@,
        join_spec(config.methods.keys_seq(), ", "@),
    ).insert("Access-Control-Allow-Headers"@, join_spec(config.headers.keys_seq(), ", "@));
    match config.max_age {
        Some(s) => h2.insert("Access-Control-Max-Age"@, decimal(s as nat)),
        None => h2,
    }
}

/// The response headers of an accepted actual request.
pub open spec fn actual_headers(config: CorsConfig, h: Map<Seq<char>, Seq<char>>) -> Map<
    Seq<char>,
    Seq<char>,
> {
    if config.expose_headers@.dom().len() > 0 {
        h.insert(
            "Access-Control-Expose-Headers"@,
            join_spec(config.expose_headers.keys_seq(), ", "@),
        )
    } else {
        h
    }
}

/// What the CORS middleware does with a request.
pub enum CorsStep {
    /// Pass the request on to the next middleware.
    Next(HttpContext),
    /// Answer at once with this context.
    Done(HttpContext),
    /// Reject the request.
    Reject(MiddlewareError),
}

/// CORS middleware.
pub struct CorsMiddleware {
    config: CorsConfig,
}

fn rejected(prefix: &str, name: &str, tail: &str) -> (e: MiddlewareError)
    ensures
        e matches MiddlewareError::Rejected(m) && m@ == prefix@ + name@ + tail@,
{
    let mut m = owned(prefix);
    push_str(&mut m, name);
    push_str(&mut m, tail);
    MiddlewareError::Rejected(m)
}

impl CorsMiddleware {
    /// The config.
    pub closed spec fn view(&self) -> CorsConfig {
        self.config
    }

    /// The config.
    pub fn config(&self) -> (r: &CorsConfig)
        ensures
            *r == self@,
    {
        &self.config
    }

    /// Creates the middleware.
    pub fn new(config: CorsConfig) -> (m: Self)
        ensures
            m@ == config,
    {
        CorsMiddleware { config }
    }

    /// The default configuration, allowing all origins.
    pub fn permissive() -> (m: Self)
        ensures
            m@.origins is Any,
            m@.methods@.dom() == default_methods(),
            m@.headers@.dom() == default_headers(),
            m@.methods.keys_seq() == default_method_order(),
            m@.headers.keys_seq() == default_header_order(),
            m@.expose_headers@.dom() == Set::<Seq<char>>::empty(),
            !m@.allow_credentials,
            m@.max_age == Some(3600u64),
    {
        Self::new(CorsConfig::new().allow_all_origins())
    }

    /// The default configuration restricted to the given origins, with credentials.
    pub fn restrictive(allowed_origins: Vec<String>) -> (m: Self)
        ensures
            m@.origins matches OriginConfig::Specific(s) && s@.dom() == views_set(
                allowed_origins@,
            ),
            m@.methods@.dom() == default_methods(),
            m@.headers@.dom() == default_headers(),
            m@.methods.keys_seq() == default_method_order(),
            m@.headers.keys_seq() == default_header_order(),
            m@.expose_headers@.dom() == Set::<Seq<char>>::empty(),
            m@.allow_credentials,
            m@.max_age == Some(3600u64),
    {
        Self::new(CorsConfig::new().allow_origins(allowed_origins).allow_credentials(true))
    }

    fn set_origin_headers(&self, ctx: &mut HttpContext, origin: &String)
        ensures
            header_view(final(ctx).response_headers) == origin_headers(
                self@,
                origin@,
                header_view(old(ctx).response_headers),
            ),
            *final(ctx) == (HttpContext {
                response_headers: final(ctx).response_headers,
                ..*old(ctx)
            }),
    {
        if self.config.allow_credentials {
            ctx.set_response_header(owned("Access-Control-Allow-Origin"), owned(origin.as_str()));
            ctx.set_response_header(owned("Access-Control-Allow-Credentials"), owned("true"));
            ctx.set_response_header(owned("Vary"), owned("Origin"));
        } else {
            match &self.config.origins {
                OriginConfig::Any => {
                    ctx.set_response_header(owned("Access-Control-Allow-Origin"), owned("*"));
                },
                _ => {
                    ctx.set_response_header(
                        owned("Access-Control-Allow-Origin"),
                        owned(origin.as_str()),
                    );
                    ctx.set_response_header(owned("Vary"), owned("Origin"));
                },
            }
        }
        assert(header_view(ctx.response_headers) =~= origin_headers(
            self.config,
            origin@,
            header_view(old(ctx).response_headers),
        ));
    }

    fn check_requested_headers(&self, requested: &String) -> (r: Option<String>)
        ensures
            r matches Some(h) ==> first_disallowed(self@.headers.keys_seq(), requested_headers(requested@)) == Some(h@),
            r is None ==> first_disallowed(self@.headers.keys_seq(), requested_headers(requested@)) is None,
    {
        let pieces = split_char(requested.as_str(), ',');
        let allowed = self.config.headers.keys();
        let ghost al = self.config.headers.keys_seq();
        let ghost hs = requested_headers(requested@);
        assert(hs.len() == pieces@.len());
        let mut i: usize = 0;
        assert(hs.skip(0) =~= hs);
        while i < pieces.len()
            invariant
                i <= pieces@.len(),
                hs == requested_headers(requested@),
                hs.len() == pieces@.len(),
                pieces@.map_values(|p: String| p@) == split_spec(requested@, ','),
                allowed@.map_values(|x: String| x@) == al,
                al == self.config.headers.keys_seq(),
                first_disallowed(al, hs) == first_disallowed(al, hs.skip(i as int)),
            decreases pieces@.len() - i,
        {
            let h = trim(pieces[i].as_str());
            assert(h@ == hs[i as int]);
            let hl = to_lowercase(h.as_str());
            let mut found = false;
            let mut j: usize = 0;
            while j < allowed.len()
                invariant
                    j <= allowed@.len(),
                    allowed@.map_values(|x: String| x@) == al,
                    hl@ == unicode_lowercase(h@),
                    found == exists|k: int| 0 <= k < j && unicode_lowercase(#[trigger] al[k])
                        == unicode_lowercase(h@),
                decreases allowed@.len() - j,
            {
                let al_lower = to_lowercase(allowed[j].as_str());
                assert(al[j as int] == allowed@[j as int]@);
                if str_eq(al_lower.as_str(), hl.as_str()) {
                    found = true;
                }
                j = j + 1;
            }
            let ghost rest = hs.skip(i as int);
            assert(rest[0] == hs[i as int]);
            assert(rest.drop_first() =~= hs.skip(i + 1));
            if !found {
                return Some(h);
            }
            i = i + 1;
        }
        None
    }

    /// Decides what happens to a request: requests without an `Origin` header pass on
    /// unchanged; a disallowed origin is rejected; otherwise the origin headers are set,
    /// and a preflight is checked and answered (status 204), while an actual request gets
    /// the exposed headers and passes on.
    pub fn process(&self, ctx: HttpContext) -> (r: CorsStep)
        ensures
            match lookup_ci(ctx.headers.pairs(), "Origin"@) {
                None => r == CorsStep::Next(ctx),
                Some(origin) => if !origin_allowed(self@.origins, origin@) {
                    r matches CorsStep::Reject(MiddlewareError::Rejected(m)) && m@ == "Origin '"@
                        + origin@ + "' is not allowed"@
                } else {
                    let base = origin_headers(self@, origin@, header_view(ctx.response_headers));
                    if ctx.is_preflight {
                        match lookup_ci(ctx.headers.pairs(), "Access-Control-Request-Method"@) {
                            Some(m) if !self@.methods@.dom().contains(unicode_uppercase(m@)) => (r matches CorsStep::Reject(MiddlewareError::Rejected(e)) && e@ == "Method '"@ + m@ + "' is not allowed"@),
                            _ => match lookup_ci(ctx.headers.pairs(), "Access-Control-Request-Headers"@) {
                                Some(hs) if first_disallowed(self@.headers.keys_seq(), requested_headers(hs@)) is Some => (r matches CorsStep::Reject(MiddlewareError::Rejected(e)) && e@ == "Header '"@ + first_disallowed(self@.headers.keys_seq(), requested_headers(hs@))->0 + "' is not allowed"@),
                                _ => (r matches CorsStep::Done(c) && header_view(c.response_headers) == preflight_headers(self@, base) && c == (HttpContext { response_headers: c.response_headers, status: Some(204u16), ..ctx })),
                            },
                        }
                    } else {
                        r matches CorsStep::Next(c) && header_view(c.response_headers) == actual_headers(self@, base) && c == (HttpContext { response_headers: c.response_headers, ..ctx })
                    }
                },
            },
    {
        let origin = match ctx.get_header("Origin") {
            None => return CorsStep::Next(ctx),
            Some(o) => owned(o.as_str()),
        };
        if !self.config.is_origin_allowed(origin.as_str()) {
            return CorsStep::Reject(rejected("Origin '", origin.as_str(), "' is not allowed"));
        }
        let ghost ctx0 = ctx;
        let mut ctx = ctx;
        self.set_origin_headers(&mut ctx, &origin);
        let ghost base = header_view(ctx.response_headers);
        if ctx.is_preflight {
            match ctx.get_header("Access-Control-Request-Method") {
                Some(m) => {
                    let upper = to_uppercase(m.as_str());
                    if !self.config.methods.contains_key(upper.as_str()) {
                        return CorsStep::Reject(rejected("Method '", m.as_str(), "' is not allowed"));
                    }
                },
                None => {},
            }
            match ctx.get_header("Access-Control-Request-Headers") {
                Some(hs) => {
                    let hs = owned(hs.as_str());
                    match self.check_requested_headers(&hs) {
                        Some(bad) => {
                            return CorsStep::Reject(rejected("Header '", bad.as_str(), "' is not allowed"));
                        },
                        None => {},
                    }
                },
                None => {},
            }
            let methods = join_names(&self.config.methods, ", ");
            ctx.set_response_header(owned("Access-Control-Allow-Methods"), methods);
            let headers = join_names(&self.config.headers, ", ");
            ctx.set_response_header(owned("Access-Control-Allow-Headers"), headers);
            match self.config.max_age {
                Some(s) => {
                    let mut v = String::new();
                    push_decimal(&mut v, s);
                    assert(v@ =~= decimal(s as nat));
                    ctx.set_response_header(owned("Access-Control-Max-Age"), v);
                },
                None => {},
            }
            ctx.status = Some(204);
            assert(header_view(ctx.response_headers) =~= preflight_headers(self.config, base));
            return CorsStep::Done(ctx);
        }
        if self.config.expose_headers.len() > 0 {
            let expose = join_names(&self.config.expose_headers, ", ");
            ctx.set_response_header(owned("Access-Control-Expose-Headers"), expose);
        }
        assert(header_view(ctx.response_headers) =~= actual_headers(self.config, base));
        CorsStep::Next(ctx)
    }
}

} // verus!
