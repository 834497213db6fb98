//! The HTTP request/response context that the HTTP middleware work on, and the
//! middleware error type.
use vstd::prelude::*;
use crate::strmap::StrMap;
use crate::text::{str_eq, to_lowercase, to_uppercase, unicode_lowercase, unicode_uppercase};

verus! {

/// Errors that can occur in middleware.
#[derive(Debug)]
pub enum MiddlewareError {
    /// Middleware rejected the request.
    Rejected(String),
    /// Middleware encountered an error.
    ExecutionError(String),
    /// Custom error.
    Custom(String),
}

impl MiddlewareError {
    /// The text that the error displays.
    pub open spec fn message_spec(&self) -> Seq<char> {
        match self {
            MiddlewareError::Rejected(d) => "Request rejected: "@ + d@,
            MiddlewareError::ExecutionError(d) => "Middleware error: "@ + d@,
            MiddlewareError::Custom(d) => d@,
        }
    }

    /// The text that the error displays.
    pub fn message(&self) -> (s: String)
        ensures
            s@ == self.message_spec(),
    {
        match self {
            MiddlewareError::Rejected(d) => {
                let mut s = crate::text::owned("Request rejected: ");
                crate::text::push_str(&mut s, d.as_str());
                s
            },
            MiddlewareError::ExecutionError(d) => {
                let mut s = crate::text::owned("Middleware error: ");
                crate::text::push_str(&mut s, d.as_str());
                s
            },
            MiddlewareError::Custom(d) => crate::text::owned(d.as_str()),
        }
    }
}

/// A header map seen as a map from names to value texts.
pub open spec fn header_view(m: StrMap<String>) -> Map<Seq<char>, Seq<char>> {
    m@.map_values(|v: String| v@)
}

/// The value of the first header, in order, whose name has the same lowercase form as
/// `name`.
pub open spec fn lookup_ci(pairs: Seq<(Seq<char>, String)>, name: Seq<char>) -> Option<String>
    decreases pairs.len(),
{
    if pairs.len() == 0 {
        None
    } else if unicode_lowercase(pairs[0].0) == unicode_lowercase(name) {
        Some(pairs[0].1)
    } else {
        lookup_ci(pairs.drop_first(), name)
    }
}

/// `lookup_ci` finds a value exactly when some pair's name has the lowercase form of
/// `name`, and the value found is that of such a pair.
pub proof fn lemma_lookup_ci_pairs(pairs: Seq<(Seq<char>, String)>, name: Seq<char>)
    ensures
        lookup_ci(pairs, name) matches Some(v) ==> exists|i: int|
            0 <= i < pairs.len() && unicode_lowercase(#[trigger] pairs[i].0) == unicode_lowercase(
                name,
            ) && pairs[i].1 == v,
        lookup_ci(pairs, name) is None <==> forall|i: int|
            0 <= i < pairs.len() ==> unicode_lowercase(#[trigger] pairs[i].0)
                != unicode_lowercase(name),
    decreases pairs.len(),
{
    if pairs.len() > 0 {
        let rest = pairs.drop_first();
        lemma_lookup_ci_pairs(rest, name);
        if unicode_lowercase(pairs[0].0) != unicode_lowercase(name) {
            if lookup_ci(rest, name) is Some {
                let i = choose|i: int|
                    0 <= i < rest.len() && unicode_lowercase(#[trigger] rest[i].0)
                        == unicode_lowercase(name) && rest[i].1 == lookup_ci(rest, name)->0;
                assert(pairs[i + 1] == rest[i]);
            } else {
                assert forall|i: int| 0 <= i < pairs.len() implies unicode_lowercase(
                    #[trigger] pairs[i].0,
                ) != unicode_lowercase(name) by {
                    if i > 0 {
                        assert(pairs[i] == rest[i - 1]);
                    }
                }
            }
        }
    }
}

/// Over a map's view: `lookup_ci` on its pairs finds a value exactly when some key has the
/// lowercase form of `name`, and the value found is the map's value of such a key.
pub proof fn lemma_lookup_ci_view(m: StrMap<String>, name: Seq<char>)
    requires
        m.wf(),
    ensures
        lookup_ci(m.pairs(), name) matches Some(v) ==> exists|k: Seq<char>|
            #[trigger] m@.dom().contains(k) && unicode_lowercase(k) == unicode_lowercase(name)
                && m@[k] == v,
        lookup_ci(m.pairs(), name) is None <==> !exists|k: Seq<char>|
            #[trigger] m@.dom().contains(k) && unicode_lowercase(k) == unicode_lowercase(name),
{
    m.lemma_shape();
    lemma_lookup_ci_pairs(m.pairs(), name);
    let ps = m.pairs();
    let ks = m.keys_seq();
    if lookup_ci(ps, name) is Some {
        let i = choose|i: int|
            0 <= i < ps.len() && unicode_lowercase(#[trigger] ps[i].0) == unicode_lowercase(name)
                && ps[i].1 == lookup_ci(ps, name)->0;
        assert(ps[i].0 == ks[i]);
        assert(ks.to_set().contains(ks[i]));
        assert(m@.dom().contains(ks[i]));
    } else {
        assert forall|k: Seq<char>| #[trigger] m@.dom().contains(k) implies unicode_lowercase(k)
            != unicode_lowercase(name) by {
            assert(ks.to_set().contains(k));
            let j = ks.index_of(k);
            assert(ps[j].0 == ks[j]);
        }
    }
}

/// The value of the first header whose name matches `name` case-insensitively.
pub fn header_ci<'a>(headers: &'a StrMap<String>, name: &str) -> (r: Option<&'a String>)
    ensures
        r matches Some(v) ==> lookup_ci(headers.pairs(), name@) == Some(*v),
        r is None ==> lookup_ci(headers.pairs(), name@) is None,
{
    let n = headers.len();
    let name_lower = to_lowercase(name);
    let ghost ps = headers.pairs();
    let mut i: usize = 0;
    assert(ps.skip(0) =~= ps);
    while i < n
        invariant
            n == ps.len(),
            ps == headers.pairs(),
            i <= n,
            name_lower@ == unicode_lowercase(name@),
            lookup_ci(ps, name@) == lookup_ci(ps.skip(i as int), name@),
        decreases n - i,
    {
        let k = headers.key_at(i);
        let kl = to_lowercase(k.as_str());
        assert(ps.skip(i as int)[0] == ps[i as int]);
        assert(ps.skip(i as int).drop_first() =~= ps.skip(i + 1));
        if str_eq(kl.as_str(), name_lower.as_str()) {
            return Some(headers.value_at(i));
        }
        i = i + 1;
    }
    None
}

/// HTTP request/response context for middleware processing.
pub struct HttpContext {
    /// HTTP method (GET, POST, etc.)
    pub method: String,
    /// Request URL/path
    pub url: String,
    /// Request headers
    pub headers: StrMap<String>,
    /// Request body
    pub body: Option<Vec<u8>>,
    /// Response status code (set by handler or middleware)
    pub status: Option<u16>,
    /// Response headers (set by handler or middleware)
    pub response_headers: StrMap<String>,
    /// Response body (set by handler or middleware)
    pub response_body: Option<Vec<u8>>,
    /// Client IP address (if available)
    pub client_ip: Option<String>,
    /// Whether this is a preflight request (OPTIONS)
    pub is_preflight: bool,
    /// Custom metadata for extensions
    pub metadata: StrMap<String>,
}

/// Whether a method names a preflight request: its uppercase form is `OPTIONS`.
pub open spec fn is_preflight_method(method: Seq<char>) -> bool {
    unicode_uppercase(method) == "OPTIONS"@
}

fn preflight_method(method: &String) -> (b: bool)
    ensures
        b == is_preflight_method(method@),
{
    let upper = to_uppercase(method.as_str());
    str_eq(upper.as_str(), "OPTIONS")
}

impl HttpContext {
    /// Creates a context for `method` and `url`, without headers, body or response.
    pub fn new(method: String, url: String) -> (c: Self)
        ensures
            c.method == method,
            c.url == url,
            c.headers@ == Map::<Seq<char>, String>::empty(),
            c.headers.pairs().len() == 0,
            c.body is None,
            c.status is None,
            c.response_headers@ == Map::<Seq<char>, String>::empty(),
            c.response_body is None,
            c.client_ip is None,
            c.is_preflight == is_preflight_method(method@),
            c.metadata@ == Map::<Seq<char>, String>::empty(),
    {
        let is_preflight = preflight_method(&method);
        HttpContext {
            method,
            url,
            headers: StrMap::new(),
            body: None,
            status: None,
            response_headers: StrMap::new(),
            response_body: None,
            client_ip: None,
            is_preflight,
            metadata: StrMap::new(),
        }
    }

    /// Creates a context from a method and request headers, with an empty url.
    pub fn from_headers(method: String, headers: StrMap<String>) -> (c: Self)
        ensures
            c.method == method,
            c.url@ == Seq::<char>::empty(),
            c.headers == headers,
            c.body is None,
            c.status is None,
            c.response_headers@ == Map::<Seq<char>, String>::empty(),
            c.response_body is None,
            c.client_ip is None,
            c.is_preflight == is_preflight_method(method@),
            c.metadata@ == Map::<Seq<char>, String>::empty(),
    {
        let is_preflight = preflight_method(&method);
        HttpContext {
            method,
            url: String::new(),
            headers,
            body: None,
            status: None,
            response_headers: StrMap::new(),
            response_body: None,
            client_ip: None,
            is_preflight,
            metadata: StrMap::new(),
        }
    }

    /// Adds a request header.
    pub fn with_header(self, key: String, value: String) -> (c: Self)
        ensures
            c.headers@ == self.headers@.insert(key@, value),
            c.method == self.method && c.url == self.url && c.body == self.body && c.status
                == self.status && c.response_headers == self.response_headers && c.response_body
                == self.response_body && c.client_ip == self.client_ip && c.is_preflight
                == self.is_preflight && c.metadata == self.metadata,
    {
        let mut c = self;
        c.headers.insert(key, value);
        c
    }

    /// Sets the client IP.
    pub fn with_client_ip(self, ip: String) -> (c: Self)
        ensures
            c == (HttpContext { client_ip: Some(ip), ..self }),
    {
        let mut c = self;
        c.client_ip = Some(ip);
        c
    }

    /// Sets the request body.
    pub fn with_body(self, body: Vec<u8>) -> (c: Self)
        ensures
            c == (HttpContext { body: Some(body), ..self }),
    {
        let mut c = self;
        c.body = Some(body);
        c
    }

    /// Sets the url.
    pub fn with_url(self, url: String) -> (c: Self)
        ensures
            c == (HttpContext { url: url, ..self }),
    {
        let mut c = self;
        c.url = url;
        c
    }

    /// The value of the first request header whose name matches `name` case-insensitively.
    pub fn get_header(&self, name: &str) -> (r: Option<&String>)
        ensures
            r matches Some(v) ==> lookup_ci(self.headers.pairs(), name@) == Some(*v),
            r is None ==> lookup_ci(self.headers.pairs(), name@) is None,
            r matches Some(v) ==> exists|k: Seq<char>|
                #[trigger] self.headers@.dom().contains(k) && unicode_lowercase(k)
                    == unicode_lowercase(name@) && self.headers@[k] == *v,
            r is None <==> !exists|k: Seq<char>|
                #[trigger] self.headers@.dom().contains(k) && unicode_lowercase(k)
                    == unicode_lowercase(name@),
    {
        proof {
            use_type_invariant(&self.headers);
            lemma_lookup_ci_view(self.headers, name@);
        }
        header_ci(&self.headers, name)
    }

    /// Sets a response header.
    pub fn set_response_header(&mut self, name: String, value: String)
        ensures
            final(self).response_headers@ == old(self).response_headers@.insert(name@, value),
            *final(self) == (HttpContext { response_headers: final(self).response_headers, ..*old(self) }),
    {
        self.response_headers.insert(name, value);
    }

    /// Adds a response header.
    pub fn add_response_header(&mut self, key: String, value: String)
        ensures
            final(self).response_headers@ == old(self).response_headers@.insert(key@, value),
            *final(self) == (HttpContext { response_headers: final(self).response_headers, ..*old(self) }),
    {
        self.response_headers.insert(key, value);
    }

    /// Sets the response status and body.
    pub fn set_response(&mut self, status: u16, body: Vec<u8>)
        ensures
            *final(self) == (HttpContext { status: Some(status), response_body: Some(body), ..*old(self) }),
    {
        self.status = Some(status);
        self.response_body = Some(body);
    }

    /// Whether a response status has been set.
    pub fn has_response(&self) -> (b: bool)
        ensures
            b == self.status is Some,
    {
        self.status.is_some()
    }
}

} // verus!
