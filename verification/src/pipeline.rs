//! Middleware pipelines: the ordered list of middleware a request passes through, and the
//! built-in middleware with the lines they log.
//!
//! The middleware run in the order they were added; each hands the request to the next and
//! sees its result on the way back.
use vstd::prelude::*;
use crate::http_context::MiddlewareError;
use crate::text::{owned, push_str};

verus! {

/// A middleware pipeline: middleware in the order they run.
pub struct Pipeline<M> {
    middleware: Vec<M>,
}

impl<M> Pipeline<M> {
    /// The middleware, in the order they run.
    pub closed spec fn view(&self) -> Seq<M> {
        self.middleware@
    }

    /// An empty pipeline.
    pub fn new() -> (p: Self)
        ensures
            p@ == Seq::<M>::empty(),
    {
        Pipeline { middleware: Vec::new() }
    }

    /// Adds middleware at the end of the pipeline.
    pub fn with_middleware(self, middleware: M) -> (p: Self)
        ensures
            p@ == self@.push(middleware),
    {
        let mut p = self;
        p.middleware.push(middleware);
        p
    }

    /// The number of middleware.
    pub fn len(&self) -> (n: usize)
        ensures
            n == self@.len(),
    {
        self.middleware.len()
    }

    /// The middleware at `index` in running order, if there is one.
    pub fn get(&self, index: usize) -> (m: Option<&M>)
        ensures
            index < self@.len() ==> m == Some(&self@[index as int]),
            index >= self@.len() ==> m is None,
    {
        if index < self.middleware.len() {
            Some(&self.middleware[index])
        } else {
            None
        }
    }
}

impl<M> Default for Pipeline<M> {
    fn default() -> (p: Self)
        ensures
            p@ == Seq::<M>::empty(),
    {
        Self::new()
    }
}

/// Middleware that always passes the request on.
pub struct PassthroughMiddleware;

/// Middleware from a function of the request and the rest of the pipeline.
pub struct FnMiddleware<F> {
    func: F,
}

impl<F> FnMiddleware<F> {
    /// The function run.
    pub closed spec fn view(&self) -> F {
        self.func
    }

    /// Middleware that runs `func`.
    pub fn new(func: F) -> (m: Self)
        ensures
            m@ == func,
    {
        FnMiddleware { func }
    }

    /// The function run.
    pub fn func(&self) -> (f: &F)
        ensures
            *f == self@,
    {
        &self.func
    }
}

/// `[name] ` followed by `text`.
pub open spec fn tagged(name: Seq<char>, text: Seq<char>) -> Seq<char> {
    "["@ + name + "] "@ + text
}

fn tagged_line(name: &str, text: &str) -> (s: String)
    ensures
        s@ == tagged(name@, text@),
{
    let mut s = owned("[");
    push_str(&mut s, name);
    push_str(&mut s, "] ");
    push_str(&mut s, text);
    s
}

/// Middleware that logs each request and its outcome.
pub struct LoggingMiddleware {
    name: String,
}

impl LoggingMiddleware {
    /// The name shown in its log lines.
    pub closed spec fn name_view(&self) -> Seq<char> {
        self.name@
    }

    /// A logging middleware named `name`.
    pub fn new(name: &str) -> (m: Self)
        ensures
            m.name_view() == name@,
    {
        LoggingMiddleware { name: owned(name) }
    }

    /// The line logged before the request goes on, `request` being its rendering.
    pub fn request_line(&self, request: &str) -> (s: String)
        ensures
            s@ == tagged(self.name_view(), "Processing request: "@ + request@),
    {
        let mut t = owned("Processing request: ");
        push_str(&mut t, request);
        tagged_line(self.name.as_str(), t.as_str())
    }

    /// The line logged after the request succeeded.
    pub fn success_line(&self) -> (s: String)
        ensures
            s@ == tagged(self.name_view(), "Request successful"@),
    {
        tagged_line(self.name.as_str(), "Request successful")
    }

    /// The line logged after the request failed with `error`.
    pub fn failure_line(&self, error: &MiddlewareError) -> (s: String)
        ensures
            s@ == tagged(self.name_view(), "Request failed: "@ + error.message_spec()),
    {
        let mut t = owned("Request failed: ");
        let m = error.message();
        push_str(&mut t, m.as_str());
        tagged_line(self.name.as_str(), t.as_str())
    }

    /// The name shown in its log lines.
    pub fn name(&self) -> (n: &str)
        ensures
            n@ == self.name_view(),
    {
        self.name.as_str()
    }
}

/// Middleware that measures how long the rest of the pipeline takes.
pub struct TimingMiddleware {
    name: String,
}

impl TimingMiddleware {
    /// The name shown in its log lines.
    pub closed spec fn name_view(&self) -> Seq<char> {
        self.name@
    }

    /// A timing middleware named `name`.
    pub fn new(name: &str) -> (m: Self)
        ensures
            m.name_view() == name@,
    {
        TimingMiddleware { name: owned(name) }
    }

    /// The line logged with the time taken, `duration` being its rendering.
    pub fn timing_line(&self, duration: &str) -> (s: String)
        ensures
            s@ == tagged(self.name_view(), "Execution time: "@ + duration@),
    {
        let mut t = owned("Execution time: ");
        push_str(&mut t, duration);
        tagged_line(self.name.as_str(), t.as_str())
    }
}

/// Middleware that traces each request's start and outcome.
pub struct MetricsMiddleware {
    name: String,
}

impl MetricsMiddleware {
    /// The name shown in its log lines.
    pub closed spec fn name_view(&self) -> Seq<char> {
        self.name@
    }

    /// A metrics middleware named `name`.
    pub fn new(name: &str) -> (m: Self)
        ensures
            m.name_view() == name@,
    {
        MetricsMiddleware { name: owned(name) }
    }

    /// The line traced when a request starts.
    pub fn start_line(&self) -> (s: String)
        ensures
            s@ == tagged(self.name_view(), "Request started"@),
    {
        tagged_line(self.name.as_str(), "Request started")
    }

    /// The line traced when a request ends, successfully or not.
    pub fn outcome_line(&self, success: bool) -> (s: String)
        ensures
            s@ == tagged(
                self.name_view(),
                if success {
                    "Request completed successfully"@
                } else {
                    "Request failed"@
                },
            ),
    {
        if success {
            tagged_line(self.name.as_str(), "Request completed successfully")
        } else {
            tagged_line(self.name.as_str(), "Request failed")
        }
    }
}

} // verus!
