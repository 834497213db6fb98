//! Observability: log levels and an in-memory log, counters, timed spans and trace contexts
//! for distributed tracing.
use vstd::prelude::*;
use std::time::Instant;
use crate::clock::instant_now;
use crate::ids::{is_uuid_v4_text, new_uuid_v4};
use crate::strmap::StrMap;
use crate::text::owned;

pub use tracing::Level as TracingLevel;

verus! {

/// Log level, from the most verbose to the most severe.
#[derive(Debug, Clone, Copy, PartialEq, Eq, PartialOrd, Ord)]
pub enum Level {
    /// Trace level (most verbose).
    Trace,
    /// Debug level.
    Debug,
    /// Info level.
    Info,
    /// Warning level.
    Warn,
    /// Error level.
    Error,
}

/// Logger that writes through the `tracing` crate.
#[derive(Debug, Default)]
pub struct TracingLogger;

impl TracingLogger {
    /// A tracing logger.
    pub fn new() -> (l: Self) {
        TracingLogger
    }
}

/// One logged entry: its level, message and rendered fields.
pub struct LogEntry {
    pub level: Level,
    pub message: String,
    pub fields: StrMap<String>,
}

/// In-memory logger, for tests: keeps every entry in order.
pub struct InMemoryLogger {
    logs: Vec<LogEntry>,
}

/// The level and message of each entry.
pub open spec fn entry_views(logs: Seq<LogEntry>) -> Seq<(Level, Seq<char>)> {
    logs.map_values(|e: LogEntry| (e.level, e.message@))
}

impl InMemoryLogger {
    /// The entries logged, in order.
    pub closed spec fn view(&self) -> Seq<LogEntry> {
        self.logs@
    }

    /// An empty log.
    pub fn new() -> (l: Self)
        ensures
            l@ == Seq::<LogEntry>::empty(),
    {
        InMemoryLogger { logs: Vec::new() }
    }

    /// Records an entry with `message` and the fields, each rendered as text; a key given
    /// twice keeps its last value.
    pub fn log(&mut self, level: Level, message: &str, fields: Vec<(String, String)>)
        ensures
            final(self)@.len() == old(self)@.len() + 1,
            final(self)@.drop_last() == old(self)@,
            final(self)@.last().level == level,
            final(self)@.last().message@ == message@,
            final(self)@.last().fields@.dom() == fields@.map_values(|f: (String, String)| f.0@).to_set(),
    {
        let mut map: StrMap<String> = StrMap::new();
        let mut i: usize = 0;
        while i < fields.len()
            invariant
                i <= fields@.len(),
                map@.dom() == fields@.take(i as int).map_values(|f: (String, String)| f.0@).to_set(),
            decreases fields@.len() - i,
        {
            let k = owned(fields[i].0.as_str());
            let v = owned(fields[i].1.as_str());
            map.insert(k, v);
            proof {
                fields@.take(i as int).map_values(|f: (String, String)| f.0@).lemma_push_to_set_commute(
                    fields@[i as int].0@,
                );
                assert(fields@.take(i + 1).map_values(|f: (String, String)| f.0@) =~= fields@.take(
                    i as int,
                ).map_values(|f: (String, String)| f.0@).push(fields@[i as int].0@));
            }
            i = i + 1;
        }
        assert(fields@.take(i as int) =~= fields@);
        let ghost before = self.logs@;
        self.logs.push(LogEntry { level, message: owned(message), fields: map });
        assert(self.logs@.drop_last() =~= before);
    }

    /// The level and message of each entry, in order.
    pub fn entries(&self) -> (r: Vec<(Level, String)>)
        ensures
            r@.map_values(|e: (Level, String)| (e.0, e.1@)) == entry_views(self@),
    {
        let mut r: Vec<(Level, String)> = Vec::new();
        let mut i: usize = 0;
        while i < self.logs.len()
            invariant
                i <= self.logs@.len(),
                r@.map_values(|e: (Level, String)| (e.0, e.1@)) == entry_views(self.logs@).take(
                    i as int,
                ),
            decreases self.logs@.len() - i,
        {
            let e = &self.logs[i];
            let m = owned(e.message.as_str());
            let ghost prev = r@;
            r.push((e.level, m));
            assert(r@.map_values(|e: (Level, String)| (e.0, e.1@)) =~= prev.map_values(
                |e: (Level, String)| (e.0, e.1@),
            ).push((e.level, m@)));
            assert(entry_views(self.logs@).take(i + 1) =~= entry_views(self.logs@).take(
                i as int,
            ).push((e.level, e.message@)));
            i = i + 1;
        }
        assert(entry_views(self.logs@).take(i as int) =~= entry_views(self.logs@));
        r
    }

    /// Removes every entry.
    pub fn clear(&mut self)
        ensures
            final(self)@ == Seq::<LogEntry>::empty(),
    {
        self.logs = Vec::new();
    }
}

/// A counter metric that only increases.
pub trait Counter {
    /// Increments the counter by 1.
    fn inc(&mut self);

    /// Increments the counter by `value`.
    fn add(&mut self, value: u64);

    /// The current value.
    fn get(&self) -> u64;
}

/// In-memory counter; it wraps around past `u64::MAX`, as an atomic add does.
#[derive(Debug, Default)]
pub struct InMemoryCounter {
    value: u64,
}

impl InMemoryCounter {
    /// The counter's value.
    pub closed spec fn view(&self) -> u64 {
        self.value
    }

    /// A counter at zero.
    pub fn new() -> (c: Self)
        ensures
            c@ == 0,
    {
        InMemoryCounter { value: 0 }
    }
}

impl Counter for InMemoryCounter {
    fn inc(&mut self)
        ensures
            final(self)@ == vstd::wrapping::u64_specs::wrapping_add(old(self)@, 1),
    {
        self.value = self.value.wrapping_add(1);
    }

    fn add(&mut self, value: u64)
        ensures
            final(self)@ == vstd::wrapping::u64_specs::wrapping_add(old(self)@, value),
    {
        self.value = self.value.wrapping_add(value);
    }

    fn get(&self) -> (v: u64)
        ensures
            v == self@,
    {
        self.value
    }
}

/// In-memory metrics collector; it keeps no state of its own.
#[derive(Debug, Default)]
pub struct InMemoryMetrics {}

impl InMemoryMetrics {
    /// A metrics collector.
    pub fn new() -> (m: Self) {
        InMemoryMetrics {  }
    }
}

/// `Instant::elapsed`: the time since `start`. Nothing is stated of it: it reads the
/// machine's clock.
#[verifier::external_body]
fn elapsed_since(start: &Instant) -> std::time::Duration {
    start.elapsed()
}

/// A timed span: a named unit of work, its fields, and when it started.
#[derive(Debug)]
pub struct TimedSpan {
    name: String,
    start: Instant,
    fields: Vec<(String, String)>,
}

impl TimedSpan {
    /// The span's name.
    pub closed spec fn name_view(&self) -> Seq<char> {
        self.name@
    }

    /// The span's fields, in the order added.
    pub closed spec fn fields_view(&self) -> Seq<(Seq<char>, Seq<char>)> {
        self.fields@.map_values(|f: (String, String)| (f.0@, f.1@))
    }

    /// A span named `name` starting now, without fields.
    pub fn new(name: &str) -> (s: Self)
        ensures
            s.name_view() == name@,
            s.fields_view() == Seq::<(Seq<char>, Seq<char>)>::empty(),
    {
        let s = TimedSpan { name: owned(name), start: instant_now(), fields: Vec::new() };
        assert(s.fields_view() =~= Seq::<(Seq<char>, Seq<char>)>::empty());
        s
    }

    /// Adds a field.
    pub fn field(self, key: &str, value: &str) -> (s: Self)
        ensures
            s.name_view() == self.name_view(),
            s.fields_view() == self.fields_view().push((key@, value@)),
    {
        let mut s = self;
        s.fields.push((owned(key), owned(value)));
        assert(s.fields_view() =~= self.fields_view().push((key@, value@)));
        s
    }

    /// The span's name.
    pub fn name(&self) -> (n: &str)
        ensures
            n@ == self.name_view(),
    {
        self.name.as_str()
    }

    /// The span's fields, in the order added.
    pub fn fields(&self) -> (f: &Vec<(String, String)>)
        ensures
            f@.map_values(|f: (String, String)| (f.0@, f.1@)) == self.fields_view(),
    {
        &self.fields
    }

    /// Completes the span: the time since it started.
    pub fn finish(self) -> std::time::Duration {
        elapsed_since(&self.start)
    }
}

/// Trace context for distributed tracing.
#[derive(Debug, Clone)]
pub struct TraceContext {
    /// Trace ID.
    pub trace_id: String,
    /// Span ID.
    pub span_id: String,
    /// Parent span ID, if any.
    pub parent_span_id: Option<String>,
}

impl TraceContext {
    /// A root context: a new trace with a new span and no parent.
    pub fn new() -> (c: Self)
        ensures
            is_uuid_v4_text(c.trace_id@),
            is_uuid_v4_text(c.span_id@),
            c.parent_span_id is None,
    {
        TraceContext { trace_id: new_uuid_v4(), span_id: new_uuid_v4(), parent_span_id: None }
    }

    /// A child context: the same trace, a new span, and this span as its parent.
    pub fn child(&self) -> (c: Self)
        ensures
            c.trace_id@ == self.trace_id@,
            is_uuid_v4_text(c.span_id@),
            c.parent_span_id matches Some(p) && p@ == self.span_id@,
    {
        TraceContext {
            trace_id: owned(self.trace_id.as_str()),
            span_id: new_uuid_v4(),
            parent_span_id: Some(owned(self.span_id.as_str())),
        }
    }
}

impl Default for TraceContext {
    fn default() -> (c: Self)
        ensures
            is_uuid_v4_text(c.trace_id@),
            is_uuid_v4_text(c.span_id@),
            c.parent_span_id is None,
    {
        Self::new()
    }
}

} // verus!
