//! Security auditing: security events and an audit log that keeps the most recent ones.
use vstd::prelude::*;
use vstd::std_specs::cmp::PartialEqSpecImpl;
use crate::clock::unix_time_millis;
use crate::json::json_null;
use crate::security::SecurityResult;
use crate::text::{owned, str_eq};

verus! {

/// Security event types.
#[derive(Debug)]
pub enum EventType {
    Login,
    Logout,
    LoginFailed,
    PermissionGranted,
    PermissionDenied,
    DataRead,
    DataWrite,
    DataDelete,
    UserCreated,
    UserDeleted,
    RoleChanged,
    SecurityViolation,
    SuspiciousActivity,
    /// Custom event
    Custom(String),
}

/// An event type as plain values: the variant's position, and a custom event's name.
pub open spec fn event_type_view(t: EventType) -> (nat, Seq<char>) {
    match t {
        EventType::Login => (0, seq![]),
        EventType::Logout => (1, seq![]),
        EventType::LoginFailed => (2, seq![]),
        EventType::PermissionGranted => (3, seq![]),
        EventType::PermissionDenied => (4, seq![]),
        EventType::DataRead => (5, seq![]),
        EventType::DataWrite => (6, seq![]),
        EventType::DataDelete => (7, seq![]),
        EventType::UserCreated => (8, seq![]),
        EventType::UserDeleted => (9, seq![]),
        EventType::RoleChanged => (10, seq![]),
        EventType::SecurityViolation => (11, seq![]),
        EventType::SuspiciousActivity => (12, seq![]),
        EventType::Custom(s) => (13, s@),
    }
}

impl EventType {
    /// Whether two event types are the same: the same variant, and for custom events the
    /// same name.
    pub fn same_as(&self, other: &EventType) -> (b: bool)
        ensures
            b == (event_type_view(*self) == event_type_view(*other)),
    {
        match (self, other) {
            (EventType::Custom(a), EventType::Custom(b)) => str_eq(a.as_str(), b.as_str()),
            (EventType::Login, EventType::Login) => true,
            (EventType::Logout, EventType::Logout) => true,
            (EventType::LoginFailed, EventType::LoginFailed) => true,
            (EventType::PermissionGranted, EventType::PermissionGranted) => true,
            (EventType::PermissionDenied, EventType::PermissionDenied) => true,
            (EventType::DataRead, EventType::DataRead) => true,
            (EventType::DataWrite, EventType::DataWrite) => true,
            (EventType::DataDelete, EventType::DataDelete) => true,
            (EventType::UserCreated, EventType::UserCreated) => true,
            (EventType::UserDeleted, EventType::UserDeleted) => true,
            (EventType::RoleChanged, EventType::RoleChanged) => true,
            (EventType::SecurityViolation, EventType::SecurityViolation) => true,
            (EventType::SuspiciousActivity, EventType::SuspiciousActivity) => true,
            _ => false,
        }
    }

    /// The event type of a login attempt.
    pub fn for_login(success: bool) -> (t: EventType)
        ensures
            t == (if success { EventType::Login } else { EventType::LoginFailed }),
    {
        if success {
            EventType::Login
        } else {
            EventType::LoginFailed
        }
    }

    /// The event type of a permission check.
    pub fn for_permission(granted: bool) -> (t: EventType)
        ensures
            t == (if granted { EventType::PermissionGranted } else { EventType::PermissionDenied }),
    {
        if granted {
            EventType::PermissionGranted
        } else {
            EventType::PermissionDenied
        }
    }
}

impl Clone for EventType {
    fn clone(&self) -> (t: Self)
        ensures
            t == *self,
    {
        match self {
            EventType::Login => EventType::Login,
            EventType::Logout => EventType::Logout,
            EventType::LoginFailed => EventType::LoginFailed,
            EventType::PermissionGranted => EventType::PermissionGranted,
            EventType::PermissionDenied => EventType::PermissionDenied,
            EventType::DataRead => EventType::DataRead,
            EventType::DataWrite => EventType::DataWrite,
            EventType::DataDelete => EventType::DataDelete,
            EventType::UserCreated => EventType::UserCreated,
            EventType::UserDeleted => EventType::UserDeleted,
            EventType::RoleChanged => EventType::RoleChanged,
            EventType::SecurityViolation => EventType::SecurityViolation,
            EventType::SuspiciousActivity => EventType::SuspiciousActivity,
            EventType::Custom(s) => EventType::Custom(s.clone()),
        }
    }
}

impl PartialEq for EventType {
    fn eq(&self, other: &Self) -> (b: bool) {
        self.same_as(other)
    }
}

impl PartialEqSpecImpl for EventType {
    open spec fn obeys_eq_spec() -> bool {
        true
    }

    open spec fn eq_spec(&self, other: &Self) -> bool {
        event_type_view(*self) == event_type_view(*other)
    }
}

/// Event severity levels, from the least to the most severe.
#[derive(Debug, Clone, Copy, PartialEq, Eq, PartialOrd, Ord)]
pub enum Severity {
    Info,
    Warning,
    Error,
    Critical,
}

/// The rank of a severity: `Info` 0 up to `Critical` 3, the order of `<` on severities.
pub open spec fn severity_rank(s: Severity) -> nat {
    match s {
        Severity::Info => 0,
        Severity::Warning => 1,
        Severity::Error => 2,
        Severity::Critical => 3,
    }
}

/// Severities are ordered as they are declared, `Info < Warning < Error < Critical`, and no
/// two of them rank alike; so `at_least` is a total order in which each severity is at
/// least itself and the ones declared before it, and no other.
pub proof fn severity_order(a: Severity, b: Severity)
    ensures
        severity_rank(Severity::Info) < severity_rank(Severity::Warning),
        severity_rank(Severity::Warning) < severity_rank(Severity::Error),
        severity_rank(Severity::Error) < severity_rank(Severity::Critical),
        severity_rank(a) == severity_rank(b) ==> a == b,
        severity_rank(a) >= severity_rank(b) || severity_rank(b) >= severity_rank(a),
{
}

impl Severity {
    /// Whether this severity is at least `min`.
    pub fn at_least(&self, min: &Severity) -> (b: bool)
        ensures
            b == (severity_rank(*self) >= severity_rank(*min)),
    {
        let a: u8 = match self {
            Severity::Info => 0,
            Severity::Warning => 1,
            Severity::Error => 2,
            Severity::Critical => 3,
        };
        let m: u8 = match min {
            Severity::Info => 0,
            Severity::Warning => 1,
            Severity::Error => 2,
            Severity::Critical => 3,
        };
        a >= m
    }
}

/// Security event for auditing.
#[derive(Debug)]
pub struct SecurityEvent {
    /// Event type
    pub event_type: EventType,
    /// Subject (user, system, etc.)
    pub subject: String,
    /// Timestamp (Unix epoch seconds)
    pub timestamp: i64,
    /// Additional metadata
    pub metadata: serde_json::Value,
    /// Event severity
    pub severity: Severity,
    /// Resource affected (optional)
    pub resource: Option<String>,
}

/// The seconds since the Unix epoch of a clock reading in milliseconds; 0 when the clock
/// could not be read.
pub open spec fn timestamp_of(reading: Result<u128, String>) -> i64 {
    match reading {
        Ok(ms) => (ms / 1000) as i64,
        Err(_) => 0,
    }
}

/// Two events agree on everything but their metadata.
pub open spec fn same_event(a: SecurityEvent, b: SecurityEvent) -> bool {
    &&& a.event_type == b.event_type
    &&& a.subject == b.subject
    &&& a.timestamp == b.timestamp
    &&& a.severity == b.severity
    &&& a.resource == b.resource
}

impl SecurityEvent {
    /// An event of `event_type` for `subject` at the clock reading `now` (milliseconds since
    /// the Unix epoch, or the clock's error), of `Info` severity, with `null` metadata and
    /// no resource.
    pub fn new_at(event_type: EventType, subject: &str, now: Result<u128, String>) -> (e: Self)
        ensures
            e.event_type == event_type,
            e.subject@ == subject@,
            e.timestamp == timestamp_of(now),
            e.severity == Severity::Info,
            e.resource is None,
    {
        let timestamp: i64 = match now {
            Ok(ms) => (ms / 1000) as i64,
            Err(_) => 0,
        };
        SecurityEvent {
            event_type,
            subject: owned(subject),
            timestamp,
            metadata: json_null(),
            severity: Severity::Info,
            resource: None,
        }
    }

    /// An event of `event_type` for `subject`, stamped with the current time.
    pub fn new(event_type: EventType, subject: &str) -> (e: Self)
        ensures
            e.event_type == event_type,
            e.subject@ == subject@,
            exists|now: Result<u128, String>| e.timestamp == timestamp_of(now),
            e.severity == Severity::Info,
            e.resource is None,
    {
        let now = unix_time_millis();
        Self::new_at(event_type, subject, now)
    }

    /// Sets the metadata.
    pub fn with_metadata(self, metadata: serde_json::Value) -> (e: Self)
        ensures
            e == (SecurityEvent { metadata, ..self }),
    {
        let mut e = self;
        e.metadata = metadata;
        e
    }

    /// Sets the severity.
    pub fn with_severity(self, severity: Severity) -> (e: Self)
        ensures
            e == (SecurityEvent { severity, ..self }),
    {
        let mut e = self;
        e.severity = severity;
        e
    }

    /// Sets the resource.
    pub fn with_resource(self, resource: &str) -> (e: Self)
        ensures
            e.resource matches Some(r) && r@ == resource@,
            e == (SecurityEvent { resource: e.resource, ..self }),
    {
        let mut e = self;
        e.resource = Some(owned(resource));
        e
    }

    /// A copy of the event; the metadata is cloned.
    pub fn copy(&self) -> (e: Self)
        ensures
            same_event(e, *self),
    {
        SecurityEvent {
            event_type: self.event_type.clone(),
            subject: self.subject.clone(),
            timestamp: self.timestamp,
            metadata: self.metadata.clone(),
            severity: self.severity,
            resource: match &self.resource {
                Some(r) => Some(r.clone()),
                None => None,
            },
        }
    }
}

impl Clone for SecurityEvent {
    fn clone(&self) -> (e: Self)
        ensures
            same_event(e, *self),
    {
        self.copy()
    }
}

/// Whether `r` lists, in order, copies of the events that `pred` keeps.
pub open spec fn copies_of(r: Seq<SecurityEvent>, events: Seq<SecurityEvent>, pred: spec_fn(SecurityEvent) -> bool) -> bool {
    let kept = events.filter(pred);
    &&& r.len() == kept.len()
    &&& forall|i: int| 0 <= i < r.len() ==> same_event(#[trigger] r[i], kept[i])
}

/// The events after logging `event` to a log of at most `max` events: appended, with the
/// oldest removed when there are then more than `max`.
pub open spec fn logged(events: Seq<SecurityEvent>, event: SecurityEvent, max: usize) -> Seq<SecurityEvent> {
    let all = events.push(event);
    if all.len() > max {
        all.drop_first()
    } else {
        all
    }
}

/// Audit logger for storing security events.
pub struct AuditLogger {
    events: Vec<SecurityEvent>,
    max_events: usize,
}

impl AuditLogger {
    /// The events, oldest first.
    pub closed spec fn view(&self) -> Seq<SecurityEvent> {
        self.events@
    }

    /// The most events kept when logging with rotation.
    pub closed spec fn capacity(&self) -> usize {
        self.max_events
    }

    /// An empty log keeping 10000 events.
    pub fn new() -> (l: Self)
        ensures
            l@ == Seq::<SecurityEvent>::empty(),
            l.capacity() == 10000,
    {
        Self::with_capacity(10000)
    }

    /// An empty log keeping `max_events` events.
    pub fn with_capacity(max_events: usize) -> (l: Self)
        ensures
            l@ == Seq::<SecurityEvent>::empty(),
            l.capacity() == max_events,
    {
        AuditLogger { events: Vec::new(), max_events }
    }

    /// Appends an event, without rotation.
    pub fn log_event(&mut self, event: SecurityEvent) -> (r: SecurityResult<()>)
        ensures
            final(self)@ == old(self)@.push(event),
            final(self).capacity() == old(self).capacity(),
            r is Ok,
    {
        self.events.push(event);
        Ok(())
    }

    /// Appends an event, removing the oldest when the log then holds more than its
    /// capacity.
    pub fn log(&mut self, event: SecurityEvent) -> (r: SecurityResult<()>)
        ensures
            final(self)@ == logged(old(self)@, event, old(self).capacity()),
            final(self).capacity() == old(self).capacity(),
            r is Ok,
    {
        let ghost all = self.events@.push(event);
        self.events.push(event);
        if self.events.len() > self.max_events {
            self.events.remove(0);
            assert(self.events@ =~= all.drop_first());
        }
        Ok(())
    }

    fn select(&self, kind: &Selection) -> (r: Vec<SecurityEvent>)
        ensures
            copies_of(r@, self@, |e: SecurityEvent| kind.keeps(e)),
    {
        let ghost pred = |e: SecurityEvent| kind.keeps(e);
        let mut r: Vec<SecurityEvent> = Vec::new();
        let mut i: usize = 0;
        while i < self.events.len()
            invariant
                i <= self.events@.len(),
                copies_of(r@, self.events@.take(i as int), pred),
                pred == (|e: SecurityEvent| kind.keeps(e)),
            decreases self.events@.len() - i,
        {
            let e = &self.events[i];
            let keep = kind.test(e);
            let ghost prev = r@;
            let ghost before = self.events@.take(i as int);
            let ghost after = self.events@.take(i + 1);
            proof {
                reveal(Seq::filter);
                assert(after.drop_last() =~= before);
                assert(after.last() == *e);
            }
            if keep {
                r.push(e.copy());
            }
            assert(copies_of(r@, after, pred));
            i = i + 1;
        }
        assert(self.events@.take(i as int) =~= self.events@);
        r
    }

    /// Copies of all events, oldest first.
    pub fn get_events(&self) -> (r: Vec<SecurityEvent>)
        ensures
            r@.len() == self@.len(),
            forall|i: int| 0 <= i < r@.len() ==> same_event(#[trigger] r@[i], self@[i]),
    {
        let mut r: Vec<SecurityEvent> = Vec::new();
        let mut i: usize = 0;
        while i < self.events.len()
            invariant
                i <= self.events@.len(),
                r@.len() == i,
                forall|j: int| 0 <= j < i ==> same_event(#[trigger] r@[j], self.events@[j]),
            decreases self.events@.len() - i,
        {
            r.push(self.events[i].copy());
            i = i + 1;
        }
        r
    }

    /// Copies of the events of `event_type`, oldest first.
    pub fn get_events_by_type(&self, event_type: &EventType) -> (r: Vec<SecurityEvent>)
        ensures
            copies_of(
                r@,
                self@,
                |e: SecurityEvent| event_type_view(e.event_type) == event_type_view(*event_type),
            ),
    {
        let k = Selection::Type(event_type.clone());
        let r = self.select(&k);
        assert((|e: SecurityEvent| k.keeps(e)) =~= (|e: SecurityEvent| event_type_view(e.event_type)
            == event_type_view(*event_type)));
        r
    }

    /// Copies of the events of `subject`, oldest first.
    pub fn get_events_by_subject(&self, subject: &str) -> (r: Vec<SecurityEvent>)
        ensures
            copies_of(r@, self@, |e: SecurityEvent| e.subject@ == subject@),
    {
        let k = Selection::Subject(owned(subject));
        let r = self.select(&k);
        assert((|e: SecurityEvent| k.keeps(e)) =~= (|e: SecurityEvent| e.subject@ == subject@));
        r
    }

    /// Copies of the events of at least `min_severity`, oldest first.
    pub fn get_events_by_severity(&self, min_severity: Severity) -> (r: Vec<SecurityEvent>)
        ensures
            copies_of(
                r@,
                self@,
                |e: SecurityEvent| severity_rank(e.severity) >= severity_rank(min_severity),
            ),
    {
        let k = Selection::Severity(min_severity);
        let r = self.select(&k);
        assert((|e: SecurityEvent| k.keeps(e)) =~= (|e: SecurityEvent| severity_rank(e.severity)
            >= severity_rank(min_severity)));
        r
    }

    /// Copies of the events with `start <= timestamp <= end`, oldest first.
    pub fn get_events_in_range(&self, start: i64, end: i64) -> (r: Vec<SecurityEvent>)
        ensures
            copies_of(r@, self@, |e: SecurityEvent| start <= e.timestamp <= end),
    {
        let k = Selection::Range(start, end);
        let r = self.select(&k);
        assert((|e: SecurityEvent| k.keeps(e)) =~= (|e: SecurityEvent| start <= e.timestamp
            <= end));
        r
    }

    /// The number of events.
    pub fn count(&self) -> (n: usize)
        ensures
            n == self@.len(),
    {
        self.events.len()
    }

    /// Removes every event.
    pub fn clear(&mut self) -> (r: SecurityResult<()>)
        ensures
            final(self)@ == Seq::<SecurityEvent>::empty(),
            final(self).capacity() == old(self).capacity(),
            r is Ok,
    {
        self.events = Vec::new();
        Ok(())
    }
}

impl Default for AuditLogger {
    fn default() -> (l: Self)
        ensures
            l@ == Seq::<SecurityEvent>::empty(),
            l.capacity() == 10000,
    {
        Self::new()
    }
}

/// Which events a query keeps.
enum Selection {
    Type(EventType),
    Subject(String),
    Severity(Severity),
    Range(i64, i64),
}

impl Selection {
    spec fn keeps(&self, e: SecurityEvent) -> bool {
        match self {
            Selection::Type(t) => event_type_view(e.event_type) == event_type_view(*t),
            Selection::Subject(s) => e.subject@ == s@,
            Selection::Severity(m) => severity_rank(e.severity) >= severity_rank(*m),
            Selection::Range(a, b) => *a <= e.timestamp <= *b,
        }
    }

    fn test(&self, e: &SecurityEvent) -> (b: bool)
        ensures
            b == self.keeps(*e),
    {
        match self {
            Selection::Type(t) => e.event_type.same_as(t),
            Selection::Subject(s) => str_eq(e.subject.as_str(), s.as_str()),
            Selection::Severity(m) => e.severity.at_least(m),
            Selection::Range(a, b) => *a <= e.timestamp && e.timestamp <= *b,
        }
    }
}

/// Logging with rotation keeps a log within its capacity, keeps the newest events in
/// their order, and the event just logged is the newest one kept (unless the capacity is
/// zero, when nothing is kept).
pub proof fn log_rotation(events: Seq<SecurityEvent>, event: SecurityEvent, max: usize)
    requires
        events.len() <= max,
    ensures
        logged(events, event, max).len() <= max,
        max > 0 ==> logged(events, event, max).last() == event,
        logged(events, event, max) == events.push(event).skip(
            events.len() + 1 - logged(events, event, max).len(),
        ),
{
    let all = events.push(event);
    if all.len() > max {
        assert(all.drop_first() =~= all.skip(1));
    } else {
        assert(all.skip(0) =~= all);
    }
}

} // verus!
