//! Points in time and spans between them, as plain numbers of nanoseconds.
use vstd::prelude::*;

verus! {

/// The operating system's monotonic clock reading, opaque here.
#[verifier::external_type_specification]
#[verifier::external_body]
pub struct ExSystemInstant(std::time::Instant);

pub const NANOS_PER_SEC: u128 = 1_000_000_000;

pub const NANOS_PER_MILLI: u128 = 1_000_000;

/// A span of time.
#[derive(Clone, Copy, PartialEq, Eq, Debug, Structural)]
pub struct Duration {
    pub nanos: u128,
}

/// A point in time: nanoseconds since the clock that gave it was started.
#[derive(Clone, Copy, PartialEq, Eq, Debug, Structural)]
pub struct Instant {
    pub nanos: u64,
}

impl View for Instant {
    type V = Instant;

    open spec fn view(&self) -> Instant {
        *self
    }
}

impl Duration {
    /// A span of `secs` whole seconds.
    pub fn from_secs(secs: u64) -> (r: Duration)
        ensures
            r.nanos == secs * NANOS_PER_SEC,
    {
        Duration { nanos: secs as u128 * NANOS_PER_SEC }
    }

    /// A span of `millis` milliseconds.
    pub fn from_millis(millis: u64) -> (r: Duration)
        ensures
            r.nanos == millis * NANOS_PER_MILLI,
    {
        Duration { nanos: millis as u128 * NANOS_PER_MILLI }
    }
}

/// The nanoseconds from `then` to `now`; none when `then` is the later one.
pub open spec fn elapsed(now: Instant, then: Instant) -> nat {
    if now.nanos >= then.nanos {
        (now.nanos - then.nanos) as nat
    } else {
        0
    }
}

/// The whole seconds from `then` to `now`.
pub open spec fn elapsed_secs(now: Instant, then: Instant) -> nat {
    elapsed(now, then) / 1_000_000_000
}

impl Instant {
    /// The time that has passed since `earlier`, zero when it lies ahead.
    pub fn duration_since(&self, earlier: Instant) -> (r: Duration)
        ensures
            r.nanos == elapsed(*self, earlier),
    {
        if self.nanos >= earlier.nanos {
            Duration { nanos: (self.nanos - earlier.nanos) as u128 }
        } else {
            Duration { nanos: 0 }
        }
    }

    /// The whole seconds that have passed since `earlier`.
    pub fn secs_since(&self, earlier: Instant) -> (r: u64)
        ensures
            r == elapsed_secs(*self, earlier),
    {
        if self.nanos >= earlier.nanos {
            (self.nanos - earlier.nanos) / 1_000_000_000
        } else {
            0
        }
    }

    /// Whether at least `span` has passed since `earlier`.
    pub fn is_past(&self, earlier: Instant, span: Duration) -> (r: bool)
        ensures
            r == (elapsed(*self, earlier) >= span.nanos),
    {
        self.duration_since(earlier).nanos >= span.nanos
    }
}

impl std::ops::Add<Duration> for Instant {
    type Output = Instant;

    fn add(self, span: Duration) -> (r: Instant) {
        Instant { nanos: self.nanos + span.nanos as u64 }
    }
}

impl vstd::std_specs::ops::AddSpecImpl<Duration> for Instant {
    open spec fn obeys_add_spec() -> bool {
        true
    }

    open spec fn add_req(self, span: Duration) -> bool {
        self.nanos + span.nanos <= u64::MAX
    }

    open spec fn add_spec(self, span: Duration) -> Instant {
        Instant { nanos: (self.nanos + span.nanos) as u64 }
    }
}

/// A running clock, which counts from the moment it was started.
pub struct Clock {
    origin: std::time::Instant,
}

/// Reads the system's monotonic clock (`std::time::Instant::now`). Nothing is
/// promised of the reading.
#[verifier::external_body]
fn read_system_clock() -> (r: std::time::Instant) {
    std::time::Instant::now()
}

/// The nanoseconds since `origin` (`std::time::Instant::elapsed`), cut off at
/// the largest count. Nothing is promised of the number.
#[verifier::external_body]
fn nanos_since(origin: &std::time::Instant) -> (r: u64) {
    u64::try_from(origin.elapsed().as_nanos()).unwrap_or(u64::MAX)
}

impl Clock {
    /// Starts a clock.
    pub fn start() -> (r: Clock) {
        Clock { origin: read_system_clock() }
    }

    /// What the clock shows.
    pub fn now(&self) -> (r: Instant) {
        Instant { nanos: nanos_since(&self.origin) }
    }
}

} // verus!
