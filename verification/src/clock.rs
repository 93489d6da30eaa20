//! A monotonic clock that is read as a number of nanoseconds.

use vstd::prelude::*;

verus! {

/// The latest reading, in nanoseconds: the longest span that `Duration` holds.
pub const MAX_READING: u128 = 18_446_744_073_709_551_615_999_999_999;

/// The nanoseconds of a second.
pub const NANOS_PER_SEC: u128 = 1_000_000_000;

/// The nanoseconds of a millisecond.
pub const NANOS_PER_MILLI: u128 = 1_000_000;

/// `std::time::Instant`, a point on the machine's monotonic clock.
#[verifier::external_type_specification]
#[verifier::external_body]
pub struct ExInstant(std::time::Instant);

/// `Instant::now` reads the machine's clock: nothing is claimed of the reading.
pub assume_specification[ std::time::Instant::now ]() -> std::time::Instant
;

/// The span that `Duration::new` makes of whole seconds and nanoseconds.
pub uninterp spec fn span(secs: u64, nanos: u32) -> core::time::Duration;

/// `Duration::new` makes a span of whole seconds and the nanoseconds below a second.
pub assume_specification[ core::time::Duration::new ](secs: u64, nanos: u32) -> (d:
    core::time::Duration)
    requires
        nanos < NANOS_PER_SEC,
    ensures
        d == span(secs, nanos),
;

/// `Duration::as_nanos`: the nanoseconds of a span, from which `Duration::new` makes the same
/// span again. The longest span has the most.
pub assume_specification[ core::time::Duration::as_nanos ](d: &core::time::Duration) -> (nanos: u128)
    ensures
        nanos <= MAX_READING,
        *d == nanos_span(nanos),
;

/// `Instant::elapsed`: the time since a point in time. It depends on when it is asked, and
/// nothing is claimed of it.
pub assume_specification[ std::time::Instant::elapsed ](start: &std::time::Instant) -> std::time::Duration
;

/// A clock that counts from the moment it was started.
#[derive(Debug, Clone, Copy)]
pub struct Clock {
    start: std::time::Instant,
}

impl Clock {
    /// Starts a clock. Its readings depend on the machine alone.
    pub fn start() -> (clock: Clock) {
        Clock { start: std::time::Instant::now() }
    }

    /// The nanoseconds since the clock was started.
    pub fn now(&self) -> (nanos: u128)
        ensures
            nanos <= MAX_READING,
    {
        self.start.elapsed().as_nanos()
    }
}

/// The span of a number of nanoseconds, or the longest span where they are more than it holds.
pub open spec fn nanos_span(nanos: u128) -> core::time::Duration {
    if nanos <= MAX_READING {
        span((nanos / NANOS_PER_SEC) as u64, (nanos % NANOS_PER_SEC) as u32)
    } else {
        span(u64::MAX, 999_999_999)
    }
}

/// The span of a number of milliseconds.
pub open spec fn millis_span(millis: u64) -> core::time::Duration {
    span((millis / 1000) as u64, ((millis % 1000) * 1_000_000) as u32)
}

/// The span of a number of nanoseconds, or the longest span where they are more than it holds.
pub fn from_nanos(nanos: u128) -> (d: std::time::Duration)
    ensures
        d == nanos_span(nanos),
        nanos / 1_000_000_000 <= u64::MAX ==> d == span(
            (nanos / 1_000_000_000) as u64,
            (nanos % 1_000_000_000) as u32,
        ),
        nanos / 1_000_000_000 > u64::MAX ==> d == span(u64::MAX, 999_999_999),
{
    if nanos > MAX_READING {
        return std::time::Duration::new(u64::MAX, 999_999_999);
    }
    std::time::Duration::new((nanos / NANOS_PER_SEC) as u64, (nanos % NANOS_PER_SEC) as u32)
}

/// The span of a number of milliseconds.
pub fn from_millis(millis: u64) -> (d: std::time::Duration)
    ensures
        d == millis_span(millis),
        d == span((millis / 1000) as u64, (millis % 1000 * 1_000_000) as u32),
{
    std::time::Duration::new(millis / 1000, ((millis % 1000) * 1_000_000) as u32)
}

/// The span of a number of seconds.
pub fn from_secs(secs: u64) -> (d: std::time::Duration)
    ensures
        d == span(secs, 0),
{
    std::time::Duration::new(secs, 0)
}

} // verus!
