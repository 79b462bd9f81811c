//! Time as the library sees it: whole nanoseconds since a clock's origin.
use std::time::Duration;
use tokio::time::Instant;
use vstd::prelude::*;

verus! {

#[verifier::external_type_specification]
#[verifier::external_body]
pub struct ExInstant(Instant);

/// Nanoseconds in one second.
pub const NANOS_PER_SEC: u64 = 1_000_000_000;

/// The staleness timeout used when none is configured: five seconds.
pub const DEFAULT_TIMEOUT_NANOS: u64 = 5_000_000_000;

/// The whole seconds of a duration, as `Duration::as_secs` reports them.
pub uninterp spec fn secs_of(d: Duration) -> u64;

/// The fractional part of a duration in nanoseconds, as `Duration::subsec_nanos` reports it.
pub uninterp spec fn subsec_nanos_of(d: Duration) -> u32;

/// Relies on `Duration::as_secs`: the number of whole seconds.
#[verifier::external_body]
fn whole_secs(d: &Duration) -> (r: u64)
    ensures
        r == secs_of(*d),
{
    d.as_secs()
}

/// Relies on `Duration::subsec_nanos`: the fractional part in nanoseconds, always under one billion.
#[verifier::external_body]
fn fraction_nanos(d: &Duration) -> (r: u32)
    ensures
        r == subsec_nanos_of(*d),
        r < NANOS_PER_SEC,
{
    d.subsec_nanos()
}

/// Relies on `tokio::time::Instant::now`: the current reading of the monotonic clock.
#[verifier::external_body]
fn instant_now() -> (r: Instant) {
    Instant::now()
}

/// Relies on `tokio::time::Instant::elapsed`: the time passed since `origin`.
#[verifier::external_body]
fn time_since(origin: &Instant) -> (r: Duration) {
    origin.elapsed()
}

/// The exact length of `d` in nanoseconds.
pub open spec fn total_nanos(d: Duration) -> int {
    secs_of(d) * NANOS_PER_SEC + subsec_nanos_of(d)
}

/// The length of `d` in nanoseconds, held at `u64::MAX` when it does not fit.
pub open spec fn nanos_of(d: Duration) -> u64 {
    if total_nanos(d) <= u64::MAX {
        total_nanos(d) as u64
    } else {
        u64::MAX
    }
}

/// Converts a duration to whole nanoseconds, saturating at `u64::MAX`.
pub fn duration_nanos(d: &Duration) -> (r: u64)
    ensures
        r == nanos_of(*d),
{
    let secs = whole_secs(d);
    let frac = fraction_nanos(d);
    if secs > (u64::MAX - frac as u64) / NANOS_PER_SEC {
        proof {
            assert(secs * NANOS_PER_SEC + frac > u64::MAX) by (nonlinear_arith)
                requires
                    secs > (u64::MAX - frac) / 1_000_000_000int,
                    frac < 1_000_000_000int,
            ;
        }
        u64::MAX
    } else {
        proof {
            assert(secs * NANOS_PER_SEC + frac <= u64::MAX) by (nonlinear_arith)
                requires
                    secs <= (u64::MAX - frac) / 1_000_000_000int,
                    frac < 1_000_000_000int,
            ;
        }
        secs * NANOS_PER_SEC + frac as u64
    }
}

/// A clock reading held at or above the latest recorded one.
pub fn clamp_reading(elapsed: u64, latest: u64) -> (r: u64)
    ensures
        r == if elapsed < latest { latest } else { elapsed },
{
    if elapsed < latest {
        latest
    } else {
        elapsed
    }
}

/// A monotone clock: readings are nanoseconds since the clock was started, and
/// never fall below the latest reading that was recorded.
pub struct Clock {
    origin: Instant,
    latest: u64,
}

impl Clock {
    /// The latest reading that was recorded.
    pub closed spec fn latest(&self) -> u64 {
        self.latest
    }

    /// Starts a clock whose origin is now.
    pub fn start() -> (r: Clock)
        ensures
            r.latest() == 0,
    {
        Clock { origin: instant_now(), latest: 0 }
    }

    /// Reads the clock without recording the reading.
    pub fn read(&self) -> (r: u64)
        ensures
            r >= self.latest(),
    {
        clamp_reading(duration_nanos(&time_since(&self.origin)), self.latest)
    }

    /// Records `now` as the latest reading.
    pub fn record(&mut self, now: u64)
        requires
            now >= old(self).latest(),
        ensures
            final(self).latest() == now,
    {
        self.latest = now;
    }
}

} // verus!
