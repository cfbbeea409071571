//! Points in time and spans of time, both counted in nanoseconds.
//!
//! A span is what `std::time::Duration` can hold: at most
//! `DURATION_MAX_NANOS` nanoseconds. A point in time is a reading of a
//! `Clock`: nanoseconds on a monotonic clock, counted from shortly before
//! the clock was started.

use vstd::prelude::*;

verus! {

/// Nanoseconds in one millisecond.
pub const NANOS_PER_MILLI: u128 = 1_000_000;

/// The longest span that `std::time::Duration` can hold, in nanoseconds.
pub const DURATION_MAX_NANOS: u128 = 18_446_744_073_709_551_615_999_999_999;

/// The span from `earlier` to `later`, or zero when `later` does not come
/// after `earlier`.
pub open spec fn spec_elapsed(later: u128, earlier: u128) -> u128 {
    if later >= earlier {
        (later - earlier) as u128
    } else {
        0
    }
}

/// The span from `earlier` to `later`, saturating at zero.
pub fn elapsed(later: u128, earlier: u128) -> (d: u128)
    ensures
        d == spec_elapsed(later, earlier),
{
    if later >= earlier {
        later - earlier
    } else {
        0
    }
}

/// A monotonic clock, `std::time::Instant`.
#[verifier::external_type_specification]
#[verifier::external_body]
pub struct ExInstant(std::time::Instant);

/// Returns `std::time::Instant::now()`. Nothing is stated of it: what
/// matters is only what later readings measure from it.
#[verifier::external_body]
fn instant_now() -> std::time::Instant {
    std::time::Instant::now()
}

/// Returns `origin.elapsed().as_nanos()`: the nanoseconds that the
/// monotonic clock has advanced since `origin`. What it reads is not
/// stated, only that it is a span that a `Duration` can hold.
#[verifier::external_body]
fn nanos_since(origin: &std::time::Instant) -> (t: u128)
    ensures
        t <= DURATION_MAX_NANOS,
{
    origin.elapsed().as_nanos()
}

/// How far back from its start a `Clock` can reach: its readings count
/// from one hour before it was started, so that points in time shortly
/// before the start (such as "a minute ago") are representable.
pub const CLOCK_HEADROOM: u128 = 3_600_000_000_000;

/// A monotonic clock whose readings are nanoseconds counted from one hour
/// (`CLOCK_HEADROOM`) before the clock was started.
#[derive(Debug, Clone, Copy)]
pub struct Clock {
    origin: std::time::Instant,
}

impl Clock {
    /// A clock that starts now.
    pub fn start() -> (c: Clock) {
        Clock { origin: instant_now() }
    }

    /// The current point in time: the span since the start plus
    /// `CLOCK_HEADROOM`, held at `DURATION_MAX_NANOS`. Nothing more is
    /// promised of the reading; every user of it in this crate measures
    /// spans between readings and saturates at zero.
    pub fn now(&self) -> (t: u128)
        ensures
            CLOCK_HEADROOM <= t <= DURATION_MAX_NANOS,
    {
        let since = nanos_since(&self.origin);
        if since <= DURATION_MAX_NANOS - CLOCK_HEADROOM {
            since + CLOCK_HEADROOM
        } else {
            DURATION_MAX_NANOS
        }
    }
}

} // verus!
