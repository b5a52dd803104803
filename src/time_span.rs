use vstd::prelude::*;

verus! {

/// Number of nanoseconds in one millisecond.
pub const NANOS_PER_MILLI: u64 = 1_000_000;

/// Number of nanoseconds in one second.
pub const NANOS_PER_SEC: u64 = 1_000_000_000;

/// A length of time, held as a whole number of nanoseconds.
#[derive(Clone, Copy, Debug, PartialEq, Eq, Structural)]
pub struct TimeSpan {
    pub nanos: u64,
}

/// The nanosecond count for `count` units of `unit` nanoseconds each, capped at `u64::MAX`.
pub open spec fn saturating_product(count: u64, unit: u64) -> u64 {
    if count * unit > u64::MAX {
        u64::MAX
    } else {
        (count * unit) as u64
    }
}

impl TimeSpan {
    /// A span of `nanos` nanoseconds.
    pub fn from_nanos(nanos: u64) -> (r: TimeSpan)
        ensures
            r.nanos == nanos,
    {
        TimeSpan { nanos }
    }

    /// A span of `millis` milliseconds; saturates at `u64::MAX` nanoseconds.
    pub fn from_millis(millis: u64) -> (r: TimeSpan)
        ensures
            r.nanos == saturating_product(millis, NANOS_PER_MILLI),
    {
        match millis.checked_mul(NANOS_PER_MILLI) {
            Some(nanos) => TimeSpan { nanos },
            None => TimeSpan { nanos: u64::MAX },
        }
    }

    /// A span of `secs` seconds; saturates at `u64::MAX` nanoseconds.
    pub fn from_secs(secs: u64) -> (r: TimeSpan)
        ensures
            r.nanos == saturating_product(secs, NANOS_PER_SEC),
    {
        match secs.checked_mul(NANOS_PER_SEC) {
            Some(nanos) => TimeSpan { nanos },
            None => TimeSpan { nanos: u64::MAX },
        }
    }
}

} // verus!
