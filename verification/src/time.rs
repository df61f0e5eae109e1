//! Instants and waits as plain integers.

use vstd::prelude::*;

verus! {

/// Declares the time zone type of `chrono_tz` so that it can be carried in
/// fields and signatures. Nothing is known about a value of it.
#[verifier::external_type_specification]
#[verifier::external_body]
pub struct ExTz(chrono_tz::Tz);

/// Nanoseconds in one second.
pub const NANOS_PER_SEC: u32 = 1_000_000_000;

/// An instant on the UTC time line together with the time zone it is meant
/// to be read in.
///
/// `secs` counts non-leap seconds since 1970-01-01T00:00:00Z and `nanos` the
/// nanoseconds after that second. The zone matters only for calendar
/// arithmetic; ordering and differences are those of the instant.
#[derive(Clone, Copy, Debug, PartialEq, Eq)]
pub struct ZonedTime {
    pub secs: i64,
    pub nanos: u32,
    pub zone: chrono_tz::Tz,
}

/// An instant on the UTC time line, as tools report it.
#[derive(Clone, Copy, Debug, PartialEq, Eq, Structural)]
pub struct UtcTime {
    pub secs: i64,
    pub nanos: u32,
}

impl UtcTime {
    /// The same instant, to be read in `zone`.
    pub fn with_timezone(self, zone: chrono_tz::Tz) -> (r: ZonedTime)
        ensures
            r == (ZonedTime { secs: self.secs, nanos: self.nanos, zone }),
    {
        ZonedTime { secs: self.secs, nanos: self.nanos, zone }
    }

    /// Whether two instants are the same.
    pub fn same_as(&self, other: &UtcTime) -> (r: bool)
        ensures
            r == (*self == *other),
    {
        self.secs == other.secs && self.nanos == other.nanos
    }
}

/// A non-negative span of time.
#[derive(Clone, Copy, Debug, PartialEq, Eq, Structural)]
pub struct Duration {
    pub secs: u64,
    pub nanos: u32,
}

impl ZonedTime {
    /// Whether the nanosecond part is less than one second, as it is for
    /// every instant read from a clock.
    pub open spec fn well_formed(self) -> bool {
        self.nanos < NANOS_PER_SEC
    }

    /// The instant as nanoseconds since the epoch.
    pub open spec fn epoch_nanos(self) -> int {
        self.secs * 1_000_000_000 + self.nanos
    }

    /// Whether `self` is not before `other` on the time line.
    pub fn is_at_or_after(&self, other: &ZonedTime) -> (r: bool)
        ensures
            r == (self.epoch_nanos() >= other.epoch_nanos()),
    {
        let a: i128 = (self.secs as i128) * 1_000_000_000 + (self.nanos as i128);
        let b: i128 = (other.secs as i128) * 1_000_000_000 + (other.nanos as i128);
        a >= b
    }

    /// The time from `earlier` to `self`: zero when `self` is not later, and
    /// `None` when the span has more whole seconds than a `u64` holds.
    pub fn since(&self, earlier: &ZonedTime) -> (r: Option<Duration>)
        ensures
            r == Duration::of_nanos(self.epoch_nanos() - earlier.epoch_nanos()),
    {
        let a: i128 = (self.secs as i128) * 1_000_000_000 + (self.nanos as i128);
        let b: i128 = (earlier.secs as i128) * 1_000_000_000 + (earlier.nanos as i128);
        let diff: i128 = a - b;
        if diff <= 0 {
            Some(Duration { secs: 0, nanos: 0 })
        } else {
            let whole: i128 = diff / 1_000_000_000;
            let rest: i128 = diff % 1_000_000_000;
            if whole > 0xffff_ffff_ffff_ffff {
                None
            } else {
                Some(Duration { secs: whole as u64, nanos: rest as u32 })
            }
        }
    }
}

impl Duration {
    /// The span in nanoseconds.
    pub open spec fn total_nanos(self) -> int {
        self.secs * 1_000_000_000 + self.nanos
    }

    /// The span of `n` nanoseconds, negative counts clamped to zero; `None`
    /// when the whole seconds do not fit.
    pub open spec fn of_nanos(n: int) -> Option<Duration> {
        if n <= 0 {
            Some(Duration { secs: 0, nanos: 0 })
        } else if n / 1_000_000_000 > u64::MAX {
            None
        } else {
            Some(Duration { secs: (n / 1_000_000_000) as u64, nanos: (n % 1_000_000_000) as u32 })
        }
    }

    /// The empty span.
    pub fn zero() -> (r: Duration)
        ensures
            r.total_nanos() == 0,
            r == (Duration { secs: 0, nanos: 0 }),
    {
        Duration { secs: 0, nanos: 0 }
    }
}

/// A span built from a count of nanoseconds that is not negative measures
/// exactly that count.
pub proof fn lemma_of_nanos_exact(n: int)
    requires
        0 <= n,
        n / 1_000_000_000 <= u64::MAX,
    ensures
        Duration::of_nanos(n) is Some,
        Duration::of_nanos(n).unwrap().total_nanos() == n,
        Duration::of_nanos(n).unwrap().nanos < NANOS_PER_SEC,
{
}

/// Two well-formed instants always have a measurable distance.
pub proof fn lemma_since_is_some(later: ZonedTime, earlier: ZonedTime)
    requires
        later.well_formed(),
        earlier.well_formed(),
    ensures
        Duration::of_nanos(later.epoch_nanos() - earlier.epoch_nanos()) is Some,
{
}

} // verus!
