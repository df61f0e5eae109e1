//! Schedules: when a recurring action is next due.

use chrono::{Days, TimeZone};
use chrono_tz::Tz;
use cron::Schedule;
use vstd::prelude::*;

use crate::text::{same_text, trim, trimmed};
use crate::time::{Duration, ZonedTime};

verus! {

/// Declares the parsed cron expression of the `cron` crate. Nothing is known
/// about a value of it but what the functions below state.
#[verifier::external_type_specification]
#[verifier::external_body]
pub struct ExSchedule(cron::Schedule);

/// Declares the error that `cron` reports for an expression it cannot parse.
#[verifier::external_type_specification]
#[verifier::external_body]
pub struct ExCronError(cron::error::Error);

/// `Clone` for a schedule, which `cron` derives: the copy equals the
/// schedule it was made from.
pub assume_specification[ <cron::Schedule as Clone>::clone ](schedule: &cron::Schedule) -> (r:
    cron::Schedule)
    ensures
        r == *schedule,
;

/// The name under which `chrono_tz` knows a zone.
pub uninterp spec fn zone_name(zone: Tz) -> Seq<char>;

/// The expression that a schedule was parsed from.
pub uninterp spec fn schedule_source(schedule: Schedule) -> Seq<char>;

/// Whether `chrono_tz` knows a zone under `name`.
pub uninterp spec fn zone_known(name: Seq<char>) -> bool;

/// Whether `cron` accepts the expression `expr`.
pub uninterp spec fn cron_accepts(expr: Seq<char>) -> bool;

/// The instant `days` calendar days after the given one, at the same local
/// time in the zone of that name, as `chrono` computes it; `None` where
/// `chrono` gives none.
pub uninterp spec fn days_later(zone: Seq<char>, secs: i64, nanos: u32, days: u64) -> Option<
    (i64, u32),
>;

/// The first instant that `cron` reports for the expression `expr` after
/// the given one, read in the zone of that name; `None` where the schedule
/// has no further occurrence.
pub uninterp spec fn occurrence_after(expr: Seq<char>, zone: Seq<char>, secs: i64, nanos: u32)
    -> Option<(i64, u32)>;

/// The instant that a pair of seconds and nanoseconds stands for in `zone`.
pub open spec fn in_zone(zone: Tz, parts: Option<(i64, u32)>) -> Option<ZonedTime> {
    match parts {
        Some((secs, nanos)) => Some(ZonedTime { secs, nanos, zone }),
        None => None,
    }
}

/// `DateTime::checked_add_days` of `chrono` on the instant `t` read in its
/// zone. The result is whatever `chrono` returns, converted back to seconds
/// and nanoseconds; an instant that `chrono` cannot represent gives `None`.
#[verifier::external_body]
fn add_days(t: &ZonedTime, days: u64) -> (r: Option<ZonedTime>)
    ensures
        r == in_zone(t.zone, days_later(zone_name(t.zone), t.secs, t.nanos, days)),
{
    let start = t.zone.timestamp_opt(t.secs, t.nanos).single()?;
    let moved = start.checked_add_days(Days::new(days))?;
    Some(ZonedTime { secs: moved.timestamp(), nanos: moved.timestamp_subsec_nanos(), zone: t.zone })
}

/// `Schedule::after` of `cron`, followed by one step of the iterator it
/// returns: the first occurrence that `cron` reports after `t`. The search
/// starts one second after `t`, which must therefore lie before the last
/// second that `chrono` can represent.
#[verifier::external_body]
fn first_after(schedule: &Schedule, t: &ZonedTime) -> (r: Option<ZonedTime>)
    requires
        t.secs < LAST_SECOND,
    ensures
        r == in_zone(
            t.zone,
            occurrence_after(schedule_source(*schedule), zone_name(t.zone), t.secs, t.nanos),
        ),
{
    let start = t.zone.timestamp_opt(t.secs, t.nanos).single()?;
    let found = schedule.after(&start).next()?;
    Some(ZonedTime { secs: found.timestamp(), nanos: found.timestamp_subsec_nanos(), zone: t.zone })
}

/// `Schedule::from_str` of `cron`. On success the schedule keeps the
/// expression it was given as its source.
#[verifier::external_body]
fn parse_schedule(expr: &str) -> (r: Result<Schedule, cron::error::Error>)
    ensures
        r is Ok <==> cron_accepts(expr@),
        r matches Ok(s) ==> schedule_source(s) == expr@,
{
    expr.parse::<Schedule>()
}

/// `Schedule::source` of `cron`: the expression the schedule was parsed from.
#[verifier::external_body]
fn source_of(schedule: &Schedule) -> (r: String)
    ensures
        r@ == schedule_source(*schedule),
{
    schedule.source().to_string()
}

/// `Tz::from_str` of `chrono_tz`: the zone of that name, if there is one.
#[verifier::external_body]
fn lookup_timezone(name: &str) -> (r: Option<Tz>)
    ensures
        r is Some <==> zone_known(name@),
        r matches Some(z) ==> zone_name(z) == name@,
{
    name.parse::<Tz>().ok()
}

/// `Tz::UTC` of `chrono_tz`: the zone that it knows under the name `UTC`.
#[verifier::external_body]
fn utc() -> (r: Tz)
    ensures
        zone_name(r) == "UTC"@,
{
    Tz::UTC
}

/// The name of the zone in which schedules are read: Melbourne's, or UTC
/// where the zone database lacks it.
pub open spec fn current_zone_name() -> Seq<char> {
    if zone_known("Australia/Melbourne"@) {
        "Australia/Melbourne"@
    } else {
        "UTC"@
    }
}

/// The time zone in which schedules are read.
pub fn current_timezone() -> (r: Tz)
    ensures
        zone_name(r) == current_zone_name(),
{
    match lookup_timezone("Australia/Melbourne") {
        Some(z) => z,
        None => utc(),
    }
}

/// How often a recurring action runs.
#[derive(Clone, Debug)]
pub enum Interval {
    Hourly,
    Daily,
    Weekly,
    Custom(Schedule),
}

/// Why a text is not an interval.
#[derive(Clone, Copy, Debug, PartialEq, Eq, Structural)]
pub enum IntervalError {
    /// The text is none of the fixed names and `cron` rejects it.
    InvalidExpression,
}

/// Seconds in one hour.
pub const HOUR_SECS: i64 = 3600;

/// The last second that `chrono` can represent: the end of the year 262142.
pub const LAST_SECOND: i64 = 8_210_266_876_799;

impl Interval {
    /// The instant at which the action is next due, before it is compared
    /// with `now`.
    ///
    /// A fixed interval counts from the last run, or from `now` if there was
    /// none: an hour is 3600 seconds, a day and a week are calendar days in
    /// the anchor's zone. A cron expression gives its first occurrence after
    /// `now`, and none from the last representable second on. `None` means
    /// that no such instant exists.
    pub open spec fn candidate(self, last: Option<ZonedTime>, now: ZonedTime) -> Option<ZonedTime> {
        let anchor = match last {
            Some(t) => t,
            None => now,
        };
        match self {
            Interval::Hourly => if anchor.secs + HOUR_SECS <= i64::MAX {
                Some(
                    ZonedTime {
                        secs: (anchor.secs + HOUR_SECS) as i64,
                        nanos: anchor.nanos,
                        zone: anchor.zone,
                    },
                )
            } else {
                None
            },
            Interval::Daily => in_zone(
                anchor.zone,
                days_later(zone_name(anchor.zone), anchor.secs, anchor.nanos, 1),
            ),
            Interval::Weekly => in_zone(
                anchor.zone,
                days_later(zone_name(anchor.zone), anchor.secs, anchor.nanos, 7),
            ),
            Interval::Custom(s) => if now.secs < LAST_SECOND {
                in_zone(
                    now.zone,
                    occurrence_after(schedule_source(s), zone_name(now.zone), now.secs, now.nanos),
                )
            } else {
                None
            },
        }
    }

    /// The wait from `now` until `candidate`: nothing without a candidate,
    /// zero for one that is already past, else the distance.
    pub open spec fn wait_until(candidate: Option<ZonedTime>, now: ZonedTime) -> Option<Duration> {
        match candidate {
            None => None,
            Some(c) => Duration::of_nanos(c.epoch_nanos() - now.epoch_nanos()),
        }
    }

    /// The wait from `now` until the action is next due.
    pub open spec fn next_spec(self, last: Option<ZonedTime>, now: ZonedTime) -> Option<Duration> {
        Self::wait_until(self.candidate(last, now), now)
    }

    /// The instant at which the action is next due; see [`Interval::candidate`].
    pub fn due_at(&self, last: Option<ZonedTime>, now: ZonedTime) -> (r: Option<ZonedTime>)
        ensures
            r == self.candidate(last, now),
    {
        let anchor = match last {
            Some(t) => t,
            None => now,
        };
        match self {
            Interval::Hourly => match anchor.secs.checked_add(HOUR_SECS) {
                Some(secs) => Some(ZonedTime { secs, nanos: anchor.nanos, zone: anchor.zone }),
                None => None,
            },
            Interval::Daily => add_days(&anchor, 1),
            Interval::Weekly => add_days(&anchor, 7),
            Interval::Custom(s) => if now.secs < LAST_SECOND {
                first_after(s, &now)
            } else {
                None
            },
        }
    }

    /// The wait from `now` until `candidate`.
    ///
    /// A candidate that is already past is due at once: the wait is zero.
    /// Without a candidate the schedule is exhausted and there is no wait.
    pub fn time_until(candidate: Option<ZonedTime>, now: ZonedTime) -> (r: Option<Duration>)
        ensures
            r == Self::wait_until(candidate, now),
            candidate is None ==> r is None,
            candidate matches Some(c) && c.epoch_nanos() <= now.epoch_nanos() ==> r == Some(
                (Duration { secs: 0, nanos: 0 }),
            ),
    {
        match candidate {
            None => None,
            Some(c) => if c.is_at_or_after(&now) {
                c.since(&now)
            } else {
                Some(Duration::zero())
            },
        }
    }

    /// How long to wait from `now` until the action is next due, given when
    /// it last ran.
    ///
    /// The wait is never negative: an action that is overdue is due at once.
    /// `None` means that the action will not become due again.
    pub fn next(&self, last: Option<ZonedTime>, now: ZonedTime) -> (r: Option<Duration>)
        ensures
            r == self.next_spec(last, now),
            r matches Some(d) ==> d.total_nanos() >= 0 && now.epoch_nanos() + d.total_nanos()
                >= now.epoch_nanos(),
    {
        let candidate = self.due_at(last, now);
        Self::time_until(candidate, now)
    }

    /// A copy of the interval.
    pub fn duplicate(&self) -> (r: Interval)
        ensures
            r == *self,
    {
        match self {
            Interval::Hourly => Interval::Hourly,
            Interval::Daily => Interval::Daily,
            Interval::Weekly => Interval::Weekly,
            Interval::Custom(s) => Interval::Custom(s.clone()),
        }
    }

    /// Whether `r` is what the text `s` denotes: one of the three fixed
    /// names, or a schedule that `cron` made of it; an error where `cron`
    /// rejects it. Whitespace around the text does not count.
    pub open spec fn is_parse_of(r: Result<Interval, IntervalError>, s: Seq<char>) -> bool {
        let t = trimmed(s);
        if t == "hourly"@ {
            r == Ok::<Interval, IntervalError>(Interval::Hourly)
        } else if t == "daily"@ {
            r == Ok::<Interval, IntervalError>(Interval::Daily)
        } else if t == "weekly"@ {
            r == Ok::<Interval, IntervalError>(Interval::Weekly)
        } else if cron_accepts(t) {
            r matches Ok(Interval::Custom(schedule)) && schedule_source(schedule) == t
        } else {
            r == Err::<Interval, IntervalError>(IntervalError::InvalidExpression)
        }
    }

    /// Reads an interval from its text form.
    pub fn from_str(s: &str) -> (r: Result<Interval, IntervalError>)
        ensures
            Self::is_parse_of(r, s@),
    {
        let t = trim(s);
        if same_text(t, "hourly") {
            Ok(Interval::Hourly)
        } else if same_text(t, "daily") {
            Ok(Interval::Daily)
        } else if same_text(t, "weekly") {
            Ok(Interval::Weekly)
        } else {
            match parse_schedule(t) {
                Ok(schedule) => Ok(Interval::Custom(schedule)),
                Err(_) => Err(IntervalError::InvalidExpression),
            }
        }
    }

    /// The text form of the interval.
    pub open spec fn text(self) -> Seq<char> {
        match self {
            Interval::Hourly => "hourly"@,
            Interval::Daily => "daily"@,
            Interval::Weekly => "weekly"@,
            Interval::Custom(s) => schedule_source(s),
        }
    }

    /// Writes the interval in the form that [`Interval::from_str`] reads.
    pub fn to_string(&self) -> (r: String)
        ensures
            r@ == self.text(),
    {
        match self {
            Interval::Hourly => "hourly".to_owned(),
            Interval::Daily => "daily".to_owned(),
            Interval::Weekly => "weekly".to_owned(),
            Interval::Custom(s) => source_of(s),
        }
    }
}

/// An action whose next due instant lies before `now` is due at once.
pub proof fn lemma_overdue_fires_at_once(
    interval: Interval,
    last: Option<ZonedTime>,
    now: ZonedTime,
)
    requires
        interval.candidate(last, now) matches Some(c) && c.epoch_nanos() < now.epoch_nanos(),
    ensures
        interval.next_spec(last, now) == Some((Duration { secs: 0, nanos: 0 })),
{
}

/// An hourly action that last ran more than an hour before `now` is due at
/// once.
pub proof fn lemma_hourly_catch_up(last: ZonedTime, now: ZonedTime)
    requires
        last.well_formed(),
        now.well_formed(),
        last.epoch_nanos() + HOUR_SECS * 1_000_000_000 < now.epoch_nanos(),
    ensures
        Interval::Hourly.next_spec(Some(last), now) == Some((Duration { secs: 0, nanos: 0 })),
{
}

/// The wait is never negative, and waiting it out never leads to an instant
/// before `now`; where the due instant lies ahead and its distance can be
/// measured, the wait ends exactly there.
pub proof fn lemma_wait_is_forward(interval: Interval, last: Option<ZonedTime>, now: ZonedTime)
    ensures
        interval.next_spec(last, now) matches Some(d) ==> {
            &&& d.total_nanos() >= 0
            &&& now.epoch_nanos() + d.total_nanos() >= now.epoch_nanos()
            &&& interval.candidate(last, now) matches Some(c)
            &&& (c.epoch_nanos() >= now.epoch_nanos() ==> now.epoch_nanos() + d.total_nanos()
                == c.epoch_nanos())
            &&& (c.epoch_nanos() < now.epoch_nanos() ==> d.total_nanos() == 0)
        },
{
}

} // verus!
