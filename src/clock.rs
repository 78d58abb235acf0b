use vstd::prelude::*;

use crate::civil::{wall_micros, CivilDate, CivilTime, WallTime};
use jiff::tz::TimeZone;

verus! {

#[verifier::external_type_specification]
#[verifier::external_body]
pub struct ExTimeZone(jiff::tz::TimeZone);

/// Earliest instant, in microseconds since the Unix epoch, that jiff accepts.
pub const INSTANT_MIN_MICROS: i64 = -377_705_023_201_000_000;

/// Latest instant, in microseconds since the Unix epoch, that jiff accepts.
pub const INSTANT_MAX_MICROS: i64 = 253_402_207_200_000_000;

/// Largest magnitude of a time zone's offset from UTC, in seconds (25:59:59).
pub const MAX_OFFSET_SECONDS: i32 = 93_599;

/// `v` forced into the range of instants.
pub open spec fn clamp_instant(v: int) -> int {
    if v < INSTANT_MIN_MICROS {
        INSTANT_MIN_MICROS as int
    } else if v > INSTANT_MAX_MICROS {
        INSTANT_MAX_MICROS as int
    } else {
        v
    }
}

/// `w` is the valid wall time that a zone at UTC offset `off` seconds shows
/// at the instant `instant` (microseconds since the Unix epoch).
pub open spec fn shows_at(w: WallTime, off: int, instant: int) -> bool {
    &&& w.wf()
    &&& -MAX_OFFSET_SECONDS <= off <= MAX_OFFSET_SECONDS
    &&& wall_micros(w) == instant + off * 1_000_000
}

/// `t` is an instant in range at which some zone offset, in whole seconds,
/// shows the wall time `w`.
pub open spec fn instant_near(w: WallTime, t: int) -> bool {
    &&& INSTANT_MIN_MICROS <= t <= INSTANT_MAX_MICROS
    &&& -MAX_OFFSET_SECONDS * 1_000_000 <= wall_micros(w) - t <= MAX_OFFSET_SECONDS * 1_000_000
    &&& (wall_micros(w) - t) % 1_000_000 == 0
}

/// The wall time `w` is far enough inside the range of instants that every
/// zone offset maps it to an instant.
pub open spec fn well_inside(w: WallTime) -> bool {
    INSTANT_MIN_MICROS + MAX_OFFSET_SECONDS * 1_000_000 <= wall_micros(w) <= INSTANT_MAX_MICROS
        - MAX_OFFSET_SECONDS * 1_000_000
}

/// Relies on jiff::Timestamp::from_microsecond (an error exactly outside
/// the range of instants), jiff::tz::TimeZone::to_datetime and
/// jiff::tz::TimeZone::to_offset with jiff::tz::Offset::seconds: the civil
/// date and time an instant shows in a zone, and the zone's offset then.
#[verifier::external_body]
fn civil_in_zone(zone: &TimeZone, micros: i64) -> (r: Option<(WallTime, i32)>)
    ensures
        r is Some <==> INSTANT_MIN_MICROS <= micros <= INSTANT_MAX_MICROS,
        r matches Some((w, off)) ==> shows_at(w, off as int, micros as int),
{
    match jiff::Timestamp::from_microsecond(micros) {
        Ok(ts) => {
            let dt = zone.to_datetime(ts);
            let date = CivilDate { year: dt.year(), month: dt.month(), day: dt.day() };
            let time = CivilTime {
                hour: dt.hour(),
                minute: dt.minute(),
                second: dt.second(),
                subsec_nanosecond: dt.subsec_nanosecond(),
            };
            Some((WallTime { date, time }, zone.to_offset(ts).seconds()))
        },
        Err(_) => None,
    }
}

/// Relies on jiff::civil::DateTime::new, jiff::tz::TimeZone::to_timestamp
/// (gaps and folds resolved the compatible way, an error only where the
/// instant leaves the supported range) and jiff::Timestamp::as_microsecond:
/// the instant at which a zone shows a wall time.
#[verifier::external_body]
fn instant_in_zone(zone: &TimeZone, w: WallTime) -> (r: Option<i64>)
    requires
        w.wf(),
        w.time.subsec_nanosecond % 1000 == 0,
    ensures
        well_inside(w) ==> r is Some,
        r matches Some(t) ==> instant_near(w, t as int),
{
    let d = w.date;
    let t = w.time;
    match jiff::civil::DateTime::new(d.year, d.month, d.day, t.hour, t.minute, t.second, t.subsec_nanosecond) {
        Ok(dt) => match zone.to_timestamp(dt) {
            Ok(ts) => Some(ts.as_microsecond()),
            Err(_) => None,
        },
        Err(_) => None,
    }
}

/// A clock reading: the instant, the wall time the zone shows then, and the
/// zone's offset from UTC in seconds.
#[derive(Clone, Copy, Debug, PartialEq, Eq, Structural)]
pub struct LocalTime {
    pub wall: WallTime,
    pub offset_seconds: i32,
    pub instant_micros: i64,
}

impl LocalTime {
    pub open spec fn wf(self) -> bool {
        &&& INSTANT_MIN_MICROS <= self.instant_micros <= INSTANT_MAX_MICROS
        &&& shows_at(self.wall, self.offset_seconds as int, self.instant_micros as int)
    }
}

/// The device's notion of true time: the monotonic uptime (in microseconds)
/// plus an accumulated signed correction, read in a fixed local time zone.
///
/// Only `inject_ntp` changes the correction.
pub struct Clock {
    offset_micros: i64,
    zone: TimeZone,
}

impl Clock {
    /// The accumulated correction, in microseconds.
    pub closed spec fn offset(self) -> int {
        self.offset_micros as int
    }

    /// The time zone that wall times are read in.
    pub closed spec fn zone(self) -> TimeZone {
        self.zone
    }

    /// Microseconds since the Unix epoch at monotonic reading `mono`, before
    /// forcing into `i64`.
    pub open spec fn reading(self, mono: int) -> int {
        mono + self.offset()
    }

    /// A clock with no correction yet: uptime counts from the Unix epoch.
    pub fn new(zone: TimeZone) -> (r: Clock)
        ensures
            r.offset() == 0,
            r.zone() == zone,
    {
        Clock { offset_micros: 0, zone }
    }

    /// The accumulated correction, in microseconds.
    pub fn offset_micros(&self) -> (r: i64)
        ensures
            r == self.offset(),
    {
        self.offset_micros
    }

    /// The instant the clock reads at monotonic reading `mono`, saturated
    /// to the range of instants.
    pub open spec fn instant(self, mono: int) -> int {
        clamp_instant(self.reading(mono))
    }

    /// Microseconds since the Unix epoch at monotonic reading `mono`
    /// (microseconds of uptime), saturating at the range of instants.
    pub fn get_timestamp(&self, mono: u64) -> (r: i64)
        ensures
            r == self.instant(mono as int),
    {
        let sum: i128 = mono as i128 + self.offset_micros as i128;
        if sum > INSTANT_MAX_MICROS as i128 {
            INSTANT_MAX_MICROS
        } else if sum < INSTANT_MIN_MICROS as i128 {
            INSTANT_MIN_MICROS
        } else {
            sum as i64
        }
    }

    /// The local reading at monotonic reading `mono`: the corrected instant
    /// and the wall time and offset that the clock's zone shows then.
    pub fn get_toronto_time(&self, mono: u64) -> (r: LocalTime)
        ensures
            r.wf(),
            r.instant_micros == self.instant(mono as int),
    {
        let ts = self.get_timestamp(mono);
        match civil_in_zone(&self.zone, ts) {
            Some((wall, off)) => LocalTime { wall, offset_seconds: off, instant_micros: ts },
            None => {
                // the saturated reading always lies in the range of instants
                proof {
                    assert(false);
                }
                let epoch = WallTime {
                    date: CivilDate { year: 1970, month: 1, day: 1 },
                    time: CivilTime { hour: 0, minute: 0, second: 0, subsec_nanosecond: 0 },
                };
                LocalTime { wall: epoch, offset_seconds: 0, instant_micros: 0 }
            },
        }
    }

    /// The instant at which the clock's zone shows `w`, where there is one.
    pub fn instant_of(&self, w: &WallTime) -> (r: Option<i64>)
        requires
            w.wf(),
            w.time.subsec_nanosecond % 1000 == 0,
        ensures
            well_inside(*w) ==> r is Some,
            r matches Some(t) ==> instant_near(*w, t as int),
    {
        instant_in_zone(&self.zone, *w)
    }

    /// Adds a measured correction to the accumulated one.
    pub fn inject_ntp(&mut self, offset_micros: i64)
        requires
            i64::MIN <= old(self).offset() + offset_micros <= i64::MAX,
        ensures
            final(self).offset() == old(self).offset() + offset_micros,
            final(self).zone() == old(self).zone(),
    {
        self.offset_micros = self.offset_micros + offset_micros;
    }

    /// A timestamp source for one time-sync exchange, reading this clock.
    pub fn get_timestamp_gen(&self) -> (r: TimestampGen<'_>)
        ensures
            r.now == 0,
            *r.clock == *self,
    {
        TimestampGen { now: 0, clock: self }
    }
}

/// Snapshots a clock reading and hands it out as whole seconds and
/// microseconds, for the outgoing request of a time-sync exchange.
#[derive(Clone, Copy)]
pub struct TimestampGen<'a> {
    pub now: i64,
    pub clock: &'a Clock,
}

impl<'a> TimestampGen<'a> {
    /// Takes the clock's reading at monotonic time `mono` as the snapshot.
    pub fn init(&mut self, mono: u64)
        ensures
            final(self).now == old(self).clock.instant(mono as int),
            final(self).clock == old(self).clock,
    {
        self.now = self.clock.get_timestamp(mono);
    }

    /// Whole seconds of the snapshot.
    pub fn timestamp_sec(&self) -> (r: u64)
        requires
            self.now >= 0,
        ensures
            r == self.now / 1_000_000,
    {
        (self.now / 1_000_000) as u64
    }

    /// Microseconds past the whole second of the snapshot.
    pub fn timestamp_subsec_micros(&self) -> (r: u32)
        requires
            self.now >= 0,
        ensures
            r == self.now % 1_000_000,
            r < 1_000_000,
    {
        (self.now % 1_000_000) as u32
    }
}

/// Corrections accumulate: after `c1` and then `c2`, the clock reads the
/// monotonic time offset by the earlier correction plus `c1 + c2`.
pub proof fn lemma_corrections_add(before: Clock, middle: Clock, after: Clock, c1: i64, c2: i64, mono: int)
    requires
        middle.offset() == before.offset() + c1,
        after.offset() == middle.offset() + c2,
    ensures
        after.reading(mono) == before.reading(mono) + c1 + c2,
        after.offset() - before.offset() == c1 + c2,
{
}

/// Between corrections the clock never goes backwards: a later monotonic
/// reading gives an instant no earlier.
pub proof fn lemma_reading_monotone(c: Clock, m1: int, m2: int)
    requires
        m1 <= m2,
    ensures
        c.instant(m1) <= c.instant(m2),
{
}

} // verus!
