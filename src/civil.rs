use vstd::prelude::*;

verus! {

/// Whether `y` is a leap year of the proleptic Gregorian calendar.
pub open spec fn is_leap_year(y: int) -> bool {
    (y % 4 == 0 && y % 100 != 0) || y % 400 == 0
}

/// Number of days in month `m` of year `y`.
pub open spec fn days_in_month(y: int, m: int) -> int {
    if m == 2 {
        if is_leap_year(y) { 29 } else { 28 }
    } else if m == 4 || m == 6 || m == 9 || m == 11 {
        30
    } else {
        31
    }
}

/// A calendar date (year, month 1..=12, day of month).
#[derive(Clone, Copy, Debug, PartialEq, Eq, Structural, PartialOrd, Ord)]
pub struct CivilDate {
    pub year: i16,
    pub month: i8,
    pub day: i8,
}

/// A time of day with nanosecond resolution.
#[derive(Clone, Copy, Debug, PartialEq, Eq, Structural, PartialOrd, Ord)]
pub struct CivilTime {
    pub hour: i8,
    pub minute: i8,
    pub second: i8,
    pub subsec_nanosecond: i32,
}

/// A local wall-clock reading: a date and a time of day.
#[derive(Clone, Copy, Debug, PartialEq, Eq, Structural, PartialOrd, Ord)]
pub struct WallTime {
    pub date: CivilDate,
    pub time: CivilTime,
}

pub const NANOS_PER_SECOND: i64 = 1_000_000_000;

pub const MICROS_PER_DAY: i64 = 86_400_000_000;

/// Days from 1970-01-01 to the given date of the proleptic Gregorian calendar.
pub open spec fn days_from_civil(y: int, m: int, d: int) -> int {
    let y = if m <= 2 { y - 1 } else { y };
    let era = y / 400;
    let yoe = y - era * 400;
    let mp = if m > 2 { m - 3 } else { m + 9 };
    let doy = (153 * mp + 2) / 5 + d - 1;
    let doe = yoe * 365 + yoe / 4 - yoe / 100 + doy;
    era * 146097 + doe - 719468
}

/// Microseconds from 1970-01-01T00:00:00 to a wall time, both read on the
/// same civil clock.
pub open spec fn wall_micros(w: WallTime) -> int {
    days_from_civil(w.date.year as int, w.date.month as int, w.date.day as int) * MICROS_PER_DAY
        + w.time.nanos() / 1000
}

pub const NANOS_PER_DAY: i64 = 86_400_000_000_000;

impl CivilDate {
    /// A real date within the years -9999..=9999.
    pub open spec fn wf(self) -> bool {
        &&& -9999 <= self.year <= 9999
        &&& 1 <= self.month <= 12
        &&& 1 <= self.day <= days_in_month(self.year as int, self.month as int)
    }

    /// The last representable date, which has no successor.
    pub open spec fn is_last(self) -> bool {
        self.year == 9999 && self.month == 12 && self.day == 31
    }

    /// The calendar day after this one.
    pub open spec fn next(self) -> CivilDate {
        if self.day as int == days_in_month(self.year as int, self.month as int) {
            if self.month == 12 {
                CivilDate { year: (self.year + 1) as i16, month: 1, day: 1 }
            } else {
                CivilDate { year: self.year, month: (self.month + 1) as i8, day: 1 }
            }
        } else {
            CivilDate { year: self.year, month: self.month, day: (self.day + 1) as i8 }
        }
    }

    /// Strict chronological order of dates.
    pub open spec fn before(self, other: CivilDate) -> bool {
        self.year < other.year || (self.year == other.year && (self.month < other.month || (
        self.month == other.month && self.day < other.day)))
    }

    /// Builds a date from its parts, `None` where they name no date.
    pub fn new(year: i16, month: i8, day: i8) -> (r: Option<CivilDate>)
        ensures
            r matches Some(d) ==> d == (CivilDate { year, month, day }),
            r is Some <==> (CivilDate { year, month, day }).wf(),
    {
        if year < -9999 || year > 9999 || month < 1 || month > 12 || day < 1 {
            return None;
        }
        let leap = (year % 4 == 0 && year % 100 != 0) || year % 400 == 0;
        let dim: i8 = if month == 2 {
            if leap { 29 } else { 28 }
        } else if month == 4 || month == 6 || month == 9 || month == 11 {
            30
        } else {
            31
        };
        if day > dim {
            None
        } else {
            Some(CivilDate { year, month, day })
        }
    }
}

impl CivilTime {
    /// Hours 0..=23, minutes and seconds 0..=59, a sub-second part below one second.
    pub open spec fn wf(self) -> bool {
        &&& 0 <= self.hour < 24
        &&& 0 <= self.minute < 60
        &&& 0 <= self.second < 60
        &&& 0 <= self.subsec_nanosecond < NANOS_PER_SECOND
    }

    /// Nanoseconds since midnight.
    pub open spec fn nanos(self) -> int {
        ((self.hour * 60 + self.minute) * 60 + self.second) * NANOS_PER_SECOND
            + self.subsec_nanosecond
    }

    /// Builds a time of day from its parts, `None` where one is out of range.
    pub fn new(hour: i8, minute: i8, second: i8, subsec_nanosecond: i32) -> (r: Option<CivilTime>)
        ensures
            r matches Some(t) ==> t == (CivilTime { hour, minute, second, subsec_nanosecond }),
            r is Some <==> (CivilTime { hour, minute, second, subsec_nanosecond }).wf(),
    {
        if 0 <= hour && hour < 24 && 0 <= minute && minute < 60 && 0 <= second && second < 60
            && 0 <= subsec_nanosecond && subsec_nanosecond < 1_000_000_000 {
            Some(CivilTime { hour, minute, second, subsec_nanosecond })
        } else {
            None
        }
    }

    /// Nanoseconds since midnight.
    pub fn nanos_of_day(&self) -> (r: i64)
        requires
            self.wf(),
        ensures
            r == self.nanos(),
            0 <= r < NANOS_PER_DAY,
    {
        let secs: i64 = (self.hour as i64 * 60 + self.minute as i64) * 60 + self.second as i64;
        assert(secs < 86400);
        secs * NANOS_PER_SECOND + self.subsec_nanosecond as i64
    }
}

impl WallTime {
    pub open spec fn wf(self) -> bool {
        self.date.wf() && self.time.wf()
    }

    /// Strict chronological order of wall times.
    pub open spec fn before(self, other: WallTime) -> bool {
        self.date.before(other.date) || (self.date == other.date && self.time.nanos()
            < other.time.nanos())
    }
}

/// Relies on jiff::civil::Date::tomorrow: the calendar day after a valid
/// date, with an error only after the maximum date 9999-12-31.
#[verifier::external_body]
pub(crate) fn tomorrow(d: CivilDate) -> (r: Option<CivilDate>)
    requires
        d.wf(),
    ensures
        r == (if d.is_last() { None } else { Some(d.next()) }),
{
    match jiff::civil::Date::new(d.year, d.month, d.day) {
        Ok(j) => match j.tomorrow() {
            Ok(t) => Some(CivilDate { year: t.year(), month: t.month(), day: t.day() }),
            Err(_) => None,
        },
        Err(_) => None,
    }
}

/// The day after a valid date is a valid date, and strictly later.
pub proof fn lemma_next_date(d: CivilDate)
    requires
        d.wf(),
        !d.is_last(),
    ensures
        d.next().wf(),
        d.before(d.next()),
{
}

} // verus!
