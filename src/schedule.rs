use vstd::prelude::*;

use crate::civil::{tomorrow, CivilTime, WallTime};

verus! {

/// Start of the daily watering window, 09:00:00.
pub open spec fn on_time() -> CivilTime {
    CivilTime { hour: 9, minute: 0, second: 0, subsec_nanosecond: 0 }
}

/// End of the daily watering window, 12:00:00 (exclusive).
pub open spec fn off_time() -> CivilTime {
    CivilTime { hour: 12, minute: 0, second: 0, subsec_nanosecond: 0 }
}

/// Whether a time of day lies in the half-open window `[on_time, off_time)`.
pub open spec fn in_window(t: CivilTime) -> bool {
    on_time().nanos() <= t.nanos() < off_time().nanos()
}

/// What the pump should do at a given wall time, and until when.
#[derive(Clone, Copy, Debug, PartialEq, Eq, Structural)]
pub struct RunningState {
    pub running: bool,
    pub until: WallTime,
}

/// What the status display shows: the state and the hour and minute (24-hour
/// clock) at which it next changes.
#[derive(Clone, Copy, Debug, PartialEq, Eq, Structural)]
pub enum ScreenState {
    OnUntil { hour: i8, min: i8 },
    OffUntil { hour: i8, min: i8 },
}

/// The schedule's decision for the wall time `now`.
pub open spec fn decide(now: WallTime) -> RunningState {
    if in_window(now.time) {
        RunningState { running: true, until: WallTime { date: now.date, time: off_time() } }
    } else if now.time.nanos() < on_time().nanos() {
        RunningState { running: false, until: WallTime { date: now.date, time: on_time() } }
    } else {
        RunningState { running: false, until: WallTime { date: now.date.next(), time: on_time() } }
    }
}

/// Whether the schedule can decide at `now`: every valid wall time but the
/// part of the last representable date after the window closes, whose next
/// opening has no date.
pub open spec fn decidable(now: WallTime) -> bool {
    now.wf() && !(now.date.is_last() && now.time.nanos() >= off_time().nanos())
}

/// Whole milliseconds of a span of microseconds, zero where it is negative.
pub open spec fn clamped_millis(micros: int) -> int {
    if micros <= 0 { 0 } else { micros / 1000 }
}

/// The display state that stands for a running state.
pub open spec fn screen_of(s: RunningState) -> ScreenState {
    if s.running {
        ScreenState::OnUntil { hour: s.until.time.hour, min: s.until.time.minute }
    } else {
        ScreenState::OffUntil { hour: s.until.time.hour, min: s.until.time.minute }
    }
}

/// An hour of the 24-hour clock on the 12-hour clock (1..=12).
pub open spec fn hour_12(h: int) -> int {
    if h % 12 == 0 { 12 } else { h % 12 }
}

/// ASCII digits of an hour of the 12-hour clock (1..=12), without padding.
pub open spec fn hour_digits(h: int) -> Seq<u8> {
    if h < 10 {
        seq![(48 + h) as u8]
    } else {
        seq![49u8, (48 + h - 10) as u8]
    }
}

/// ASCII digits of a minute (0..=59), padded to two.
pub open spec fn minute_digits(m: int) -> Seq<u8> {
    seq![(48 + m / 10) as u8, (48 + m % 10) as u8]
}

/// The status line for a display state, in ASCII: `on until H:MM` or
/// `off until H:MM`, on the 12-hour clock.
pub open spec fn status_text(s: ScreenState) -> Seq<u8> {
    let (prefix, h, m) = match s {
        ScreenState::OnUntil { hour, min } => (
            seq![111u8, 110, 32, 117, 110, 116, 105, 108, 32],
            hour as int,
            min as int,
        ),
        ScreenState::OffUntil { hour, min } => (
            seq![111u8, 102, 102, 32, 117, 110, 116, 105, 108, 32],
            hour as int,
            min as int,
        ),
    };
    prefix + hour_digits(hour_12(h)) + seq![58u8] + minute_digits(m)
}

impl ScreenState {
    /// Whether the pump is shown as running.
    pub fn is_on(&self) -> (r: bool)
        ensures
            r == (*self is OnUntil),
    {
        match self {
            ScreenState::OnUntil { .. } => true,
            ScreenState::OffUntil { .. } => false,
        }
    }

    /// The hour shown, on the 12-hour clock.
    pub fn display_hour(&self) -> (r: i8)
        requires
            match *self {
                ScreenState::OnUntil { hour, .. } => 0 <= hour < 24,
                ScreenState::OffUntil { hour, .. } => 0 <= hour < 24,
            },
        ensures
            r == hour_12(match *self {
                ScreenState::OnUntil { hour, .. } => hour as int,
                ScreenState::OffUntil { hour, .. } => hour as int,
            }),
    {
        let h = match self {
            ScreenState::OnUntil { hour, .. } => *hour,
            ScreenState::OffUntil { hour, .. } => *hour,
        };
        if h % 12 == 0 {
            12
        } else {
            h % 12
        }
    }

    /// The status line shown for this state, as ASCII bytes.
    pub fn text(&self) -> (r: Vec<u8>)
        requires
            match *self {
                ScreenState::OnUntil { hour, min } => 0 <= hour < 24 && 0 <= min < 60,
                ScreenState::OffUntil { hour, min } => 0 <= hour < 24 && 0 <= min < 60,
            },
        ensures
            r@ == status_text(*self),
    {
        let mut r: Vec<u8> = Vec::new();
        let on = self.is_on();
        r.push(111);
        if on {
            r.push(110);
        } else {
            r.push(102);
            r.push(102);
        }
        r.push(32);
        r.push(117);
        r.push(110);
        r.push(116);
        r.push(105);
        r.push(108);
        r.push(32);
        let h = self.display_hour();
        if h < 10 {
            r.push((48 + h) as u8);
        } else {
            r.push(49);
            r.push((48 + h - 10) as u8);
        }
        r.push(58);
        let m = self.display_minute();
        r.push((48 + m / 10) as u8);
        r.push((48 + m % 10) as u8);
        assert(r@ =~= status_text(*self));
        r
    }

    /// The minute shown.
    pub fn display_minute(&self) -> (r: i8)
        ensures
            r == (match *self {
                ScreenState::OnUntil { min, .. } => min,
                ScreenState::OffUntil { min, .. } => min,
            }),
    {
        match self {
            ScreenState::OnUntil { min, .. } => *min,
            ScreenState::OffUntil { min, .. } => *min,
        }
    }
}

const ON_HOUR: i8 = 9;

const OFF_HOUR: i8 = 12;

fn at_hour(hour: i8) -> (r: CivilTime)
    requires
        0 <= hour < 24,
    ensures
        r == (CivilTime { hour, minute: 0, second: 0, subsec_nanosecond: 0 }),
{
    CivilTime { hour, minute: 0, second: 0, subsec_nanosecond: 0 }
}

impl RunningState {
    /// Decides the pump state at `now`: running inside the window, until the
    /// window closes the same day; otherwise stopped, until the next opening.
    pub fn from_wall_time(now: &WallTime) -> (r: RunningState)
        requires
            decidable(*now),
        ensures
            r == decide(*now),
            in_window(now.time) ==> r.running && r.until == (WallTime {
                date: now.date,
                time: off_time(),
            }),
            !in_window(now.time) ==> !r.running && r.until.time == on_time() && r.until.date == (
            if now.time.nanos() < on_time().nanos() {
                now.date
            } else {
                now.date.next()
            }),
            r.until.wf(),
            r.until.time.subsec_nanosecond == 0,
            now.before(r.until),
    {
        let t = now.time.nanos_of_day();
        let on = at_hour(ON_HOUR);
        let off = at_hour(OFF_HOUR);
        let on_nanos = on.nanos_of_day();
        let off_nanos = off.nanos_of_day();
        if on_nanos <= t && t < off_nanos {
            RunningState { running: true, until: WallTime { date: now.date, time: off } }
        } else if t < on_nanos {
            RunningState { running: false, until: WallTime { date: now.date, time: on } }
        } else {
            let next = tomorrow(now.date);
            proof {
                crate::civil::lemma_next_date(now.date);
            }
            match next {
                Some(d) => RunningState { running: false, until: WallTime { date: d, time: on } },
                None => {
                    // `decidable` leaves out the one date without a successor
                    proof {
                        assert(false);
                    }
                    RunningState { running: false, until: *now }
                },
            }
        }
    }

    /// The display state for this running state.
    pub fn screen_state(&self) -> (r: ScreenState)
        ensures
            r == screen_of(*self),
    {
        if self.running {
            ScreenState::OnUntil { hour: self.until.time.hour, min: self.until.time.minute }
        } else {
            ScreenState::OffUntil { hour: self.until.time.hour, min: self.until.time.minute }
        }
    }
}

} // verus!
