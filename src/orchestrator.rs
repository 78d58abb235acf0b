use vstd::prelude::*;

use crate::civil::WallTime;
use crate::clock::{instant_near, well_inside, Clock, LocalTime};
use crate::notifier::{relay_slot, DisplayNotifier};
use crate::platform::PumpOutput;
use crate::schedule::{
    clamped_millis, decidable, decide, off_time, screen_of, RunningState, ScreenState,
};

verus! {

/// What one control-loop iteration does.
#[derive(Clone, Copy, Debug, PartialEq, Eq, Structural)]
pub struct ControlAction {
    /// The level the pump is set to.
    pub running: bool,
    /// The display state published.
    pub show: ScreenState,
    /// The instant of the next transition, microseconds since the Unix epoch.
    pub until_micros: i64,
    /// Milliseconds to sleep until that instant.
    pub sleep_ms: u64,
}

/// `a` is the action that the schedule calls for at the reading `now`.
pub open spec fn action_for(now: LocalTime, a: ControlAction) -> bool {
    &&& a.running == decide(now.wall).running
    &&& a.show == screen_of(decide(now.wall))
    &&& instant_near(decide(now.wall).until, a.until_micros as int)
    &&& a.sleep_ms == clamped_millis(a.until_micros - now.instant_micros)
}

/// Decides one iteration at the reading `now` of `clock`: pump level,
/// display state, and the real time to sleep until the next transition in
/// the clock's zone. `None` only at the far end of the calendar, where the
/// transition has no date or no instant.
pub fn control_step(now: &LocalTime, clock: &Clock) -> (r: Option<ControlAction>)
    requires
        now.wf(),
    ensures
        r is Some ==> decidable(now.wall),
        decidable(now.wall) && well_inside(decide(now.wall).until) ==> r is Some,
        r matches Some(a) ==> action_for(*now, a),
{
    let wall = now.wall;
    if wall.date.year == 9999 && wall.date.month == 12 && wall.date.day == 31 && wall.time.hour
        >= 12 {
        return None;
    }
    proof {
        assert(off_time().nanos() == 12 * 3600 * 1_000_000_000);
    }
    let state = RunningState::from_wall_time(&wall);
    let show = state.screen_state();
    match clock.instant_of(&state.until) {
        Some(until_micros) => {
            let span: i64 = until_micros - now.instant_micros;
            let sleep_ms: u64 = if span <= 0 {
                0
            } else {
                (span / 1000) as u64
            };
            Some(ControlAction { running: state.running, show, until_micros, sleep_ms })
        },
        None => None,
    }
}

/// Runs one iteration at the reading `now` of `clock`: sets the pump and
/// publishes the display state; where `control_step` has no action, touches
/// neither.
pub fn run_iteration<P: PumpOutput>(
    now: &LocalTime,
    clock: &Clock,
    pump: &mut P,
    notifier: &mut DisplayNotifier,
) -> (r: Option<ControlAction>)
    requires
        now.wf(),
    ensures
        r is Some ==> decidable(now.wall),
        decidable(now.wall) && well_inside(decide(now.wall).until) ==> r is Some,
        r matches Some(a) ==> {
            &&& action_for(*now, a)
            &&& final(pump).is_running() == decide(now.wall).running
            &&& relay_slot(*final(notifier)) == Some(screen_of(decide(now.wall)))
        },
        r is None ==> *final(pump) == *old(pump) && *final(notifier) == *old(notifier),
{
    let action = control_step(now, clock);
    if let Some(a) = action {
        pump.set_running(a.running);
        notifier.publish(a.show);
    }
    action
}

/// The transition the schedule waits for is a valid wall time strictly
/// after `now`.
pub proof fn lemma_until_in_future(now: WallTime)
    requires
        decidable(now),
    ensures
        now.before(decide(now).until),
        decide(now).until.wf(),
{
    if !decide(now).running && now.time.nanos() >= crate::schedule::on_time().nanos() {
        crate::civil::lemma_next_date(now.date);
    }
}

} // verus!
