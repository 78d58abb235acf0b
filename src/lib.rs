//! Scheduling core of a pump controller: a calendar model, a drift-corrected
//! clock, the daily schedule decision, time-sync bookkeeping and the display relay.

pub mod civil;
pub mod clock;
pub mod notifier;
pub mod orchestrator;
pub mod platform;
pub mod schedule;
pub mod sync;

pub use civil::{CivilDate, CivilTime, WallTime};
pub use clock::{
    Clock, LocalTime, TimestampGen, INSTANT_MAX_MICROS, INSTANT_MIN_MICROS, MAX_OFFSET_SECONDS,
};
pub use notifier::DisplayNotifier;
pub use orchestrator::{control_step, run_iteration, ControlAction};
pub use platform::{pump, FakePump, PumpOutput};
pub use schedule::{RunningState, ScreenState};
pub use sync::{
    adjust_current_time, AdjustCurrentTimeError, ResyncTimer, NTP_PORT, RESYNC_INTERVAL_SECS,
    SYNC_TIMEOUT_SECS,
};
