use jiff::tz::TimeZone;
use pump_schedule::{control_step, CivilDate, CivilTime, Clock, ControlAction, RunningState, ScreenState, WallTime};

/// A clock in `zone` whose uptime zero is the given local wall time.
fn clock_at(zone: TimeZone, y: i16, mo: i8, d: i8, h: i8, mi: i8, s: i8, ns: i32) -> Clock {
    let dt = jiff::civil::DateTime::new(y, mo, d, h, mi, s, ns).unwrap();
    let micros = zone.to_timestamp(dt).unwrap().as_microsecond();
    let mut c = Clock::new(zone);
    c.inject_ntp(micros);
    c
}

fn step_at(zone: TimeZone, y: i16, mo: i8, d: i8, h: i8, mi: i8, s: i8) -> ControlAction {
    let c = clock_at(zone, y, mo, d, h, mi, s, 0);
    control_step(&c.get_toronto_time(0), &c).unwrap()
}

fn sleep_utc(y: i16, mo: i8, d: i8, h: i8, mi: i8, s: i8) -> u64 {
    step_at(TimeZone::UTC, y, mo, d, h, mi, s).sleep_ms
}

fn toronto() -> TimeZone {
    TimeZone::posix("EST5EDT,M3.2.0,M11.1.0").unwrap()
}

fn wall(y: i16, mo: i8, d: i8, h: i8, mi: i8, s: i8) -> WallTime {
    WallTime {
        date: CivilDate::new(y, mo, d).unwrap(),
        time: CivilTime::new(h, mi, s, 0).unwrap(),
    }
}

#[test]
fn just_before_window_opens() {
    let now = wall(2024, 1, 1, 8, 59, 59);
    let st = RunningState::from_wall_time(&now);
    assert!(!st.running);
    assert_eq!(st.until, wall(2024, 1, 1, 9, 0, 0));
    assert_eq!(sleep_utc(now.date.year, now.date.month, now.date.day, now.time.hour, now.time.minute, now.time.second), 1000);
}

#[test]
fn one_minute_before_window_closes() {
    let now = wall(2024, 1, 1, 11, 59, 0);
    let st = RunningState::from_wall_time(&now);
    assert!(st.running);
    assert_eq!(st.until, wall(2024, 1, 1, 12, 0, 0));
    assert_eq!(sleep_utc(now.date.year, now.date.month, now.date.day, now.time.hour, now.time.minute, now.time.second), 60_000);
}

#[test]
fn window_end_is_already_off() {
    let now = wall(2024, 1, 1, 12, 0, 0);
    let st = RunningState::from_wall_time(&now);
    assert!(!st.running);
    assert_eq!(st.until, wall(2024, 1, 2, 9, 0, 0));
    assert_eq!(sleep_utc(now.date.year, now.date.month, now.date.day, now.time.hour, now.time.minute, now.time.second), 21 * 3600 * 1000);
}

#[test]
fn window_start_is_on() {
    let now = wall(2024, 6, 15, 9, 0, 0);
    let st = RunningState::from_wall_time(&now);
    assert!(st.running);
    assert_eq!(st.until, wall(2024, 6, 15, 12, 0, 0));
    assert_eq!(sleep_utc(now.date.year, now.date.month, now.date.day, now.time.hour, now.time.minute, now.time.second), 3 * 3600 * 1000);
}

#[test]
fn midnight_waits_for_same_day_opening() {
    let now = wall(2024, 3, 10, 0, 0, 0);
    let st = RunningState::from_wall_time(&now);
    assert!(!st.running);
    assert_eq!(st.until, wall(2024, 3, 10, 9, 0, 0));
}

#[test]
fn evening_rolls_over_month_end() {
    let now = wall(2024, 4, 30, 18, 30, 0);
    let st = RunningState::from_wall_time(&now);
    assert!(!st.running);
    assert_eq!(st.until, wall(2024, 5, 1, 9, 0, 0));
    assert_eq!(sleep_utc(now.date.year, now.date.month, now.date.day, now.time.hour, now.time.minute, now.time.second), (14 * 3600 + 30 * 60) * 1000);
}

#[test]
fn evening_rolls_over_year_end() {
    let now = wall(2023, 12, 31, 23, 59, 59);
    let st = RunningState::from_wall_time(&now);
    assert_eq!(st.until, wall(2024, 1, 1, 9, 0, 0));
    assert_eq!(sleep_utc(now.date.year, now.date.month, now.date.day, now.time.hour, now.time.minute, now.time.second), (9 * 3600 + 1) * 1000);
}

#[test]
fn leap_day_is_next_after_feb_28() {
    let st = RunningState::from_wall_time(&wall(2024, 2, 28, 13, 0, 0));
    assert_eq!(st.until, wall(2024, 2, 29, 9, 0, 0));
    let st = RunningState::from_wall_time(&wall(2023, 2, 28, 13, 0, 0));
    assert_eq!(st.until, wall(2023, 3, 1, 9, 0, 0));
    let st = RunningState::from_wall_time(&wall(1900, 2, 28, 13, 0, 0));
    assert_eq!(st.until, wall(1900, 3, 1, 9, 0, 0));
}

#[test]
fn sleep_rounds_down_to_milliseconds() {
    let c = clock_at(TimeZone::UTC, 2024, 1, 1, 8, 59, 59, 500_000);
    assert_eq!(c.get_timestamp(0), 1_704_099_599_000_500);
    assert_eq!(c.get_toronto_time(0).wall.time.subsec_nanosecond, 500_000);
    let a = control_step(&c.get_toronto_time(0), &c).unwrap();
    assert_eq!(a.sleep_ms, 999);
}

#[test]
fn sleep_is_real_time_across_spring_forward() {
    let a = step_at(toronto(), 2024, 3, 9, 12, 0, 0);
    assert!(!a.running);
    assert_eq!(a.show, ScreenState::OffUntil { hour: 9, min: 0 });
    assert_eq!(a.sleep_ms, 20 * 3600 * 1000);
}

#[test]
fn sleep_is_real_time_across_fall_back() {
    let a = step_at(toronto(), 2024, 11, 2, 12, 0, 0);
    assert_eq!(a.sleep_ms, 22 * 3600 * 1000);
}

#[test]
fn sleep_in_zone_on_plain_day() {
    let a = step_at(toronto(), 2024, 1, 1, 8, 59, 59);
    assert_eq!(a.sleep_ms, 1000);
    assert_eq!(a.until_micros, 1_704_117_600_000_000);
}

#[test]
fn last_date_decides_inside_window_only() {
    let st = RunningState::from_wall_time(&wall(9999, 12, 31, 10, 0, 0));
    assert!(st.running);
    assert_eq!(st.until, wall(9999, 12, 31, 12, 0, 0));
}

#[test]
fn until_is_always_later_on_a_sweep() {
    for h in 0..24i8 {
        for m in [0i8, 1, 30, 59] {
            let now = wall(2024, 12, 31, h, m, 30);
            let st = RunningState::from_wall_time(&now);
            assert!(st.until > now);
            assert!(sleep_utc(2024, 12, 31, h, m, 30) > 0);
            assert_eq!(st.running, (9..12).contains(&h));
        }
    }
}

#[test]
fn screen_state_follows_running_state() {
    let on = RunningState::from_wall_time(&wall(2024, 1, 1, 10, 0, 0)).screen_state();
    assert_eq!(on, ScreenState::OnUntil { hour: 12, min: 0 });
    assert!(on.is_on());
    assert_eq!(on.display_hour(), 12);
    assert_eq!(on.display_minute(), 0);
    let off = RunningState::from_wall_time(&wall(2024, 1, 1, 7, 0, 0)).screen_state();
    assert_eq!(off, ScreenState::OffUntil { hour: 9, min: 0 });
    assert!(!off.is_on());
    assert_eq!(off.display_hour(), 9);
    assert_eq!(ScreenState::OffUntil { hour: 0, min: 5 }.display_hour(), 12);
    assert_eq!(ScreenState::OffUntil { hour: 15, min: 5 }.display_hour(), 3);
}

#[test]
fn control_step_combines_decisions() {
    let a = step_at(TimeZone::UTC, 2024, 1, 1, 11, 59, 0);
    assert!(a.running);
    assert_eq!(a.show, ScreenState::OnUntil { hour: 12, min: 0 });
    assert_eq!(a.sleep_ms, 60_000);
}

#[test]
fn invalid_parts_are_rejected() {
    assert!(CivilDate::new(2023, 2, 29).is_none());
    assert!(CivilDate::new(2024, 2, 29).is_some());
    assert!(CivilDate::new(2024, 13, 1).is_none());
    assert!(CivilDate::new(2024, 4, 31).is_none());
    assert!(CivilDate::new(10000, 1, 1).is_none());
    assert!(CivilDate::new(2024, 1, 0).is_none());
    assert!(CivilTime::new(24, 0, 0, 0).is_none());
    assert!(CivilTime::new(23, 60, 0, 0).is_none());
    assert!(CivilTime::new(23, 59, 59, 1_000_000_000).is_none());
    assert_eq!(CivilTime::new(23, 59, 59, 999_999_999).unwrap().nanos_of_day(), 86_399_999_999_999);
}

#[test]
fn status_text_uses_twelve_hour_clock() {
    assert_eq!(ScreenState::OnUntil { hour: 12, min: 0 }.text(), b"on until 12:00".to_vec());
    assert_eq!(ScreenState::OffUntil { hour: 9, min: 0 }.text(), b"off until 9:00".to_vec());
    assert_eq!(ScreenState::OffUntil { hour: 15, min: 5 }.text(), b"off until 3:05".to_vec());
    assert_eq!(ScreenState::OnUntil { hour: 0, min: 30 }.text(), b"on until 12:30".to_vec());
    assert_eq!(ScreenState::OnUntil { hour: 23, min: 59 }.text(), b"on until 11:59".to_vec());
}
