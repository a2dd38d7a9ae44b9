use windrose_server_manager::schedule::{
    cancel_applies, countdown_finished, countdown_step, validate_schedule, CountdownStep,
    ScheduleConfig, ScheduleState,
};

fn cfg(enabled: bool, hour: u8, minute: u8) -> ScheduleConfig {
    ScheduleConfig { enabled, restart_hour: hour, restart_minute: minute, warning_seconds: 60 }
}

#[test]
fn schedule_validation() {
    assert_eq!(validate_schedule(&cfg(true, 24, 0)), Err("restart_hour must be 0–23".to_string()));
    assert_eq!(validate_schedule(&cfg(true, 23, 60)), Err("restart_minute must be 0–59".to_string()));
    assert_eq!(validate_schedule(&cfg(true, 23, 59)), Ok(()));
}

#[test]
fn countdown_starts_once_per_day() {
    let mut st = ScheduleState::new(cfg(true, 4, 30));
    assert!(st.should_start_countdown(4, 30, "2024-01-15"));
    assert!(!st.should_start_countdown(4, 31, "2024-01-15"));
    st.set_countdown(true, Some(60));
    assert!(!st.should_start_countdown(4, 30, "2024-01-15"));
    st.finish_countdown("2024-01-15".to_string());
    assert!(!st.countdown_active);
    assert_eq!(st.seconds_remaining, None);
    assert!(!st.should_start_countdown(4, 30, "2024-01-15"));
    assert!(st.should_start_countdown(4, 30, "2024-01-16"));
}

#[test]
fn disabled_schedule_never_starts() {
    let st = ScheduleState::new(cfg(false, 4, 30));
    assert!(!st.should_start_countdown(4, 30, "2024-01-15"));
}

#[test]
fn countdown_steps_down_to_zero() {
    let mut remaining = 3u64;
    let mut announced = vec![remaining];
    while !countdown_finished(remaining) {
        match countdown_step(remaining, false) {
            CountdownStep::Tick(r) => remaining = r,
            CountdownStep::Cancelled => panic!("not cancelled"),
        }
        announced.push(remaining);
    }
    assert_eq!(announced, vec![3, 2, 1, 0]);
    assert_eq!(countdown_step(5, true), CountdownStep::Cancelled);
}

#[test]
fn cancel_applies_only_during_countdown() {
    let mut st = ScheduleState::new(cfg(true, 4, 30));
    assert!(!cancel_applies(&st));
    st.set_countdown(true, Some(10));
    assert!(cancel_applies(&st));
}

fn run_countdown(warning: u64, cancel_after: Option<u64>) -> bool {
    let mut remaining = warning;
    let mut pauses = 0u64;
    while !countdown_finished(remaining) {
        pauses += 1;
        let cancelled = cancel_after == Some(pauses);
        match countdown_step(remaining, cancelled) {
            CountdownStep::Cancelled => return false,
            CountdownStep::Tick(n) => remaining = n,
        }
    }
    true
}

#[test]
fn cancellation_before_the_end_stops_the_restart() {
    assert!(run_countdown(3, None));
    assert!(!run_countdown(3, Some(1)));
    assert!(!run_countdown(3, Some(3)));
    assert!(run_countdown(3, Some(4)));
    assert!(run_countdown(0, Some(1)));
}

fn run_state(warning: u64, cancel_after: Option<u64>) -> ScheduleState {
    let mut st = ScheduleState::new(ScheduleConfig { enabled: true, restart_hour: 4, restart_minute: 0, warning_seconds: warning });
    st.set_last_restart_date(Some("2024-01-01".to_string()));
    let mut remaining = st.begin_countdown();
    assert!(st.countdown_active);
    assert_eq!(st.seconds_remaining, Some(warning));
    let mut pauses = 0u64;
    while !countdown_finished(remaining) {
        pauses += 1;
        match st.countdown_after_pause(remaining, cancel_after == Some(pauses)) {
            CountdownStep::Cancelled => return st,
            CountdownStep::Tick(n) => {
                assert_eq!(st.seconds_remaining, Some(n));
                remaining = n;
            }
        }
    }
    st.finish_countdown("2024-01-02".to_string());
    st
}

#[test]
fn countdown_state_after_cancel_or_restart() {
    let cancelled = run_state(5, Some(2));
    assert!(!cancelled.countdown_active);
    assert_eq!(cancelled.seconds_remaining, None);
    assert_eq!(cancelled.last_restart_date, Some("2024-01-01".to_string()));
    let done = run_state(5, None);
    assert!(!done.countdown_active);
    assert_eq!(done.seconds_remaining, None);
    assert_eq!(done.last_restart_date, Some("2024-01-02".to_string()));
}
