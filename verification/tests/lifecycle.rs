use windrose_server_manager::clock::{elapsed_secs, Timestamp};
use windrose_server_manager::lifecycle::{
    adopted, monitor_outcome, monitored_pid, plan_restart, plan_start, plan_stop, status_label,
    MonitorAction, ServerInfo, ServerStatus,
};

fn info(status: ServerStatus) -> ServerInfo {
    ServerInfo { status, pid: Some(42), uptime_seconds: Some(10), started_at: Some(at(100)) }
}

fn at(secs: i64) -> Timestamp {
    Timestamp { secs, nanos: 0 }
}

#[test]
fn start_from_stopped_publishes_starting_then_running() {
    let states = plan_start(ServerInfo::stopped(), at(500)).unwrap();
    assert_eq!(states.len(), 2);
    assert_eq!(states[0].status, ServerStatus::Starting);
    assert_eq!(states[1].status, ServerStatus::Running);
    assert_eq!(states[1].pid, Some(0));
    assert_eq!(states[1].uptime_seconds, Some(0));
    assert_eq!(states[1].started_at, Some(at(500)));
}

#[test]
fn start_refused_while_running_or_starting() {
    assert_eq!(plan_start(info(ServerStatus::Running), at(1)), Err("Server is already Running; cannot start".to_string()));
    assert_eq!(plan_start(info(ServerStatus::Starting), at(1)), Err("Server is already Starting; cannot start".to_string()));
    assert!(plan_start(info(ServerStatus::Crashed), at(1)).is_ok());
}

#[test]
fn stop_keeps_pid_while_stopping() {
    let states = plan_stop(info(ServerStatus::Running)).unwrap();
    assert_eq!(states.len(), 2);
    assert_eq!(states[0], ServerInfo { status: ServerStatus::Stopping, ..info(ServerStatus::Running) });
    assert_eq!(states[1], ServerInfo::stopped());
    assert_eq!(plan_stop(ServerInfo::stopped()), Err("Server is already Stopped; cannot stop".to_string()));
    assert_eq!(plan_stop(info(ServerStatus::Stopping)), Err("Server is already Stopping; cannot stop".to_string()));
}

#[test]
fn restart_is_stop_then_start() {
    let states = plan_restart(info(ServerStatus::Running), at(900)).unwrap();
    let statuses: Vec<ServerStatus> = states.iter().map(|s| s.status).collect();
    assert_eq!(statuses, vec![ServerStatus::Stopping, ServerStatus::Stopped, ServerStatus::Starting, ServerStatus::Running]);
    assert_eq!(states[3].started_at, Some(at(900)));
    assert_eq!(plan_restart(info(ServerStatus::Starting), at(1)), Err("Server is already Starting; cannot restart".to_string()));
    assert_eq!(plan_restart(ServerInfo::stopped(), at(1)), Err("Server is already Stopped; cannot stop".to_string()));
}

#[test]
fn status_labels() {
    assert_eq!(status_label(ServerStatus::Crashed), "Crashed");
    assert_eq!(status_label(ServerStatus::Running), format!("{:?}", ServerStatus::Running));
}

#[test]
fn monitor_decisions() {
    assert_eq!(monitored_pid(info(ServerStatus::Running)), Some(42));
    assert_eq!(monitored_pid(info(ServerStatus::Crashed)), None);
    assert_eq!(
        monitor_outcome(info(ServerStatus::Running), 42, true, at(160)),
        MonitorAction::Alive(Some(ServerInfo { status: ServerStatus::Running, pid: Some(42), uptime_seconds: Some(60), started_at: Some(at(100)) }))
    );
    assert_eq!(monitor_outcome(info(ServerStatus::Stopping), 42, true, at(160)), MonitorAction::Alive(None));
    match monitor_outcome(info(ServerStatus::Stopping), 42, false, at(160)) {
        MonitorAction::Exited(s) => {
            assert_eq!(s.status, ServerStatus::Stopped);
            assert_eq!(s.pid, None);
        }
        _ => panic!("expected exit"),
    }
    match monitor_outcome(info(ServerStatus::Running), 42, false, at(160)) {
        MonitorAction::Exited(s) => assert_eq!(s.status, ServerStatus::Crashed),
        _ => panic!("expected exit"),
    }
    assert_eq!(adopted(77), ServerInfo { status: ServerStatus::Running, pid: Some(77), uptime_seconds: None, started_at: None });
}

#[test]
fn elapsed_seconds_round_toward_zero() {
    assert_eq!(elapsed_secs(Timestamp { secs: 10, nanos: 500 }, Timestamp { secs: 12, nanos: 100 }), 1);
    assert_eq!(elapsed_secs(Timestamp { secs: 10, nanos: 0 }, Timestamp { secs: 12, nanos: 0 }), 2);
    assert_eq!(elapsed_secs(Timestamp { secs: 20, nanos: 0 }, Timestamp { secs: 12, nanos: 0 }), 0);
}

#[test]
fn stopped_server_can_start_again() {
    let stop = plan_stop(info(ServerStatus::Crashed)).unwrap();
    let last = *stop.last().unwrap();
    assert_eq!(last.status, ServerStatus::Stopped);
    let start = plan_start(last, at(42)).unwrap();
    assert_eq!(start.last().unwrap().status, ServerStatus::Running);
}
