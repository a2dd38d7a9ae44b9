use windrose_server_manager::pidfile::{kill_args, parse_pid_file, pid_file_text, taskkill_args, PID_FILE_NAME};

#[test]
fn pid_file_round_trip() {
    for pid in [0u32, 7, 4242, u32::MAX] {
        assert_eq!(parse_pid_file(&pid_file_text(pid)), Some(pid));
    }
    assert_eq!(pid_file_text(1234), "1234");
}

#[test]
fn pid_file_parsing() {
    assert_eq!(parse_pid_file("  981\n"), Some(981));
    assert_eq!(parse_pid_file("+12"), Some(12));
    assert_eq!(parse_pid_file(""), None);
    assert_eq!(parse_pid_file("12a"), None);
    assert_eq!(parse_pid_file("4294967296"), None);
    assert_eq!(parse_pid_file("-1"), None);
    assert_eq!(PID_FILE_NAME, "windrose-server.pid");
}

#[test]
fn kill_command_arguments() {
    assert_eq!(taskkill_args(55), vec!["/F".to_string(), "/PID".to_string(), "55".to_string()]);
    assert_eq!(kill_args(55), vec!["-9".to_string(), "55".to_string()]);
}
