use windrose_server_manager::config::{
    default_audit_retention_days, default_auth_invite_ttl_hours, default_auth_lockout_minutes,
    default_auth_max_failed_logins, default_auth_reset_ttl_minutes, default_auth_session_ttl_secs,
    default_http_redirect_port, default_schedule_hour, default_tls_port, default_warning_seconds,
    setup_status, AppConfig, SetupApply, CONFIG_FILENAME,
};
use windrose_server_manager::install::DetectedServer;
use windrose_server_manager::schedule::ScheduleConfig;

#[test]
fn defaults() {
    let c = AppConfig::default();
    assert_eq!(c.bind_address, "127.0.0.1");
    assert_eq!(c.port, 8787);
    assert_eq!(c.tls_port, 8443);
    assert_eq!(c.server_executable, Some("WindroseServer.exe".to_string()));
    assert_eq!(c.server_working_dir, Some("R5".to_string()));
    assert_eq!(c.log_file_path, Some(r"R5\Saved\Logs\R5.log".to_string()));
    assert_eq!(c.log_buffer_capacity, 500);
    assert_eq!(c.player_event_capacity, 200);
    assert_eq!(c.backup_dir, "backups");
    assert_eq!(c.schedule_restart_hour, 4);
    assert_eq!(c.auth_session_ttl_secs, 43200);
    assert_eq!(CONFIG_FILENAME, "windrose-server-manager.json");
}

#[test]
fn default_functions() {
    assert_eq!(default_schedule_hour(), 4);
    assert_eq!(default_warning_seconds(), 60);
    assert_eq!(default_tls_port(), 8443);
    assert_eq!(default_http_redirect_port(), 8787);
    assert_eq!(default_auth_session_ttl_secs(), 12 * 60 * 60);
    assert_eq!(default_auth_invite_ttl_hours(), 24 * 7);
    assert_eq!(default_auth_reset_ttl_minutes(), 30);
    assert_eq!(default_auth_max_failed_logins(), 5);
    assert_eq!(default_auth_lockout_minutes(), 15);
    assert_eq!(default_audit_retention_days(), 30);
}

#[test]
fn socket_addresses() {
    let mut c = AppConfig::default();
    assert_eq!(c.socket_addr(), "127.0.0.1:8787");
    assert_eq!(c.tls_socket_addr(), "127.0.0.1:8443");
    assert_eq!(c.http_redirect_socket_addr(), "127.0.0.1:8787");
    c.tls_bind_address = Some("0.0.0.0".to_string());
    c.tls_port = 443;
    assert_eq!(c.tls_socket_addr(), "0.0.0.0:443");
    c.port = 0;
    assert_eq!(c.socket_addr(), "127.0.0.1:0");
}

#[test]
fn update_checks_follow_url() {
    let mut c = AppConfig::default();
    assert!(c.update_checks_enabled());
    c.update_check_url = String::new();
    assert!(!c.update_checks_enabled());
}

#[test]
fn setup_apply_merges_and_clears() {
    let mut c = AppConfig::default();
    c.apply_setup(SetupApply {
        bind_address: Some("0.0.0.0".to_string()),
        port: None,
        server_executable: Some(String::new()),
        server_working_dir: Some("C:\\srv\\R5".to_string()),
        log_file_path: None,
        server_args: Some(vec!["-log".to_string()]),
    });
    assert_eq!(c.bind_address, "0.0.0.0");
    assert_eq!(c.port, 8787);
    assert_eq!(c.server_executable, None);
    assert_eq!(c.server_working_dir, Some("C:\\srv\\R5".to_string()));
    assert_eq!(c.log_file_path, Some(r"R5\Saved\Logs\R5.log".to_string()));
    assert_eq!(c.server_args, vec!["-log".to_string()]);
}

#[test]
fn schedule_settings_round_trip() {
    let mut c = AppConfig::default();
    let s = ScheduleConfig { enabled: true, restart_hour: 6, restart_minute: 15, warning_seconds: 120 };
    c.set_schedule(s);
    assert_eq!(c.schedule_config(), s);
    let a = c.auth_settings();
    assert_eq!(a.session_ttl_secs, 43200);
    assert_eq!(a.max_failed_logins, 5);
    assert_eq!(a.lockout_minutes, 15);
}

#[test]
fn setup_status_reports_detection() {
    let st = setup_status(AppConfig::default(), false, Some(DetectedServer {
        executable: "C:\\w\\WindroseServer.exe".to_string(),
        working_dir: "C:\\w\\R5".to_string(),
        log_file_path: "C:\\w\\R5\\Saved\\Logs\\R5.log".to_string(),
    }));
    assert!(st.needs_setup);
    assert_eq!(st.detected_executable, Some("C:\\w\\WindroseServer.exe".to_string()));
    assert_eq!(st.detected_working_dir, Some("C:\\w\\R5".to_string()));
    let st = setup_status(AppConfig::default(), true, None);
    assert!(!st.needs_setup);
    assert_eq!(st.detected_log_file, None);
}
