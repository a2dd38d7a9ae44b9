//! Application configuration: the settings, their defaults, and the changes
//! that the setup wizard and the schedule editor make to them.
use vstd::prelude::*;
use crate::text::opt_chars;
use crate::accounts::AuthSettings;
use crate::schedule::ScheduleConfig;
use crate::install::DetectedServer;
use crate::text::{concat, decimal, push_decimal, push_str};

verus! {

broadcast use vstd::string::group_string_axioms;

/// Name of the configuration file kept next to the manager's binary.
pub const CONFIG_FILENAME: &'static str = "windrose-server-manager.json";

/// Top-level configuration of the manager. Paths are held as text.
#[derive(Debug, Clone)]
pub struct AppConfig {
    /// Address the HTTP server binds to (`0.0.0.0` accepts remote clients).
    pub bind_address: String,
    pub port: u16,
    pub tls_enabled: bool,
    /// Address for HTTPS; `bind_address` when absent.
    pub tls_bind_address: Option<String>,
    pub tls_port: u16,
    pub tls_cert_path: Option<String>,
    pub tls_key_path: Option<String>,
    /// Whether a plain-HTTP listener redirects to HTTPS.
    pub http_redirect_enabled: bool,
    pub http_redirect_port: u16,
    /// Origins browsers may call the API from; empty means any.
    pub trusted_origins: Vec<String>,
    pub server_executable: Option<String>,
    pub server_args: Vec<String>,
    pub server_working_dir: Option<String>,
    pub log_file_path: Option<String>,
    pub log_buffer_capacity: usize,
    pub server_stop_timeout_secs: u64,
    pub player_event_capacity: usize,
    pub backup_dir: String,
    pub history_file_path: Option<String>,
    /// Release feed checked for updates; empty disables update checks.
    pub update_check_url: String,
    pub schedule_enabled: bool,
    pub schedule_restart_hour: u8,
    pub schedule_restart_minute: u8,
    pub schedule_warning_seconds: u64,
    pub auth_session_ttl_secs: i64,
    pub auth_invite_ttl_hours: i64,
    pub auth_reset_ttl_minutes: i64,
    pub auth_max_failed_logins: i64,
    pub auth_lockout_minutes: i64,
    pub audit_retention_days: i64,
}

/// Default hour of the scheduled restart.
pub fn default_schedule_hour() -> (r: u8)
    ensures
        r == 4,
{
    4
}

/// Default warning countdown before a scheduled restart.
pub fn default_warning_seconds() -> (r: u64)
    ensures
        r == 60,
{
    60
}

/// Default HTTPS port.
pub fn default_tls_port() -> (r: u16)
    ensures
        r == 8443,
{
    8443
}

/// Default port of the HTTP redirect listener.
pub fn default_http_redirect_port() -> (r: u16)
    ensures
        r == 8787,
{
    8787
}

/// Default session lifetime: twelve hours.
pub fn default_auth_session_ttl_secs() -> (r: i64)
    ensures
        r == 43200,
{
    12 * 60 * 60
}

/// Default invite lifetime: a week.
pub fn default_auth_invite_ttl_hours() -> (r: i64)
    ensures
        r == 168,
{
    24 * 7
}

/// Default reset-code lifetime.
pub fn default_auth_reset_ttl_minutes() -> (r: i64)
    ensures
        r == 30,
{
    30
}

/// Default number of failed logins before a lockout.
pub fn default_auth_max_failed_logins() -> (r: i64)
    ensures
        r == 5,
{
    5
}

/// Default lockout duration.
pub fn default_auth_lockout_minutes() -> (r: i64)
    ensures
        r == 15,
{
    15
}

/// Default audit-log retention.
pub fn default_audit_retention_days() -> (r: i64)
    ensures
        r == 30,
{
    30
}

impl Default for AppConfig {
    /// Settings for the standard server layout, bound to localhost.
    fn default() -> (r: Self)
        ensures
            r.bind_address@ == "127.0.0.1"@,
            r.port == 8787,
            !r.tls_enabled,
            r.tls_bind_address is None,
            r.tls_port == 8443,
            r.tls_cert_path is None,
            r.tls_key_path is None,
            !r.http_redirect_enabled,
            r.http_redirect_port == 8787,
            r.trusted_origins@.len() == 0,
            r.server_executable matches Some(p) && p@ == "WindroseServer.exe"@,
            r.server_args@.len() == 0,
            r.server_working_dir matches Some(p) && p@ == "R5"@,
            r.log_file_path matches Some(p) && p@ == "R5\\Saved\\Logs\\R5.log"@,
            r.log_buffer_capacity == 500,
            r.server_stop_timeout_secs == 15,
            r.player_event_capacity == 200,
            r.backup_dir@ == "backups"@,
            r.history_file_path is None,
            r.update_check_url@
                == "https://api.github.com/repos/Rustbeard86/windrose-server-manager/releases/latest"@,
            !r.schedule_enabled,
            r.schedule_restart_hour == 4,
            r.schedule_restart_minute == 0,
            r.schedule_warning_seconds == 60,
            r.auth_session_ttl_secs == 43200,
            r.auth_invite_ttl_hours == 168,
            r.auth_reset_ttl_minutes == 30,
            r.auth_max_failed_logins == 5,
            r.auth_lockout_minutes == 15,
            r.audit_retention_days == 30,
    {
        AppConfig {
            bind_address: "127.0.0.1".to_string(),
            port: 8787,
            tls_enabled: false,
            tls_bind_address: None,
            tls_port: 8443,
            tls_cert_path: None,
            tls_key_path: None,
            http_redirect_enabled: false,
            http_redirect_port: 8787,
            trusted_origins: Vec::new(),
            server_executable: Some("WindroseServer.exe".to_string()),
            server_args: Vec::new(),
            server_working_dir: Some("R5".to_string()),
            log_file_path: Some("R5\\Saved\\Logs\\R5.log".to_string()),
            log_buffer_capacity: 500,
            server_stop_timeout_secs: 15,
            player_event_capacity: 200,
            backup_dir: "backups".to_string(),
            history_file_path: None,
            update_check_url: "https://api.github.com/repos/Rustbeard86/windrose-server-manager/releases/latest".to_string(),
            schedule_enabled: false,
            schedule_restart_hour: 4,
            schedule_restart_minute: 0,
            schedule_warning_seconds: 60,
            auth_session_ttl_secs: 12 * 60 * 60,
            auth_invite_ttl_hours: 24 * 7,
            auth_reset_ttl_minutes: 30,
            auth_max_failed_logins: 5,
            auth_lockout_minutes: 15,
            audit_retention_days: 30,
        }
    }
}

/// `host:port`.
pub open spec fn host_port(host: Seq<char>, port: u16) -> Seq<char> {
    host + ":"@ + decimal(port as nat)
}

fn join_host_port(host: &str, port: u16) -> (r: String)
    ensures
        r@ == host_port(host@, port),
{
    let mut s = String::new();
    push_str(&mut s, host);
    push_str(&mut s, ":");
    push_decimal(&mut s, port as u64);
    assert(s@ =~= host_port(host@, port));
    s
}

impl AppConfig {
    /// Address of the HTTP listener, e.g. `127.0.0.1:8787`.
    pub fn socket_addr(&self) -> (r: String)
        ensures
            r@ == host_port(self.bind_address@, self.port),
    {
        join_host_port(self.bind_address.as_str(), self.port)
    }

    /// Address of the HTTPS listener.
    pub fn tls_socket_addr(&self) -> (r: String)
        ensures
            r@ == host_port(
                match self.tls_bind_address {
                    Some(a) => a@,
                    None => self.bind_address@,
                },
                self.tls_port,
            ),
    {
        let bind = match &self.tls_bind_address {
            Some(a) => a.as_str(),
            None => self.bind_address.as_str(),
        };
        join_host_port(bind, self.tls_port)
    }

    /// Address of the HTTP redirect listener.
    pub fn http_redirect_socket_addr(&self) -> (r: String)
        ensures
            r@ == host_port(self.bind_address@, self.http_redirect_port),
    {
        join_host_port(self.bind_address.as_str(), self.http_redirect_port)
    }

    /// Whether update checks are enabled (a release feed is configured).
    pub fn update_checks_enabled(&self) -> (r: bool)
        ensures
            r == (self.update_check_url@.len() > 0),
    {
        !self.update_check_url.as_str().is_empty()
    }

    /// The account-store limits configured.
    pub fn auth_settings(&self) -> (r: AuthSettings)
        ensures
            r.session_ttl_secs == self.auth_session_ttl_secs,
            r.max_failed_logins == self.auth_max_failed_logins,
            r.lockout_minutes == self.auth_lockout_minutes,
    {
        AuthSettings {
            session_ttl_secs: self.auth_session_ttl_secs,
            max_failed_logins: self.auth_max_failed_logins,
            lockout_minutes: self.auth_lockout_minutes,
        }
    }

    /// The scheduled-restart settings configured.
    pub fn schedule_config(&self) -> (r: ScheduleConfig)
        ensures
            r.enabled == self.schedule_enabled,
            r.restart_hour == self.schedule_restart_hour,
            r.restart_minute == self.schedule_restart_minute,
            r.warning_seconds == self.schedule_warning_seconds,
    {
        ScheduleConfig {
            enabled: self.schedule_enabled,
            restart_hour: self.schedule_restart_hour,
            restart_minute: self.schedule_restart_minute,
            warning_seconds: self.schedule_warning_seconds,
        }
    }

    /// Stores new scheduled-restart settings; nothing else changes.
    pub fn set_schedule(&mut self, cfg: ScheduleConfig)
        ensures
            *final(self) == (AppConfig {
                schedule_enabled: cfg.enabled,
                schedule_restart_hour: cfg.restart_hour,
                schedule_restart_minute: cfg.restart_minute,
                schedule_warning_seconds: cfg.warning_seconds,
                ..*old(self)
            }),
    {
        self.schedule_enabled = cfg.enabled;
        self.schedule_restart_hour = cfg.restart_hour;
        self.schedule_restart_minute = cfg.restart_minute;
        self.schedule_warning_seconds = cfg.warning_seconds;
    }
}

/// Partial settings sent by the setup wizard; absent fields are left alone.
pub struct SetupApply {
    pub bind_address: Option<String>,
    pub port: Option<u16>,
    pub server_executable: Option<String>,
    pub server_working_dir: Option<String>,
    pub log_file_path: Option<String>,
    pub server_args: Option<Vec<String>>,
}

/// A path from the setup wizard: an empty string clears it.
pub open spec fn path_setting(v: String) -> Option<String> {
    if v@.len() == 0 {
        None
    } else {
        Some(v)
    }
}

fn path_from_setup(v: String) -> (r: Option<String>)
    ensures
        r == path_setting(v),
{
    if v.as_str().is_empty() {
        None
    } else {
        Some(v)
    }
}

impl AppConfig {
    /// Applies the setup wizard's settings: given fields replace the current
    /// ones, an empty path clears that path, and all other settings stay.
    pub fn apply_setup(&mut self, req: SetupApply)
        ensures
            *final(self) == (AppConfig {
                bind_address: match req.bind_address {
                    Some(v) => v,
                    None => old(self).bind_address,
                },
                port: match req.port {
                    Some(v) => v,
                    None => old(self).port,
                },
                server_executable: match req.server_executable {
                    Some(v) => path_setting(v),
                    None => old(self).server_executable,
                },
                server_working_dir: match req.server_working_dir {
                    Some(v) => path_setting(v),
                    None => old(self).server_working_dir,
                },
                log_file_path: match req.log_file_path {
                    Some(v) => path_setting(v),
                    None => old(self).log_file_path,
                },
                server_args: match req.server_args {
                    Some(v) => v,
                    None => old(self).server_args,
                },
                ..*old(self)
            }),
    {
        if let Some(v) = req.bind_address {
            self.bind_address = v;
        }
        if let Some(v) = req.port {
            self.port = v;
        }
        if let Some(v) = req.server_executable {
            self.server_executable = path_from_setup(v);
        }
        if let Some(v) = req.server_working_dir {
            self.server_working_dir = path_from_setup(v);
        }
        if let Some(v) = req.log_file_path {
            self.log_file_path = path_from_setup(v);
        }
        if let Some(v) = req.server_args {
            self.server_args = v;
        }
    }
}

/// What the setup wizard is shown: whether setup is needed (the configured
/// executable does not exist), the configuration, and any server found near
/// the manager.
pub struct SetupStatus {
    pub needs_setup: bool,
    pub config: AppConfig,
    pub detected_executable: Option<String>,
    pub detected_working_dir: Option<String>,
    pub detected_log_file: Option<String>,
}

/// The setup status, given whether the configured executable exists and what
/// detection found.
pub fn setup_status(config: AppConfig, executable_exists: bool, detected: Option<DetectedServer>) -> (r:
    SetupStatus)
    ensures
        r.needs_setup == !executable_exists,
        r.config == config,
        match detected {
            Some(d) => r.detected_executable == Some(d.executable) && r.detected_working_dir == Some(
                d.working_dir,
            ) && r.detected_log_file == Some(d.log_file_path),
            None => r.detected_executable is None && r.detected_working_dir is None
                && r.detected_log_file is None,
        },
{
    let (detected_executable, detected_working_dir, detected_log_file) = match detected {
        Some(d) => (Some(d.executable), Some(d.working_dir), Some(d.log_file_path)),
        None => (None, None, None),
    };
    SetupStatus {
        needs_setup: !executable_exists,
        config,
        detected_executable,
        detected_working_dir,
        detected_log_file,
    }
}

} // verus!
