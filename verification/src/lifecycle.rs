//! Lifecycle of the managed game server: the states it passes through when
//! started, stopped or restarted, and what the liveness monitor concludes.
use vstd::prelude::*;
use crate::clock::{elapsed_secs, seconds_between, Timestamp};
use crate::text::concat;

verus! {

broadcast use vstd::string::group_string_axioms;

/// Lifecycle state of the managed server process.
#[derive(Clone, Copy, Debug, PartialEq, Eq, Structural)]
pub enum ServerStatus {
    Stopped,
    Starting,
    Running,
    Stopping,
    Crashed,
}

/// What the manager knows of the server process.
#[derive(Clone, Copy, Debug, PartialEq, Eq, Structural)]
pub struct ServerInfo {
    pub status: ServerStatus,
    pub pid: Option<u32>,
    pub uptime_seconds: Option<u64>,
    pub started_at: Option<Timestamp>,
}

impl ServerInfo {
    /// A stopped server.
    pub fn stopped() -> (r: Self)
        ensures
            r == (ServerInfo {
                status: ServerStatus::Stopped,
                pid: None,
                uptime_seconds: None,
                started_at: None,
            }),
    {
        ServerInfo { status: ServerStatus::Stopped, pid: None, uptime_seconds: None, started_at: None }
    }
}

/// The name of a status as `Debug` writes it.
pub open spec fn status_name(s: ServerStatus) -> Seq<char> {
    match s {
        ServerStatus::Stopped => "Stopped"@,
        ServerStatus::Starting => "Starting"@,
        ServerStatus::Running => "Running"@,
        ServerStatus::Stopping => "Stopping"@,
        ServerStatus::Crashed => "Crashed"@,
    }
}

/// The name of a status as `Debug` writes it.
pub fn status_label(s: ServerStatus) -> (r: &'static str)
    ensures
        r@ == status_name(s),
{
    match s {
        ServerStatus::Stopped => "Stopped",
        ServerStatus::Starting => "Starting",
        ServerStatus::Running => "Running",
        ServerStatus::Stopping => "Stopping",
        ServerStatus::Crashed => "Crashed",
    }
}

fn refusal(status: ServerStatus, action: &str) -> (r: String)
    ensures
        r@ == "Server is already "@ + status_name(status) + "; cannot "@ + action@,
{
    let a = concat("Server is already ", status_label(status));
    let b = concat(a.as_str(), "; cannot ");
    let r = concat(b.as_str(), action);
    assert(r@ =~= "Server is already "@ + status_name(status) + "; cannot "@ + action@);
    r
}

/// The states a start passes through.
pub open spec fn start_states(now: Timestamp) -> Seq<ServerInfo> {
    seq![
        ServerInfo { status: ServerStatus::Starting, pid: None, uptime_seconds: None, started_at: None },
        ServerInfo {
            status: ServerStatus::Running,
            pid: Some(0),
            uptime_seconds: Some(0),
            started_at: Some(now),
        },
    ]
}

/// The states a stop passes through.
pub open spec fn stop_states(current: ServerInfo) -> Seq<ServerInfo> {
    seq![
        ServerInfo { status: ServerStatus::Stopping, ..current },
        ServerInfo { status: ServerStatus::Stopped, pid: None, uptime_seconds: None, started_at: None },
    ]
}

/// Starts the server unless it is already running or starting; on success
/// yields the states to publish, in order.
pub fn plan_start(current: ServerInfo, now: Timestamp) -> (r: Result<Vec<ServerInfo>, String>)
    ensures
        current.status == ServerStatus::Running || current.status == ServerStatus::Starting ==> r
            is Err && r->Err_0@ == "Server is already "@ + status_name(current.status)
            + "; cannot start"@,
        !(current.status == ServerStatus::Running || current.status == ServerStatus::Starting)
            ==> r is Ok && r->Ok_0@ == start_states(now),
{
    if current.status == ServerStatus::Running || current.status == ServerStatus::Starting {
        proof {
            reveal_strlit("; cannot ");
            reveal_strlit("start");
            reveal_strlit("; cannot start");
            assert("; cannot "@ + "start"@ =~= "; cannot start"@);
        }
        return Err(refusal(current.status, "start"));
    }
    let mut states: Vec<ServerInfo> = Vec::new();
    states.push(
        ServerInfo { status: ServerStatus::Starting, pid: None, uptime_seconds: None, started_at: None },
    );
    states.push(
        ServerInfo {
            status: ServerStatus::Running,
            pid: Some(0),
            uptime_seconds: Some(0),
            started_at: Some(now),
        },
    );
    assert(states@ =~= start_states(now));
    Ok(states)
}

/// Stops the server unless it is already stopped or stopping; on success
/// yields the states to publish, in order.
pub fn plan_stop(current: ServerInfo) -> (r: Result<Vec<ServerInfo>, String>)
    ensures
        current.status == ServerStatus::Stopped || current.status == ServerStatus::Stopping ==> r
            is Err && r->Err_0@ == "Server is already "@ + status_name(current.status)
            + "; cannot stop"@,
        !(current.status == ServerStatus::Stopped || current.status == ServerStatus::Stopping)
            ==> r is Ok && r->Ok_0@ == stop_states(current),
{
    if current.status == ServerStatus::Stopped || current.status == ServerStatus::Stopping {
        proof {
            reveal_strlit("; cannot ");
            reveal_strlit("stop");
            reveal_strlit("; cannot stop");
            assert("; cannot "@ + "stop"@ =~= "; cannot stop"@);
        }
        return Err(refusal(current.status, "stop"));
    }
    let mut states: Vec<ServerInfo> = Vec::new();
    states.push(ServerInfo { status: ServerStatus::Stopping, ..current });
    states.push(ServerInfo::stopped());
    assert(states@ =~= stop_states(current));
    Ok(states)
}

/// Restarts the server: a stop followed by a start. A restart is refused
/// while the server is starting or stopping, and (as a stop is) while it is
/// stopped.
pub fn plan_restart(current: ServerInfo, now: Timestamp) -> (r: Result<Vec<ServerInfo>, String>)
    ensures
        current.status == ServerStatus::Starting ==> r is Err && r->Err_0@
            == "Server is already Starting; cannot restart"@,
        current.status == ServerStatus::Stopped || current.status == ServerStatus::Stopping ==> r
            is Err && r->Err_0@ == "Server is already "@ + status_name(current.status)
            + "; cannot stop"@,
        current.status == ServerStatus::Running || current.status == ServerStatus::Crashed ==> r
            is Ok && r->Ok_0@ == stop_states(current) + start_states(now),
{
    if current.status == ServerStatus::Starting {
        proof {
            reveal_strlit("Server is already ");
            reveal_strlit("Starting");
            reveal_strlit("; cannot ");
            reveal_strlit("restart");
            reveal_strlit("Server is already Starting; cannot restart");
            assert("Server is already "@ + "Starting"@ + "; cannot "@ + "restart"@
                =~= "Server is already Starting; cannot restart"@);
        }
        return Err(refusal(current.status, "restart"));
    }
    let mut states = plan_stop(current)?;
    let mut started = plan_start(ServerInfo::stopped(), now)?;
    states.append(&mut started);
    Ok(states)
}

/// A restart of a running or crashed server always ends with it running,
/// started at the time of the restart.
pub proof fn law_restart_ends_running(current: ServerInfo, now: Timestamp)
    requires
        current.status == ServerStatus::Running || current.status == ServerStatus::Crashed,
    ensures
        ({
            let s = stop_states(current) + start_states(now);
            &&& s.len() == 4
            &&& s[0].status == ServerStatus::Stopping
            &&& s[1].status == ServerStatus::Stopped
            &&& s.last().status == ServerStatus::Running
            &&& s.last().started_at == Some(now)
        }),
{
}

/// After a stop the server can always be started again.
pub proof fn law_stop_then_start(current: ServerInfo, now: Timestamp)
    requires
        !(current.status == ServerStatus::Stopped || current.status == ServerStatus::Stopping),
    ensures
        stop_states(current).last().status == ServerStatus::Stopped,
        !(stop_states(current).last().status == ServerStatus::Running
            || stop_states(current).last().status == ServerStatus::Starting),
        start_states(now).last().status == ServerStatus::Running,
{
}

// ---------------------------------------------------------------------------
// Liveness monitor
// ---------------------------------------------------------------------------

/// The process the monitor should look for: while the server is running,
/// starting or stopping and its PID is known.
pub fn monitored_pid(current: ServerInfo) -> (r: Option<u32>)
    ensures
        r == (if current.status == ServerStatus::Running || current.status
            == ServerStatus::Starting || current.status == ServerStatus::Stopping {
            current.pid
        } else {
            None
        }),
{
    match current.status {
        ServerStatus::Running | ServerStatus::Starting | ServerStatus::Stopping => current.pid,
        _ => None,
    }
}

/// What the monitor does after looking for the process.
#[derive(Debug, PartialEq, Eq, Structural)]
pub enum MonitorAction {
    /// The process is alive: publish this state (absent while stopping) and
    /// reload the server configuration.
    Alive(Option<ServerInfo>),
    /// The process is gone: forget it, remove the PID file, clear players
    /// and stats, and publish this state.
    Exited(ServerInfo),
}

/// Uptime at `now` of a server started at `started`.
pub open spec fn uptime_at(started: Option<Timestamp>, now: Timestamp) -> Option<u64> {
    match started {
        Some(s) => Some(
            if seconds_between(s, now) > 0 {
                seconds_between(s, now) as u64
            } else {
                0
            },
        ),
        None => None,
    }
}

/// The monitor's conclusion about process `pid` of a server in state
/// `current`: a live process of a running or starting server is running, with
/// its uptime refreshed; a process that is gone stopped if a stop was under
/// way, and crashed otherwise.
pub fn monitor_outcome(current: ServerInfo, pid: u32, alive: bool, now: Timestamp) -> (r:
    MonitorAction)
    requires
        now.nanos < 1_000_000_000,
        current.started_at matches Some(s) ==> s.nanos < 1_000_000_000,
    ensures
        alive && (current.status == ServerStatus::Running || current.status
            == ServerStatus::Starting) ==> r == MonitorAction::Alive(
            Some(
                ServerInfo {
                    status: ServerStatus::Running,
                    pid: Some(pid),
                    uptime_seconds: uptime_at(current.started_at, now),
                    started_at: current.started_at,
                },
            ),
        ),
        alive && !(current.status == ServerStatus::Running || current.status
            == ServerStatus::Starting) ==> r == MonitorAction::Alive(None),
        !alive ==> r == MonitorAction::Exited(
            ServerInfo {
                status: if current.status == ServerStatus::Stopping {
                    ServerStatus::Stopped
                } else {
                    ServerStatus::Crashed
                },
                pid: None,
                uptime_seconds: current.uptime_seconds,
                started_at: current.started_at,
            },
        ),
{
    if alive {
        if current.status == ServerStatus::Running || current.status == ServerStatus::Starting {
            let uptime = match current.started_at {
                Some(s) => Some(elapsed_secs(s, now)),
                None => None,
            };
            MonitorAction::Alive(
                Some(
                    ServerInfo {
                        status: ServerStatus::Running,
                        pid: Some(pid),
                        uptime_seconds: uptime,
                        started_at: current.started_at,
                    },
                ),
            )
        } else {
            MonitorAction::Alive(None)
        }
    } else {
        let status = if current.status == ServerStatus::Stopping {
            ServerStatus::Stopped
        } else {
            ServerStatus::Crashed
        };
        MonitorAction::Exited(
            ServerInfo {
                status,
                pid: None,
                uptime_seconds: current.uptime_seconds,
                started_at: current.started_at,
            },
        )
    }
}

/// The state taken on when a PID file from an earlier session names a
/// process: the server is running under that PID.
pub fn adopted(pid: u32) -> (r: ServerInfo)
    ensures
        r == (ServerInfo {
            status: ServerStatus::Running,
            pid: Some(pid),
            uptime_seconds: None,
            started_at: None,
        }),
{
    ServerInfo { status: ServerStatus::Running, pid: Some(pid), uptime_seconds: None, started_at: None }
}

} // verus!
