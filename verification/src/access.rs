//! Access control for the HTTP API: which routes are public, which permission
//! each route needs, session and CSRF cookies, and the decisions of the
//! authentication layer that sits in front of every route.
use vstd::prelude::*;
use crate::text::opt_chars;
use vstd::utf8::encode_utf8;
use crate::accounts::{clamp, AuthUser};
use crate::crypto::{
    hash_token, hex_lower, is_ascii_alphanumeric, is_hex_digit, is_token_of_len, lemma_hex_lower,
    sha256_digest, token_digest,
};
use crate::text::{
    chars_eq, chars_eq_str, chars_of, concat, decimal_int, find_char_from, find_from, has_prefix,
    lemma_find_from, lemma_find_from_at, lemma_find_from_none, lemma_trim_unchanged, is_ws,
    trim_start,
    push_decimal_i64, push_str, starts_with, string_from_range, trim, trim_bounds, trimmed,
};

verus! {

broadcast use vstd::string::group_string_axioms;

/// Name of the session cookie.
pub const SESSION_COOKIE: &'static str = "wsm_session";

/// Name of the CSRF cookie.
pub const CSRF_COOKIE: &'static str = "wsm_csrf";

/// Header that carries the CSRF token.
pub const CSRF_HEADER: &'static str = "x-csrf-token";

/// Header accepted in place of `x-csrf-token`.
pub const XSRF_HEADER: &'static str = "x-xsrf-token";

/// Permission to view the dashboard, logs, players and configuration.
pub const PERM_VIEW_DASHBOARD: i64 = 1;

/// Permission to start, stop and command the server.
pub const PERM_MANAGE_SERVER: i64 = 2;

/// Permission to change configuration.
pub const PERM_MANAGE_CONFIG: i64 = 4;

/// Permission to create backups.
pub const PERM_MANAGE_BACKUPS: i64 = 8;

/// Permission to install server files.
pub const PERM_MANAGE_INSTALL: i64 = 16;

/// Permission to check for and apply updates.
pub const PERM_MANAGE_UPDATES: i64 = 32;

/// Permission to change the restart schedule.
pub const PERM_MANAGE_SCHEDULE: i64 = 64;

/// Permission to manage users, invites, reset codes and the audit log.
pub const PERM_MANAGE_USERS: i64 = 128;

// ---------------------------------------------------------------------------
// Routes and permissions
// ---------------------------------------------------------------------------

/// Routes reachable without a session.
pub open spec fn public_route(p: Seq<char>) -> bool {
    p == "/api/health"@ || p == "/api/setup/status"@ || p == "/api/auth/status"@ || p
        == "/api/auth/bootstrap"@ || p == "/api/auth/login"@ || p == "/api/auth/logout"@ || p
        == "/api/auth/register"@ || p == "/api/auth/reset-password"@ || p == "/"@
}

/// Routes that need no CSRF token even for state-changing methods.
pub open spec fn csrf_exempt_route(p: Seq<char>) -> bool {
    p == "/api/auth/login"@ || p == "/api/auth/bootstrap"@ || p == "/api/auth/register"@ || p
        == "/api/auth/reset-password"@ || p == "/api/auth/logout"@
}

/// Methods that change state and so need a CSRF token.
pub open spec fn csrf_protected_method(m: Seq<char>) -> bool {
    !(m == "GET"@ || m == "HEAD"@ || m == "OPTIONS"@)
}

/// The permission bit a route needs.
pub open spec fn required_permission(m: Seq<char>, p: Seq<char>) -> i64 {
    if p == "/ws"@ {
        PERM_VIEW_DASHBOARD
    } else if p == "/api/state"@ || p == "/api/logs"@ || p == "/api/players"@ || p
        == "/api/history/players"@ || p == "/api/server/stats"@ {
        PERM_VIEW_DASHBOARD
    } else if starts_with(p, "/api/server/"@) {
        PERM_MANAGE_SERVER
    } else if starts_with(p, "/api/config/"@) {
        if m == "GET"@ {
            PERM_VIEW_DASHBOARD
        } else {
            PERM_MANAGE_CONFIG
        }
    } else if starts_with(p, "/api/setup/"@) {
        PERM_MANAGE_CONFIG
    } else if p == "/api/backup"@ && m == "GET"@ {
        PERM_VIEW_DASHBOARD
    } else if starts_with(p, "/api/backup/"@) {
        PERM_MANAGE_BACKUPS
    } else if p == "/api/schedule"@ && m == "GET"@ {
        PERM_VIEW_DASHBOARD
    } else if starts_with(p, "/api/schedule"@) {
        PERM_MANAGE_SCHEDULE
    } else if p == "/api/install"@ && m == "GET"@ {
        PERM_VIEW_DASHBOARD
    } else if starts_with(p, "/api/install/"@) {
        PERM_MANAGE_INSTALL
    } else if p == "/api/update"@ && m == "GET"@ {
        PERM_VIEW_DASHBOARD
    } else if starts_with(p, "/api/update/"@) {
        PERM_MANAGE_UPDATES
    } else if p == "/api/auth/me"@ {
        PERM_VIEW_DASHBOARD
    } else if p == "/api/auth/users"@ || starts_with(p, "/api/auth/users/"@) || p
        == "/api/auth/invites"@ || p == "/api/auth/reset-code"@ || p == "/api/auth/audit"@ {
        PERM_MANAGE_USERS
    } else {
        PERM_VIEW_DASHBOARD
    }
}

/// A user holds a permission: administrators hold every permission, others
/// hold the bits set in their flags.
pub open spec fn permits(user: AuthUser, required: i64) -> bool {
    user.is_admin || (user.permission_flags & required) == required
}

/// Administrators may make every request, whatever their flags.
pub proof fn law_admin_permitted_everywhere(user: AuthUser, method: Seq<char>, path: Seq<char>)
    requires
        user.is_admin,
    ensures
        permits(user, required_permission(method, path)),
{
}

/// Two texts that differ at a position both reach are different, and the
/// first does not start with the second.
proof fn lemma_differ_at(p: Seq<char>, q: Seq<char>, i: int)
    requires
        0 <= i < p.len(),
        i < q.len(),
        p[i] != q[i],
    ensures
        p != q,
        !starts_with(p, q),
{
    if starts_with(p, q) {
        assert(p.take(q.len() as int)[i] == q[i]);
    }
}

/// The routes that show the dashboard's data: the schedule, the backup,
/// install and update status, the state, logs and players, the caller's own
/// account, and every configuration file.
pub open spec fn dashboard_read_route(path: Seq<char>) -> bool {
    ||| path == "/api/backup"@
    ||| path == "/api/schedule"@
    ||| path == "/api/install"@
    ||| path == "/api/update"@
    ||| path == "/api/state"@
    ||| path == "/api/logs"@
    ||| path == "/api/players"@
    ||| path == "/api/auth/me"@
    ||| starts_with(path, "/api/config/"@)
}

/// Reading the dashboard needs only the view permission: any user holding
/// the view bit may `GET` the schedule, the backup, install and update
/// status, the state, logs, players, their own account and every
/// configuration file. Changing the schedule (any other method) needs the
/// schedule bit, so a viewer without it is refused.
pub proof fn law_viewers_may_read(user: AuthUser, path: Seq<char>, method: Seq<char>)
    ensures
        dashboard_read_route(path) ==> required_permission("GET"@, path) == PERM_VIEW_DASHBOARD,
        dashboard_read_route(path) && (user.permission_flags & PERM_VIEW_DASHBOARD)
            == PERM_VIEW_DASHBOARD ==> permits(user, required_permission("GET"@, path)),
        method != "GET"@ ==> required_permission(method, "/api/schedule"@) == PERM_MANAGE_SCHEDULE,
        !user.is_admin && (user.permission_flags & PERM_MANAGE_SCHEDULE) == 0 && method != "GET"@
            ==> !permits(user, required_permission(method, "/api/schedule"@)),
{
    reveal_strlit("/ws");
    reveal_strlit("/api/state");
    reveal_strlit("/api/logs");
    reveal_strlit("/api/players");
    reveal_strlit("/api/history/players");
    reveal_strlit("/api/server/stats");
    reveal_strlit("/api/server/");
    reveal_strlit("/api/config/");
    reveal_strlit("/api/setup/");
    reveal_strlit("/api/backup");
    reveal_strlit("/api/backup/");
    reveal_strlit("/api/schedule");
    reveal_strlit("/api/install");
    reveal_strlit("/api/install/");
    reveal_strlit("/api/update");
    reveal_strlit("/api/update/");
    reveal_strlit("/api/auth/me");
    reveal_strlit("/api/auth/users");
    reveal_strlit("/api/auth/users/");
    reveal_strlit("/api/auth/invites");
    reveal_strlit("/api/auth/reset-code");
    reveal_strlit("/api/auth/audit");
    reveal_strlit("GET");
    lemma_differ_at("/api/backup"@, "/ws"@, 1);
    lemma_differ_at("/api/backup"@, "/api/state"@, 5);
    lemma_differ_at("/api/backup"@, "/api/logs"@, 5);
    lemma_differ_at("/api/backup"@, "/api/players"@, 5);
    lemma_differ_at("/api/backup"@, "/api/history/players"@, 5);
    lemma_differ_at("/api/backup"@, "/api/server/stats"@, 5);
    lemma_differ_at("/api/backup"@, "/api/server/"@, 5);
    lemma_differ_at("/api/backup"@, "/api/config/"@, 5);
    lemma_differ_at("/api/backup"@, "/api/setup/"@, 5);
    lemma_differ_at("/api/backup"@, "/api/schedule"@, 5);
    lemma_differ_at("/api/backup"@, "/api/install"@, 5);
    lemma_differ_at("/api/backup"@, "/api/install/"@, 5);
    lemma_differ_at("/api/backup"@, "/api/update"@, 5);
    lemma_differ_at("/api/backup"@, "/api/update/"@, 5);
    lemma_differ_at("/api/backup"@, "/api/auth/me"@, 5);
    lemma_differ_at("/api/backup"@, "/api/auth/users"@, 5);
    lemma_differ_at("/api/backup"@, "/api/auth/users/"@, 5);
    lemma_differ_at("/api/backup"@, "/api/auth/invites"@, 5);
    lemma_differ_at("/api/backup"@, "/api/auth/reset-code"@, 5);
    lemma_differ_at("/api/backup"@, "/api/auth/audit"@, 5);
    lemma_differ_at("/api/schedule"@, "/ws"@, 1);
    lemma_differ_at("/api/schedule"@, "/api/state"@, 6);
    lemma_differ_at("/api/schedule"@, "/api/logs"@, 5);
    lemma_differ_at("/api/schedule"@, "/api/players"@, 5);
    lemma_differ_at("/api/schedule"@, "/api/history/players"@, 5);
    lemma_differ_at("/api/schedule"@, "/api/server/stats"@, 6);
    lemma_differ_at("/api/schedule"@, "/api/server/"@, 6);
    lemma_differ_at("/api/schedule"@, "/api/config/"@, 5);
    lemma_differ_at("/api/schedule"@, "/api/setup/"@, 6);
    lemma_differ_at("/api/schedule"@, "/api/backup"@, 5);
    lemma_differ_at("/api/schedule"@, "/api/backup/"@, 5);
    lemma_differ_at("/api/schedule"@, "/api/install"@, 5);
    lemma_differ_at("/api/schedule"@, "/api/install/"@, 5);
    lemma_differ_at("/api/schedule"@, "/api/update"@, 5);
    lemma_differ_at("/api/schedule"@, "/api/update/"@, 5);
    lemma_differ_at("/api/schedule"@, "/api/auth/me"@, 5);
    lemma_differ_at("/api/schedule"@, "/api/auth/users"@, 5);
    lemma_differ_at("/api/schedule"@, "/api/auth/users/"@, 5);
    lemma_differ_at("/api/schedule"@, "/api/auth/invites"@, 5);
    lemma_differ_at("/api/schedule"@, "/api/auth/reset-code"@, 5);
    lemma_differ_at("/api/schedule"@, "/api/auth/audit"@, 5);
    lemma_differ_at("/api/install"@, "/ws"@, 1);
    lemma_differ_at("/api/install"@, "/api/state"@, 5);
    lemma_differ_at("/api/install"@, "/api/logs"@, 5);
    lemma_differ_at("/api/install"@, "/api/players"@, 5);
    lemma_differ_at("/api/install"@, "/api/history/players"@, 5);
    lemma_differ_at("/api/install"@, "/api/server/stats"@, 5);
    lemma_differ_at("/api/install"@, "/api/server/"@, 5);
    lemma_differ_at("/api/install"@, "/api/config/"@, 5);
    lemma_differ_at("/api/install"@, "/api/setup/"@, 5);
    lemma_differ_at("/api/install"@, "/api/backup"@, 5);
    lemma_differ_at("/api/install"@, "/api/backup/"@, 5);
    lemma_differ_at("/api/install"@, "/api/schedule"@, 5);
    lemma_differ_at("/api/install"@, "/api/update"@, 5);
    lemma_differ_at("/api/install"@, "/api/update/"@, 5);
    lemma_differ_at("/api/install"@, "/api/auth/me"@, 5);
    lemma_differ_at("/api/install"@, "/api/auth/users"@, 5);
    lemma_differ_at("/api/install"@, "/api/auth/users/"@, 5);
    lemma_differ_at("/api/install"@, "/api/auth/invites"@, 5);
    lemma_differ_at("/api/install"@, "/api/auth/reset-code"@, 5);
    lemma_differ_at("/api/install"@, "/api/auth/audit"@, 5);
    lemma_differ_at("/api/update"@, "/ws"@, 1);
    lemma_differ_at("/api/update"@, "/api/state"@, 5);
    lemma_differ_at("/api/update"@, "/api/logs"@, 5);
    lemma_differ_at("/api/update"@, "/api/players"@, 5);
    lemma_differ_at("/api/update"@, "/api/history/players"@, 5);
    lemma_differ_at("/api/update"@, "/api/server/stats"@, 5);
    lemma_differ_at("/api/update"@, "/api/server/"@, 5);
    lemma_differ_at("/api/update"@, "/api/config/"@, 5);
    lemma_differ_at("/api/update"@, "/api/setup/"@, 5);
    lemma_differ_at("/api/update"@, "/api/backup"@, 5);
    lemma_differ_at("/api/update"@, "/api/backup/"@, 5);
    lemma_differ_at("/api/update"@, "/api/schedule"@, 5);
    lemma_differ_at("/api/update"@, "/api/install"@, 5);
    lemma_differ_at("/api/update"@, "/api/install/"@, 5);
    lemma_differ_at("/api/update"@, "/api/auth/me"@, 5);
    lemma_differ_at("/api/update"@, "/api/auth/users"@, 5);
    lemma_differ_at("/api/update"@, "/api/auth/users/"@, 5);
    lemma_differ_at("/api/update"@, "/api/auth/invites"@, 5);
    lemma_differ_at("/api/update"@, "/api/auth/reset-code"@, 5);
    lemma_differ_at("/api/update"@, "/api/auth/audit"@, 5);
    lemma_differ_at("/api/state"@, "/ws"@, 1);
    lemma_differ_at("/api/state"@, "/api/logs"@, 5);
    lemma_differ_at("/api/state"@, "/api/players"@, 5);
    lemma_differ_at("/api/state"@, "/api/history/players"@, 5);
    lemma_differ_at("/api/state"@, "/api/server/stats"@, 6);
    lemma_differ_at("/api/state"@, "/api/server/"@, 6);
    lemma_differ_at("/api/state"@, "/api/config/"@, 5);
    lemma_differ_at("/api/state"@, "/api/setup/"@, 6);
    lemma_differ_at("/api/state"@, "/api/backup"@, 5);
    lemma_differ_at("/api/state"@, "/api/backup/"@, 5);
    lemma_differ_at("/api/state"@, "/api/schedule"@, 6);
    lemma_differ_at("/api/state"@, "/api/install"@, 5);
    lemma_differ_at("/api/state"@, "/api/install/"@, 5);
    lemma_differ_at("/api/state"@, "/api/update"@, 5);
    lemma_differ_at("/api/state"@, "/api/update/"@, 5);
    lemma_differ_at("/api/state"@, "/api/auth/me"@, 5);
    lemma_differ_at("/api/state"@, "/api/auth/users"@, 5);
    lemma_differ_at("/api/state"@, "/api/auth/users/"@, 5);
    lemma_differ_at("/api/state"@, "/api/auth/invites"@, 5);
    lemma_differ_at("/api/state"@, "/api/auth/reset-code"@, 5);
    lemma_differ_at("/api/state"@, "/api/auth/audit"@, 5);
    lemma_differ_at("/api/logs"@, "/ws"@, 1);
    lemma_differ_at("/api/logs"@, "/api/state"@, 5);
    lemma_differ_at("/api/logs"@, "/api/players"@, 5);
    lemma_differ_at("/api/logs"@, "/api/history/players"@, 5);
    lemma_differ_at("/api/logs"@, "/api/server/stats"@, 5);
    lemma_differ_at("/api/logs"@, "/api/server/"@, 5);
    lemma_differ_at("/api/logs"@, "/api/config/"@, 5);
    lemma_differ_at("/api/logs"@, "/api/setup/"@, 5);
    lemma_differ_at("/api/logs"@, "/api/backup"@, 5);
    lemma_differ_at("/api/logs"@, "/api/backup/"@, 5);
    lemma_differ_at("/api/logs"@, "/api/schedule"@, 5);
    lemma_differ_at("/api/logs"@, "/api/install"@, 5);
    lemma_differ_at("/api/logs"@, "/api/install/"@, 5);
    lemma_differ_at("/api/logs"@, "/api/update"@, 5);
    lemma_differ_at("/api/logs"@, "/api/update/"@, 5);
    lemma_differ_at("/api/logs"@, "/api/auth/me"@, 5);
    lemma_differ_at("/api/logs"@, "/api/auth/users"@, 5);
    lemma_differ_at("/api/logs"@, "/api/auth/users/"@, 5);
    lemma_differ_at("/api/logs"@, "/api/auth/invites"@, 5);
    lemma_differ_at("/api/logs"@, "/api/auth/reset-code"@, 5);
    lemma_differ_at("/api/logs"@, "/api/auth/audit"@, 5);
    lemma_differ_at("/api/players"@, "/ws"@, 1);
    lemma_differ_at("/api/players"@, "/api/state"@, 5);
    lemma_differ_at("/api/players"@, "/api/logs"@, 5);
    lemma_differ_at("/api/players"@, "/api/history/players"@, 5);
    lemma_differ_at("/api/players"@, "/api/server/stats"@, 5);
    lemma_differ_at("/api/players"@, "/api/server/"@, 5);
    lemma_differ_at("/api/players"@, "/api/config/"@, 5);
    lemma_differ_at("/api/players"@, "/api/setup/"@, 5);
    lemma_differ_at("/api/players"@, "/api/backup"@, 5);
    lemma_differ_at("/api/players"@, "/api/backup/"@, 5);
    lemma_differ_at("/api/players"@, "/api/schedule"@, 5);
    lemma_differ_at("/api/players"@, "/api/install"@, 5);
    lemma_differ_at("/api/players"@, "/api/install/"@, 5);
    lemma_differ_at("/api/players"@, "/api/update"@, 5);
    lemma_differ_at("/api/players"@, "/api/update/"@, 5);
    lemma_differ_at("/api/players"@, "/api/auth/me"@, 5);
    lemma_differ_at("/api/players"@, "/api/auth/users"@, 5);
    lemma_differ_at("/api/players"@, "/api/auth/users/"@, 5);
    lemma_differ_at("/api/players"@, "/api/auth/invites"@, 5);
    lemma_differ_at("/api/players"@, "/api/auth/reset-code"@, 5);
    lemma_differ_at("/api/players"@, "/api/auth/audit"@, 5);
    lemma_differ_at("/api/auth/me"@, "/ws"@, 1);
    lemma_differ_at("/api/auth/me"@, "/api/state"@, 5);
    lemma_differ_at("/api/auth/me"@, "/api/logs"@, 5);
    lemma_differ_at("/api/auth/me"@, "/api/players"@, 5);
    lemma_differ_at("/api/auth/me"@, "/api/history/players"@, 5);
    lemma_differ_at("/api/auth/me"@, "/api/server/stats"@, 5);
    lemma_differ_at("/api/auth/me"@, "/api/server/"@, 5);
    lemma_differ_at("/api/auth/me"@, "/api/config/"@, 5);
    lemma_differ_at("/api/auth/me"@, "/api/setup/"@, 5);
    lemma_differ_at("/api/auth/me"@, "/api/backup"@, 5);
    lemma_differ_at("/api/auth/me"@, "/api/backup/"@, 5);
    lemma_differ_at("/api/auth/me"@, "/api/schedule"@, 5);
    lemma_differ_at("/api/auth/me"@, "/api/install"@, 5);
    lemma_differ_at("/api/auth/me"@, "/api/install/"@, 5);
    lemma_differ_at("/api/auth/me"@, "/api/update"@, 5);
    lemma_differ_at("/api/auth/me"@, "/api/update/"@, 5);
    lemma_differ_at("/api/auth/me"@, "/api/auth/users"@, 10);
    lemma_differ_at("/api/auth/me"@, "/api/auth/users/"@, 10);
    lemma_differ_at("/api/auth/me"@, "/api/auth/invites"@, 10);
    lemma_differ_at("/api/auth/me"@, "/api/auth/reset-code"@, 10);
    lemma_differ_at("/api/auth/me"@, "/api/auth/audit"@, 10);
    assert(required_permission("GET"@, "/api/backup"@) == PERM_VIEW_DASHBOARD);
    assert(required_permission("GET"@, "/api/schedule"@) == PERM_VIEW_DASHBOARD);
    assert(required_permission("GET"@, "/api/install"@) == PERM_VIEW_DASHBOARD);
    assert(required_permission("GET"@, "/api/update"@) == PERM_VIEW_DASHBOARD);
    assert(required_permission("GET"@, "/api/state"@) == PERM_VIEW_DASHBOARD);
    assert(required_permission("GET"@, "/api/logs"@) == PERM_VIEW_DASHBOARD);
    assert(required_permission("GET"@, "/api/players"@) == PERM_VIEW_DASHBOARD);
    assert(required_permission("GET"@, "/api/auth/me"@) == PERM_VIEW_DASHBOARD);
    if starts_with(path, "/api/config/"@) {
        assert forall|k: int| 0 <= k < 12 implies path[k] == "/api/config/"@[k] by {
            assert(path.take(12)[k] == path[k]);
        }
        lemma_differ_at(path, "/ws"@, 1);
        lemma_differ_at(path, "/api/state"@, 5);
        lemma_differ_at(path, "/api/logs"@, 5);
        lemma_differ_at(path, "/api/players"@, 5);
        lemma_differ_at(path, "/api/history/players"@, 5);
        lemma_differ_at(path, "/api/server/stats"@, 5);
        lemma_differ_at(path, "/api/server/"@, 5);
        lemma_differ_at(path, "/api/setup/"@, 5);
        lemma_differ_at(path, "/api/backup"@, 5);
        lemma_differ_at(path, "/api/backup/"@, 5);
        lemma_differ_at(path, "/api/schedule"@, 5);
        lemma_differ_at(path, "/api/install"@, 5);
        lemma_differ_at(path, "/api/install/"@, 5);
        lemma_differ_at(path, "/api/update"@, 5);
        lemma_differ_at(path, "/api/update/"@, 5);
        lemma_differ_at(path, "/api/auth/me"@, 5);
        lemma_differ_at(path, "/api/auth/users"@, 5);
        lemma_differ_at(path, "/api/auth/users/"@, 5);
        lemma_differ_at(path, "/api/auth/invites"@, 5);
        lemma_differ_at(path, "/api/auth/reset-code"@, 5);
        lemma_differ_at(path, "/api/auth/audit"@, 5);
    }
    if starts_with(path, "/api/config/"@) {
        assert(required_permission("GET"@, path) == PERM_VIEW_DASHBOARD);
    }
    assert("/api/schedule"@.take("/api/schedule"@.len() as int) =~= "/api/schedule"@);
    assert(starts_with("/api/schedule"@, "/api/schedule"@));
    assert((user.permission_flags & PERM_MANAGE_SCHEDULE) == 0 ==> (user.permission_flags
        & PERM_MANAGE_SCHEDULE) != PERM_MANAGE_SCHEDULE);
}

/// Changing anything needs the permission of its area, whatever else the
/// path holds: server control (`/api/server/...`, except the statistics)
/// needs the server bit; writing configuration files or using the setup
/// routes needs the config bit; backup, install and update actions need their
/// own bits; anything on the schedule other than reading it needs the
/// schedule bit; managing users, invites, reset codes and the audit log
/// needs the user bit.
pub proof fn law_management_routes(m: Seq<char>, p: Seq<char>)
    ensures
        starts_with(p, "/api/server/"@) && p != "/api/server/stats"@ ==> required_permission(m, p)
            == PERM_MANAGE_SERVER,
        starts_with(p, "/api/config/"@) && m != "GET"@ ==> required_permission(m, p)
            == PERM_MANAGE_CONFIG,
        starts_with(p, "/api/setup/"@) ==> required_permission(m, p) == PERM_MANAGE_CONFIG,
        starts_with(p, "/api/backup/"@) ==> required_permission(m, p) == PERM_MANAGE_BACKUPS,
        starts_with(p, "/api/schedule"@) && !(p == "/api/schedule"@ && m == "GET"@)
            ==> required_permission(m, p) == PERM_MANAGE_SCHEDULE,
        starts_with(p, "/api/install/"@) ==> required_permission(m, p) == PERM_MANAGE_INSTALL,
        starts_with(p, "/api/update/"@) ==> required_permission(m, p) == PERM_MANAGE_UPDATES,
        p == "/api/auth/users"@ || starts_with(p, "/api/auth/users/"@) || p == "/api/auth/invites"@
            || p == "/api/auth/reset-code"@ || p == "/api/auth/audit"@ ==> required_permission(m, p)
            == PERM_MANAGE_USERS,
{
    reveal_strlit("/ws");
    reveal_strlit("/api/state");
    reveal_strlit("/api/logs");
    reveal_strlit("/api/players");
    reveal_strlit("/api/history/players");
    reveal_strlit("/api/server/stats");
    reveal_strlit("/api/server/");
    reveal_strlit("/api/config/");
    reveal_strlit("/api/setup/");
    reveal_strlit("/api/backup");
    reveal_strlit("/api/backup/");
    reveal_strlit("/api/schedule");
    reveal_strlit("/api/install");
    reveal_strlit("/api/install/");
    reveal_strlit("/api/update");
    reveal_strlit("/api/update/");
    reveal_strlit("/api/auth/me");
    reveal_strlit("/api/auth/users");
    reveal_strlit("/api/auth/users/");
    reveal_strlit("/api/auth/invites");
    reveal_strlit("/api/auth/reset-code");
    reveal_strlit("/api/auth/audit");
    reveal_strlit("GET");
    if starts_with(p, "/api/server/"@) {
        assert forall|k: int| 0 <= k < 12 implies p[k] == "/api/server/"@[k] by {
            assert(p.take(12)[k] == p[k]);
        }
        lemma_differ_at(p, "/ws"@, 1);
        lemma_differ_at(p, "/api/state"@, 6);
        lemma_differ_at(p, "/api/logs"@, 5);
        lemma_differ_at(p, "/api/players"@, 5);
        lemma_differ_at(p, "/api/history/players"@, 5);
    }
    if starts_with(p, "/api/config/"@) {
        assert forall|k: int| 0 <= k < 12 implies p[k] == "/api/config/"@[k] by {
            assert(p.take(12)[k] == p[k]);
        }
        lemma_differ_at(p, "/ws"@, 1);
        lemma_differ_at(p, "/api/state"@, 5);
        lemma_differ_at(p, "/api/logs"@, 5);
        lemma_differ_at(p, "/api/players"@, 5);
        lemma_differ_at(p, "/api/history/players"@, 5);
        lemma_differ_at(p, "/api/server/stats"@, 5);
        lemma_differ_at(p, "/api/server/"@, 5);
    }
    if starts_with(p, "/api/setup/"@) {
        assert forall|k: int| 0 <= k < 11 implies p[k] == "/api/setup/"@[k] by {
            assert(p.take(11)[k] == p[k]);
        }
        lemma_differ_at(p, "/ws"@, 1);
        lemma_differ_at(p, "/api/state"@, 6);
        lemma_differ_at(p, "/api/logs"@, 5);
        lemma_differ_at(p, "/api/players"@, 5);
        lemma_differ_at(p, "/api/history/players"@, 5);
        lemma_differ_at(p, "/api/server/stats"@, 7);
        lemma_differ_at(p, "/api/server/"@, 7);
        lemma_differ_at(p, "/api/config/"@, 5);
    }
    if starts_with(p, "/api/backup/"@) {
        assert forall|k: int| 0 <= k < 12 implies p[k] == "/api/backup/"@[k] by {
            assert(p.take(12)[k] == p[k]);
        }
        lemma_differ_at(p, "/ws"@, 1);
        lemma_differ_at(p, "/api/state"@, 5);
        lemma_differ_at(p, "/api/logs"@, 5);
        lemma_differ_at(p, "/api/players"@, 5);
        lemma_differ_at(p, "/api/history/players"@, 5);
        lemma_differ_at(p, "/api/server/stats"@, 5);
        lemma_differ_at(p, "/api/server/"@, 5);
        lemma_differ_at(p, "/api/config/"@, 5);
        lemma_differ_at(p, "/api/setup/"@, 5);
    }
    if starts_with(p, "/api/schedule"@) {
        assert forall|k: int| 0 <= k < 13 implies p[k] == "/api/schedule"@[k] by {
            assert(p.take(13)[k] == p[k]);
        }
        lemma_differ_at(p, "/ws"@, 1);
        lemma_differ_at(p, "/api/state"@, 6);
        lemma_differ_at(p, "/api/logs"@, 5);
        lemma_differ_at(p, "/api/players"@, 5);
        lemma_differ_at(p, "/api/history/players"@, 5);
        lemma_differ_at(p, "/api/server/stats"@, 6);
        lemma_differ_at(p, "/api/server/"@, 6);
        lemma_differ_at(p, "/api/config/"@, 5);
        lemma_differ_at(p, "/api/setup/"@, 6);
        lemma_differ_at(p, "/api/backup"@, 5);
        lemma_differ_at(p, "/api/backup/"@, 5);
    }
    if starts_with(p, "/api/install/"@) {
        assert forall|k: int| 0 <= k < 13 implies p[k] == "/api/install/"@[k] by {
            assert(p.take(13)[k] == p[k]);
        }
        lemma_differ_at(p, "/ws"@, 1);
        lemma_differ_at(p, "/api/state"@, 5);
        lemma_differ_at(p, "/api/logs"@, 5);
        lemma_differ_at(p, "/api/players"@, 5);
        lemma_differ_at(p, "/api/history/players"@, 5);
        lemma_differ_at(p, "/api/server/stats"@, 5);
        lemma_differ_at(p, "/api/server/"@, 5);
        lemma_differ_at(p, "/api/config/"@, 5);
        lemma_differ_at(p, "/api/setup/"@, 5);
        lemma_differ_at(p, "/api/backup"@, 5);
        lemma_differ_at(p, "/api/backup/"@, 5);
        lemma_differ_at(p, "/api/schedule"@, 5);
    }
    if starts_with(p, "/api/update/"@) {
        assert forall|k: int| 0 <= k < 12 implies p[k] == "/api/update/"@[k] by {
            assert(p.take(12)[k] == p[k]);
        }
        lemma_differ_at(p, "/ws"@, 1);
        lemma_differ_at(p, "/api/state"@, 5);
        lemma_differ_at(p, "/api/logs"@, 5);
        lemma_differ_at(p, "/api/players"@, 5);
        lemma_differ_at(p, "/api/history/players"@, 5);
        lemma_differ_at(p, "/api/server/stats"@, 5);
        lemma_differ_at(p, "/api/server/"@, 5);
        lemma_differ_at(p, "/api/config/"@, 5);
        lemma_differ_at(p, "/api/setup/"@, 5);
        lemma_differ_at(p, "/api/backup"@, 5);
        lemma_differ_at(p, "/api/backup/"@, 5);
        lemma_differ_at(p, "/api/schedule"@, 5);
        lemma_differ_at(p, "/api/install"@, 5);
        lemma_differ_at(p, "/api/install/"@, 5);
    }
    if starts_with(p, "/api/auth/users/"@) {
        assert forall|k: int| 0 <= k < 16 implies p[k] == "/api/auth/users/"@[k] by {
            assert(p.take(16)[k] == p[k]);
        }
        lemma_differ_at(p, "/ws"@, 1);
        lemma_differ_at(p, "/api/state"@, 5);
        lemma_differ_at(p, "/api/logs"@, 5);
        lemma_differ_at(p, "/api/players"@, 5);
        lemma_differ_at(p, "/api/history/players"@, 5);
        lemma_differ_at(p, "/api/server/stats"@, 5);
        lemma_differ_at(p, "/api/server/"@, 5);
        lemma_differ_at(p, "/api/config/"@, 5);
        lemma_differ_at(p, "/api/setup/"@, 5);
        lemma_differ_at(p, "/api/backup"@, 5);
        lemma_differ_at(p, "/api/backup/"@, 5);
        lemma_differ_at(p, "/api/schedule"@, 5);
        lemma_differ_at(p, "/api/install"@, 5);
        lemma_differ_at(p, "/api/install/"@, 5);
        lemma_differ_at(p, "/api/update"@, 5);
        lemma_differ_at(p, "/api/update/"@, 5);
        lemma_differ_at(p, "/api/auth/me"@, 10);
    }
    if p == "/api/auth/users"@ {
        lemma_differ_at("/api/auth/users"@, "/ws"@, 1);
        lemma_differ_at("/api/auth/users"@, "/api/state"@, 5);
        lemma_differ_at("/api/auth/users"@, "/api/logs"@, 5);
        lemma_differ_at("/api/auth/users"@, "/api/players"@, 5);
        lemma_differ_at("/api/auth/users"@, "/api/history/players"@, 5);
        lemma_differ_at("/api/auth/users"@, "/api/server/stats"@, 5);
        lemma_differ_at("/api/auth/users"@, "/api/server/"@, 5);
        lemma_differ_at("/api/auth/users"@, "/api/config/"@, 5);
        lemma_differ_at("/api/auth/users"@, "/api/setup/"@, 5);
        lemma_differ_at("/api/auth/users"@, "/api/backup"@, 5);
        lemma_differ_at("/api/auth/users"@, "/api/backup/"@, 5);
        lemma_differ_at("/api/auth/users"@, "/api/schedule"@, 5);
        lemma_differ_at("/api/auth/users"@, "/api/install"@, 5);
        lemma_differ_at("/api/auth/users"@, "/api/install/"@, 5);
        lemma_differ_at("/api/auth/users"@, "/api/update"@, 5);
        lemma_differ_at("/api/auth/users"@, "/api/update/"@, 5);
        lemma_differ_at("/api/auth/users"@, "/api/auth/me"@, 10);
    }
    if p == "/api/auth/invites"@ {
        lemma_differ_at("/api/auth/invites"@, "/ws"@, 1);
        lemma_differ_at("/api/auth/invites"@, "/api/state"@, 5);
        lemma_differ_at("/api/auth/invites"@, "/api/logs"@, 5);
        lemma_differ_at("/api/auth/invites"@, "/api/players"@, 5);
        lemma_differ_at("/api/auth/invites"@, "/api/history/players"@, 5);
        lemma_differ_at("/api/auth/invites"@, "/api/server/stats"@, 5);
        lemma_differ_at("/api/auth/invites"@, "/api/server/"@, 5);
        lemma_differ_at("/api/auth/invites"@, "/api/config/"@, 5);
        lemma_differ_at("/api/auth/invites"@, "/api/setup/"@, 5);
        lemma_differ_at("/api/auth/invites"@, "/api/backup"@, 5);
        lemma_differ_at("/api/auth/invites"@, "/api/backup/"@, 5);
        lemma_differ_at("/api/auth/invites"@, "/api/schedule"@, 5);
        lemma_differ_at("/api/auth/invites"@, "/api/install"@, 5);
        lemma_differ_at("/api/auth/invites"@, "/api/install/"@, 5);
        lemma_differ_at("/api/auth/invites"@, "/api/update"@, 5);
        lemma_differ_at("/api/auth/invites"@, "/api/update/"@, 5);
        lemma_differ_at("/api/auth/invites"@, "/api/auth/me"@, 10);
        lemma_differ_at("/api/auth/invites"@, "/api/auth/users"@, 10);
        lemma_differ_at("/api/auth/invites"@, "/api/auth/users/"@, 10);
    }
    if p == "/api/auth/reset-code"@ {
        lemma_differ_at("/api/auth/reset-code"@, "/ws"@, 1);
        lemma_differ_at("/api/auth/reset-code"@, "/api/state"@, 5);
        lemma_differ_at("/api/auth/reset-code"@, "/api/logs"@, 5);
        lemma_differ_at("/api/auth/reset-code"@, "/api/players"@, 5);
        lemma_differ_at("/api/auth/reset-code"@, "/api/history/players"@, 5);
        lemma_differ_at("/api/auth/reset-code"@, "/api/server/stats"@, 5);
        lemma_differ_at("/api/auth/reset-code"@, "/api/server/"@, 5);
        lemma_differ_at("/api/auth/reset-code"@, "/api/config/"@, 5);
        lemma_differ_at("/api/auth/reset-code"@, "/api/setup/"@, 5);
        lemma_differ_at("/api/auth/reset-code"@, "/api/backup"@, 5);
        lemma_differ_at("/api/auth/reset-code"@, "/api/backup/"@, 5);
        lemma_differ_at("/api/auth/reset-code"@, "/api/schedule"@, 5);
        lemma_differ_at("/api/auth/reset-code"@, "/api/install"@, 5);
        lemma_differ_at("/api/auth/reset-code"@, "/api/install/"@, 5);
        lemma_differ_at("/api/auth/reset-code"@, "/api/update"@, 5);
        lemma_differ_at("/api/auth/reset-code"@, "/api/update/"@, 5);
        lemma_differ_at("/api/auth/reset-code"@, "/api/auth/me"@, 10);
        lemma_differ_at("/api/auth/reset-code"@, "/api/auth/users"@, 10);
        lemma_differ_at("/api/auth/reset-code"@, "/api/auth/users/"@, 10);
        lemma_differ_at("/api/auth/reset-code"@, "/api/auth/invites"@, 10);
    }
    if p == "/api/auth/audit"@ {
        lemma_differ_at("/api/auth/audit"@, "/ws"@, 1);
        lemma_differ_at("/api/auth/audit"@, "/api/state"@, 5);
        lemma_differ_at("/api/auth/audit"@, "/api/logs"@, 5);
        lemma_differ_at("/api/auth/audit"@, "/api/players"@, 5);
        lemma_differ_at("/api/auth/audit"@, "/api/history/players"@, 5);
        lemma_differ_at("/api/auth/audit"@, "/api/server/stats"@, 5);
        lemma_differ_at("/api/auth/audit"@, "/api/server/"@, 5);
        lemma_differ_at("/api/auth/audit"@, "/api/config/"@, 5);
        lemma_differ_at("/api/auth/audit"@, "/api/setup/"@, 5);
        lemma_differ_at("/api/auth/audit"@, "/api/backup"@, 5);
        lemma_differ_at("/api/auth/audit"@, "/api/backup/"@, 5);
        lemma_differ_at("/api/auth/audit"@, "/api/schedule"@, 5);
        lemma_differ_at("/api/auth/audit"@, "/api/install"@, 5);
        lemma_differ_at("/api/auth/audit"@, "/api/install/"@, 5);
        lemma_differ_at("/api/auth/audit"@, "/api/update"@, 5);
        lemma_differ_at("/api/auth/audit"@, "/api/update/"@, 5);
        lemma_differ_at("/api/auth/audit"@, "/api/auth/me"@, 10);
        lemma_differ_at("/api/auth/audit"@, "/api/auth/users"@, 10);
        lemma_differ_at("/api/auth/audit"@, "/api/auth/users/"@, 10);
        lemma_differ_at("/api/auth/audit"@, "/api/auth/invites"@, 10);
        lemma_differ_at("/api/auth/audit"@, "/api/auth/reset-code"@, 10);
    }
}

/// Whether `path` is reachable without a session.
pub fn is_public_route(path: &str) -> (r: bool)
    ensures
        r == public_route(path@),
{
    let p = chars_of(path);
    let p = p.as_slice();
    chars_eq_str(p, "/api/health") || chars_eq_str(p, "/api/setup/status") || chars_eq_str(
        p,
        "/api/auth/status",
    ) || chars_eq_str(p, "/api/auth/bootstrap") || chars_eq_str(p, "/api/auth/login")
        || chars_eq_str(p, "/api/auth/logout") || chars_eq_str(p, "/api/auth/register")
        || chars_eq_str(p, "/api/auth/reset-password") || chars_eq_str(p, "/")
}

/// Whether `user` holds the permission bits `required_permission`.
pub fn has_permission(user: &AuthUser, required_permission: i64) -> (r: bool)
    ensures
        r == permits(*user, required_permission),
{
    user.is_admin || (user.permission_flags & required_permission) == required_permission
}

/// Whether requests with `method` need a CSRF token.
pub fn is_csrf_protected_method(method: &str) -> (r: bool)
    ensures
        r == csrf_protected_method(method@),
{
    let m = chars_of(method);
    let m = m.as_slice();
    !(chars_eq_str(m, "GET") || chars_eq_str(m, "HEAD") || chars_eq_str(m, "OPTIONS"))
}

/// Whether `path` needs no CSRF token.
pub fn is_csrf_exempt_route(path: &str) -> (r: bool)
    ensures
        r == csrf_exempt_route(path@),
{
    let p = chars_of(path);
    let p = p.as_slice();
    chars_eq_str(p, "/api/auth/login") || chars_eq_str(p, "/api/auth/bootstrap")
        || chars_eq_str(p, "/api/auth/register") || chars_eq_str(p, "/api/auth/reset-password")
        || chars_eq_str(p, "/api/auth/logout")
}

/// The permission a request needs; every route needs exactly one.
pub fn required_permission_for(method: &str, path: &str) -> (r: Option<i64>)
    ensures
        r == Some(required_permission(method@, path@)),
{
    let m = chars_of(method);
    let m = m.as_slice();
    let p = chars_of(path);
    let p = p.as_slice();
    let get = chars_eq_str(m, "GET");
    if chars_eq_str(p, "/ws") {
        return Some(PERM_VIEW_DASHBOARD);
    }
    if chars_eq_str(p, "/api/state") || chars_eq_str(p, "/api/logs") || chars_eq_str(
        p,
        "/api/players",
    ) || chars_eq_str(p, "/api/history/players") || chars_eq_str(p, "/api/server/stats") {
        return Some(PERM_VIEW_DASHBOARD);
    }
    if has_prefix(p, "/api/server/") {
        return Some(PERM_MANAGE_SERVER);
    }
    if has_prefix(p, "/api/config/") {
        if get {
            return Some(PERM_VIEW_DASHBOARD);
        }
        return Some(PERM_MANAGE_CONFIG);
    }
    if has_prefix(p, "/api/setup/") {
        return Some(PERM_MANAGE_CONFIG);
    }
    if chars_eq_str(p, "/api/backup") && get {
        return Some(PERM_VIEW_DASHBOARD);
    }
    if has_prefix(p, "/api/backup/") {
        return Some(PERM_MANAGE_BACKUPS);
    }
    if chars_eq_str(p, "/api/schedule") && get {
        return Some(PERM_VIEW_DASHBOARD);
    }
    if has_prefix(p, "/api/schedule") {
        return Some(PERM_MANAGE_SCHEDULE);
    }
    if chars_eq_str(p, "/api/install") && get {
        return Some(PERM_VIEW_DASHBOARD);
    }
    if has_prefix(p, "/api/install/") {
        return Some(PERM_MANAGE_INSTALL);
    }
    if chars_eq_str(p, "/api/update") && get {
        return Some(PERM_VIEW_DASHBOARD);
    }
    if has_prefix(p, "/api/update/") {
        return Some(PERM_MANAGE_UPDATES);
    }
    if chars_eq_str(p, "/api/auth/me") {
        return Some(PERM_VIEW_DASHBOARD);
    }
    if chars_eq_str(p, "/api/auth/users") || has_prefix(p, "/api/auth/users/") || chars_eq_str(
        p,
        "/api/auth/invites",
    ) || chars_eq_str(p, "/api/auth/reset-code") || chars_eq_str(p, "/api/auth/audit") {
        return Some(PERM_MANAGE_USERS);
    }
    Some(PERM_VIEW_DASHBOARD)
}

/// Whether `user` may make a request with `method` to `path`.
pub fn authorize_request(user: &AuthUser, method: &str, path: &str) -> (r: Result<(), &'static str>)
    ensures
        r is Ok <==> permits(*user, required_permission(method@, path@)),
        r is Err ==> r->Err_0@ == "Insufficient permissions"@,
{
    match required_permission_for(method, path) {
        Some(required) => {
            if !has_permission(user, required) {
                return Err("Insufficient permissions");
            }
            Ok(())
        },
        None => Ok(()),
    }
}

// ---------------------------------------------------------------------------
// Request headers and cookies
// ---------------------------------------------------------------------------

/// A request header as the access layer sees it: missing, present but not
/// visible ASCII, or present as text.
pub enum HeaderText {
    Absent,
    Unreadable,
    Text(String),
}

/// The headers that the access layer reads: `Cookie`, `x-csrf-token` and
/// `x-xsrf-token` (each the first value of that name).
pub struct RequestHeaders {
    pub cookie: HeaderText,
    pub csrf_token: HeaderText,
    pub xsrf_token: HeaderText,
}

/// The value of cookie `name` in a `Cookie` header, reading the `;`-separated
/// parts from position `start` on. Each part is trimmed and split at its first
/// `=`; key and value are trimmed. The first part whose key is `name` gives
/// the value. A part without `=` ends the search with no value.
pub open spec fn cookie_lookup_from(raw: Seq<char>, name: Seq<char>, start: int) -> Option<
    Seq<char>,
>
    decreases raw.len() - start,
{
    if start < 0 || start > raw.len() {
        None
    } else {
        let semi = find_from(raw, ';', start);
        let end = if semi < 0 {
            raw.len() as int
        } else {
            semi
        };
        let part = trim(raw.subrange(start, end));
        let eq = find_from(part, '=', 0);
        if eq < 0 {
            None
        } else if trim(part.take(eq)) == name {
            Some(trim(part.skip(eq + 1)))
        } else if semi < 0 {
            None
        } else {
            proof {
                lemma_find_from(raw, ';', start);
            }
            cookie_lookup_from(raw, name, semi + 1)
        }
    }
}

/// The value of cookie `name` in a `Cookie` header.
pub open spec fn cookie_lookup(raw: Seq<char>, name: Seq<char>) -> Option<Seq<char>> {
    cookie_lookup_from(raw, name, 0)
}

/// The value of cookie `name` sent with a request.
pub open spec fn cookie_of(h: RequestHeaders, name: Seq<char>) -> Option<Seq<char>> {
    match h.cookie {
        HeaderText::Text(t) => cookie_lookup(t@, name),
        _ => None,
    }
}

/// The value of cookie `name` in the header text `raw`.
pub fn cookie_value(raw: &str, name: &str) -> (r: Option<String>)
    ensures
        opt_chars(r) == cookie_lookup(raw@, name@),
{
    let v = chars_of(raw);
    let nm = chars_of(name);
    let mut start: usize = 0;
    loop
        invariant
            start <= v.len(),
            v@ == raw@,
            nm@ == name@,
            cookie_lookup(raw@, name@) == cookie_lookup_from(v@, nm@, start as int),
        decreases v.len() + 1 - start,
    {
        proof {
            lemma_find_from(v@, ';', start as int);
        }
        let semi = find_char_from(v.as_slice(), ';', start);
        let end = match semi {
            Some(k) => k,
            None => v.len(),
        };
        let (a, b) = trim_bounds(v.as_slice(), start, end);
        let part: Vec<char> = crate::updates::sub_vec(v.as_slice(), a, b);
        proof {
            lemma_find_from(part@, '=', 0);
        }
        let eq = match find_char_from(part.as_slice(), '=', 0) {
            Some(k) => k,
            None => return None,
        };
        let (ka, kb) = trim_bounds(part.as_slice(), 0, eq);
        assert(part@.take(eq as int) =~= part@.subrange(0, eq as int));
        let key = crate::updates::sub_vec(part.as_slice(), ka, kb);
        if chars_eq(key.as_slice(), nm.as_slice()) {
            let (va, vb) = trim_bounds(part.as_slice(), eq + 1, part.len());
            assert(part@.skip(eq + 1) =~= part@.subrange(eq + 1, part@.len() as int));
            return Some(string_from_range(part.as_slice(), va, vb));
        }
        match semi {
            Some(k) => {
                start = k + 1;
            },
            None => return None,
        }
    }
}

/// The value of cookie `name` sent with a request.
pub fn extract_cookie(headers: &RequestHeaders, name: &str) -> (r: Option<String>)
    ensures
        opt_chars(r) == cookie_of(*headers, name@),
{
    match &headers.cookie {
        HeaderText::Text(t) => cookie_value(t.as_str(), name),
        _ => None,
    }
}

/// A cookie name and value that a `name=value` pair carries unchanged: the
/// name is not empty and holds no `=` or `;`, the value holds no `;`, and
/// neither begins or ends with whitespace.
pub open spec fn cookie_pair_ok(name: Seq<char>, value: Seq<char>) -> bool {
    &&& name.len() > 0
    &&& !is_ws(name[0])
    &&& !is_ws(name.last())
    &&& value.len() > 0 ==> !is_ws(value[0]) && !is_ws(value.last())
    &&& forall|i: int| 0 <= i < name.len() ==> name[i] != '=' && name[i] != ';'
    &&& forall|i: int| 0 <= i < value.len() ==> value[i] != ';'
}

/// How a `name=value` pair splits.
proof fn lemma_cookie_pair(name: Seq<char>, value: Seq<char>)
    requires
        cookie_pair_ok(name, value),
    ensures
        forall|k: int|
            0 <= k < (name + seq!['='] + value).len() ==> (name + seq!['='] + value)[k] != ';',
        trim(name + seq!['='] + value) == name + seq!['='] + value,
        (name + seq!['='] + value)[0] == name[0],
        find_from(name + seq!['='] + value, '=', 0) == name.len(),
        trim((name + seq!['='] + value).take(name.len() as int)) == name,
        trim((name + seq!['='] + value).skip(name.len() as int + 1)) == value,
{
    let pair = name + seq!['='] + value;
    assert forall|k: int| 0 <= k < pair.len() implies pair[k] != ';' by {
        if k > name.len() {
            assert(pair[k] == value[k - name.len() - 1]);
        }
    }
    assert(pair[0] == name[0]);
    if value.len() > 0 {
        assert(pair.last() == value.last());
    } else {
        assert(pair.last() == '=');
    }
    lemma_trim_unchanged(pair);
    assert(pair[name.len() as int] == '=');
    lemma_find_from_at(pair, '=', 0, name.len() as int);
    assert(pair.take(name.len() as int) =~= name);
    assert(pair.skip(name.len() as int + 1) =~= value);
    lemma_trim_unchanged(name);
    lemma_trim_unchanged(value);
}

/// A cookie sent back as `name=value` is read as `value`: what a
/// `Set-Cookie` wrote, the lookup returns.
pub proof fn law_cookie_read_back(name: Seq<char>, value: Seq<char>)
    requires
        cookie_pair_ok(name, value),
    ensures
        cookie_lookup(name + seq!['='] + value, name) == Some(value),
{
    let raw = name + seq!['='] + value;
    lemma_cookie_pair(name, value);
    lemma_find_from_none(raw, ';', 0);
    assert(raw.subrange(0, raw.len() as int) =~= raw);
}

/// Two cookies sent back together, `n1=v1; n2=v2` (as a browser joins
/// them), are each read as written.
pub proof fn law_two_cookies_read_back(n1: Seq<char>, v1: Seq<char>, n2: Seq<char>, v2: Seq<char>)
    requires
        cookie_pair_ok(n1, v1),
        cookie_pair_ok(n2, v2),
        n1 != n2,
    ensures
        cookie_lookup(n1 + seq!['='] + v1 + seq![';', ' '] + n2 + seq!['='] + v2, n1) == Some(v1),
        cookie_lookup(n1 + seq!['='] + v1 + seq![';', ' '] + n2 + seq!['='] + v2, n2) == Some(v2),
{
    let p1 = n1 + seq!['='] + v1;
    let p2 = n2 + seq!['='] + v2;
    let raw = n1 + seq!['='] + v1 + seq![';', ' '] + n2 + seq!['='] + v2;
    assert(raw =~= p1 + seq![';', ' '] + p2);
    lemma_cookie_pair(n1, v1);
    lemma_cookie_pair(n2, v2);
    let semi = p1.len() as int;
    assert(raw[semi] == ';');
    assert forall|k: int| 0 <= k < semi implies raw[k] != ';' by {
        assert(raw[k] == p1[k]);
    }
    lemma_find_from_at(raw, ';', 0, semi);
    assert(raw.subrange(0, semi) =~= p1);
    let start = semi + 1;
    assert forall|k: int| start <= k < raw.len() implies raw[k] != ';' by {
        if k > start {
            assert(raw[k] == p2[k - start - 1]);
        }
    }
    lemma_find_from_none(raw, ';', start);
    let rest = raw.subrange(start, raw.len() as int);
    assert(rest =~= seq![' '] + p2);
    assert(rest.drop_first() =~= p2);
    assert(trim_start(rest) == trim_start(p2));
    assert(trim(rest) == p2);
    assert(cookie_lookup_from(raw, n2, 0) == cookie_lookup_from(raw, n2, start));
}

// ---------------------------------------------------------------------------
// CSRF
// ---------------------------------------------------------------------------

/// The CSRF token a request presents in a header: `x-csrf-token` when
/// present, else `x-xsrf-token`, trimmed.
pub open spec fn csrf_header_value(h: RequestHeaders) -> Option<Seq<char>> {
    match h.csrf_token {
        HeaderText::Text(t) => Some(trim(t@)),
        HeaderText::Unreadable => None,
        HeaderText::Absent => match h.xsrf_token {
            HeaderText::Text(t) => Some(trim(t@)),
            _ => None,
        },
    }
}

/// A request carries a valid CSRF token for the session `token`: the CSRF
/// cookie is non-empty and equal to the header token, which equals the
/// digest of the session token.
pub open spec fn csrf_valid(h: RequestHeaders, session_token: Seq<char>) -> bool {
    match (cookie_of(h, "wsm_csrf"@), csrf_header_value(h)) {
        (Some(c), Some(t)) => c.len() > 0 && c == t && t == token_digest(session_token),
        _ => false,
    }
}

/// The CSRF token that belongs to a session: the digest of its token.
pub fn csrf_token_for_session(token: &str) -> (r: String)
    ensures
        r@ == token_digest(token@),
{
    hash_token(token)
}

/// The CSRF token of a request's header.
fn csrf_header_token(headers: &RequestHeaders) -> (r: Option<String>)
    ensures
        opt_chars(r) == csrf_header_value(*headers),
{
    match &headers.csrf_token {
        HeaderText::Text(t) => Some(trimmed(t.as_str())),
        HeaderText::Unreadable => None,
        HeaderText::Absent => match &headers.xsrf_token {
            HeaderText::Text(t) => Some(trimmed(t.as_str())),
            _ => None,
        },
    }
}

/// Whether a request carries the CSRF token of session `session_token` in
/// both its cookie and its header.
pub fn validate_csrf(headers: &RequestHeaders, session_token: &str) -> (r: bool)
    ensures
        r == csrf_valid(*headers, session_token@),
{
    let expected = csrf_token_for_session(session_token);
    let cookie_token = extract_cookie(headers, "wsm_csrf");
    let header_token = csrf_header_token(headers);
    match (cookie_token, header_token) {
        (Some(cookie), Some(header)) => {
            let c = chars_of(cookie.as_str());
            let h = chars_of(header.as_str());
            let e = chars_of(expected.as_str());
            c.len() != 0 && chars_eq(c.as_slice(), h.as_slice()) && chars_eq(
                h.as_slice(),
                e.as_slice(),
            )
        },
        _ => false,
    }
}

/// After a login, a browser returns both cookies the login set
/// (`wsm_session=<token>; wsm_csrf=<csrf token>`) and the page echoes the
/// CSRF token in `x-csrf-token`: the session token is read back from the
/// cookie and the request passes the CSRF check. The session token is the
/// 64-character token a login issues; the CSRF token is its digest, which
/// `requires` asks only to be non-empty (it is 64 hex digits, as
/// `hash_token` states).
pub proof fn law_login_cookies_accepted(token: Seq<char>, h: RequestHeaders)
    requires
        is_token_of_len(token, 64),
        token_digest(token).len() > 0,
        h.cookie matches HeaderText::Text(t) && t@ == "wsm_session"@ + seq!['='] + token + seq![
            ';',
            ' ',
        ] + "wsm_csrf"@ + seq!['='] + token_digest(token),
        h.csrf_token matches HeaderText::Text(t) && t@ == token_digest(token),
    ensures
        cookie_of(h, "wsm_session"@) == Some(token),
        csrf_valid(h, token),
{
    reveal_strlit("wsm_session");
    reveal_strlit("wsm_csrf");
    let d = token_digest(token);
    assert forall|i: int| 0 <= i < token.len() implies token[i] != ';' && !is_ws(token[i]) by {
        assert(is_ascii_alphanumeric(token[i]));
    }
    lemma_hex_lower(sha256_digest(encode_utf8(token)));
    assert forall|i: int| 0 <= i < d.len() implies d[i] != ';' && !is_ws(d[i]) by {
        assert(is_hex_digit(hex_lower(sha256_digest(encode_utf8(token)))[i]));
    }
    assert("wsm_session"@ != "wsm_csrf"@) by {
        assert("wsm_session"@.len() != "wsm_csrf"@.len());
    }
    law_two_cookies_read_back("wsm_session"@, token, "wsm_csrf"@, d);
    lemma_trim_unchanged(d);
}

// ---------------------------------------------------------------------------
// Cookie headers
// ---------------------------------------------------------------------------

/// Cookie lifetimes are clamped to one minute .. thirty days.
pub open spec fn cookie_max_age(secs: i64) -> int {
    clamp(secs as int, 60, 2592000)
}

/// The `; Secure` attribute, when cookies are only sent over HTTPS.
pub open spec fn secure_attr(secure: bool) -> Seq<char> {
    if secure {
        "; Secure"@
    } else {
        ""@
    }
}

fn push_cookie_tail(s: &mut String, max_age_secs: i64, secure: bool)
    ensures
        final(s)@ == old(s)@ + decimal_int(cookie_max_age(max_age_secs)) + secure_attr(secure),
{
    let max_age: i64 = if max_age_secs < 60 {
        60
    } else if max_age_secs > 60 * 60 * 24 * 30 {
        60 * 60 * 24 * 30
    } else {
        max_age_secs
    };
    push_decimal_i64(s, max_age);
    proof {
        reveal_strlit("");
    }
    if secure {
        push_str(s, "; Secure");
    } else {
        assert(s@ =~= s@ + ""@);
    }
    assert(final(s)@ =~= old(s)@ + decimal_int(cookie_max_age(max_age_secs)) + secure_attr(
        secure,
    ));
}

/// `Set-Cookie` value for a new session.
pub fn session_cookie(token: &str, secure: bool, max_age_secs: i64) -> (r: String)
    ensures
        r@ == "wsm_session="@ + token@ + "; HttpOnly; Path=/; SameSite=Strict; Max-Age="@
            + decimal_int(cookie_max_age(max_age_secs)) + secure_attr(secure),
{
    let mut s = String::new();
    push_str(&mut s, "wsm_session=");
    push_str(&mut s, token);
    push_str(&mut s, "; HttpOnly; Path=/; SameSite=Strict; Max-Age=");
    push_cookie_tail(&mut s, max_age_secs, secure);
    s
}

/// `Set-Cookie` value for the CSRF token of a new session (readable by the
/// page, so not `HttpOnly`).
pub fn csrf_cookie(token: &str, secure: bool, max_age_secs: i64) -> (r: String)
    ensures
        r@ == "wsm_csrf="@ + token@ + "; Path=/; SameSite=Strict; Max-Age="@ + decimal_int(
            cookie_max_age(max_age_secs),
        ) + secure_attr(secure),
{
    let mut s = String::new();
    push_str(&mut s, "wsm_csrf=");
    push_str(&mut s, token);
    push_str(&mut s, "; Path=/; SameSite=Strict; Max-Age=");
    push_cookie_tail(&mut s, max_age_secs, secure);
    s
}

/// `Set-Cookie` value that deletes the session cookie.
pub fn clear_session_cookie(secure: bool) -> (r: &'static str)
    ensures
        r@ == "wsm_session=; HttpOnly; Path=/; SameSite=Strict; Max-Age=0"@ + secure_attr(secure),
{
    proof {
        reveal_strlit("wsm_session=; HttpOnly; Path=/; SameSite=Strict; Max-Age=0; Secure");
        reveal_strlit("wsm_session=; HttpOnly; Path=/; SameSite=Strict; Max-Age=0");
        reveal_strlit("; Secure");
        reveal_strlit("");
    }
    if secure {
        let r = "wsm_session=; HttpOnly; Path=/; SameSite=Strict; Max-Age=0; Secure";
        assert(r@ =~= "wsm_session=; HttpOnly; Path=/; SameSite=Strict; Max-Age=0"@ + "; Secure"@);
        r
    } else {
        let r = "wsm_session=; HttpOnly; Path=/; SameSite=Strict; Max-Age=0";
        assert(r@ =~= r@ + ""@);
        r
    }
}

/// `Set-Cookie` value that deletes the CSRF cookie.
pub fn clear_csrf_cookie(secure: bool) -> (r: &'static str)
    ensures
        r@ == "wsm_csrf=; Path=/; SameSite=Strict; Max-Age=0"@ + secure_attr(secure),
{
    proof {
        reveal_strlit("wsm_csrf=; Path=/; SameSite=Strict; Max-Age=0; Secure");
        reveal_strlit("wsm_csrf=; Path=/; SameSite=Strict; Max-Age=0");
        reveal_strlit("; Secure");
        reveal_strlit("");
    }
    if secure {
        let r = "wsm_csrf=; Path=/; SameSite=Strict; Max-Age=0; Secure";
        assert(r@ =~= "wsm_csrf=; Path=/; SameSite=Strict; Max-Age=0"@ + "; Secure"@);
        r
    } else {
        let r = "wsm_csrf=; Path=/; SameSite=Strict; Max-Age=0";
        assert(r@ =~= r@ + ""@);
        r
    }
}

// ---------------------------------------------------------------------------
// The authentication layer
// ---------------------------------------------------------------------------

/// The user on whose behalf a request runs.
#[derive(Clone, Debug)]
pub struct RequestUser {
    pub id: i64,
    pub username: String,
    pub is_admin: bool,
    pub permission_flags: i64,
}

/// Whether the store holds any user yet.
pub struct AuthStatus {
    pub has_users: bool,
    pub needs_bootstrap: bool,
}

/// The signed-in user, as the client sees it.
pub struct SessionInfo {
    pub username: String,
    pub is_admin: bool,
    pub permission_flags: i64,
}

impl AuthStatus {
    /// The status reported while the store does or does not hold users:
    /// bootstrap is needed exactly when it holds none.
    pub fn from_has_users(has_users: bool) -> (r: Self)
        ensures
            r.has_users == has_users,
            r.needs_bootstrap == !has_users,
    {
        AuthStatus { has_users, needs_bootstrap: !has_users }
    }
}

impl SessionInfo {
    /// What the client is told of the signed-in user.
    pub fn from_user(u: AuthUser) -> (r: Self)
        ensures
            r.username == u.username,
            r.is_admin == u.is_admin,
            r.permission_flags == u.permission_flags,
    {
        SessionInfo { username: u.username, is_admin: u.is_admin, permission_flags: u.permission_flags }
    }
}

/// What the authentication layer does next with a request.
pub enum AccessStep {
    /// Pass the request on, with the user it runs for when there is one.
    Forward(Option<RequestUser>),
    /// Answer the request with this status and message.
    Respond { status: u16, message: String },
    /// Ask the store whether it holds any user.
    CountUsers,
    /// Ask the store for the user of this session token.
    CheckSession(String),
}

/// First step: public routes pass without a session; for every other route
/// the store is asked whether it holds users.
pub fn access_start(path: &str) -> (r: AccessStep)
    ensures
        public_route(path@) ==> r matches AccessStep::Forward(None),
        !public_route(path@) ==> r matches AccessStep::CountUsers,
{
    if is_public_route(path) {
        AccessStep::Forward(None)
    } else {
        AccessStep::CountUsers
    }
}

/// Second step, once the store has said whether it holds users. While it
/// holds none every request passes (setup is open); otherwise a session
/// cookie is required.
pub fn access_after_user_count(headers: &RequestHeaders, has_users: Result<bool, String>) -> (r:
    AccessStep)
    ensures
        match has_users {
            Ok(false) => r matches AccessStep::Forward(None),
            Err(e) => r matches AccessStep::Respond { status, message } && status == 500
                && message@ == "Auth status error: "@ + e@,
            Ok(true) => match cookie_of(*headers, "wsm_session"@) {
                None => r matches AccessStep::Respond { status, message } && status == 401
                    && message@ == "Authentication required"@,
                Some(t) => r matches AccessStep::CheckSession(token) && token@ == t,
            },
        },
{
    match has_users {
        Ok(false) => AccessStep::Forward(None),
        Err(e) => AccessStep::Respond {
            status: 500,
            message: concat("Auth status error: ", e.as_str()),
        },
        Ok(true) => match extract_cookie(headers, "wsm_session") {
            None => AccessStep::Respond {
                status: 401,
                message: "Authentication required".to_string(),
            },
            Some(token) => AccessStep::CheckSession(token),
        },
    }
}

/// Last step, once the store has looked up the session. A request runs for
/// the session's user only when it carries a valid CSRF token (for
/// state-changing methods outside the exempt routes) and the user holds the
/// route's permission.
pub fn access_after_session(
    method: &str,
    path: &str,
    headers: &RequestHeaders,
    token: &str,
    session: Result<Option<AuthUser>, String>,
) -> (r: AccessStep)
    ensures
        match session {
            Err(e) => r matches AccessStep::Respond { status, message } && status == 500
                && message@ == "Auth validation error: "@ + e@,
            Ok(None) => r matches AccessStep::Respond { status, message } && status == 401
                && message@ == "Session expired or invalid"@,
            Ok(Some(user)) => if csrf_protected_method(method@) && !csrf_exempt_route(path@)
                && !csrf_valid(*headers, token@) {
                r matches AccessStep::Respond { status, message } && status == 403 && message@
                    == "CSRF token validation failed"@
            } else if !permits(user, required_permission(method@, path@)) {
                r matches AccessStep::Respond { status, message } && status == 403 && message@
                    == "Insufficient permissions"@
            } else {
                r matches AccessStep::Forward(Some(u)) && u.id == user.id && u.username
                    == user.username && u.is_admin == user.is_admin && u.permission_flags
                    == user.permission_flags
            },
        },
        r matches AccessStep::Forward(Some(u)) ==> session matches Ok(Some(user)) && permits(
            user,
            required_permission(method@, path@),
        ) && (csrf_protected_method(method@) && !csrf_exempt_route(path@) ==> csrf_valid(
            *headers,
            token@,
        )),
{
    match session {
        Ok(Some(user)) => {
            if is_csrf_protected_method(method) && !is_csrf_exempt_route(path) && !validate_csrf(
                headers,
                token,
            ) {
                return AccessStep::Respond {
                    status: 403,
                    message: "CSRF token validation failed".to_string(),
                };
            }
            match authorize_request(&user, method, path) {
                Err(msg) => AccessStep::Respond { status: 403, message: msg.to_string() },
                Ok(()) => AccessStep::Forward(
                    Some(
                        RequestUser {
                            id: user.id,
                            username: user.username,
                            is_admin: user.is_admin,
                            permission_flags: user.permission_flags,
                        },
                    ),
                ),
            }
        },
        Ok(None) => AccessStep::Respond {
            status: 401,
            message: "Session expired or invalid".to_string(),
        },
        Err(e) => AccessStep::Respond {
            status: 500,
            message: concat("Auth validation error: ", e.as_str()),
        },
    }
}

/// What the WebSocket endpoint does next with a connection.
pub enum WsAccessStep {
    /// Authentication is settled: a user to serve, none (refuse), or an error.
    Settled(Result<Option<AuthUser>, String>),
    /// Ask the store for the user of this session token.
    CheckSession(String),
}

/// The WebSocket endpoint, once the store has said whether it holds users:
/// with no users yet the connection is served as a bootstrap administrator
/// holding every permission; otherwise a session cookie is required.
pub fn ws_access_after_user_count(headers: &RequestHeaders, has_users: Result<bool, String>) -> (r:
    WsAccessStep)
    ensures
        match has_users {
            Err(e) => r matches WsAccessStep::Settled(Err(m)) && m == e,
            Ok(false) => r matches WsAccessStep::Settled(Ok(Some(u))) && u.id == 0 && u.username@
                == "bootstrap"@ && u.is_admin && u.permission_flags == i64::MAX,
            Ok(true) => match cookie_of(*headers, "wsm_session"@) {
                None => r matches WsAccessStep::Settled(Ok(None)),
                Some(t) => r matches WsAccessStep::CheckSession(token) && token@ == t,
            },
        },
{
    match has_users {
        Err(e) => WsAccessStep::Settled(Err(e)),
        Ok(false) => WsAccessStep::Settled(
            Ok(
                Some(
                    AuthUser {
                        id: 0,
                        username: "bootstrap".to_string(),
                        is_admin: true,
                        permission_flags: i64::MAX,
                    },
                ),
            ),
        ),
        Ok(true) => match extract_cookie(headers, "wsm_session") {
            None => WsAccessStep::Settled(Ok(None)),
            Some(token) => WsAccessStep::CheckSession(token),
        },
    }
}

/// The WebSocket endpoint, once the store has looked up the session: only a
/// user who may view the dashboard is served.
pub fn ws_access_after_session(session: Result<Option<AuthUser>, String>) -> (r: Result<
    Option<AuthUser>,
    String,
>)
    ensures
        match session {
            Err(e) => r == Err::<Option<AuthUser>, String>(e),
            Ok(None) => r == Ok::<Option<AuthUser>, String>(None),
            Ok(Some(u)) => if permits(u, PERM_VIEW_DASHBOARD) {
                r == Ok::<Option<AuthUser>, String>(Some(u))
            } else {
                r == Ok::<Option<AuthUser>, String>(None)
            },
        },
{
    match session {
        Err(e) => Err(e),
        Ok(None) => Ok(None),
        Ok(Some(u)) => {
            if has_permission(&u, PERM_VIEW_DASHBOARD) {
                Ok(Some(u))
            } else {
                Ok(None)
            }
        },
    }
}

} // verus!
