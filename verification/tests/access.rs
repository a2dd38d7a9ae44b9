use windrose_server_manager::access::{AuthStatus, SessionInfo};
use windrose_server_manager::accounts::AuthUser;
use windrose_server_manager::access::{
    access_after_session, access_after_user_count, access_start, authorize_request,
    clear_csrf_cookie, clear_session_cookie, cookie_value, csrf_cookie, csrf_token_for_session,
    extract_cookie, has_permission, is_csrf_exempt_route, is_csrf_protected_method,
    is_public_route, required_permission_for, session_cookie, validate_csrf,
    ws_access_after_session, ws_access_after_user_count, AccessStep, HeaderText, RequestHeaders,
    WsAccessStep, PERM_MANAGE_BACKUPS, PERM_MANAGE_CONFIG, PERM_MANAGE_INSTALL,
    PERM_MANAGE_SCHEDULE, PERM_MANAGE_SERVER, PERM_MANAGE_UPDATES, PERM_MANAGE_USERS,
    PERM_VIEW_DASHBOARD,
};

fn user(is_admin: bool, flags: i64) -> AuthUser {
    AuthUser { id: 7, username: "u".to_string(), is_admin, permission_flags: flags }
}

fn headers(cookie: Option<&str>, csrf: Option<&str>) -> RequestHeaders {
    RequestHeaders {
        cookie: match cookie {
            Some(c) => HeaderText::Text(c.to_string()),
            None => HeaderText::Absent,
        },
        csrf_token: match csrf {
            Some(c) => HeaderText::Text(c.to_string()),
            None => HeaderText::Absent,
        },
        xsrf_token: HeaderText::Absent,
    }
}

#[test]
fn public_routes() {
    for p in ["/api/health", "/api/auth/login", "/api/setup/status", "/"] {
        assert!(is_public_route(p));
    }
    assert!(!is_public_route("/api/state"));
    assert!(!is_public_route("/api/auth/users"));
}

#[test]
fn csrf_methods_and_exempt_routes() {
    assert!(!is_csrf_protected_method("GET"));
    assert!(!is_csrf_protected_method("HEAD"));
    assert!(!is_csrf_protected_method("OPTIONS"));
    assert!(is_csrf_protected_method("POST"));
    assert!(is_csrf_protected_method("DELETE"));
    assert!(is_csrf_exempt_route("/api/auth/logout"));
    assert!(!is_csrf_exempt_route("/api/server/start"));
}

#[test]
fn permission_table() {
    assert_eq!(required_permission_for("GET", "/ws"), Some(PERM_VIEW_DASHBOARD));
    assert_eq!(required_permission_for("GET", "/api/server/stats"), Some(PERM_VIEW_DASHBOARD));
    assert_eq!(required_permission_for("POST", "/api/server/start"), Some(PERM_MANAGE_SERVER));
    assert_eq!(required_permission_for("GET", "/api/config/server"), Some(PERM_VIEW_DASHBOARD));
    assert_eq!(required_permission_for("PUT", "/api/config/server"), Some(PERM_MANAGE_CONFIG));
    assert_eq!(required_permission_for("PUT", "/api/setup/config"), Some(PERM_MANAGE_CONFIG));
    assert_eq!(required_permission_for("GET", "/api/backup"), Some(PERM_VIEW_DASHBOARD));
    assert_eq!(required_permission_for("POST", "/api/backup/create"), Some(PERM_MANAGE_BACKUPS));
    assert_eq!(required_permission_for("PUT", "/api/schedule"), Some(PERM_MANAGE_SCHEDULE));
    assert_eq!(required_permission_for("POST", "/api/install/run"), Some(PERM_MANAGE_INSTALL));
    assert_eq!(required_permission_for("POST", "/api/update/apply"), Some(PERM_MANAGE_UPDATES));
    assert_eq!(required_permission_for("GET", "/api/auth/me"), Some(PERM_VIEW_DASHBOARD));
    assert_eq!(required_permission_for("PATCH", "/api/auth/users/3"), Some(PERM_MANAGE_USERS));
    assert_eq!(required_permission_for("GET", "/api/unmapped"), Some(PERM_VIEW_DASHBOARD));
}

#[test]
fn permission_bits() {
    assert_eq!(PERM_VIEW_DASHBOARD, 1);
    assert_eq!(PERM_MANAGE_USERS, 128);
    assert!(has_permission(&user(true, 0), PERM_MANAGE_USERS));
    assert!(has_permission(&user(false, 1 | 2), PERM_MANAGE_SERVER));
    assert!(!has_permission(&user(false, 1), PERM_MANAGE_SERVER));
    assert_eq!(authorize_request(&user(false, 1), "POST", "/api/server/start"), Err("Insufficient permissions"));
    assert_eq!(authorize_request(&user(false, 3), "POST", "/api/server/start"), Ok(()));
}

#[test]
fn cookie_parsing() {
    let raw = "theme=dark; wsm_session = abc=def ; other=1";
    assert_eq!(cookie_value(raw, "wsm_session"), Some("abc=def".to_string()));
    assert_eq!(cookie_value(raw, "theme"), Some("dark".to_string()));
    assert_eq!(cookie_value(raw, "missing"), None);
    assert_eq!(cookie_value("novalue; wsm_session=x", "wsm_session"), None);
    assert_eq!(extract_cookie(&headers(None, None), "wsm_session"), None);
}

#[test]
fn session_cookie_reads_back() {
    let set = session_cookie("tok123", false, 3600);
    let sent = set.split(';').next().unwrap().to_string();
    assert_eq!(cookie_value(&sent, "wsm_session"), Some("tok123".to_string()));
}

#[test]
fn cookie_formats() {
    assert_eq!(
        session_cookie("t", false, 3600),
        "wsm_session=t; HttpOnly; Path=/; SameSite=Strict; Max-Age=3600"
    );
    assert_eq!(
        session_cookie("t", true, 1),
        "wsm_session=t; HttpOnly; Path=/; SameSite=Strict; Max-Age=60; Secure"
    );
    assert_eq!(
        csrf_cookie("c", false, 999_999_999),
        "wsm_csrf=c; Path=/; SameSite=Strict; Max-Age=2592000"
    );
    assert_eq!(clear_session_cookie(true), "wsm_session=; HttpOnly; Path=/; SameSite=Strict; Max-Age=0; Secure");
    assert_eq!(clear_csrf_cookie(false), "wsm_csrf=; Path=/; SameSite=Strict; Max-Age=0");
}

#[test]
fn csrf_token_is_sha256_of_session() {
    assert_eq!(
        csrf_token_for_session("abc"),
        "ba7816bf8f01cfea414140de5dae2223b00361a396177a9cb410ff61f20015ad"
    );
}

#[test]
fn csrf_round_trip() {
    let token = "session-token";
    let csrf = csrf_token_for_session(token);
    let cookie = format!("wsm_session={token}; wsm_csrf={csrf}");
    assert!(validate_csrf(&headers(Some(&cookie), Some(&format!(" {csrf} "))), token));
    assert!(!validate_csrf(&headers(Some(&cookie), Some("wrong")), token));
    assert!(!validate_csrf(&headers(Some(&cookie), None), token));
    assert!(!validate_csrf(&headers(None, Some(&csrf)), token));
    let xsrf = RequestHeaders {
        cookie: HeaderText::Text(cookie.clone()),
        csrf_token: HeaderText::Absent,
        xsrf_token: HeaderText::Text(csrf.clone()),
    };
    assert!(validate_csrf(&xsrf, token));
}

#[test]
fn access_steps() {
    assert!(matches!(access_start("/api/health"), AccessStep::Forward(None)));
    assert!(matches!(access_start("/api/state"), AccessStep::CountUsers));
    let h = headers(Some("wsm_session=tok"), None);
    assert!(matches!(access_after_user_count(&h, Ok(false)), AccessStep::Forward(None)));
    match access_after_user_count(&h, Ok(true)) {
        AccessStep::CheckSession(t) => assert_eq!(t, "tok"),
        _ => panic!("expected a session check"),
    }
    match access_after_user_count(&headers(None, None), Ok(true)) {
        AccessStep::Respond { status, message } => {
            assert_eq!(status, 401);
            assert_eq!(message, "Authentication required");
        }
        _ => panic!("expected 401"),
    }
    match access_after_user_count(&h, Err("db".to_string())) {
        AccessStep::Respond { status, message } => {
            assert_eq!(status, 500);
            assert_eq!(message, "Auth status error: db");
        }
        _ => panic!("expected 500"),
    }
}

#[test]
fn access_after_session_checks_csrf_then_permission() {
    let token = "tok";
    let csrf = csrf_token_for_session(token);
    let good = headers(Some(&format!("wsm_session={token}; wsm_csrf={csrf}")), Some(&csrf));
    let bad = headers(Some(&format!("wsm_session={token}")), None);
    match access_after_session("POST", "/api/server/start", &bad, token, Ok(Some(user(true, 0)))) {
        AccessStep::Respond { status, message } => {
            assert_eq!(status, 403);
            assert_eq!(message, "CSRF token validation failed");
        }
        _ => panic!("expected CSRF refusal"),
    }
    match access_after_session("POST", "/api/server/start", &good, token, Ok(Some(user(false, 1)))) {
        AccessStep::Respond { status, message } => {
            assert_eq!(status, 403);
            assert_eq!(message, "Insufficient permissions");
        }
        _ => panic!("expected permission refusal"),
    }
    match access_after_session("POST", "/api/server/start", &good, token, Ok(Some(user(false, 3)))) {
        AccessStep::Forward(Some(u)) => assert_eq!(u.id, 7),
        _ => panic!("expected forward"),
    }
    match access_after_session("GET", "/api/state", &bad, token, Ok(Some(user(false, 1)))) {
        AccessStep::Forward(Some(_)) => {}
        _ => panic!("GET needs no CSRF token"),
    }
    match access_after_session("GET", "/api/state", &bad, token, Ok(None)) {
        AccessStep::Respond { status, .. } => assert_eq!(status, 401),
        _ => panic!("expected 401"),
    }
    match access_after_session("GET", "/api/state", &bad, token, Err("x".to_string())) {
        AccessStep::Respond { status, message } => {
            assert_eq!(status, 500);
            assert_eq!(message, "Auth validation error: x");
        }
        _ => panic!("expected 500"),
    }
}

#[test]
fn websocket_access() {
    match ws_access_after_user_count(&headers(None, None), Ok(false)) {
        WsAccessStep::Settled(Ok(Some(u))) => {
            assert_eq!(u.username, "bootstrap");
            assert!(u.is_admin);
            assert_eq!(u.permission_flags, i64::MAX);
        }
        _ => panic!("expected bootstrap user"),
    }
    assert!(matches!(ws_access_after_user_count(&headers(None, None), Ok(true)), WsAccessStep::Settled(Ok(None))));
    assert!(matches!(ws_access_after_session(Ok(Some(user(false, 0)))), Ok(None)));
    assert!(matches!(ws_access_after_session(Ok(Some(user(false, 1)))), Ok(Some(_))));
}

#[test]
fn status_and_session_info() {
    let s = AuthStatus::from_has_users(false);
    assert!(!s.has_users && s.needs_bootstrap);
    let i = SessionInfo::from_user(user(true, 3));
    assert_eq!(i.username, "u");
    assert!(i.is_admin);
    assert_eq!(i.permission_flags, 3);
}
