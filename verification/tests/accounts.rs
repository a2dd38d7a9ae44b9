use windrose_server_manager::accounts::{admin_user, code_for, invited_user, session_for};
use windrose_server_manager::accounts::check_lockout;
use windrose_server_manager::accounts::{
    audit_cutoff, audit_limit, check_invite, check_login, check_new_password, check_other_admins,
    invite_terms, lockout_active, next_login_failure, open_session, plan_bootstrap_admin,
    plan_invite, plan_password_reset, plan_registration, plan_reset_code, plan_user_update,
    reset_code_expiry, validate_new_account, AuditEventRecord, AuditEventSummary, AuditQuery,
    AuthSettings, AuthUserRecord, AuthUserSummary, CreateInviteRequest, CreateResetCodeRequest,
    InviteRecord, InviteRow, InviteSummary, LoginOutcome, LoginRow, UserRow,
};
use windrose_server_manager::accounts::{
    check_session, usable_reset_code, AuthUser, ResetCodeRow, SessionRow,
};
use windrose_server_manager::crypto::hash_token;

fn settings() -> AuthSettings {
    AuthSettings { session_ttl_secs: 3600, max_failed_logins: 3, lockout_minutes: 15 }
}

#[test]
fn settings_are_clamped() {
    let s = AuthSettings { session_ttl_secs: 10, max_failed_logins: 500, lockout_minutes: 0 }.sanitised();
    assert_eq!(s.session_ttl_secs, 900);
    assert_eq!(s.max_failed_logins, 50);
    assert_eq!(s.lockout_minutes, 1);
    let s = AuthSettings { session_ttl_secs: 10_000_000, max_failed_logins: 5, lockout_minutes: 99_999 }.sanitised();
    assert_eq!(s.session_ttl_secs, 604800);
    assert_eq!(s.max_failed_logins, 5);
    assert_eq!(s.lockout_minutes, 1440);
}

#[test]
fn password_length_is_counted_in_bytes() {
    assert!(check_new_password("123456789").is_err());
    assert!(check_new_password("1234567890").is_ok());
    assert!(check_new_password("ééééé").is_ok());
    assert_eq!(check_new_password("short"), Err("Password must be at least 10 characters".to_string()));
}

#[test]
fn new_account_validation() {
    assert_eq!(validate_new_account("   ", "longenough1"), Err("Username is required".to_string()));
    assert_eq!(validate_new_account(" bob ", "short"), Err("Password must be at least 10 characters".to_string()));
    assert_eq!(validate_new_account(" bob ", "longenough1"), Ok("bob".to_string()));
}

#[test]
fn bootstrap_only_while_empty() {
    let r = plan_bootstrap_admin("admin".to_string(), "correct horse", 1, 100);
    assert_eq!(r.err(), Some("Bootstrap is disabled after first user is created".to_string()));
    let u = plan_bootstrap_admin("admin".to_string(), "correct horse", 0, 100).ok().unwrap();
    assert!(u.is_admin);
    assert_eq!(u.permission_flags, i64::MAX);
    assert!(!u.disabled);
    assert_eq!(u.created_at, 100);
    assert!(u.password_hash.starts_with("$argon2"));
    assert_ne!(u.password_hash, "correct horse");
}

#[test]
fn login_checks_stored_hash() {
    let u = plan_bootstrap_admin("admin".to_string(), "correct horse", 0, 1).ok().unwrap();
    let row = |disabled: bool| LoginRow {
        user_id: 1,
        password_hash: u.password_hash.clone(),
        is_admin: true,
        permission_flags: 5,
        disabled,
    };
    match check_login(Some(row(false)), "admin", "correct horse") {
        LoginOutcome::Accepted(a) => {
            assert_eq!(a.id, 1);
            assert_eq!(a.username, "admin");
            assert_eq!(a.permission_flags, 5);
        }
        _ => panic!("expected acceptance"),
    }
    match check_login(Some(row(false)), "admin", "wrong password") {
        LoginOutcome::Rejected(j) => {
            assert!(j.counts_as_failure);
            assert_eq!(j.audit_detail, "bad password");
            assert_eq!(j.message, "Invalid username or password");
        }
        _ => panic!("expected rejection"),
    }
    match check_login(Some(row(true)), "admin", "correct horse") {
        LoginOutcome::Rejected(j) => {
            assert!(!j.counts_as_failure);
            assert_eq!(j.message, "Account is disabled");
        }
        _ => panic!("expected rejection"),
    }
    match check_login(None, "ghost", "whatever") {
        LoginOutcome::Rejected(j) => {
            assert!(j.user_id.is_none());
            assert_eq!(j.audit_detail, "unknown user");
        }
        _ => panic!("expected rejection"),
    }
    let broken = LoginRow { user_id: 1, password_hash: "not-a-hash".to_string(), is_admin: false, permission_flags: 0, disabled: false };
    match check_login(Some(broken), "x", "y") {
        LoginOutcome::Failed(m) => assert!(m.starts_with("Invalid stored password hash")),
        _ => panic!("expected failure"),
    }
}

#[test]
fn lockout_after_repeated_failures() {
    let s = settings();
    assert_eq!(next_login_failure(None, 1000, s), (1, None));
    assert_eq!(next_login_failure(Some((1, None)), 1000, s), (2, None));
    assert_eq!(next_login_failure(Some((2, None)), 1000, s), (0, Some(1000 + 15 * 60)));
    assert!(lockout_active(Some(2000), 1999));
    assert!(!lockout_active(Some(2000), 2000));
    assert!(!lockout_active(None, 5));
}

#[test]
fn sessions_are_random_and_hashed() {
    let s = open_session(100, settings());
    assert_eq!(s.token.len(), 64);
    assert!(s.token.chars().all(|c| c.is_ascii_alphanumeric()));
    assert_eq!(s.token_hash, hash_token(&s.token));
    assert_eq!(s.expires_at, 3700);
    let t = open_session(100, settings());
    assert_ne!(s.token, t.token);
}

fn row(is_admin: bool, disabled: bool) -> Option<UserRow> {
    Some(UserRow { username: "bob".to_string(), is_admin, permission_flags: 1, disabled, created_at: 9 })
}

#[test]
fn user_updates() {
    assert_eq!(plan_user_update(1, 2, None, None, None, None).err(), Some("User not found".to_string()));
    assert_eq!(
        plan_user_update(1, 1, row(true, false), Some(false), None, None).err(),
        Some("Cannot remove your own admin access or disable your own account".to_string())
    );
    let p = plan_user_update(1, 2, row(true, false), None, Some(7), Some(true)).ok().unwrap();
    assert!(p.check_other_admins);
    assert_eq!(p.record.id, 2);
    assert_eq!(p.record.permission_flags, 7);
    assert!(p.record.disabled);
    assert_eq!(p.record.created_at, 9);
    let p = plan_user_update(1, 2, row(false, false), Some(true), None, None).ok().unwrap();
    assert!(!p.check_other_admins);
    assert!(p.record.is_admin);
    assert_eq!(check_other_admins(0), Err("Cannot remove or disable the last active admin".to_string()));
    assert_eq!(check_other_admins(2), Ok(()));
}

#[test]
fn invites() {
    assert_eq!(plan_invite(0).err(), Some("max_uses must be at least 1".to_string()));
    let c = plan_invite(1).ok().unwrap();
    assert_eq!(c.code.len(), 32);
    assert_eq!(c.code_hash, hash_token(&c.code));
    let i = InviteRow { id: 1, permission_flags: 3, max_uses: 2, uses: 0, expires_at: Some(500) };
    assert_eq!(check_invite(None, 0).err(), Some("Invalid invite code".to_string()));
    assert!(check_invite(Some(i), 499).is_ok());
    assert_eq!(check_invite(Some(i), 500).err(), Some("Invite code has expired".to_string()));
    let used = InviteRow { uses: 2, ..i };
    assert_eq!(check_invite(Some(used), 0).err(), Some("Invite code has already been used up".to_string()));
    assert_eq!(plan_registration("bob".to_string(), "longenough1", Some(4), i, 0).err(), Some("Username is already taken".to_string()));
    let u = plan_registration("bob".to_string(), "longenough1", None, i, 10).ok().unwrap();
    assert!(!u.is_admin);
    assert_eq!(u.permission_flags, 3);
}

#[test]
fn invite_terms_are_clamped() {
    let req = CreateInviteRequest { permission_flags: 1, max_uses: None, expires_in_hours: None };
    assert_eq!(invite_terms(&req, 0), (1, None));
    let req = CreateInviteRequest { permission_flags: 1, max_uses: Some(5000), expires_in_hours: Some(2) };
    assert_eq!(invite_terms(&req, 100), (1000, Some(100 + 7200)));
    let req = CreateInviteRequest { permission_flags: 1, max_uses: Some(-3), expires_in_hours: Some(0) };
    assert_eq!(invite_terms(&req, 100), (1, None));
}

#[test]
fn invite_summary_flags() {
    let rec = InviteRecord { id: 1, permission_flags: 0, max_uses: 1, uses: 1, created_at: 0, expires_at: Some(10), created_by_user: None };
    let s = InviteSummary::from_record(rec, 10);
    assert!(s.exhausted);
    assert!(s.expired);
    let rec = InviteRecord { id: 1, permission_flags: 0, max_uses: 2, uses: 1, created_at: 0, expires_at: None, created_by_user: Some(1) };
    let s = InviteSummary::from_record(rec, 10);
    assert!(!s.exhausted);
    assert!(!s.expired);
}

#[test]
fn reset_codes() {
    assert_eq!(plan_reset_code(None).err(), Some("User not found".to_string()));
    let p = plan_reset_code(Some((4, "bob".to_string()))).ok().unwrap();
    assert_eq!(p.user_id, 4);
    assert_eq!(p.code.len(), 24);
    assert_eq!(p.code_hash, hash_token(&p.code));
    let req = CreateResetCodeRequest { username: "bob".to_string(), expires_in_minutes: None };
    assert_eq!(reset_code_expiry(&req, 1000), 1000 + 30 * 60);
    let req = CreateResetCodeRequest { username: "bob".to_string(), expires_in_minutes: Some(1) };
    assert_eq!(reset_code_expiry(&req, 1000), 1000 + 5 * 60);
    let req = CreateResetCodeRequest { username: "bob".to_string(), expires_in_minutes: Some(100_000) };
    assert_eq!(reset_code_expiry(&req, 0), 24 * 60 * 60);
    assert_eq!(plan_password_reset(None, "longenough1").err(), Some("Invalid or expired reset code".to_string()));
    let r = plan_password_reset(Some((8, 4)), "longenough1").ok().unwrap();
    assert_eq!((r.reset_id, r.user_id), (8, 4));
}

#[test]
fn audit_limits() {
    assert_eq!(audit_limit(&AuditQuery { limit: None }), 200);
    assert_eq!(audit_limit(&AuditQuery { limit: Some(0) }), 1);
    assert_eq!(audit_limit(&AuditQuery { limit: Some(9999) }), 500);
    assert_eq!(audit_cutoff(1_000_000, 1), 1_000_000 - 86400);
    assert_eq!(audit_cutoff(1_000_000_000, 0), 1_000_000_000 - 86400);
    assert_eq!(audit_cutoff(1_000_000_000, 99_999), 1_000_000_000 - 3650 * 86400);
}

#[test]
fn summaries_copy_records() {
    let u = AuthUserSummary::from_record(AuthUserRecord { id: 3, username: "c".to_string(), is_admin: false, permission_flags: 9, disabled: true, created_at: 4 });
    assert_eq!((u.id, u.username.as_str(), u.permission_flags, u.disabled, u.created_at), (3, "c", 9, true, 4));
    let e = AuditEventSummary::from_record(AuditEventRecord { id: 1, created_at: 2, actor_user_id: Some(3), actor_username: None, action: "login".to_string(), details: None, success: false });
    assert_eq!(e.action, "login");
    assert_eq!(e.actor_user_id, Some(3));
    assert!(!e.success);
}

#[test]
fn lockout_check_and_run_of_failures() {
    assert_eq!(check_lockout(Some(200), 100), Err("Too many failed attempts. Try again later.".to_string()));
    assert_eq!(check_lockout(Some(100), 100), Ok(()));
    assert_eq!(check_lockout(None, 100), Ok(()));
    let s = AuthSettings { session_ttl_secs: 3600, max_failed_logins: 5, lockout_minutes: 10 };
    let mut rec = None;
    for k in 1..5 {
        rec = Some(next_login_failure(rec, 50, s));
        assert_eq!(rec, Some((k, None)));
    }
    assert_eq!(next_login_failure(rec, 50, s), (0, Some(50 + 600)));
}

#[test]
fn records_built_from_hashes() {
    let a = admin_user("root".to_string(), "$argon2id$x".to_string(), 5);
    assert!(a.is_admin && !a.disabled);
    assert_eq!(a.permission_flags, i64::MAX);
    assert_eq!(a.password_hash, "$argon2id$x");
    let i = InviteRow { id: 1, permission_flags: 12, max_uses: 1, uses: 0, expires_at: None };
    let u = invited_user("guest".to_string(), "h".to_string(), i, 6);
    assert!(!u.is_admin);
    assert_eq!(u.permission_flags, 12);
    assert_eq!(u.created_at, 6);
    let s = session_for("abc".to_string(), 10, settings());
    assert_eq!(s.token_hash, "ba7816bf8f01cfea414140de5dae2223b00361a396177a9cb410ff61f20015ad");
    assert_eq!(s.expires_at, 3610);
    let c = code_for("abc".to_string());
    assert_eq!(c.code, "abc");
    assert_eq!(c.code_hash, s.token_hash);
}

fn login_row_for(user_id: i64, password_hash: String, disabled: bool) -> LoginRow {
    LoginRow { user_id, password_hash, is_admin: false, permission_flags: 3, disabled }
}

#[test]
fn registered_password_logs_in() {
    let invite = InviteRow { id: 2, permission_flags: 3, max_uses: 5, uses: 0, expires_at: None };
    assert_eq!(
        plan_registration("bob".to_string(), "longenough1", Some(9), invite, 10).err(),
        Some("Username is already taken".to_string())
    );
    let u = plan_registration("bob".to_string(), "longenough1", None, invite, 10).ok().unwrap();
    assert!(!u.is_admin);
    assert!(!u.disabled);
    assert_eq!(u.permission_flags, 3);
    assert_eq!(u.username, "bob");
    assert_ne!(u.password_hash, "longenough1");
    match check_login(Some(login_row_for(7, u.password_hash.clone(), false)), "bob", "longenough1") {
        LoginOutcome::Accepted(a) => {
            assert_eq!(a.id, 7);
            assert_eq!(a.permission_flags, 3);
        }
        _ => panic!("expected acceptance"),
    }
    match check_login(Some(login_row_for(7, u.password_hash, false)), "bob", "bob") {
        LoginOutcome::Rejected(j) => assert_eq!(j.audit_detail, "bad password"),
        _ => panic!("expected rejection"),
    }
}

#[test]
fn reset_password_logs_in() {
    let r = plan_password_reset(Some((8, 4)), "brand new password").ok().unwrap();
    match check_login(Some(login_row_for(4, r.password_hash.clone(), false)), "bob", "brand new password") {
        LoginOutcome::Accepted(a) => assert_eq!(a.id, 4),
        _ => panic!("expected acceptance"),
    }
    match check_login(Some(login_row_for(4, r.password_hash, false)), "bob", "") {
        LoginOutcome::Rejected(j) => assert!(j.counts_as_failure),
        _ => panic!("expected rejection"),
    }
}

#[test]
fn sessions_are_honoured_until_they_expire() {
    let user = AuthUser { id: 3, username: "eve".to_string(), is_admin: false, permission_flags: 1 };
    let s = open_session(100, settings());
    let row = |disabled: bool| SessionRow { expires_at: s.expires_at, user: user.clone(), user_disabled: disabled };
    let got = check_session(Some(row(false)), 3699).unwrap();
    assert_eq!(got.id, 3);
    assert_eq!(got.username, "eve");
    assert!(check_session(Some(row(false)), 3700).is_none());
    assert!(check_session(Some(row(true)), 200).is_none());
    assert!(check_session(None, 200).is_none());
}

#[test]
fn reset_codes_are_single_use() {
    let fresh = ResetCodeRow { id: 8, user_id: 4, expires_at: 500, consumed_at: None };
    assert_eq!(usable_reset_code(Some(fresh), 499), Some((8, 4)));
    assert_eq!(usable_reset_code(Some(fresh), 500), None);
    let used = ResetCodeRow { consumed_at: Some(450), ..fresh };
    assert_eq!(usable_reset_code(Some(used), 460), None);
    assert_eq!(usable_reset_code(None, 0), None);
    assert_eq!(
        plan_password_reset(usable_reset_code(Some(used), 460), "longenough1").err(),
        Some("Invalid or expired reset code".to_string())
    );
}

#[test]
fn failure_at_the_limit_locks_out() {
    let s = settings();
    let (count, until) = next_login_failure(Some((s.max_failed_logins - 1, None)), 1000, s);
    assert_eq!(count, 0);
    assert_eq!(until, Some(1000 + s.lockout_minutes * 60));
    assert!(check_lockout(until, 1000 + s.lockout_minutes * 60 - 1).is_err());
    assert!(check_lockout(until, 1000 + s.lockout_minutes * 60).is_ok());
}
