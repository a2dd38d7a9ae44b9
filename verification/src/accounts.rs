//! Rules of the account store: settings, credential checks, login lockout,
//! sessions, user updates, invites, password resets and the audit log.
//!
//! The store itself is a database kept by the application; each function
//! here is one decision the store makes between two of its queries, taking
//! what the previous query returned and saying what to do next.
use vstd::prelude::*;
use crate::crypto::{
    hash_password, hash_token, is_token_of_len, random_token, token_digest, verify_password,
    argon2_check,
};
use crate::text::{starts_with, trim, trimmed};
use vstd::utf8::encode_utf8;

verus! {

broadcast use vstd::string::group_string_axioms;

// ---------------------------------------------------------------------------
// Records
// ---------------------------------------------------------------------------

/// Limits that govern sessions and login lockout.
#[derive(Clone, Copy, Debug)]
pub struct AuthSettings {
    pub session_ttl_secs: i64,
    pub max_failed_logins: i64,
    pub lockout_minutes: i64,
}

/// A stored user, as listed to administrators.
#[derive(Debug)]
pub struct AuthUserRecord {
    pub id: i64,
    pub username: String,
    pub is_admin: bool,
    pub permission_flags: i64,
    pub disabled: bool,
    pub created_at: i64,
}

/// A stored invite code (its secret is kept only as a digest).
#[derive(Debug)]
pub struct InviteRecord {
    pub id: i64,
    pub permission_flags: i64,
    pub max_uses: i64,
    pub uses: i64,
    pub created_at: i64,
    pub expires_at: Option<i64>,
    pub created_by_user: Option<i64>,
}

/// One entry of the audit log.
#[derive(Debug)]
pub struct AuditEventRecord {
    pub id: i64,
    pub created_at: i64,
    pub actor_user_id: Option<i64>,
    pub actor_username: Option<String>,
    pub action: String,
    pub details: Option<String>,
    pub success: bool,
}

/// The user behind a valid session.
#[derive(Clone, Debug)]
pub struct AuthUser {
    pub id: i64,
    pub username: String,
    pub is_admin: bool,
    pub permission_flags: i64,
}

/// `Ord::clamp` on integers.
pub open spec fn clamp(x: int, lo: int, hi: int) -> int {
    if x < lo {
        lo
    } else if x > hi {
        hi
    } else {
        x
    }
}

fn clamp_i64(x: i64, lo: i64, hi: i64) -> (r: i64)
    requires
        lo <= hi,
    ensures
        r == clamp(x as int, lo as int, hi as int),
{
    if x < lo {
        lo
    } else if x > hi {
        hi
    } else {
        x
    }
}

impl AuthSettings {
    /// Clamps each limit into its accepted range: sessions last 15 minutes to
    /// 7 days, 1 to 50 failed logins lock an account, lockouts last 1 minute
    /// to 1 day.
    pub fn sanitised(self) -> (r: Self)
        ensures
            r.session_ttl_secs == clamp(self.session_ttl_secs as int, 900, 604800),
            r.max_failed_logins == clamp(self.max_failed_logins as int, 1, 50),
            r.lockout_minutes == clamp(self.lockout_minutes as int, 1, 1440),
    {
        AuthSettings {
            session_ttl_secs: clamp_i64(self.session_ttl_secs, 15 * 60, 7 * 24 * 60 * 60),
            max_failed_logins: clamp_i64(self.max_failed_logins, 1, 50),
            lockout_minutes: clamp_i64(self.lockout_minutes, 1, 24 * 60),
        }
    }
}

// ---------------------------------------------------------------------------
// Credentials
// ---------------------------------------------------------------------------

/// Passwords must be at least 10 bytes long (UTF-8), the length that
/// `str::len` reports.
pub open spec fn password_long_enough(password: Seq<char>) -> bool {
    (encode_utf8(password).len() as usize) >= 10
}

/// Checks a new password's length.
pub fn check_new_password(password: &str) -> (r: Result<(), String>)
    ensures
        r is Ok <==> password_long_enough(password@),
        r is Err ==> r->Err_0@ == "Password must be at least 10 characters"@,
{
    if password.len() < 10 {
        return Err("Password must be at least 10 characters".to_string());
    }
    Ok(())
}

/// Checks the name and password of a new account; on success yields the name
/// with surrounding whitespace removed.
pub fn validate_new_account(username: &str, password: &str) -> (r: Result<String, String>)
    ensures
        trim(username@).len() == 0 ==> r is Err && r->Err_0@ == "Username is required"@,
        trim(username@).len() > 0 && !password_long_enough(password@) ==> r is Err
            && r->Err_0@ == "Password must be at least 10 characters"@,
        trim(username@).len() > 0 && password_long_enough(password@) ==> r is Ok && r->Ok_0@
            == trim(username@),
{
    let name = trimmed(username);
    if name.as_str().is_empty() {
        return Err("Username is required".to_string());
    }
    check_new_password(password)?;
    Ok(name)
}

/// Request to create the first administrator.
pub struct BootstrapRequest {
    pub username: String,
    pub password: String,
}

/// Request to log in.
pub struct LoginRequest {
    pub username: String,
    pub password: String,
}

/// Request to register with an invite code.
pub struct RegisterWithInviteRequest {
    pub invite_code: String,
    pub username: String,
    pub password: String,
}

/// Request to change a user's access; absent fields stay as they are.
pub struct UpdateUserRequest {
    pub is_admin: Option<bool>,
    pub permission_flags: Option<i64>,
    pub disabled: Option<bool>,
}

/// A user to be inserted.
pub struct NewUser {
    pub username: String,
    pub password_hash: String,
    pub is_admin: bool,
    pub permission_flags: i64,
    pub disabled: bool,
    pub created_at: i64,
}

/// The first administrator: an enabled administrator holding every
/// permission bit.
pub open spec fn admin_record(username: String, password_hash: String, now: i64) -> NewUser {
    NewUser {
        username,
        password_hash,
        is_admin: true,
        permission_flags: i64::MAX,
        disabled: false,
        created_at: now,
    }
}

/// The first administrator, with the hash of the chosen password.
pub fn admin_user(username: String, password_hash: String, now: i64) -> (r: NewUser)
    ensures
        r == admin_record(username, password_hash, now),
{
    NewUser {
        username,
        password_hash,
        is_admin: true,
        permission_flags: i64::MAX,
        disabled: false,
        created_at: now,
    }
}

/// The first administrator, created while the store holds no user. The
/// password is hashed with a fresh random salt; if hashing fails its error is
/// returned.
pub fn plan_bootstrap_admin(username: String, password: &str, user_count: i64, now: i64) -> (r:
    Result<NewUser, String>)
    ensures
        user_count > 0 ==> r is Err && r->Err_0@
            == "Bootstrap is disabled after first user is created"@,
        user_count <= 0 && password@.len() <= 0x3FFF_FFFF ==> r is Ok,
        r matches Ok(u) ==> {
            &&& user_count <= 0
            &&& u == admin_record(username, u.password_hash, now)
            &&& argon2_check(password@, u.password_hash@) == Ok::<bool, Seq<char>>(true)
        },
{
    if user_count > 0 {
        return Err("Bootstrap is disabled after first user is created".to_string());
    }
    let password_hash = hash_password(password)?;
    Ok(admin_user(username, password_hash, now))
}

// ---------------------------------------------------------------------------
// Login
// ---------------------------------------------------------------------------

/// A lockout recorded until `until` is still in force at `now`.
pub open spec fn lockout_in_force(lockout_until: Option<i64>, now: i64) -> bool {
    match lockout_until {
        Some(until) => until > now,
        None => false,
    }
}

/// Whether a recorded lockout still blocks logins.
pub fn lockout_active(lockout_until: Option<i64>, now: i64) -> (r: bool)
    ensures
        r == lockout_in_force(lockout_until, now),
{
    match lockout_until {
        Some(until) => until > now,
        None => false,
    }
}

/// Refuses a login while a lockout recorded for the name is in force.
pub fn check_lockout(lockout_until: Option<i64>, now: i64) -> (r: Result<(), String>)
    ensures
        r is Ok <==> !lockout_in_force(lockout_until, now),
        r matches Err(e) ==> e@ == "Too many failed attempts. Try again later."@,
{
    if lockout_active(lockout_until, now) {
        return Err("Too many failed attempts. Try again later.".to_string());
    }
    Ok(())
}

/// What the store holds of the user named in a login attempt.
pub struct LoginRow {
    pub user_id: i64,
    pub password_hash: String,
    pub is_admin: bool,
    pub permission_flags: i64,
    pub disabled: bool,
}

/// A login with `password` is accepted against the stored row: the user
/// exists, is enabled, and the stored hash verifies the password.
pub open spec fn login_accepted(row: Option<LoginRow>, password: Seq<char>) -> bool {
    match row {
        Some(u) => !u.disabled && argon2_check(password, u.password_hash@) == Ok::<
            bool,
            Seq<char>,
        >(true),
        None => false,
    }
}

/// What a login finds in the store for a user inserted as `u` under `user_id`.
pub open spec fn stored_login_row(user_id: i64, u: NewUser) -> LoginRow {
    LoginRow {
        user_id,
        password_hash: u.password_hash,
        is_admin: u.is_admin,
        permission_flags: u.permission_flags,
        disabled: u.disabled,
    }
}

/// What a login finds in the store for `row`'s user once a reset has stored
/// `password_hash`.
pub open spec fn row_after_reset(row: LoginRow, password_hash: String) -> LoginRow {
    LoginRow { password_hash, ..row }
}

/// Why a login attempt is turned away.
pub struct LoginRejection {
    /// The user, when the name is known.
    pub user_id: Option<i64>,
    /// Whether the attempt counts towards a lockout.
    pub counts_as_failure: bool,
    /// Detail written to the audit log.
    pub audit_detail: String,
    /// Message returned to the client.
    pub message: String,
}

/// Result of checking a login attempt's credentials.
pub enum LoginOutcome {
    Accepted(AuthUser),
    Rejected(LoginRejection),
    Failed(String),
}

/// Checks a login attempt against the stored user, if there is one: an
/// unknown name or a wrong password count as failures, a disabled account is
/// refused without counting, and a stored hash that does not parse is an
/// error.
pub fn check_login(row: Option<LoginRow>, username: &str, password: &str) -> (r: LoginOutcome)
    ensures
        r is Accepted <==> login_accepted(row, password@),
        match row {
            None => r matches LoginOutcome::Rejected(j) && j.user_id is None
                && j.counts_as_failure && j.audit_detail@ == "unknown user"@ && j.message@
                == "Invalid username or password"@,
            Some(u) => if u.disabled {
                r matches LoginOutcome::Rejected(j) && j.user_id == Some(u.user_id)
                    && !j.counts_as_failure && j.audit_detail@ == "account disabled"@
                    && j.message@ == "Account is disabled"@
            } else {
                match argon2_check(password@, u.password_hash@) {
                    Ok(true) => r matches LoginOutcome::Accepted(a) && a.id == u.user_id
                        && a.username@ == username@ && a.is_admin == u.is_admin
                        && a.permission_flags == u.permission_flags,
                    Ok(false) => r matches LoginOutcome::Rejected(j) && j.user_id == Some(
                        u.user_id,
                    ) && j.counts_as_failure && j.audit_detail@ == "bad password"@ && j.message@
                        == "Invalid username or password"@,
                    Err(e) => r matches LoginOutcome::Failed(m) && m@ == e,
                }
            },
        },
{
    match row {
        None => LoginOutcome::Rejected(
            LoginRejection {
                user_id: None,
                counts_as_failure: true,
                audit_detail: "unknown user".to_string(),
                message: "Invalid username or password".to_string(),
            },
        ),
        Some(u) => {
            if u.disabled {
                return LoginOutcome::Rejected(
                    LoginRejection {
                        user_id: Some(u.user_id),
                        counts_as_failure: false,
                        audit_detail: "account disabled".to_string(),
                        message: "Account is disabled".to_string(),
                    },
                );
            }
            match verify_password(password, u.password_hash.as_str()) {
                Ok(true) => LoginOutcome::Accepted(
                    AuthUser {
                        id: u.user_id,
                        username: username.to_string(),
                        is_admin: u.is_admin,
                        permission_flags: u.permission_flags,
                    },
                ),
                Ok(false) => LoginOutcome::Rejected(
                    LoginRejection {
                        user_id: Some(u.user_id),
                        counts_as_failure: true,
                        audit_detail: "bad password".to_string(),
                        message: "Invalid username or password".to_string(),
                    },
                ),
                Err(e) => LoginOutcome::Failed(e),
            }
        },
    }
}

/// Failed-login counter and lockout after one more failure: the counter goes
/// up by one; reaching the limit starts a lockout of `lockout_minutes` and
/// resets the counter.
pub open spec fn after_failure(
    prev: Option<(i64, Option<i64>)>,
    now: i64,
    settings: AuthSettings,
) -> (int, Option<int>) {
    let count = match prev {
        Some(p) => p.0 + 1,
        None => 1,
    };
    let until = match prev {
        Some(p) => match p.1 {
            Some(u) => Some(u as int),
            None => None,
        },
        None => None,
    };
    if count >= settings.max_failed_logins {
        (0, Some(now + settings.lockout_minutes * 60))
    } else {
        (count, until)
    }
}

/// The failure state to store after a failed login, given the stored one.
pub fn next_login_failure(prev: Option<(i64, Option<i64>)>, now: i64, settings: AuthSettings) -> (r:
    (i64, Option<i64>))
    requires
        prev matches Some(p) ==> p.0 < i64::MAX,
        i64::MIN <= settings.lockout_minutes * 60 <= i64::MAX,
        i64::MIN <= now + settings.lockout_minutes * 60 <= i64::MAX,
    ensures
        r.0 as int == after_failure(prev, now, settings).0,
        match r.1 {
            Some(u) => after_failure(prev, now, settings).1 == Some(u as int),
            None => after_failure(prev, now, settings).1 is None,
        },
{
    let failed: i64 = match prev {
        Some(p) => p.0 + 1,
        None => 1,
    };
    let until: Option<i64> = match prev {
        Some(p) => p.1,
        None => None,
    };
    if failed >= settings.max_failed_logins {
        (0, Some(now + settings.lockout_minutes * 60))
    } else {
        (failed, until)
    }
}

/// The failure record after `k` failed logins in a row at `now`, starting
/// from none.
pub open spec fn failure_run(k: nat, now: i64, settings: AuthSettings) -> Option<(i64, Option<i64>)>
    decreases k,
{
    if k == 0 {
        None
    } else {
        let (count, until) = after_failure(failure_run((k - 1) as nat, now, settings), now, settings);
        Some(
            (
                count as i64,
                match until {
                    Some(u) => Some(u as i64),
                    None => None,
                },
            ),
        )
    }
}

/// Failed logins are counted until the limit; the failure that reaches
/// `max_failed_logins` starts a lockout of `lockout_minutes` and resets the
/// count.
pub proof fn law_lockout_after_max_failures(now: i64, settings: AuthSettings, k: nat)
    requires
        1 <= settings.max_failed_logins,
        k < settings.max_failed_logins,
    ensures
        k > 0 ==> failure_run(k, now, settings) == Some((k as i64, None::<i64>)),
        after_failure(failure_run(k, now, settings), now, settings) == (if k + 1
            == settings.max_failed_logins {
            (0int, Some(now + settings.lockout_minutes * 60))
        } else {
            ((k + 1) as int, None::<int>)
        }),
    decreases k,
{
    if k > 0 {
        law_lockout_after_max_failures(now, settings, (k - 1) as nat);
    }
}

/// A lockout started at `now` refuses logins for `lockout_minutes` minutes
/// and no longer: it is in force at every moment before `now` plus that
/// many minutes, and over from then on.
pub proof fn law_lockout_lasts_its_minutes(now: i64, settings: AuthSettings, t: i64)
    requires
        i64::MIN <= now + settings.lockout_minutes * 60 <= i64::MAX,
    ensures
        lockout_in_force(Some((now + settings.lockout_minutes * 60) as i64), t) <==> t < now
            + settings.lockout_minutes * 60,
{
}

/// The failure that brings the stored count to the limit locks the name out:
/// from then on every login is refused, whatever the password, until
/// `lockout_minutes` have passed since that failure.
pub proof fn law_failure_at_limit_locks(
    prev_until: Option<i64>,
    failed_at: i64,
    settings: AuthSettings,
    t: i64,
)
    requires
        settings.max_failed_logins >= 1,
        i64::MIN <= failed_at + settings.lockout_minutes * 60 <= i64::MAX,
    ensures
        after_failure(
            Some(((settings.max_failed_logins - 1) as i64, prev_until)),
            failed_at,
            settings,
        ).1 == Some(failed_at + settings.lockout_minutes * 60),
        lockout_in_force(Some((failed_at + settings.lockout_minutes * 60) as i64), t) <==> t
            < failed_at + settings.lockout_minutes * 60,
{
}

/// A new session: the token handed to the client, the digest under which it
/// is stored, and its expiry.
pub struct NewSession {
    pub token: String,
    pub token_hash: String,
    pub expires_at: i64,
}

/// The session for a given token: stored under the token's digest, expiring
/// `session_ttl_secs` from now.
pub fn session_for(token: String, now: i64, settings: AuthSettings) -> (r: NewSession)
    requires
        i64::MIN <= now + settings.session_ttl_secs <= i64::MAX,
    ensures
        r.token == token,
        r.token_hash@ == token_digest(token@),
        r.expires_at == now + settings.session_ttl_secs,
{
    let token_hash = hash_token(token.as_str());
    NewSession { token, token_hash, expires_at: now + settings.session_ttl_secs }
}

/// Opens a session of `session_ttl_secs` with a fresh 64-character token.
pub fn open_session(now: i64, settings: AuthSettings) -> (r: NewSession)
    requires
        i64::MIN <= now + settings.session_ttl_secs <= i64::MAX,
    ensures
        is_token_of_len(r.token@, 64),
        r.token_hash@ == token_digest(r.token@),
        r.expires_at == now + settings.session_ttl_secs,
{
    let token = random_token(64);
    session_for(token, now, settings)
}

/// What the store holds of the session presented with a token: its expiry,
/// its user, and whether that user's account is disabled.
pub struct SessionRow {
    pub expires_at: i64,
    pub user: AuthUser,
    pub user_disabled: bool,
}

/// A stored session is honoured at `now` while it has not expired and its
/// user is enabled.
pub open spec fn session_valid(row: SessionRow, now: i64) -> bool {
    now < row.expires_at && !row.user_disabled
}

/// The user behind a presented session token, if the stored session (if any)
/// is still honoured.
pub fn check_session(row: Option<SessionRow>, now: i64) -> (r: Option<AuthUser>)
    ensures
        match row {
            Some(s) => if session_valid(s, now) {
                r == Some(s.user)
            } else {
                r is None
            },
            None => r is None,
        },
{
    match row {
        Some(s) => {
            if now < s.expires_at && !s.user_disabled {
                Some(s.user)
            } else {
                None
            }
        },
        None => None,
    }
}

/// A session opened at `opened` for an enabled user is honoured at every
/// moment before `opened` plus the session lifetime, and at none after.
pub proof fn law_session_valid_until_expiry(
    opened: i64,
    settings: AuthSettings,
    user: AuthUser,
    t: i64,
)
    requires
        i64::MIN <= opened + settings.session_ttl_secs <= i64::MAX,
    ensures
        session_valid(
            SessionRow {
                expires_at: (opened + settings.session_ttl_secs) as i64,
                user,
                user_disabled: false,
            },
            t,
        ) <==> t < opened + settings.session_ttl_secs,
{
}

// ---------------------------------------------------------------------------
// User updates
// ---------------------------------------------------------------------------

/// What the store holds of the user being updated.
pub struct UserRow {
    pub username: String,
    pub is_admin: bool,
    pub permission_flags: i64,
    pub disabled: bool,
    pub created_at: i64,
}

/// An accepted user update: the record to store, and whether the store must
/// first confirm that another active administrator remains.
pub struct UserUpdatePlan {
    pub record: AuthUserRecord,
    pub check_other_admins: bool,
}

/// A user is an active administrator.
pub open spec fn active_admin(is_admin: bool, disabled: bool) -> bool {
    is_admin && !disabled
}

/// Plans an update of user `target` by user `actor`. Omitted fields keep
/// their stored value. Users may not remove their own admin access or disable
/// themselves; taking admin access away from an administrator, or disabling
/// an enabled one, needs another active administrator.
pub fn plan_user_update(
    actor: i64,
    target: i64,
    current: Option<UserRow>,
    is_admin: Option<bool>,
    permission_flags: Option<i64>,
    disabled: Option<bool>,
) -> (r: Result<UserUpdatePlan, String>)
    ensures
        current is None ==> r is Err && r->Err_0@ == "User not found"@,
        actor == target ==> (r matches Ok(p) ==> p.record.is_admin && !p.record.disabled),
        current matches Some(c) ==> {
            let next_admin = match is_admin {
                Some(b) => b,
                None => c.is_admin,
            };
            let next_flags = match permission_flags {
                Some(f) => f,
                None => c.permission_flags,
            };
            let next_disabled = match disabled {
                Some(b) => b,
                None => c.disabled,
            };
            if actor == target && (next_disabled || !next_admin) {
                r is Err && r->Err_0@
                    == "Cannot remove your own admin access or disable your own account"@
            } else {
                r matches Ok(p) && p.record.id == target && p.record.username == c.username
                    && p.record.is_admin == next_admin && p.record.permission_flags == next_flags
                    && p.record.disabled == next_disabled && p.record.created_at == c.created_at
                    && p.check_other_admins == (c.is_admin && (!next_admin || (!c.disabled
                    && next_disabled)))
            }
        },
{
    let c = match current {
        Some(c) => c,
        None => return Err("User not found".to_string()),
    };
    let next_is_admin = match is_admin {
        Some(b) => b,
        None => c.is_admin,
    };
    let next_flags = match permission_flags {
        Some(f) => f,
        None => c.permission_flags,
    };
    let next_disabled = match disabled {
        Some(b) => b,
        None => c.disabled,
    };
    if actor == target && (next_disabled || !next_is_admin) {
        return Err("Cannot remove your own admin access or disable your own account".to_string());
    }
    let check_other_admins = c.is_admin && (!next_is_admin || (!c.disabled && next_disabled));
    Ok(UserUpdatePlan {
        record: AuthUserRecord {
            id: target,
            username: c.username,
            is_admin: next_is_admin,
            permission_flags: next_flags,
            disabled: next_disabled,
            created_at: c.created_at,
        },
        check_other_admins,
    })
}

/// Refuses an update that would leave no other active administrator.
pub fn check_other_admins(other_active_admins: i64) -> (r: Result<(), String>)
    ensures
        r is Ok <==> other_active_admins != 0,
        r is Err ==> r->Err_0@ == "Cannot remove or disable the last active admin"@,
{
    if other_active_admins == 0 {
        return Err("Cannot remove or disable the last active admin".to_string());
    }
    Ok(())
}

/// An update that the two checks accept never leaves the store without an
/// active administrator when it had one: `others` counts the active
/// administrators other than the target.
pub proof fn law_update_keeps_an_active_admin(
    actor: i64,
    target: i64,
    c: UserRow,
    plan: UserUpdatePlan,
    others: int,
)
    requires
        others >= 0,
        plan.record.id == target,
        plan.check_other_admins == (c.is_admin && (!plan.record.is_admin || (!c.disabled
            && plan.record.disabled))),
        plan.check_other_admins ==> others != 0,
        others + (if active_admin(c.is_admin, c.disabled) {
            1int
        } else {
            0
        }) >= 1,
    ensures
        others + (if active_admin(plan.record.is_admin, plan.record.disabled) {
            1int
        } else {
            0
        }) >= 1,
{
}

// ---------------------------------------------------------------------------
// Invites
// ---------------------------------------------------------------------------

/// A fresh secret code and the digest under which it is stored.
pub struct NewCode {
    pub code: String,
    pub code_hash: String,
}

/// A secret code together with its stored digest.
pub fn code_for(code: String) -> (r: NewCode)
    ensures
        r.code == code,
        r.code_hash@ == token_digest(code@),
{
    let code_hash = hash_token(code.as_str());
    NewCode { code, code_hash }
}

/// Creates an invite code of 32 characters, refusing fewer than one use.
pub fn plan_invite(max_uses: i64) -> (r: Result<NewCode, String>)
    ensures
        max_uses < 1 ==> r is Err && r->Err_0@ == "max_uses must be at least 1"@,
        max_uses >= 1 ==> (r matches Ok(c) && is_token_of_len(c.code@, 32) && c.code_hash@
            == token_digest(c.code@)),
{
    if max_uses < 1 {
        return Err("max_uses must be at least 1".to_string());
    }
    let code = random_token(32);
    Ok(code_for(code))
}

/// What the store holds of an invite presented at registration.
#[derive(Clone, Copy)]
pub struct InviteRow {
    pub id: i64,
    pub permission_flags: i64,
    pub max_uses: i64,
    pub uses: i64,
    pub expires_at: Option<i64>,
}

/// An invite can be used while it has uses left and has not expired.
pub fn check_invite(row: Option<InviteRow>, now: i64) -> (r: Result<InviteRow, String>)
    ensures
        match row {
            None => r is Err && r->Err_0@ == "Invalid invite code"@,
            Some(i) => if i.uses >= i.max_uses {
                r is Err && r->Err_0@ == "Invite code has already been used up"@
            } else if (match i.expires_at {
                Some(e) => now >= e,
                None => false,
            }) {
                r is Err && r->Err_0@ == "Invite code has expired"@
            } else {
                r == Ok::<InviteRow, String>(i)
            },
        },
{
    let i = match row {
        Some(i) => i,
        None => return Err("Invalid invite code".to_string()),
    };
    if i.uses >= i.max_uses {
        return Err("Invite code has already been used up".to_string());
    }
    if let Some(expiry) = i.expires_at {
        if now >= expiry {
            return Err("Invite code has expired".to_string());
        }
    }
    Ok(i)
}

/// A user created by an invite: an enabled non-administrator with the
/// invite's permissions.
pub open spec fn invited_record(username: String, password_hash: String, invite: InviteRow, now: i64) -> NewUser {
    NewUser {
        username,
        password_hash,
        is_admin: false,
        permission_flags: invite.permission_flags,
        disabled: false,
        created_at: now,
    }
}

/// The user created by an invite, with the hash of the chosen password.
pub fn invited_user(username: String, password_hash: String, invite: InviteRow, now: i64) -> (r:
    NewUser)
    ensures
        r == invited_record(username, password_hash, invite, now),
{
    NewUser {
        username,
        password_hash,
        is_admin: false,
        permission_flags: invite.permission_flags,
        disabled: false,
        created_at: now,
    }
}

/// The user created by a valid invite. A name that is already taken is
/// refused; the password is hashed with a fresh random salt, and a hashing
/// error is returned.
pub fn plan_registration(
    username: String,
    password: &str,
    existing_user: Option<i64>,
    invite: InviteRow,
    now: i64,
) -> (r: Result<NewUser, String>)
    ensures
        existing_user is Some <==> (r is Err && r->Err_0@ == "Username is already taken"@),
        existing_user is None && password@.len() <= 0x3FFF_FFFF ==> r is Ok,
        r matches Ok(u) ==> {
            &&& existing_user is None
            &&& u == invited_record(username, u.password_hash, invite, now)
            &&& argon2_check(password@, u.password_hash@) == Ok::<bool, Seq<char>>(true)
        },
{
    if existing_user.is_some() {
        return Err("Username is already taken".to_string());
    }
    match hash_password(password) {
        Ok(password_hash) => Ok(invited_user(username, password_hash, invite, now)),
        Err(e) => {
            proof {
                reveal_strlit("Password hash failed: ");
                reveal_strlit("Username is already taken");
                let prefix = "Password hash failed: "@;
                assert(e@.take(prefix.len() as int) == prefix);
                assert(e@[0] == e@.take(prefix.len() as int)[0]);
                assert(e@[0] == 'P');
                assert("Username is already taken"@[0] == 'U');
            }
            Err(e)
        },
    }
}

/// Request to create an invite.
pub struct CreateInviteRequest {
    pub permission_flags: i64,
    pub max_uses: Option<i64>,
    pub expires_in_hours: Option<i64>,
}

/// An invite just created, with its secret code (shown once).
pub struct CreatedInvite {
    pub code: String,
    pub permission_flags: i64,
    pub max_uses: i64,
    pub expires_at: Option<i64>,
}

/// Terms of a new invite as the API grants them: between 1 and 1000 uses
/// (one when unspecified), and an expiry `hours` from now when a positive
/// number of hours is given.
pub fn invite_terms(req: &CreateInviteRequest, now: i64) -> (r: (i64, Option<i64>))
    requires
        match req.expires_in_hours {
            Some(h) => h > 0 ==> h * 3600 <= i64::MAX && now + h * 3600 <= i64::MAX,
            None => true,
        },
    ensures
        r.0 == clamp(
            match req.max_uses {
                Some(m) => m as int,
                None => 1,
            },
            1,
            1000,
        ),
        match req.expires_in_hours {
            Some(h) if h > 0 => r.1 == Some((now + h * 3600) as i64),
            _ => r.1 is None,
        },
{
    let uses = match req.max_uses {
        Some(m) => m,
        None => 1,
    };
    let expires_at = match req.expires_in_hours {
        Some(h) => {
            if h <= 0 {
                None
            } else {
                Some(now + (h * 60 * 60))
            }
        },
        None => None,
    };
    (clamp_i64(uses, 1, 1000), expires_at)
}

/// An invite as listed to administrators, with whether it is used up or
/// expired at the time of listing.
pub struct InviteSummary {
    pub id: i64,
    pub permission_flags: i64,
    pub max_uses: i64,
    pub uses: i64,
    pub created_at: i64,
    pub expires_at: Option<i64>,
    pub created_by_user: Option<i64>,
    pub exhausted: bool,
    pub expired: bool,
}

impl InviteSummary {
    /// Summarises a stored invite at time `now`.
    pub fn from_record(rec: InviteRecord, now: i64) -> (r: Self)
        ensures
            r.id == rec.id,
            r.permission_flags == rec.permission_flags,
            r.max_uses == rec.max_uses,
            r.uses == rec.uses,
            r.created_at == rec.created_at,
            r.expires_at == rec.expires_at,
            r.created_by_user == rec.created_by_user,
            r.exhausted == (rec.uses >= rec.max_uses),
            r.expired == (rec.expires_at matches Some(ts) && ts <= now),
    {
        let expired = match rec.expires_at {
            Some(ts) => ts <= now,
            None => false,
        };
        InviteSummary {
            id: rec.id,
            permission_flags: rec.permission_flags,
            max_uses: rec.max_uses,
            uses: rec.uses,
            created_at: rec.created_at,
            expires_at: rec.expires_at,
            created_by_user: rec.created_by_user,
            exhausted: rec.uses >= rec.max_uses,
            expired,
        }
    }
}

// ---------------------------------------------------------------------------
// Password resets
// ---------------------------------------------------------------------------

/// A reset code issued for a user.
pub struct ResetCodePlan {
    pub user_id: i64,
    pub username: String,
    pub code: String,
    pub code_hash: String,
}

/// Issues a 24-character reset code for the named user, if the store knows
/// the user.
pub fn plan_reset_code(user: Option<(i64, String)>) -> (r: Result<ResetCodePlan, String>)
    ensures
        user is None ==> r is Err && r->Err_0@ == "User not found"@,
        match user {
            Some(u) => r matches Ok(p) && p.user_id == u.0 && p.username == u.1
                && is_token_of_len(p.code@, 24) && p.code_hash@ == token_digest(p.code@),
            None => true,
        },
{
    let (user_id, username) = match user {
        Some(u) => u,
        None => return Err("User not found".to_string()),
    };
    let c = code_for(random_token(24));
    Ok(ResetCodePlan { user_id, username, code: c.code, code_hash: c.code_hash })
}

/// Request to issue a reset code for a user.
pub struct CreateResetCodeRequest {
    pub username: String,
    pub expires_in_minutes: Option<i64>,
}

/// A reset code just issued (shown once).
pub struct CreatedResetCode {
    pub code: String,
    pub expires_at: i64,
}

/// Expiry of a reset code as the API grants it: 5 minutes to 1 day from now,
/// 30 minutes when unspecified.
pub fn reset_code_expiry(req: &CreateResetCodeRequest, now: i64) -> (r: i64)
    requires
        now + 24 * 60 * 60 <= i64::MAX,
        now + 5 * 60 >= i64::MIN,
    ensures
        r == now + 60 * clamp(
            match req.expires_in_minutes {
                Some(m) => m as int,
                None => 30,
            },
            5,
            1440,
        ),
{
    let minutes = match req.expires_in_minutes {
        Some(m) => m,
        None => 30,
    };
    let ttl = clamp_i64(minutes, 5, 24 * 60);
    now + ttl * 60
}

/// Request to set a new password with a reset code.
pub struct ResetPasswordRequest {
    pub reset_code: String,
    pub new_password: String,
}

/// A password reset to carry out.
pub struct PasswordReset {
    pub reset_id: i64,
    pub user_id: i64,
    pub password_hash: String,
}

/// Carries out a reset with a code that the store found unused and unexpired
/// (`row` holds the code's id and its user). The new password is hashed
/// with a fresh random salt; a hashing error is returned.
pub fn plan_password_reset(row: Option<(i64, i64)>, new_password: &str) -> (r: Result<
    PasswordReset,
    String,
>)
    ensures
        row is None ==> r is Err && r->Err_0@ == "Invalid or expired reset code"@,
        row is Some && new_password@.len() <= 0x3FFF_FFFF ==> r is Ok,
        r matches Ok(p) ==> row == Some((p.reset_id, p.user_id)) && argon2_check(
            new_password@,
            p.password_hash@,
        ) == Ok::<bool, Seq<char>>(true),
{
    let (reset_id, user_id) = match row {
        Some(x) => x,
        None => return Err("Invalid or expired reset code".to_string()),
    };
    let password_hash = hash_password(new_password)?;
    Ok(PasswordReset { reset_id, user_id, password_hash })
}

/// What the store holds of the reset code presented: its id, its user, its
/// expiry and when it was used, if it was.
#[derive(Clone, Copy)]
pub struct ResetCodeRow {
    pub id: i64,
    pub user_id: i64,
    pub expires_at: i64,
    pub consumed_at: Option<i64>,
}

/// A reset code can be used at `now` while it is unused and unexpired.
pub open spec fn reset_code_usable(row: ResetCodeRow, now: i64) -> bool {
    row.consumed_at is None && now < row.expires_at
}

/// The code's id and user, when the presented code (if stored) can still be
/// used; this is the `row` that `plan_password_reset` takes.
pub fn usable_reset_code(row: Option<ResetCodeRow>, now: i64) -> (r: Option<(i64, i64)>)
    ensures
        match row {
            Some(c) => if reset_code_usable(c, now) {
                r == Some((c.id, c.user_id))
            } else {
                r is None
            },
            None => r is None,
        },
{
    match row {
        Some(c) => {
            if c.consumed_at.is_none() && now < c.expires_at {
                Some((c.id, c.user_id))
            } else {
                None
            }
        },
        None => None,
    }
}

/// Reset codes are single-use: once a reset has consumed a code (at any
/// time), no later presentation of it can be used.
pub proof fn law_reset_code_single_use(row: ResetCodeRow, consumed: i64, t: i64)
    ensures
        !reset_code_usable(ResetCodeRow { consumed_at: Some(consumed), ..row }, t),
{
}

/// The password chosen at bootstrap logs in: once the administrator that
/// `plan_bootstrap_admin` returns is stored (under any id), a login with that
/// password is accepted.
pub proof fn law_bootstrap_password_logs_in(
    user_id: i64,
    username: String,
    password: Seq<char>,
    password_hash: String,
    now: i64,
)
    requires
        argon2_check(password, password_hash@) == Ok::<bool, Seq<char>>(true),
    ensures
        login_accepted(
            Some(stored_login_row(user_id, admin_record(username, password_hash, now))),
            password,
        ),
{
}

/// The password chosen at registration logs in: once the user that
/// `plan_registration` returns is stored (under any id), a login with that
/// password is accepted.
pub proof fn law_registered_password_logs_in(
    user_id: i64,
    username: String,
    password: Seq<char>,
    password_hash: String,
    invite: InviteRow,
    now: i64,
)
    requires
        argon2_check(password, password_hash@) == Ok::<bool, Seq<char>>(true),
    ensures
        login_accepted(
            Some(stored_login_row(user_id, invited_record(username, password_hash, invite, now))),
            password,
        ),
{
}

/// The password set by a reset logs in: once the hash that
/// `plan_password_reset` returns is stored for an enabled user, a login with
/// the new password is accepted.
pub proof fn law_reset_password_logs_in(row: LoginRow, password: Seq<char>, reset: PasswordReset)
    requires
        !row.disabled,
        argon2_check(password, reset.password_hash@) == Ok::<bool, Seq<char>>(true),
    ensures
        login_accepted(Some(row_after_reset(row, reset.password_hash)), password),
{
}

// ---------------------------------------------------------------------------
// Audit log
// ---------------------------------------------------------------------------

/// Query of the audit listing.
pub struct AuditQuery {
    pub limit: Option<usize>,
}

/// Number of audit events to list: 1 to 500, 200 when unspecified.
pub fn audit_limit(q: &AuditQuery) -> (r: usize)
    ensures
        r == clamp(
            match q.limit {
                Some(l) => l as int,
                None => 200,
            },
            1,
            500,
        ),
{
    let l = match q.limit {
        Some(l) => l,
        None => 200,
    };
    if l < 1 {
        1
    } else if l > 500 {
        500
    } else {
        l
    }
}

/// Events older than this are pruned: the retention is 1 to 3650 days.
pub fn audit_cutoff(now: i64, retention_days: i64) -> (r: i64)
    requires
        now - 3650 * 24 * 60 * 60 >= i64::MIN,
        now - 24 * 60 * 60 <= i64::MAX,
    ensures
        r == now - 86400 * clamp(retention_days as int, 1, 3650),
{
    let days = clamp_i64(retention_days, 1, 3650);
    now - (days * 24 * 60 * 60)
}

/// An audit entry as listed to administrators.
pub struct AuditEventSummary {
    pub id: i64,
    pub created_at: i64,
    pub actor_user_id: Option<i64>,
    pub actor_username: Option<String>,
    pub action: String,
    pub details: Option<String>,
    pub success: bool,
}

impl AuditEventSummary {
    /// The listing entry of a stored audit event.
    pub fn from_record(e: AuditEventRecord) -> (r: Self)
        ensures
            r.id == e.id,
            r.created_at == e.created_at,
            r.actor_user_id == e.actor_user_id,
            r.actor_username == e.actor_username,
            r.action == e.action,
            r.details == e.details,
            r.success == e.success,
    {
        AuditEventSummary {
            id: e.id,
            created_at: e.created_at,
            actor_user_id: e.actor_user_id,
            actor_username: e.actor_username,
            action: e.action,
            details: e.details,
            success: e.success,
        }
    }
}

/// A user as listed to administrators.
pub struct AuthUserSummary {
    pub id: i64,
    pub username: String,
    pub is_admin: bool,
    pub permission_flags: i64,
    pub disabled: bool,
    pub created_at: i64,
}

impl AuthUserSummary {
    /// The listing entry of a stored user.
    pub fn from_record(u: AuthUserRecord) -> (r: Self)
        ensures
            r.id == u.id,
            r.username == u.username,
            r.is_admin == u.is_admin,
            r.permission_flags == u.permission_flags,
            r.disabled == u.disabled,
            r.created_at == u.created_at,
    {
        AuthUserSummary {
            id: u.id,
            username: u.username,
            is_admin: u.is_admin,
            permission_flags: u.permission_flags,
            disabled: u.disabled,
            created_at: u.created_at,
        }
    }
}

} // verus!
