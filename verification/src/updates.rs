//! Version comparison and the decisions of the self-update workflow.
use vstd::prelude::*;
use crate::text::opt_chars;
use crate::text::{
    chars_eq, chars_of, contains, decimal, ends_with, find_char_from, find_from, has_substring,
    has_suffix, lemma_find_from, parse_u32, parse_u32_range, push_decimal, push_str,
    string_from_range,
};
use crate::text::{
    all_digits, is_digit, lemma_decimal_digits, lemma_find_from_at, lemma_find_from_none,
    lemma_parse_decimal_u32,
};

verus! {

broadcast use vstd::string::group_string_axioms;

// ---------------------------------------------------------------------------
// Version strings
// ---------------------------------------------------------------------------

/// Drops every leading `v` (what `trim_start_matches('v')` does).
pub open spec fn strip_leading_v(s: Seq<char>) -> Seq<char>
    decreases s.len(),
{
    if s.len() > 0 && s[0] == 'v' {
        strip_leading_v(s.drop_first())
    } else {
        s
    }
}

/// The text before the first `c` (the first item of `split(c)`).
pub open spec fn before_char(s: Seq<char>, c: char) -> Seq<char> {
    let k = find_from(s, c, 0);
    if k < 0 {
        s
    } else {
        s.take(k)
    }
}

/// `MAJOR.MINOR.PATCH` of a version string: an optional run of leading `v`s
/// is skipped and the first three dot-separated fields must each parse as a
/// `u32`. A version with a pre-release suffix (any `-`) is not standard and
/// has no triple: it is compared as text.
pub open spec fn semver(v: Seq<char>) -> Option<(u32, u32, u32)> {
    let base = strip_leading_v(v);
    let k1 = find_from(base, '.', 0);
    if find_from(base, '-', 0) >= 0 {
        None
    } else if k1 < 0 {
        None
    } else {
        let rest = base.skip(k1 + 1);
        let k2 = find_from(rest, '.', 0);
        if k2 < 0 {
            None
        } else {
            let p0 = base.take(k1);
            let p1 = rest.take(k2);
            let p2 = before_char(rest.skip(k2 + 1), '.');
            match (parse_u32(p0), parse_u32(p1), parse_u32(p2)) {
                (Some(a), Some(b), Some(c)) => Some((a, b, c)),
                _ => None,
            }
        }
    }
}

/// Lexicographic `a > b` on version triples.
pub open spec fn triple_gt(a: (u32, u32, u32), b: (u32, u32, u32)) -> bool {
    a.0 > b.0 || (a.0 == b.0 && (a.1 > b.1 || (a.1 == b.1 && a.2 > b.2)))
}

/// `latest` is strictly newer than `current`: by `MAJOR.MINOR.PATCH` when both
/// parse, otherwise whenever the two differ once leading `v`s are dropped.
pub open spec fn newer_version(current: Seq<char>, latest: Seq<char>) -> bool {
    match (semver(current), semver(latest)) {
        (Some(c), Some(l)) => triple_gt(l, c),
        _ => strip_leading_v(latest) != strip_leading_v(current),
    }
}

/// Copy of `v[a..b]`.
pub fn sub_vec(v: &[char], a: usize, b: usize) -> (r: Vec<char>)
    requires
        a <= b <= v.len(),
    ensures
        r@ == v@.subrange(a as int, b as int),
{
    let mut r: Vec<char> = Vec::new();
    let mut i = a;
    while i < b
        invariant
            a <= i <= b <= v.len(),
            r@ == v@.subrange(a as int, i as int),
        decreases b - i,
    {
        r.push(v[i]);
        i = i + 1;
        assert(r@ =~= v@.subrange(a as int, i as int));
    }
    r
}

/// Position just past the leading `v`s of `v`.
fn leading_v_end(v: &[char]) -> (k: usize)
    ensures
        k <= v.len(),
        v@.skip(k as int) == strip_leading_v(v@),
{
    let mut i: usize = 0;
    assert(v@.skip(0) =~= v@);
    while i < v.len() && v[i] == 'v'
        invariant
            i <= v.len(),
            strip_leading_v(v@) == strip_leading_v(v@.skip(i as int)),
        decreases v.len() - i,
    {
        assert(v@.skip(i as int).drop_first() =~= v@.skip(i + 1));
        i = i + 1;
    }
    i
}

/// Text of `v` before the first `c`.
fn before_char_vec(v: &[char], c: char) -> (r: Vec<char>)
    ensures
        r@ == before_char(v@, c),
{
    proof {
        lemma_find_from(v@, c, 0);
    }
    match find_char_from(v, c, 0) {
        Some(k) => sub_vec(v, 0, k),
        None => {
            let r = sub_vec(v, 0, v.len());
            assert(r@ =~= v@);
            r
        },
    }
}

/// The version triple of `v`, as `semver` describes it.
pub fn parse_semver(v: &[char]) -> (r: Option<(u32, u32, u32)>)
    ensures
        r == semver(v@),
{
    let start = leading_v_end(v);
    let base = sub_vec(v, start, v.len());
    assert(base@ =~= strip_leading_v(v@));
    if find_char_from(base.as_slice(), '-', 0).is_some() {
        return None;
    }
    let k1 = match find_char_from(base.as_slice(), '.', 0) {
        Some(k) => k,
        None => return None,
    };
    proof {
        lemma_find_from(base@, '.', 0);
    }
    let rest = sub_vec(base.as_slice(), k1 + 1, base.len());
    assert(rest@ =~= base@.skip(k1 + 1));
    let k2 = match find_char_from(rest.as_slice(), '.', 0) {
        Some(k) => k,
        None => return None,
    };
    proof {
        lemma_find_from(rest@, '.', 0);
    }
    let tail = sub_vec(rest.as_slice(), k2 + 1, rest.len());
    assert(tail@ =~= rest@.skip(k2 + 1));
    let third = before_char_vec(tail.as_slice(), '.');
    assert(base@.take(k1 as int) =~= base@.subrange(0, k1 as int));
    assert(rest@.take(k2 as int) =~= rest@.subrange(0, k2 as int));
    assert(third@.subrange(0, third@.len() as int) =~= third@);
    let major = parse_u32_range(base.as_slice(), 0, k1);
    let minor = parse_u32_range(rest.as_slice(), 0, k2);
    let patch = parse_u32_range(third.as_slice(), 0, third.len());
    match (major, minor, patch) {
        (Some(a), Some(b), Some(c)) => Some((a, b, c)),
        _ => None,
    }
}

/// Strips every leading `v` from a version string.
pub fn normalise_version(v: &str) -> (r: String)
    ensures
        r@ == strip_leading_v(v@),
{
    let cs = chars_of(v);
    let start = leading_v_end(cs.as_slice());
    string_from_range(cs.as_slice(), start, cs.len())
}

/// Whether `latest` is strictly newer than `current` (`MAJOR.MINOR.PATCH`
/// comparison, falling back to inequality of the `v`-stripped strings for
/// non-standard versions such as those with a pre-release suffix).
pub fn is_newer_version(current: &str, latest: &str) -> (r: bool)
    ensures
        r == newer_version(current@, latest@),
{
    let cur = chars_of(current);
    let lat = chars_of(latest);
    match (parse_semver(cur.as_slice()), parse_semver(lat.as_slice())) {
        (Some(c), Some(l)) => {
            l.0 > c.0 || (l.0 == c.0 && (l.1 > c.1 || (l.1 == c.1 && l.2 > c.2)))
        },
        _ => {
            let a = leading_v_end(cur.as_slice());
            let b = leading_v_end(lat.as_slice());
            let cs = sub_vec(cur.as_slice(), a, cur.len());
            let ls = sub_vec(lat.as_slice(), b, lat.len());
            !chars_eq(ls.as_slice(), cs.as_slice())
        },
    }
}

// ---------------------------------------------------------------------------
// Laws of version comparison
// ---------------------------------------------------------------------------

/// Stripping leading `v`s twice is the same as stripping them once.
pub proof fn lemma_strip_leading_v_idempotent(s: Seq<char>)
    ensures
        strip_leading_v(strip_leading_v(s)) == strip_leading_v(s),
    decreases s.len(),
{
    if s.len() > 0 && s[0] == 'v' {
        lemma_strip_leading_v_idempotent(s.drop_first());
    }
}

/// No version is newer than itself.
pub proof fn law_newer_version_irreflexive(v: Seq<char>)
    ensures
        !newer_version(v, v),
{
}

/// Between two well-formed versions, at most one is newer than the other.
pub proof fn law_newer_version_asymmetric(a: Seq<char>, b: Seq<char>)
    requires
        semver(a) is Some,
        semver(b) is Some,
    ensures
        !(newer_version(a, b) && newer_version(b, a)),
{
}

/// Among well-formed versions, "newer than" is transitive.
pub proof fn law_newer_version_transitive(a: Seq<char>, b: Seq<char>, c: Seq<char>)
    requires
        semver(a) is Some,
        semver(b) is Some,
        semver(c) is Some,
        newer_version(a, b),
        newer_version(b, c),
    ensures
        newer_version(a, c),
{
}

/// A leading `v` on either side never changes the comparison, and
/// normalising is idempotent.
pub proof fn law_leading_v_is_ignored(current: Seq<char>, latest: Seq<char>)
    ensures
        newer_version(strip_leading_v(current), latest) == newer_version(current, latest),
        newer_version(current, strip_leading_v(latest)) == newer_version(current, latest),
        strip_leading_v(strip_leading_v(current)) == strip_leading_v(current),
{
    lemma_strip_leading_v_idempotent(current);
    lemma_strip_leading_v_idempotent(latest);
}

/// The text `MAJOR.MINOR.PATCH` of a version, each number written in
/// decimal.
pub open spec fn version_text(major: u32, minor: u32, patch: u32) -> Seq<char> {
    decimal(major as nat) + seq!['.'] + decimal(minor as nat) + seq!['.'] + decimal(patch as nat)
}

/// A run of digits holds no `c` that is not a digit.
proof fn lemma_digits_lack(d: Seq<char>, c: char)
    requires
        all_digits(d),
        !is_digit(c),
    ensures
        forall|k: int| 0 <= k < d.len() ==> d[k] != c,
{
    assert forall|k: int| 0 <= k < d.len() implies d[k] != c by {
        assert(is_digit(d[k]));
    }
}

/// The text of a version reads back as its three numbers.
pub proof fn lemma_semver_of_version_text(major: u32, minor: u32, patch: u32)
    ensures
        semver(version_text(major, minor, patch)) == Some((major, minor, patch)),
{
    let da = decimal(major as nat);
    let db = decimal(minor as nat);
    let dc = decimal(patch as nat);
    lemma_decimal_digits(major as nat);
    lemma_decimal_digits(minor as nat);
    lemma_decimal_digits(patch as nat);
    lemma_parse_decimal_u32(major);
    lemma_parse_decimal_u32(minor);
    lemma_parse_decimal_u32(patch);
    assert(!is_digit('.'));
    assert(!is_digit('-'));
    lemma_digits_lack(da, '.');
    lemma_digits_lack(db, '.');
    lemma_digits_lack(dc, '.');
    lemma_digits_lack(da, '-');
    lemma_digits_lack(db, '-');
    lemma_digits_lack(dc, '-');
    let s = version_text(major, minor, patch);
    let rest = db + seq!['.'] + dc;
    assert(s =~= da + seq!['.'] + rest);
    assert(is_digit(da[0]));
    assert(s[0] == da[0]);
    assert(strip_leading_v(s) == s);
    assert forall|k: int| 0 <= k < s.len() implies s[k] != '-' by {
        if k < da.len() {
            assert(s[k] == da[k]);
        } else if k == da.len() {
        } else if k < da.len() + 1 + db.len() {
            assert(s[k] == db[k - da.len() - 1]);
        } else if k == da.len() + 1 + db.len() {
        } else {
            assert(s[k] == dc[k - da.len() - 2 - db.len()]);
        }
    }
    lemma_find_from_none(s, '-', 0);
    assert forall|k: int| 0 <= k < da.len() implies s[k] != '.' by {
        assert(s[k] == da[k]);
    }
    lemma_find_from_at(s, '.', 0, da.len() as int);
    assert(s.skip(da.len() as int + 1) =~= rest);
    assert forall|k: int| 0 <= k < db.len() implies rest[k] != '.' by {
        assert(rest[k] == db[k]);
    }
    lemma_find_from_at(rest, '.', 0, db.len() as int);
    assert(s.take(da.len() as int) =~= da);
    assert(rest.take(db.len() as int) =~= db);
    assert(rest.skip(db.len() as int + 1) =~= dc);
    lemma_find_from_none(dc, '.', 0);
    assert(before_char(dc, '.') == dc);
}

/// Versions written `MAJOR.MINOR.PATCH` compare number by number: the latest
/// is newer exactly when its major number is greater, or the majors are equal
/// and its minor number is greater, or both are equal and its patch number is
/// greater.
pub proof fn law_versions_compare_by_numbers(
    major: u32,
    minor: u32,
    patch: u32,
    latest_major: u32,
    latest_minor: u32,
    latest_patch: u32,
)
    ensures
        newer_version(
            version_text(major, minor, patch),
            version_text(latest_major, latest_minor, latest_patch),
        ) <==> (latest_major > major || (latest_major == major && (latest_minor > minor || (
        latest_minor == minor && latest_patch > patch)))),
{
    lemma_semver_of_version_text(major, minor, patch);
    lemma_semver_of_version_text(latest_major, latest_minor, latest_patch);
}

/// A later patch release of the same major and minor version is newer, and
/// an earlier or equal one is not.
pub proof fn law_patch_release_is_newer(major: u32, minor: u32, patch: u32, latest_patch: u32)
    ensures
        newer_version(version_text(major, minor, patch), version_text(major, minor, latest_patch))
            <==> latest_patch > patch,
{
    law_versions_compare_by_numbers(major, minor, patch, major, minor, latest_patch);
}

// ---------------------------------------------------------------------------
// Release selection
// ---------------------------------------------------------------------------

/// One downloadable file of a published release.
pub struct ReleaseAsset {
    pub name: String,
    pub browser_download_url: String,
}

/// The Windows executable of a release is the asset whose name holds
/// `windows` and ends in `.exe`.
pub open spec fn is_windows_binary(name: Seq<char>) -> bool {
    contains(name, "windows"@) && ends_with(name, ".exe"@)
}

/// Download URL of the first Windows executable among `assets[i..]`.
pub open spec fn first_windows_asset(assets: Seq<ReleaseAsset>, i: int) -> Option<Seq<char>>
    decreases assets.len() - i,
{
    if i < 0 || i >= assets.len() {
        None
    } else if is_windows_binary(assets[i].name@) {
        Some(assets[i].browser_download_url@)
    } else {
        first_windows_asset(assets, i + 1)
    }
}

/// The URL an update is downloaded from: the first Windows executable of the
/// release, else the release page.
pub open spec fn download_url_for(assets: Seq<ReleaseAsset>, html_url: Option<Seq<char>>) -> Option<
    Seq<char>,
> {
    match first_windows_asset(assets, 0) {
        Some(u) => Some(u),
        None => html_url,
    }
}

/// Picks the download URL of a release.
pub fn pick_download_url(assets: &Vec<ReleaseAsset>, html_url: Option<String>) -> (r: Option<
    String,
>)
    ensures
        opt_chars(r) == download_url_for(assets@, opt_chars(html_url)),
{
    let mut i: usize = 0;
    while i < assets.len()
        invariant
            i <= assets.len(),
            first_windows_asset(assets@, 0) == first_windows_asset(assets@, i as int),
        decreases assets.len() - i,
    {
        let name = chars_of(assets[i].name.as_str());
        if has_substring(name.as_slice(), "windows") && has_suffix(name.as_slice(), ".exe") {
            let url = assets[i].browser_download_url.clone();
            return Some(url);
        }
        i = i + 1;
    }
    html_url
}

/// Outcome of comparing a published release with the running version.
pub struct ReleaseCheck {
    /// Latest published version, without leading `v`s.
    pub latest: String,
    pub update_available: bool,
    pub release_notes: Option<String>,
    pub download_url: Option<String>,
}

/// Evaluates a published release (its tag, notes, assets and page) against
/// the running version.
pub fn evaluate_release(
    current_version: &str,
    tag_name: &str,
    body: Option<String>,
    assets: &Vec<ReleaseAsset>,
    html_url: Option<String>,
) -> (r: ReleaseCheck)
    ensures
        r.latest@ == strip_leading_v(tag_name@),
        r.update_available == newer_version(current_version@, tag_name@),
        r.release_notes == body,
        opt_chars(r.download_url) == download_url_for(assets@, opt_chars(html_url)),
{
    let latest = normalise_version(tag_name);
    let update_available = is_newer_version(current_version, tag_name);
    let download_url = pick_download_url(assets, html_url);
    ReleaseCheck { latest, update_available, release_notes: body, download_url }
}

// ---------------------------------------------------------------------------
// Update state
// ---------------------------------------------------------------------------

/// Progress of applying a downloaded update.
#[derive(PartialEq, Eq, Structural, Clone, Copy, Debug)]
pub enum UpdateApplyState {
    Idle,
    Downloading,
    Applying,
    PendingRestart,
    Failed,
}

/// What the manager knows about updates of itself.
pub struct UpdateState {
    pub current_version: String,
    pub latest_version: Option<String>,
    pub update_available: bool,
    pub release_notes: Option<String>,
    pub download_url: Option<String>,
    pub checking: bool,
    pub last_error: Option<String>,
    pub apply_state: UpdateApplyState,
}

impl UpdateState {
    /// State before any check: only the running version is known.
    pub fn new(current_version: String) -> (r: Self)
        ensures
            r.current_version == current_version,
            r.latest_version is None,
            !r.update_available,
            r.release_notes is None,
            r.download_url is None,
            !r.checking,
            r.last_error is None,
            r.apply_state == UpdateApplyState::Idle,
    {
        UpdateState {
            current_version,
            latest_version: None,
            update_available: false,
            release_notes: None,
            download_url: None,
            checking: false,
            last_error: None,
            apply_state: UpdateApplyState::Idle,
        }
    }

    /// A check has started.
    pub fn set_checking(&mut self)
        ensures
            final(self).checking,
            final(self).current_version == old(self).current_version,
            final(self).latest_version == old(self).latest_version,
            final(self).update_available == old(self).update_available,
            final(self).release_notes == old(self).release_notes,
            final(self).download_url == old(self).download_url,
            final(self).last_error == old(self).last_error,
            final(self).apply_state == old(self).apply_state,
    {
        self.checking = true;
    }

    /// A check has finished with a release to compare against.
    pub fn set_result(&mut self, check: ReleaseCheck)
        ensures
            !final(self).checking,
            final(self).current_version == old(self).current_version,
            final(self).latest_version == Some(check.latest),
            final(self).update_available == check.update_available,
            final(self).release_notes == check.release_notes,
            final(self).download_url == check.download_url,
            final(self).last_error is None,
            final(self).apply_state == old(self).apply_state,
    {
        self.checking = false;
        self.latest_version = Some(check.latest);
        self.update_available = check.update_available;
        self.release_notes = check.release_notes;
        self.download_url = check.download_url;
        self.last_error = None;
    }

    /// A check has failed.
    pub fn set_failed(&mut self, error: String)
        ensures
            !final(self).checking,
            final(self).last_error == Some(error),
            final(self).current_version == old(self).current_version,
            final(self).latest_version == old(self).latest_version,
            final(self).update_available == old(self).update_available,
            final(self).release_notes == old(self).release_notes,
            final(self).download_url == old(self).download_url,
            final(self).apply_state == old(self).apply_state,
    {
        self.checking = false;
        self.last_error = Some(error);
    }

    /// Records the progress of applying an update.
    pub fn set_apply_state(&mut self, state: UpdateApplyState)
        ensures
            final(self).apply_state == state,
            final(self).checking == old(self).checking,
            final(self).current_version == old(self).current_version,
            final(self).latest_version == old(self).latest_version,
            final(self).update_available == old(self).update_available,
            final(self).release_notes == old(self).release_notes,
            final(self).download_url == old(self).download_url,
            final(self).last_error == old(self).last_error,
    {
        self.apply_state = state;
    }
}

/// Why an update cannot be applied now, if it cannot, else the URL to fetch
/// it from. An update can be applied when one is available, no earlier
/// attempt is under way (the apply state is `Idle` or `Failed`), and a
/// download URL is known.
pub fn apply_download_url(state: &UpdateState) -> (r: Result<String, String>)
    ensures
        !state.update_available ==> r is Err && r->Err_0@ == "No update available"@,
        state.update_available && state.apply_state != UpdateApplyState::Idle
            && state.apply_state != UpdateApplyState::Failed ==> r is Err && r->Err_0@
            == "Apply already in progress"@,
        state.update_available && (state.apply_state == UpdateApplyState::Idle
            || state.apply_state == UpdateApplyState::Failed) ==> match state.download_url {
            Some(u) => r == Ok::<String, String>(u),
            None => r is Err && r->Err_0@ == "No download URL available"@,
        },
{
    if !state.update_available {
        return Err("No update available".to_string());
    }
    if state.apply_state != UpdateApplyState::Idle && state.apply_state
        != UpdateApplyState::Failed {
        return Err("Apply already in progress".to_string());
    }
    match &state.download_url {
        Some(u) => Ok(u.clone()),
        None => Err("No download URL available".to_string()),
    }
}

/// The error reported when the release feed answers with a non-success HTTP
/// status: a missing release (404) means there is nothing to update to.
pub open spec fn release_status_error(status: u16, reason: Seq<char>) -> Seq<char> {
    if status == 404 {
        "No update available"@
    } else {
        "GitHub API returned HTTP "@ + decimal(status as nat) + ": "@ + reason
    }
}

/// Describes a failed release-feed response (`reason` is the status's
/// canonical reason phrase).
pub fn release_fetch_error(status: u16, reason: &str) -> (r: String)
    ensures
        r@ == release_status_error(status, reason@),
{
    if status == 404 {
        return "No update available".to_string();
    }
    let mut s = String::new();
    push_str(&mut s, "GitHub API returned HTTP ");
    push_decimal(&mut s, status as u64);
    push_str(&mut s, ": ");
    push_str(&mut s, reason);
    assert(s@ =~= release_status_error(status, reason@));
    s
}

/// A request to check for updates is refused while checks are disabled
/// (no release feed configured).
pub fn check_update_request(update_check_url: &str) -> (r: Result<(), &'static str>)
    ensures
        r is Ok <==> update_check_url@.len() > 0,
        r matches Err(e) ==> e@ == "Update checks are disabled (update_check_url is empty)"@,
{
    if update_check_url.is_empty() {
        return Err("Update checks are disabled (update_check_url is empty)");
    }
    Ok(())
}

/// A request to apply an update is refused when none is available.
pub fn check_apply_request(state: &UpdateState) -> (r: Result<(), &'static str>)
    ensures
        r is Ok <==> state.update_available,
        r matches Err(e) ==> e@ == "No update is available"@,
{
    if !state.update_available {
        return Err("No update is available");
    }
    Ok(())
}

// ---------------------------------------------------------------------------
// Applying an update
// ---------------------------------------------------------------------------

/// File name of a downloaded new binary, next to the running one.
pub const NEW_BINARY_NAME: &'static str = "windrose-server-manager-new.exe";

/// File name of the updater script, next to the running binary.
pub const UPDATER_SCRIPT_NAME: &'static str = "windrose-manager-updater.bat";

/// The Windows updater: waits for the manager (`%1`) to exit, moves the new
/// binary (`%2`) over the current one (`%3`), starts it and deletes itself.
pub const UPDATER_BAT: &'static str = "@echo off\n:wait\ntasklist /FI \"PID eq %1\" 2>NUL | find /I \"%1\" >NUL\nif not errorlevel 1 (\n    timeout /t 1 /nobreak >NUL\n    goto wait\n)\nmove /Y \"%~2\" \"%~3\"\nstart \"\" \"%~3\"\ndel \"%~0\"\n";

/// Message broadcast when the manager is about to restart into a new version.
pub const UPDATE_RESTART_NOTICE: &'static str = "Manager update in progress — will restart automatically.";

/// The shell updater used outside Windows: waits for process `pid` to exit,
/// moves `new_binary` over `current_exe`, starts it and deletes itself.
pub open spec fn shell_updater(pid: u32, new_binary: Seq<char>, current_exe: Seq<char>) -> Seq<char> {
    "#!/bin/sh\nwhile kill -0 "@ + decimal(pid as nat) + " 2>/dev/null; do sleep 1; done\nmv -f '"@
        + new_binary + "' '"@ + current_exe + "'\n'"@ + current_exe + "' &\nrm -- \"$0\"\n"@
}

/// Writes the shell updater.
pub fn shell_updater_script(pid: u32, new_binary: &str, current_exe: &str) -> (r: String)
    ensures
        r@ == shell_updater(pid, new_binary@, current_exe@),
{
    let mut s = String::new();
    push_str(&mut s, "#!/bin/sh\nwhile kill -0 ");
    push_decimal(&mut s, pid as u64);
    push_str(&mut s, " 2>/dev/null; do sleep 1; done\nmv -f '");
    push_str(&mut s, new_binary);
    push_str(&mut s, "' '");
    push_str(&mut s, current_exe);
    push_str(&mut s, "'\n'");
    push_str(&mut s, current_exe);
    push_str(&mut s, "' &\nrm -- \"$0\"\n");
    assert(s@ =~= shell_updater(pid, new_binary@, current_exe@));
    s
}

/// Arguments of `cmd` that run the Windows updater: `/C`, the script, the
/// manager's PID, the new binary and the current binary.
pub fn windows_updater_args(updater: &str, pid: u32, new_binary: &str, current_exe: &str) -> (r:
    Vec<String>)
    ensures
        r@.len() == 5,
        r@[0]@ == "/C"@,
        r@[1]@ == updater@,
        r@[2]@ == decimal(pid as nat),
        r@[3]@ == new_binary@,
        r@[4]@ == current_exe@,
{
    let mut v: Vec<String> = Vec::new();
    v.push("/C".to_string());
    v.push(updater.to_string());
    let mut p = String::new();
    push_decimal(&mut p, pid as u64);
    v.push(p);
    v.push(new_binary.to_string());
    v.push(current_exe.to_string());
    v
}

} // verus!
