use windrose_server_manager::updates::release_fetch_error;
use windrose_server_manager::updates::{check_apply_request, check_update_request};
use windrose_server_manager::updates::{shell_updater_script, windows_updater_args, NEW_BINARY_NAME, UPDATER_BAT, UPDATER_SCRIPT_NAME};
use windrose_server_manager::updates::{
    apply_download_url, evaluate_release, is_newer_version, normalise_version, pick_download_url,
    ReleaseAsset, ReleaseCheck, UpdateApplyState, UpdateState,
};

#[test]
fn normalise_strips_leading_v() {
    assert_eq!(normalise_version("v0.2.0"), "0.2.0");
    assert_eq!(normalise_version("0.2.0"), "0.2.0");
    assert_eq!(normalise_version("v1.0.0-beta"), "1.0.0-beta");
}

#[test]
fn update_detected_when_latest_is_newer() {
    assert!(is_newer_version("0.1.0", "0.2.0"));
    assert!(is_newer_version("0.1.0", "v0.2.0"));
    assert!(is_newer_version("0.9.0", "0.10.0"));
    assert!(is_newer_version("1.0.0", "2.0.0"));
}

#[test]
fn no_update_when_versions_match() {
    assert!(!is_newer_version("0.1.0", "v0.1.0"));
    assert!(!is_newer_version("0.1.0", "0.1.0"));
}

#[test]
fn no_update_when_current_is_newer() {
    assert!(!is_newer_version("0.2.0", "0.1.0"));
    assert!(!is_newer_version("0.10.0", "0.9.0"));
}

#[test]
fn normalise_strips_every_leading_v() {
    assert_eq!(normalise_version("vv3.1.4"), "3.1.4");
    assert_eq!(normalise_version(""), "");
}

#[test]
fn unparsable_versions_compare_as_text() {
    assert!(is_newer_version("0.1.0", "latest"));
    assert!(is_newer_version("1.0", "2.0"));
    assert!(!is_newer_version("nightly", "vnightly"));
}

#[test]
fn pre_release_versions_compare_as_text() {
    assert!(is_newer_version("1.0.0", "1.0.0-beta"));
    assert!(is_newer_version("1.0.0-beta", "1.0.0"));
    assert!(is_newer_version("2.0.0", "1.0.1-beta"));
    assert!(!is_newer_version("1.0.0-beta", "v1.0.0-beta"));
}

#[test]
fn newer_version_is_asymmetric_on_examples() {
    let pairs = [("0.1.0", "0.2.0"), ("1.2.3", "1.10.0"), ("2.0.0", "1.99.99")];
    for (a, b) in pairs {
        assert!(!(is_newer_version(a, b) && is_newer_version(b, a)));
    }
    assert!(!is_newer_version("3.3.3", "3.3.3"));
}

fn asset(name: &str, url: &str) -> ReleaseAsset {
    ReleaseAsset { name: name.to_string(), browser_download_url: url.to_string() }
}

#[test]
fn picks_first_windows_executable() {
    let assets = vec![
        asset("notes.txt", "https://x/notes"),
        asset("manager-linux", "https://x/linux"),
        asset("manager-windows-x64.exe", "https://x/win1"),
        asset("other-windows.exe", "https://x/win2"),
    ];
    assert_eq!(
        pick_download_url(&assets, Some("https://x/page".to_string())),
        Some("https://x/win1".to_string())
    );
}

#[test]
fn falls_back_to_release_page() {
    let assets = vec![asset("manager-windows.zip", "https://x/zip")];
    assert_eq!(
        pick_download_url(&assets, Some("https://x/page".to_string())),
        Some("https://x/page".to_string())
    );
    assert_eq!(pick_download_url(&Vec::new(), None), None);
}

#[test]
fn evaluates_a_release() {
    let assets = vec![asset("wsm-windows.exe", "https://x/exe")];
    let r = evaluate_release("0.1.0", "v0.3.0", Some("notes".to_string()), &assets, None);
    assert_eq!(r.latest, "0.3.0");
    assert!(r.update_available);
    assert_eq!(r.release_notes, Some("notes".to_string()));
    assert_eq!(r.download_url, Some("https://x/exe".to_string()));
}

#[test]
fn update_state_transitions() {
    let mut s = UpdateState::new("0.1.0".to_string());
    assert!(!s.checking);
    assert_eq!(s.apply_state, UpdateApplyState::Idle);
    s.set_checking();
    assert!(s.checking);
    s.set_result(ReleaseCheck {
        latest: "0.2.0".to_string(),
        update_available: true,
        release_notes: None,
        download_url: Some("https://x/exe".to_string()),
    });
    assert!(!s.checking);
    assert_eq!(s.latest_version, Some("0.2.0".to_string()));
    assert_eq!(apply_download_url(&s), Ok("https://x/exe".to_string()));
    s.set_apply_state(UpdateApplyState::Downloading);
    assert_eq!(apply_download_url(&s), Err("Apply already in progress".to_string()));
    s.set_apply_state(UpdateApplyState::Failed);
    assert!(apply_download_url(&s).is_ok());
    s.set_failed("network down".to_string());
    assert_eq!(s.last_error, Some("network down".to_string()));
    assert!(!s.checking);
}

#[test]
fn apply_refused_without_update_or_url() {
    let s = UpdateState::new("0.1.0".to_string());
    assert_eq!(apply_download_url(&s), Err("No update available".to_string()));
    let mut s = UpdateState::new("0.1.0".to_string());
    s.set_result(ReleaseCheck {
        latest: "0.2.0".to_string(),
        update_available: true,
        release_notes: None,
        download_url: None,
    });
    assert_eq!(apply_download_url(&s), Err("No download URL available".to_string()));
}

#[test]
fn updater_scripts() {
    assert_eq!(
        shell_updater_script(321, "/opt/wsm/new", "/opt/wsm/wsm"),
        "#!/bin/sh\nwhile kill -0 321 2>/dev/null; do sleep 1; done\nmv -f '/opt/wsm/new' '/opt/wsm/wsm'\n'/opt/wsm/wsm' &\nrm -- \"$0\"\n"
    );
    assert_eq!(
        windows_updater_args("u.bat", 9, "new.exe", "cur.exe"),
        vec!["/C", "u.bat", "9", "new.exe", "cur.exe"].into_iter().map(String::from).collect::<Vec<_>>()
    );
    assert_eq!(NEW_BINARY_NAME, "windrose-server-manager-new.exe");
    assert_eq!(UPDATER_SCRIPT_NAME, "windrose-manager-updater.bat");
    assert!(UPDATER_BAT.starts_with("@echo off\n:wait\n"));
    assert!(UPDATER_BAT.contains("move /Y \"%~2\" \"%~3\""));
}

#[test]
fn update_requests_are_checked() {
    assert_eq!(check_update_request(""), Err("Update checks are disabled (update_check_url is empty)"));
    assert_eq!(check_update_request("https://x"), Ok(()));
    let s = UpdateState::new("1.0.0".to_string());
    assert_eq!(check_apply_request(&s), Err("No update is available"));
}

#[test]
fn release_feed_errors() {
    assert_eq!(release_fetch_error(404, "Not Found"), "No update available");
    assert_eq!(release_fetch_error(503, "Service Unavailable"), "GitHub API returned HTTP 503: Service Unavailable");
}

#[test]
fn normalising_twice_changes_nothing() {
    for v in ["v1.2.3", "vvv", "1.0.0-rc1", ""] {
        let once = normalise_version(v);
        assert_eq!(normalise_version(&once), once);
    }
}

#[test]
fn newer_version_is_transitive_on_examples() {
    assert!(is_newer_version("0.9.0", "0.10.0"));
    assert!(is_newer_version("0.10.0", "1.0.0"));
    assert!(is_newer_version("0.9.0", "1.0.0"));
}
