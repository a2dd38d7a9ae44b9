use windrose_server_manager::install::{
    backup_source, check_install_paths, check_install_start, command_to_send,
    is_windrose_dir_name, stdin_line, validate_install_request, CommandRequest,
    RunInstallRequest, SERVER_EXE_NAME, SHIPPING_EXE_PATH,
};

fn req(source: &str, destination: &str) -> RunInstallRequest {
    RunInstallRequest { source: source.to_string(), destination: destination.to_string() }
}

#[test]
fn commands_are_trimmed_and_non_empty() {
    assert_eq!(command_to_send(&CommandRequest { command: "  save  ".to_string() }), Ok("save".to_string()));
    assert_eq!(command_to_send(&CommandRequest { command: " \t ".to_string() }), Err("command must not be empty"));
    assert_eq!(stdin_line("quit"), "quit\n");
}

#[test]
fn install_request_checks() {
    assert_eq!(check_install_paths(&req("", "/x"), true, true), Err("source and destination must not be empty"));
    assert_eq!(check_install_paths(&req("a", "b"), false, true), Err("source must be an absolute path"));
    assert_eq!(check_install_paths(&req("a", "b"), true, false), Err("destination must be an absolute path"));
    assert_eq!(check_install_paths(&req("a", "b"), true, true), Ok(()));
    assert_eq!(validate_install_request(&req("", "")), Err("source and destination must not be empty"));
    assert_eq!(validate_install_request(&req("relative/src", "relative/dst")), Err("source must be an absolute path"));
}

#[test]
fn unix_absolute_paths_accepted() {
    assert_eq!(validate_install_request(&req("/srv/src", "/srv/dst")), Ok(()));
}

#[test]
fn job_start_checks() {
    assert_eq!(check_install_start(true), Err("An install is already in progress".to_string()));
    assert_eq!(check_install_start(false), Ok(()));
    assert_eq!(backup_source(true, &Some("R5".to_string())), Err("A backup is already in progress".to_string()));
    assert_eq!(
        backup_source(false, &None),
        Err("server_working_dir is not configured; cannot determine what to back up".to_string())
    );
    assert_eq!(backup_source(false, &Some("R5".to_string())), Ok("R5".to_string()));
}

#[test]
fn windrose_directory_names() {
    assert!(is_windrose_dir_name("Windrose Dedicated Server"));
    assert!(is_windrose_dir_name("WINDROSE"));
    assert!(!is_windrose_dir_name("Steamworks Shared"));
    assert_eq!(SERVER_EXE_NAME, "WindroseServer.exe");
    assert_eq!(SHIPPING_EXE_PATH, "R5\\Binaries\\Win64\\WindroseServer.exe");
}

#[test]
fn bare_relative_names_are_refused() {
    assert_eq!(validate_install_request(&req("server", "/srv/dst")), Err("source must be an absolute path"));
    assert_eq!(validate_install_request(&req("/srv/src", "backup")), Err("destination must be an absolute path"));
}
