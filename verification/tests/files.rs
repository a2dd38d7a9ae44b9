use windrose_server_manager::files::{
    check_within, invalid_json, is_within, mtime_conflict, validate_json, validate_request,
    validation_response, ConfigFileKind, ValidateRequest,
};

#[test]
fn valid_json_is_accepted() {
    assert!(validate_json("{\"a\": [1, 2, 3]}").is_ok());
    let r = validate_request(&ValidateRequest { content: "{\"Name\": \"World\"}".to_string() });
    assert!(r.valid);
    assert_eq!(r.error, None);
}

#[test]
fn invalid_json_reports_parser_message() {
    let e = validate_json("{\"a\": }").err().unwrap();
    assert!(e.starts_with("Invalid JSON: "));
    assert!(e.contains("line 1"));
    let r = validate_request(&ValidateRequest { content: "not json".to_string() });
    assert!(!r.valid);
    assert!(r.error.unwrap().starts_with("Invalid JSON: expected"));
}

#[test]
fn validation_response_shapes() {
    let ok = validation_response(Ok(()));
    assert!(ok.valid && ok.error.is_none());
    let bad = validation_response(Err("x".to_string()));
    assert!(!bad.valid);
    assert_eq!(bad.error, Some("x".to_string()));
    assert_eq!(invalid_json("boom"), "Invalid JSON: boom");
}

#[test]
fn conflicts_beyond_one_second() {
    assert!(!mtime_conflict(10_000, 10_000));
    assert!(!mtime_conflict(11_000, 10_000));
    assert!(mtime_conflict(11_001, 10_000));
    assert!(mtime_conflict(10_000, 11_001));
    assert!(!mtime_conflict(10_000, 11_000));
}

fn comps(parts: &[&str]) -> Vec<String> {
    parts.iter().map(|s| s.to_string()).collect()
}

#[test]
fn path_containment_is_by_whole_components() {
    let base = comps(&["C:", "srv", "manager"]);
    assert!(is_within(&comps(&["C:", "srv", "manager", "R5", "ServerDescription.json"]), &base));
    assert!(is_within(&base, &base));
    assert!(!is_within(&comps(&["C:", "srv", "manager2", "x.json"]), &base));
    assert!(!is_within(&comps(&["C:", "srv"]), &base));
    assert_eq!(check_within(&comps(&["C:", "other"]), &base), Err("Path must be within the server directory".to_string()));
    assert_eq!(check_within(&comps(&["C:", "srv", "manager", "a"]), &base), Ok(()));
}

#[test]
fn config_file_kinds_differ() {
    assert_ne!(ConfigFileKind::ServerDescription, ConfigFileKind::WorldDescription);
}
