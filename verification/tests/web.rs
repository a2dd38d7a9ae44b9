use windrose_server_manager::web::{
    asset_path_for, banner_line, cache_control, content_type, cors_policy, https_redirect_target,
    is_static_asset, is_valid_header_value, route_asset, AssetRoute, CorsPolicy,
};

#[test]
fn content_types_by_extension() {
    assert_eq!(content_type("index.html"), "text/html; charset=utf-8");
    assert_eq!(content_type("assets/app.JS"), "application/javascript; charset=utf-8");
    assert_eq!(content_type("a.mjs"), "application/javascript; charset=utf-8");
    assert_eq!(content_type("logo.svg"), "image/svg+xml");
    assert_eq!(content_type("photo.jpeg"), "image/jpeg");
    assert_eq!(content_type("bundle.js.map"), "application/json; charset=utf-8");
    assert_eq!(content_type("README"), "application/octet-stream");
    assert_eq!(content_type("archive.tar.gz"), "application/octet-stream");
}

#[test]
fn static_asset_detection() {
    assert!(is_static_asset("assets/app.js"));
    assert!(!is_static_asset("dashboard/settings"));
    assert!(!is_static_asset("v1.2/settings"));
}

#[test]
fn asset_paths_and_routing() {
    assert_eq!(asset_path_for("/"), ("index.html".to_string(), true));
    assert_eq!(asset_path_for("//assets/a.js"), ("assets/a.js".to_string(), false));
    assert_eq!(route_asset("assets/a.js", false, true), AssetRoute::Serve);
    assert_eq!(route_asset("assets/missing.js", false, false), AssetRoute::NotFound);
    assert_eq!(route_asset("players", false, false), AssetRoute::IndexFallback);
    assert_eq!(route_asset("index.html", true, false), AssetRoute::IndexFallback);
}

#[test]
fn cache_headers() {
    assert_eq!(cache_control("assets/index-ABC.js"), "public, max-age=31536000, immutable");
    assert_eq!(cache_control("index.html"), "no-cache");
}

#[test]
fn redirect_to_https() {
    assert_eq!(https_redirect_target("example.com:8787", 8443, Some("/api/state?x=1")), "https://example.com:8443/api/state?x=1");
    assert_eq!(https_redirect_target("example.com", 443, None), "https://example.com/");
}

#[test]
fn banner_pads_to_width() {
    let line = banner_line("hello");
    assert_eq!(line, format!("║hello{}║", " ".repeat(45)));
    let long = "x".repeat(60);
    assert_eq!(banner_line(&long), format!("║{long}║"));
}

#[test]
fn header_values_and_cors() {
    assert!(is_valid_header_value("https://a.example"));
    assert!(!is_valid_header_value("bad\nvalue"));
    match cors_policy(&Vec::new()) {
        CorsPolicy::AnyOrigin => {}
        _ => panic!("empty list means any origin"),
    }
    match cors_policy(&vec!["https://a".to_string(), "bad\u{7f}".to_string()]) {
        CorsPolicy::Origins(o) => assert_eq!(o, vec!["https://a".to_string()]),
        _ => panic!("expected origins"),
    }
}
