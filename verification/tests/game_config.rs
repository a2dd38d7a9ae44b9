use windrose_server_manager::game_config::{
    default_server_config, default_world_config, effective_port, server_config_from_description,
    world_config_from_description, ServerDescriptionFields,
};
use windrose_server_manager::game_config::{server_config_from_text, world_config_from_text, ParsedConfig};

#[test]
fn defaults_when_files_are_missing() {
    let s = default_server_config();
    assert_eq!(s.server_name, "Windrose Server");
    assert_eq!(s.max_players, 10);
    assert_eq!(s.port, 7777);
    assert_eq!(s.invite_code, None);
    assert!(s.extra.as_object().map_or(false, |m| m.is_empty()));
    let w = default_world_config();
    assert_eq!(w.world_name, "Windrose World");
    assert_eq!(w.seed, None);
}

#[test]
fn description_fields_with_defaults() {
    let s = server_config_from_description(ServerDescriptionFields {
        server_name: None,
        max_player_count: None,
        port: None,
        invite_code: Some("   ".to_string()),
    });
    assert_eq!(s.server_name, "Windrose Server");
    assert_eq!(s.max_players, 10);
    assert_eq!(s.port, 0);
    assert_eq!(s.invite_code, None);
    let s = server_config_from_description(ServerDescriptionFields {
        server_name: Some("My Server".to_string()),
        max_player_count: Some(8),
        port: Some(7778),
        invite_code: Some(" abc ".to_string()),
    });
    assert_eq!(s.server_name, "My Server");
    assert_eq!(s.max_players, 8);
    assert_eq!(s.port, 7778);
    assert_eq!(s.invite_code, Some("abc".to_string()));
}

#[test]
fn oversized_numbers_are_cut_like_casts() {
    let s = server_config_from_description(ServerDescriptionFields {
        server_name: None,
        max_player_count: Some((1u64 << 32) + 5),
        port: Some(65536 + 80),
        invite_code: None,
    });
    assert_eq!(s.max_players, 5);
    assert_eq!(s.port, 80);
}

#[test]
fn port_falls_back_to_manager_port() {
    assert_eq!(effective_port(0, 8787), 8787);
    assert_eq!(effective_port(7777, 8787), 7777);
}

#[test]
fn world_description_fields() {
    let w = world_config_from_description(Some("Isles".to_string()), Some("42".to_string()));
    assert_eq!(w.world_name, "Isles");
    assert_eq!(w.seed, Some("42".to_string()));
    let w = world_config_from_description(None, None);
    assert_eq!(w.world_name, "Windrose World");
}

#[test]
fn server_description_text_is_read() {
    let raw = r#"{"ServerDescription_Persistent": {"ServerName": "Isle", "MaxPlayerCount": 8, "InviteCode": "  abc  "}, "Port": 7780}"#;
    match server_config_from_text(raw) {
        Ok(ParsedConfig::Described(c)) => {
            assert_eq!(c.server_name, "Isle");
            assert_eq!(c.max_players, 8);
            assert_eq!(c.port, 7780);
            assert_eq!(c.invite_code, Some("abc".to_string()));
            assert!(c.extra.as_object().map_or(false, |m| m.is_empty()));
        }
        _ => panic!("expected a described config"),
    }
}

#[test]
fn server_description_defaults_for_absent_fields() {
    let raw = r#"{"ServerDescription_Persistent": {"MaxPlayerCount": "many", "InviteCode": "   ", "Port": 1}}"#;
    match server_config_from_text(raw) {
        Ok(ParsedConfig::Described(c)) => {
            assert_eq!(c.server_name, "Windrose Server");
            assert_eq!(c.max_players, 10);
            assert_eq!(c.port, 0);
            assert_eq!(c.invite_code, None);
        }
        _ => panic!("expected a described config"),
    }
}

#[test]
fn server_description_text_errors() {
    match server_config_from_text("{\"a\": }") {
        Err(e) => assert!(e.starts_with("Failed to parse server config: ")),
        _ => panic!("expected a parse error"),
    }
    match server_config_from_text(r#"{"ServerDescription_Persistent": 5}"#) {
        Err(e) => assert_eq!(e, "ServerDescription_Persistent must be an object"),
        _ => panic!("expected a section error"),
    }
    match server_config_from_text(r#"{"server_name": "Plain", "max_players": 4, "port": 1}"#) {
        Ok(ParsedConfig::Plain(v)) => assert_eq!(v["server_name"], "Plain"),
        _ => panic!("expected the plain value"),
    }
}

#[test]
fn world_description_text_is_read() {
    match world_config_from_text(r#"{"WorldDescription": {"WorldName": "Reef", "islandId": "42"}}"#) {
        Ok(ParsedConfig::Described(w)) => {
            assert_eq!(w.world_name, "Reef");
            assert_eq!(w.seed, Some("42".to_string()));
        }
        _ => panic!("expected a described world"),
    }
    match world_config_from_text(r#"{"WorldDescription": {}}"#) {
        Ok(ParsedConfig::Described(w)) => {
            assert_eq!(w.world_name, "Windrose World");
            assert_eq!(w.seed, None);
        }
        _ => panic!("expected a described world"),
    }
    match world_config_from_text(r#"{"WorldDescription": []}"#) {
        Err(e) => assert_eq!(e, "WorldDescription must be an object"),
        _ => panic!("expected a section error"),
    }
    match world_config_from_text("not json") {
        Err(e) => assert!(e.starts_with("Failed to parse world config: ")),
        _ => panic!("expected a parse error"),
    }
    assert!(matches!(world_config_from_text(r#"{"world_name": "W"}"#), Ok(ParsedConfig::Plain(_))));
}
